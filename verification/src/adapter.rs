//! The adapter layer: two zero-state wrapper types that attach codec
//! behavior to a value for exactly one serialization or deserialization
//! call.
//!
//! `Ser` borrows a value to drive its encoding; `De` owns a freshly decoded
//! value until the caller unwraps it. Neither carries any state of its own
//! beyond the wrapped value, and neither is reused across calls.

use vstd::prelude::*;

verus! {

/// Borrowing wrapper: holds a reference to the value whose encoding is
/// being driven.
pub struct Ser<'a, T>(&'a T);

impl<'a, T> Ser<'a, T> {
    /// The wrapped reference.
    pub closed spec fn inner(self) -> &'a T {
        self.0
    }

    /// Wraps a borrowed value for one serialization call.
    pub fn new(value: &'a T) -> (s: Self)
        ensures
            s.inner() == value,
    {
        Ser(value)
    }

    /// The wrapped value, for the encoder to read.
    pub fn get(&self) -> (r: &'a T)
        ensures
            r == self.inner(),
    {
        self.0
    }
}

/// Owning wrapper: holds a freshly decoded value until it is unwrapped.
pub struct De<T>(T);

impl<T> De<T> {
    /// The wrapped value.
    pub closed spec fn inner(self) -> T {
        self.0
    }

    /// Wraps a decoded value for the caller to unwrap.
    pub fn new(value: T) -> (d: Self)
        ensures
            d.inner() == value,
    {
        De(value)
    }

    /// Unwraps the decoded value, consuming the wrapper.
    pub fn into_inner(self) -> (r: T)
        ensures
            r == self.inner(),
    {
        self.0
    }
}

} // verus!
