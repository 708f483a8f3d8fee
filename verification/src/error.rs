//! The codec's error taxonomy.

use vstd::prelude::*;

verus! {

/// Everything that can go wrong while encoding or decoding a record.
///
/// All three variants are recoverable by the caller; no codec operation
/// panics or aborts the process.
#[derive(Clone, Copy, Debug, PartialEq, Eq, Structural)]
pub enum CodecError {
    /// The wire record is malformed: a field is short, has the wrong arity,
    /// or carries an element sequence that does not fit the announced
    /// element type and shape.
    FormatError,
    /// The element-type tag is outside the closed set of known tags.
    UnknownElementTypeError,
    /// The element type is known but the codec does not support it
    /// (the complex-number kinds).
    UnsupportedTypeError,
}

impl CodecError {
    /// A short description of the failure, one distinct text per variant.
    pub fn message(&self) -> (r: &'static str)
        ensures
            self is FormatError ==> r@ == "malformed record"@,
            self is UnknownElementTypeError ==> r@ == "unknown element type tag"@,
            self is UnsupportedTypeError ==> r@ == "unsupported element type"@,
    {
        proof {
            reveal_strlit("malformed record");
            reveal_strlit("unknown element type tag");
            reveal_strlit("unsupported element type");
        }
        match self {
            CodecError::FormatError => "malformed record",
            CodecError::UnknownElementTypeError => "unknown element type tag",
            CodecError::UnsupportedTypeError => "unsupported element type",
        }
    }
}

} // verus!
