//! The element-type codec: a closed set of numeric kinds, each identified by
//! a fixed one-byte wire tag.
//!
//! The tag assignment is part of the wire format and must never be
//! renumbered: 0 = 32-bit float, 1 = 32-bit complex float, 2 = 64-bit float,
//! 3 = 64-bit complex float, 4 = boolean, 5 = signed 32-bit integer,
//! 6 = unsigned 32-bit integer, 8 = signed 64-bit integer, 9 = unsigned
//! 64-bit integer, 10 = signed 16-bit integer, 11 = unsigned 16-bit integer.
//! The complex kinds exist in the enumeration and on the wire, but the
//! tensor codec rejects them; every other tag value is unknown and is
//! rejected on read, never reinterpreted.

use vstd::prelude::*;

use crate::error::CodecError;

verus! {

/// The scalar kind of a tensor's elements.
#[derive(Clone, Copy, Debug, PartialEq, Eq, Structural)]
pub enum ElementType {
    /// 32-bit IEEE-754 float.
    F32,
    /// 32-bit complex float (known, but unsupported by the tensor codec).
    C32,
    /// 64-bit IEEE-754 float.
    F64,
    /// 64-bit complex float (known, but unsupported by the tensor codec).
    C64,
    /// Boolean.
    B8,
    /// Signed 32-bit integer.
    S32,
    /// Unsigned 32-bit integer.
    U32,
    /// Signed 64-bit integer.
    S64,
    /// Unsigned 64-bit integer.
    U64,
    /// Signed 16-bit integer.
    S16,
    /// Unsigned 16-bit integer.
    U16,
}

impl ElementType {
    /// The wire tag of this kind.
    pub open spec fn tag(self) -> u8 {
        match self {
            ElementType::F32 => 0,
            ElementType::C32 => 1,
            ElementType::F64 => 2,
            ElementType::C64 => 3,
            ElementType::B8 => 4,
            ElementType::S32 => 5,
            ElementType::U32 => 6,
            ElementType::S64 => 8,
            ElementType::U64 => 9,
            ElementType::S16 => 10,
            ElementType::U16 => 11,
        }
    }

    /// The kind a wire tag denotes, or `None` when the tag is outside the
    /// closed set.
    pub open spec fn from_tag(tag: u64) -> Option<ElementType> {
        if tag == 0 {
            Some(ElementType::F32)
        } else if tag == 1 {
            Some(ElementType::C32)
        } else if tag == 2 {
            Some(ElementType::F64)
        } else if tag == 3 {
            Some(ElementType::C64)
        } else if tag == 4 {
            Some(ElementType::B8)
        } else if tag == 5 {
            Some(ElementType::S32)
        } else if tag == 6 {
            Some(ElementType::U32)
        } else if tag == 8 {
            Some(ElementType::S64)
        } else if tag == 9 {
            Some(ElementType::U64)
        } else if tag == 10 {
            Some(ElementType::S16)
        } else if tag == 11 {
            Some(ElementType::U16)
        } else {
            None
        }
    }

    /// Whether this kind is one of the complex-number kinds, which the
    /// tensor codec knows but does not support.
    pub open spec fn spec_is_complex(&self) -> bool {
        self is C32 || self is C64
    }

    /// Executable twin of [`Self::spec_is_complex`].
    #[verifier::when_used_as_spec(spec_is_complex)]
    pub fn is_complex(&self) -> (r: bool)
        ensures
            r == self.spec_is_complex(),
    {
        match self {
            ElementType::C32 => true,
            ElementType::C64 => true,
            _ => false,
        }
    }

    /// Encodes this kind as its single-byte wire tag. Encoding never fails.
    pub fn encode(&self) -> (r: u8)
        ensures
            r == self.tag(),
    {
        match self {
            ElementType::F32 => 0,
            ElementType::C32 => 1,
            ElementType::F64 => 2,
            ElementType::C64 => 3,
            ElementType::B8 => 4,
            ElementType::S32 => 5,
            ElementType::U32 => 6,
            ElementType::S64 => 8,
            ElementType::U64 => 9,
            ElementType::S16 => 10,
            ElementType::U16 => 11,
        }
    }

    /// Decodes a wire tag back to its kind.
    ///
    /// The tag is taken as a 64-bit value so that both a one-byte and a
    /// wider unsigned wire representation can be handed in unchanged. A tag
    /// outside the closed set fails with `UnknownElementTypeError`; no tag
    /// is ever reinterpreted without this bounds check.
    pub fn decode(tag: u64) -> (r: Result<ElementType, CodecError>)
        ensures
            match r {
                Ok(e) => Self::from_tag(tag) == Some(e),
                Err(err) => Self::from_tag(tag) is None && err
                    == CodecError::UnknownElementTypeError,
            },
    {
        match tag {
            0 => Ok(ElementType::F32),
            1 => Ok(ElementType::C32),
            2 => Ok(ElementType::F64),
            3 => Ok(ElementType::C64),
            4 => Ok(ElementType::B8),
            5 => Ok(ElementType::S32),
            6 => Ok(ElementType::U32),
            8 => Ok(ElementType::S64),
            9 => Ok(ElementType::U64),
            10 => Ok(ElementType::S16),
            11 => Ok(ElementType::U16),
            _ => Err(CodecError::UnknownElementTypeError),
        }
    }
}

/// The element-type codec is a bijection between the closed set of kinds and
/// their wire tags: decoding inverts encoding on every kind, encoding
/// inverts decoding on every tag that decodes at all, and every tag outside
/// the closed set is rejected.
pub proof fn lemma_element_type_codec_bijective()
    ensures
        forall|e: ElementType| ElementType::from_tag(#[trigger] e.tag() as u64) == Some(e),
        forall|t: u64|
            #[trigger] ElementType::from_tag(t) matches Some(e) ==> e.tag() == t,
        forall|t: u64|
            ElementType::from_tag(t) is None <==> !(t == 0 || t == 1 || t == 2 || t == 3 || t == 4
                || t == 5 || t == 6 || t == 8 || t == 9 || t == 10 || t == 11),
{
}

} // verus!
