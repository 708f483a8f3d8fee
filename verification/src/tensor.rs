//! The tensor data model: a typed flat element buffer staged on the host,
//! together with a shape.
//!
//! The buffer's concrete representation is chosen by the element type. The
//! two floating-point kinds are held as their IEEE-754 bit patterns
//! (unsigned 32- and 64-bit integers), which keeps every round trip
//! bit-exact; the complex kinds hold (real, imaginary) bit-pattern pairs so
//! that a complex tensor can exist as a value even though the codec refuses
//! to transcode one.

use vstd::prelude::*;

use crate::element_type::ElementType;
use crate::error::CodecError;
use crate::shape::Shape;
use crate::shape::shape_element_count;

verus! {

/// A flat element buffer, typed by the element kind it holds.
///
/// The float kinds carry IEEE-754 bit patterns; the complex kinds carry
/// (real, imaginary) bit-pattern pairs.
#[derive(Debug, PartialEq)]
pub enum Elements {
    /// 32-bit float bit patterns.
    F32(Vec<u32>),
    /// 32-bit complex float bit-pattern pairs.
    C32(Vec<(u32, u32)>),
    /// 64-bit float bit patterns.
    F64(Vec<u64>),
    /// 64-bit complex float bit-pattern pairs.
    C64(Vec<(u64, u64)>),
    /// Booleans.
    B8(Vec<bool>),
    /// Signed 32-bit integers.
    S32(Vec<i32>),
    /// Unsigned 32-bit integers.
    U32(Vec<u32>),
    /// Signed 64-bit integers.
    S64(Vec<i64>),
    /// Unsigned 64-bit integers.
    U64(Vec<u64>),
    /// Signed 16-bit integers.
    S16(Vec<i16>),
    /// Unsigned 16-bit integers.
    U16(Vec<u16>),
}

/// The mathematical value of an element buffer: the same choice of kind,
/// over sequences instead of vectors.
pub enum ElementsView {
    /// 32-bit float bit patterns.
    F32(Seq<u32>),
    /// 32-bit complex float bit-pattern pairs.
    C32(Seq<(u32, u32)>),
    /// 64-bit float bit patterns.
    F64(Seq<u64>),
    /// 64-bit complex float bit-pattern pairs.
    C64(Seq<(u64, u64)>),
    /// Booleans.
    B8(Seq<bool>),
    /// Signed 32-bit integers.
    S32(Seq<i32>),
    /// Unsigned 32-bit integers.
    U32(Seq<u32>),
    /// Signed 64-bit integers.
    S64(Seq<i64>),
    /// Unsigned 64-bit integers.
    U64(Seq<u64>),
    /// Signed 16-bit integers.
    S16(Seq<i16>),
    /// Unsigned 16-bit integers.
    U16(Seq<u16>),
}

impl ElementsView {
    /// The element kind this buffer holds.
    pub open spec fn element_type(self) -> ElementType {
        match self {
            ElementsView::F32(_) => ElementType::F32,
            ElementsView::C32(_) => ElementType::C32,
            ElementsView::F64(_) => ElementType::F64,
            ElementsView::C64(_) => ElementType::C64,
            ElementsView::B8(_) => ElementType::B8,
            ElementsView::S32(_) => ElementType::S32,
            ElementsView::U32(_) => ElementType::U32,
            ElementsView::S64(_) => ElementType::S64,
            ElementsView::U64(_) => ElementType::U64,
            ElementsView::S16(_) => ElementType::S16,
            ElementsView::U16(_) => ElementType::U16,
        }
    }

    /// The number of elements in the buffer.
    pub open spec fn len(self) -> nat {
        match self {
            ElementsView::F32(s) => s.len(),
            ElementsView::C32(s) => s.len(),
            ElementsView::F64(s) => s.len(),
            ElementsView::C64(s) => s.len(),
            ElementsView::B8(s) => s.len(),
            ElementsView::S32(s) => s.len(),
            ElementsView::U32(s) => s.len(),
            ElementsView::S64(s) => s.len(),
            ElementsView::U64(s) => s.len(),
            ElementsView::S16(s) => s.len(),
            ElementsView::U16(s) => s.len(),
        }
    }
}

impl View for Elements {
    type V = ElementsView;

    open spec fn view(&self) -> ElementsView {
        match self {
            Elements::F32(v) => ElementsView::F32(v@),
            Elements::C32(v) => ElementsView::C32(v@),
            Elements::F64(v) => ElementsView::F64(v@),
            Elements::C64(v) => ElementsView::C64(v@),
            Elements::B8(v) => ElementsView::B8(v@),
            Elements::S32(v) => ElementsView::S32(v@),
            Elements::U32(v) => ElementsView::U32(v@),
            Elements::S64(v) => ElementsView::S64(v@),
            Elements::U64(v) => ElementsView::U64(v@),
            Elements::S16(v) => ElementsView::S16(v@),
            Elements::U16(v) => ElementsView::U16(v@),
        }
    }
}

impl Elements {
    /// The element kind this buffer holds.
    pub fn element_type(&self) -> (r: ElementType)
        ensures
            r == self@.element_type(),
    {
        match self {
            Elements::F32(_) => ElementType::F32,
            Elements::C32(_) => ElementType::C32,
            Elements::F64(_) => ElementType::F64,
            Elements::C64(_) => ElementType::C64,
            Elements::B8(_) => ElementType::B8,
            Elements::S32(_) => ElementType::S32,
            Elements::U32(_) => ElementType::U32,
            Elements::S64(_) => ElementType::S64,
            Elements::U64(_) => ElementType::U64,
            Elements::S16(_) => ElementType::S16,
            Elements::U16(_) => ElementType::U16,
        }
    }

    /// The number of elements in the buffer.
    pub fn len(&self) -> (r: usize)
        ensures
            r == self@.len(),
    {
        match self {
            Elements::F32(v) => v.len(),
            Elements::C32(v) => v.len(),
            Elements::F64(v) => v.len(),
            Elements::C64(v) => v.len(),
            Elements::B8(v) => v.len(),
            Elements::S32(v) => v.len(),
            Elements::U32(v) => v.len(),
            Elements::S64(v) => v.len(),
            Elements::U64(v) => v.len(),
            Elements::S16(v) => v.len(),
            Elements::U16(v) => v.len(),
        }
    }

    /// Copies the buffer, element for element.
    pub fn duplicate(&self) -> (r: Elements)
        ensures
            r@ == self@,
    {
        match self {
            Elements::F32(v) => Elements::F32(copy_vec(v)),
            Elements::C32(v) => Elements::C32(copy_vec(v)),
            Elements::F64(v) => Elements::F64(copy_vec(v)),
            Elements::C64(v) => Elements::C64(copy_vec(v)),
            Elements::B8(v) => Elements::B8(copy_vec(v)),
            Elements::S32(v) => Elements::S32(copy_vec(v)),
            Elements::U32(v) => Elements::U32(copy_vec(v)),
            Elements::S64(v) => Elements::S64(copy_vec(v)),
            Elements::U64(v) => Elements::U64(copy_vec(v)),
            Elements::S16(v) => Elements::S16(copy_vec(v)),
            Elements::U16(v) => Elements::U16(copy_vec(v)),
        }
    }
}

/// Copies a vector of plain values, element for element.
fn copy_vec<T: Copy>(v: &Vec<T>) -> (r: Vec<T>)
    ensures
        r@ == v@,
{
    let mut out: Vec<T> = Vec::new();
    let mut i: usize = 0;
    proof {
        assert(out@ =~= v@.subrange(0, 0));
    }
    while i < v.len()
        invariant
            i <= v.len(),
            out@ == v@.subrange(0, i as int),
        decreases v.len() - i,
    {
        out.push(v[i]);
        i = i + 1;
        proof {
            assert(out@ =~= v@.subrange(0, i as int));
        }
    }
    proof {
        assert(out@ =~= v@);
    }
    out
}

/// The mathematical value of a tensor: its shape's extents and its typed
/// element buffer. The element type is the buffer's kind.
pub struct TensorView {
    /// The four axis extents.
    pub shape: Seq<u64>,
    /// The typed element buffer.
    pub data: ElementsView,
}

impl TensorView {
    /// The kind of the tensor's elements.
    pub open spec fn element_type(self) -> ElementType {
        self.data.element_type()
    }

    /// A tensor is well formed when its shape has its four slots and the
    /// buffer holds exactly the number of elements the shape calls for.
    pub open spec fn wf(self) -> bool {
        self.shape.len() == 4 && self.data.len() == shape_element_count(self.shape)
    }
}

/// A typed, shaped value whose flat element buffer is staged on the host.
#[derive(Debug, PartialEq)]
pub struct Tensor {
    shape: Shape,
    data: Elements,
}

impl View for Tensor {
    type V = TensorView;

    closed spec fn view(&self) -> TensorView {
        TensorView { shape: self.shape@, data: self.data@ }
    }
}

impl Tensor {
    /// Builds a tensor from a host buffer and a shape, as the owning engine
    /// would: the buffer must hold exactly the number of elements the shape
    /// calls for, and a mismatch fails with `FormatError`.
    pub fn new(data: Elements, shape: Shape) -> (r: Result<Tensor, CodecError>)
        ensures
            match r {
                Ok(t) => t@ == (TensorView { shape: shape@, data: data@ }) && t@.wf(),
                Err(e) => data@.len() != shape_element_count(shape@) && e
                    == CodecError::FormatError,
            },
    {
        proof {
            shape.lemma_four_slots();
        }
        let n = data.len();
        let count = match shape.checked_element_count() {
            Some(c) => c,
            None => {
                proof {
                    assert(n <= usize::MAX);
                    assert(data@.len() <= u64::MAX);
                }
                return Err(CodecError::FormatError);
            },
        };
        if n as u64 != count {
            return Err(CodecError::FormatError);
        }
        Ok(Tensor { shape, data })
    }

    /// The tensor's shape.
    pub fn dims(&self) -> (r: Shape)
        ensures
            r@ == self@.shape,
    {
        self.shape
    }

    /// The kind of the tensor's elements.
    pub fn element_type(&self) -> (r: ElementType)
        ensures
            r == self@.element_type(),
    {
        self.data.element_type()
    }

    /// The number of elements in the tensor's buffer.
    pub fn elements(&self) -> (r: u64)
        ensures
            r == self@.data.len(),
    {
        self.data.len() as u64
    }

    /// The tensor's host element buffer.
    pub fn data(&self) -> (r: &Elements)
        ensures
            r@ == self@.data,
    {
        &self.data
    }
}

} // verus!
