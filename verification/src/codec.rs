//! The tensor codec: a tensor becomes a three-field ordered record —
//! element-type tag, shape extents, flat element sequence — and comes back
//! from one.
//!
//! The record carries no independent type marker on its element sequence:
//! the tag decides how the sequence is to be read, so decoding reads the
//! fields in strict order and dispatches on the already-decoded tag. Every
//! failure is a typed error; no input panics the codec or reinterprets
//! memory.

use vstd::prelude::*;

use crate::element_type::ElementType;
use crate::error::CodecError;
use crate::shape::Shape;
use crate::shape::shape_element_count;
use crate::tensor::Elements;
use crate::tensor::ElementsView;
use crate::tensor::Tensor;
use crate::tensor::TensorView;

verus! {

/// The wire form of a tensor: the three record fields, in wire order.
///
/// Field framing (the outer three-slot record, the four-slot extent run,
/// the element sequence) is supplied by the host serialization framework;
/// this type fixes the order and the types of the fields.
#[derive(Debug, PartialEq)]
pub struct TensorRecord {
    /// First field: the element-type tag, one unsigned byte.
    pub tag: u8,
    /// Second field: the axis extents, in axis order.
    pub dims: Vec<u64>,
    /// Third field: the flat element sequence, typed by the tag.
    pub data: Elements,
}

/// The mathematical value of a wire record.
pub struct RecordView {
    /// The element-type tag.
    pub tag: u8,
    /// The axis extents.
    pub dims: Seq<u64>,
    /// The typed element sequence.
    pub data: ElementsView,
}

impl View for TensorRecord {
    type V = RecordView;

    open spec fn view(&self) -> RecordView {
        RecordView { tag: self.tag, dims: self.dims@, data: self.data@ }
    }
}

/// The record a supported tensor encodes to: its element kind's tag, its
/// extents, and its element buffer, unchanged.
pub open spec fn spec_encode_tensor(t: TensorView) -> RecordView {
    RecordView { tag: t.element_type().tag(), dims: t.shape, data: t.data }
}

/// What decoding a wire record yields, field by field in wire order: an
/// unknown tag fails with `UnknownElementTypeError`; extents of the wrong
/// arity fail with `FormatError`; a tag denoting a complex kind fails with
/// `UnsupportedTypeError`; an element sequence whose kind is not the tag's,
/// or whose length is not the product of the extents, fails with
/// `FormatError`; everything else yields the tensor the record describes.
pub open spec fn spec_decode_tensor(r: RecordView) -> Result<TensorView, CodecError> {
    match ElementType::from_tag(r.tag as u64) {
        Option::None => Err(CodecError::UnknownElementTypeError),
        Option::Some(et) => if r.dims.len() != 4 {
            Err(CodecError::FormatError)
        } else if et.spec_is_complex() {
            Err(CodecError::UnsupportedTypeError)
        } else if r.data.element_type() != et {
            Err(CodecError::FormatError)
        } else if r.data.len() != shape_element_count(r.dims) {
            Err(CodecError::FormatError)
        } else {
            Ok(TensorView { shape: r.dims, data: r.data })
        },
    }
}

/// Encodes a tensor as its wire record: element-type tag, then shape
/// extents, then the full element buffer, copied out of the tensor.
///
/// Fails with `UnsupportedTypeError` exactly when the tensor's element
/// kind is complex; every other tensor encodes.
pub fn encode_tensor(t: &Tensor) -> (r: Result<TensorRecord, CodecError>)
    ensures
        match r {
            Ok(rec) => !t@.element_type().spec_is_complex() && rec@ == spec_encode_tensor(t@),
            Err(e) => t@.element_type().spec_is_complex() && e == CodecError::UnsupportedTypeError,
        },
{
    let et = t.element_type();
    if et.is_complex() {
        return Err(CodecError::UnsupportedTypeError);
    }
    let rec = TensorRecord { tag: et.encode(), dims: t.dims().encode(), data: t.data().duplicate() };
    Ok(rec)
}

/// Decodes a wire record back to a tensor, reading the fields in strict
/// order: the tag first, then the extents, then — dispatched on the decoded
/// tag — the element sequence, which must be of the tag's kind and of the
/// length the extents call for. The rebuilt tensor owns the record's
/// element buffer; the record is consumed.
pub fn decode_tensor(rec: TensorRecord) -> (r: Result<Tensor, CodecError>)
    ensures
        match r {
            Ok(t) => t@.wf() && spec_decode_tensor(rec@) == Ok::<TensorView, CodecError>(t@),
            Err(e) => spec_decode_tensor(rec@) == Err::<TensorView, CodecError>(e),
        },
{
    let et = match ElementType::decode(rec.tag as u64) {
        Ok(e) => e,
        Err(e) => {
            return Err(e);
        },
    };
    let shape = match Shape::decode(rec.dims.as_slice()) {
        Ok(s) => s,
        Err(e) => {
            return Err(e);
        },
    };
    if et.is_complex() {
        return Err(CodecError::UnsupportedTypeError);
    }
    if rec.data.element_type() != et {
        return Err(CodecError::FormatError);
    }
    match Tensor::new(rec.data, shape) {
        Ok(t) => Ok(t),
        Err(e) => Err(e),
    }
}

/// Round trip: every well-formed tensor of a supported element kind comes
/// back from its own record unchanged — same element kind, same extents,
/// and the same elements, bit for bit.
pub proof fn lemma_tensor_round_trip(t: TensorView)
    requires
        t.wf(),
        !t.element_type().spec_is_complex(),
    ensures
        spec_decode_tensor(spec_encode_tensor(t)) == Ok::<TensorView, CodecError>(t),
{
    crate::element_type::lemma_element_type_codec_bijective();
}

/// Length policing: a record whose tag denotes a supported kind and whose
/// extents are well formed, but whose element-sequence length is not the
/// product of the extents, never decodes — it fails with `FormatError`.
pub proof fn lemma_decode_rejects_wrong_length(r: RecordView)
    requires
        ElementType::from_tag(r.tag as u64) matches Some(et) && !et.spec_is_complex(),
        r.dims.len() == 4,
        r.data.len() != shape_element_count(r.dims),
    ensures
        spec_decode_tensor(r) == Err::<TensorView, CodecError>(CodecError::FormatError),
{
}

} // verus!
