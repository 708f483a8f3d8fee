//! A typed binary codec for multi-dimensional numeric tensors.
//!
//! A tensor is described by three facets: an element type (a closed set of
//! numeric kinds, each with a fixed one-byte wire tag), a shape (four axis
//! extents), and a flat buffer of elements staged on the host. The codec
//! turns such a value into a self-describing ordered record — element-type
//! tag, shape tuple, element sequence — and back, validating every field on
//! the way in. Framing (tuples, sequences) is supplied by whatever
//! structured-serialization framework carries the record; this crate defines
//! the field order, the field types, and the validation rules.

pub mod adapter;
pub mod codec;
pub mod element_type;
pub mod error;
pub mod shape;
pub mod tensor;

pub use adapter::De;
pub use adapter::Ser;
pub use codec::TensorRecord;
pub use codec::decode_tensor;
pub use codec::encode_tensor;
pub use element_type::ElementType;
pub use error::CodecError;
pub use shape::Shape;
pub use tensor::Elements;
pub use tensor::Tensor;
