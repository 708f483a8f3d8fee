use arrayfire_serde::{
    decode_tensor, encode_tensor, CodecError, ElementType, Elements, Shape, Tensor, TensorRecord,
};

#[test]
fn unknown_tags_are_rejected() {
    for tag in [7u64, 12, 13, 255, 256, 1 << 33, u64::MAX] {
        assert_eq!(ElementType::decode(tag), Err(CodecError::UnknownElementTypeError));
    }
}

#[test]
fn decode_unknown_tag_fails() {
    let record = TensorRecord { tag: 7, dims: vec![1, 1, 1, 1], data: Elements::U64(vec![3]) };
    assert_eq!(decode_tensor(record), Err(CodecError::UnknownElementTypeError));
}

#[test]
fn encode_complex_fails_with_typed_error() {
    let data = Elements::C64(vec![(1.0f64.to_bits(), 0.0f64.to_bits())]);
    let tensor = Tensor::new(data, Shape::new([1, 1, 1, 1])).unwrap();
    assert_eq!(encode_tensor(&tensor), Err(CodecError::UnsupportedTypeError));

    let data = Elements::C32(vec![(0.5f32.to_bits(), 2.0f32.to_bits())]);
    let tensor = Tensor::new(data, Shape::new([1, 1, 1, 1])).unwrap();
    assert_eq!(encode_tensor(&tensor), Err(CodecError::UnsupportedTypeError));
}

#[test]
fn decode_complex_tag_fails_with_typed_error() {
    let record = TensorRecord { tag: 1, dims: vec![1, 1, 1, 1], data: Elements::C32(vec![(0, 0)]) };
    assert_eq!(decode_tensor(record), Err(CodecError::UnsupportedTypeError));

    let record = TensorRecord { tag: 3, dims: vec![1, 1, 1, 1], data: Elements::C64(vec![(0, 0)]) };
    assert_eq!(decode_tensor(record), Err(CodecError::UnsupportedTypeError));
}

#[test]
fn decode_wrong_element_count_fails() {
    let record =
        TensorRecord { tag: 5, dims: vec![2, 2, 1, 1], data: Elements::S32(vec![1, 2, 3]) };
    assert_eq!(decode_tensor(record), Err(CodecError::FormatError));
}

#[test]
fn decode_mistyped_element_sequence_fails() {
    let record = TensorRecord { tag: 0, dims: vec![2, 1, 1, 1], data: Elements::S32(vec![1, 2]) };
    assert_eq!(decode_tensor(record), Err(CodecError::FormatError));
}

#[test]
fn decode_wrong_shape_arity_fails() {
    let record = TensorRecord { tag: 2, dims: vec![2, 2], data: Elements::F64(vec![0; 4]) };
    assert_eq!(decode_tensor(record), Err(CodecError::FormatError));

    let record = TensorRecord { tag: 2, dims: vec![2, 2, 1, 1, 1], data: Elements::F64(vec![0; 4]) };
    assert_eq!(decode_tensor(record), Err(CodecError::FormatError));
}

#[test]
fn decode_overflowing_shape_fails() {
    let record = TensorRecord {
        tag: 9,
        dims: vec![u64::MAX, u64::MAX, 1, 1],
        data: Elements::U64(vec![1, 2]),
    };
    assert_eq!(decode_tensor(record), Err(CodecError::FormatError));
}

#[test]
fn shape_decode_wrong_arity_fails() {
    assert_eq!(Shape::decode(&[]), Err(CodecError::FormatError));
    assert_eq!(Shape::decode(&[1, 2, 3]), Err(CodecError::FormatError));
    assert_eq!(Shape::decode(&[1, 2, 3, 4, 5]), Err(CodecError::FormatError));
}

#[test]
fn tensor_new_checks_element_count() {
    let mismatch = Tensor::new(Elements::U16(vec![1, 2, 3]), Shape::new([2, 2, 1, 1]));
    assert_eq!(mismatch.unwrap_err(), CodecError::FormatError);

    let overflow = Tensor::new(Elements::U16(vec![1, 2, 3]), Shape::new([u64::MAX, 2, 1, 1]));
    assert_eq!(overflow.unwrap_err(), CodecError::FormatError);
}

#[test]
fn error_messages_are_distinct() {
    let messages = [
        CodecError::FormatError.message(),
        CodecError::UnknownElementTypeError.message(),
        CodecError::UnsupportedTypeError.message(),
    ];
    assert_eq!(messages[0], "malformed record");
    assert_eq!(messages[1], "unknown element type tag");
    assert_eq!(messages[2], "unsupported element type");
    assert_ne!(messages[0], messages[1]);
    assert_ne!(messages[1], messages[2]);
    assert_ne!(messages[0], messages[2]);
}
