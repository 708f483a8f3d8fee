use arrayfire_serde::{decode_tensor, encode_tensor, ElementType, Elements, Shape, Tensor};

#[test]
fn test_dim4() {
    let dim = Shape::new([1, 2, 3, 4]);
    let encoded = dim.encode();
    assert_eq!(encoded, vec![1u64, 2, 3, 4]);
    let decoded = Shape::decode(&encoded).unwrap();
    assert_eq!(decoded.get(), dim.get());
}

#[test]
fn test_dtype() {
    let dtype = ElementType::F64;
    assert_eq!(dtype.encode(), 2u8);
    let decoded = ElementType::decode(2).unwrap();
    assert_eq!(decoded, dtype);
}

#[test]
fn test_array() {
    let dim = Shape::new([2, 2, 1, 1]);
    let values: [f64; 4] = [1.0, 2.0, 3.0, 4.0];
    let bits: Vec<u64> = values.iter().map(|v| v.to_bits()).collect();
    let array = Tensor::new(Elements::F64(bits), dim).unwrap();

    let record = encode_tensor(&array).unwrap();
    assert_eq!(record.tag, 2u8);
    assert_eq!(record.dims, vec![2u64, 2, 1, 1]);
    assert_eq!(
        record.data,
        Elements::F64(vec![
            1.0f64.to_bits(),
            2.0f64.to_bits(),
            3.0f64.to_bits(),
            4.0f64.to_bits()
        ])
    );

    let de_array = decode_tensor(record).unwrap();
    assert_eq!(array.element_type(), de_array.element_type());
    assert_eq!(array.dims().get(), de_array.dims().get());
    assert_eq!(array.data(), de_array.data());
}
