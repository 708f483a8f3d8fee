use arrayfire_serde::{De, ElementType, Elements, Ser, Shape, Tensor};

#[test]
fn ser_wraps_a_borrowed_value() {
    let shape = Shape::new([4, 3, 2, 1]);
    let wrapper = Ser::new(&shape);
    assert_eq!(wrapper.get(), &shape);

    let dtype = ElementType::S16;
    assert_eq!(Ser::new(&dtype).get(), &dtype);
}

#[test]
fn de_hands_back_the_owned_value() {
    let tensor = Tensor::new(Elements::B8(vec![true]), Shape::new([1, 1, 1, 1])).unwrap();
    let expected = Tensor::new(Elements::B8(vec![true]), Shape::new([1, 1, 1, 1])).unwrap();
    let wrapper = De::new(tensor);
    assert_eq!(wrapper.into_inner(), expected);

    assert_eq!(De::new(ElementType::U32).into_inner(), ElementType::U32);
}
