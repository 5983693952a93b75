use ort_genai::element_type::ElementType;
use ort_genai::error::Error;

#[test]
fn test_element_type() {
    let t = ElementType::from_native(1);
    assert_eq!(t, ElementType::Float32);
    let oga_t: u32 = ElementType::Float32.into();
    assert_eq!(oga_t, 1);
}

#[test]
fn test_error() {
    let err = Error::NulError;
    assert_eq!(err.to_string(), "Null found in parameter!");
}

#[test]
fn test_string_array() {
}
