use ort_genai::element_type::{element_type_of_code, ElementType, TensorElement, NATIVE_ELEMENT_TYPE_COUNT};
use ort_genai::error::Error;
use ort_genai::tensor::{check_element_type, check_matching_element_type, check_tensor_data, tensor_element_count};

#[test]
fn native_codes_round_trip() {
    for code in 0..NATIVE_ELEMENT_TYPE_COUNT {
        let t = ElementType::from_native(code);
        assert_eq!(t.to_native(), code);
        assert_eq!(ElementType::from_native(t.to_native()), t);
    }
    assert_eq!(ElementType::from_native(0), ElementType::Undefined);
    assert_eq!(ElementType::from_native(8), ElementType::String);
    assert_eq!(ElementType::from_native(16), ElementType::BFloat16);
    assert_eq!(u32::from(ElementType::Int64), 7);
    let _ = element_type_of_code;
}

#[test]
fn rust_types_map_to_element_types() {
    assert_eq!(<i8 as TensorElement>::element_type(), ElementType::Int8);
    assert_eq!(<i32 as TensorElement>::element_type(), ElementType::Int32);
    assert_eq!(<i64 as TensorElement>::element_type(), ElementType::Int64);
    assert_eq!(<u8 as TensorElement>::element_type(), ElementType::UInt8);
    assert_eq!(<u16 as TensorElement>::element_type(), ElementType::UInt16);
    assert_eq!(<u32 as TensorElement>::element_type(), ElementType::UInt32);
    assert_eq!(<u64 as TensorElement>::element_type(), ElementType::UInt64);
    assert_eq!(<i16 as TensorElement>::element_type(), ElementType::Int16);
    assert_eq!(<bool as TensorElement>::element_type(), ElementType::Bool);
}

#[test]
fn element_counts() {
    assert_eq!(tensor_element_count(&[2, 2]).unwrap(), 4);
    assert_eq!(tensor_element_count(&[1, 20, 30]).unwrap(), 600);
    assert_eq!(tensor_element_count(&[]).unwrap(), 1);
    assert_eq!(tensor_element_count(&[3, 0, 5]).unwrap(), 0);
    assert!(matches!(tensor_element_count(&[2, -1]), Err(Error::InvalidTensorShape)));
    assert!(matches!(
        tensor_element_count(&[i64::MAX, i64::MAX, 0]),
        Err(Error::InvalidTensorShape)
    ));
}

#[test]
fn element_type_check() {
    assert!(check_element_type::<i32>(ElementType::Int32).is_ok());
    assert!(matches!(
        check_element_type::<i32>(ElementType::Float32),
        Err(Error::TensorTypeMismatch)
    ));
}

#[test]
fn data_pointer_check() {
    assert_eq!(check_tensor_data(4, false).unwrap(), 4);
    assert_eq!(check_tensor_data(0, true).unwrap(), 0);
    assert!(matches!(check_tensor_data(4, true), Err(Error::NulError)));
}

#[test]
fn matching_element_types() {
    assert!(check_matching_element_type(ElementType::Float32, ElementType::Float32).is_ok());
    assert!(matches!(
        check_matching_element_type(ElementType::Float16, ElementType::BFloat16),
        Err(Error::TensorTypeMismatch)
    ));
}

fn reads_back<T: TensorElement>() -> bool {
    ElementType::from_native(T::element_type().to_native()) == T::element_type()
}

#[test]
fn tensor_element_codes_read_back() {
    assert!(reads_back::<i8>() && reads_back::<i16>() && reads_back::<i32>() && reads_back::<i64>());
    assert!(reads_back::<u8>() && reads_back::<u16>() && reads_back::<u32>() && reads_back::<u64>());
    assert!(reads_back::<bool>());
}
