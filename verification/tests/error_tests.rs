use ort_genai::error::{Error, NativeStatus, OgaResultExt};

#[test]
fn messages_of_each_error() {
    assert_eq!(
        Error::OgaError("model not found".to_string()).to_string(),
        "onnxruntime-genai error: model not found"
    );
    assert_eq!(
        Error::TensorTypeMismatch.to_string(),
        "tensor element type does not match the requested Rust type"
    );
    assert_eq!(Error::InvalidTensorShape.to_string(), "invalid tensor shape");
    let bad = std::str::from_utf8(&[0x61, 0xff]).unwrap_err();
    let msg = Error::Utf8Error(bad).to_string();
    assert!(msg.starts_with("Invalid UTF8: "));
    assert!(msg.len() > "Invalid UTF8: ".len());
}

#[test]
fn utf8_error_converts() {
    let bad = std::str::from_utf8(&[0xc3]).unwrap_err();
    let e: Error = bad.into();
    assert!(matches!(e, Error::Utf8Error(_)));
}

#[test]
fn native_status_without_error_succeeds() {
    let r = NativeStatus { error: None }.to_result();
    assert!(r.is_ok());
}

#[test]
fn native_status_with_error_fails_with_its_text() {
    let r = NativeStatus { error: Some("bad config".to_string()) }.to_result();
    match r {
        Err(Error::OgaError(m)) => assert_eq!(m, "bad config"),
        _ => panic!("expected a native error"),
    }
}

#[test]
fn missing_handle_is_nul_error() {
    let present: Option<u32> = Some(7);
    assert_eq!(present.to_result().unwrap(), 7);
    let absent: Option<u32> = None;
    assert!(matches!(absent.to_result(), Err(Error::NulError)));
}
