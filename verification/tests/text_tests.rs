use ort_genai::error::Error;
use ort_genai::text::{
    check_c_string, check_c_strings, check_optional_c_string, native_string, native_string_lossy,
    same_text,
};

#[test]
fn c_string_without_nul_is_kept() {
    assert_eq!(check_c_string("model/dir").unwrap(), "model/dir");
    assert_eq!(check_c_string("").unwrap(), "");
    assert_eq!(check_c_string("héllo").unwrap(), "héllo");
}

#[test]
fn c_string_with_nul_is_refused() {
    assert!(matches!(check_c_string("a\0b"), Err(Error::NulError)));
    assert!(matches!(check_c_string("\0"), Err(Error::NulError)));
}

#[test]
fn optional_c_string() {
    assert!(matches!(check_optional_c_string(None), Ok(None)));
    assert_eq!(check_optional_c_string(Some("cuda")).unwrap(), Some("cuda".to_string()));
    assert!(matches!(check_optional_c_string(Some("cu\0da")), Err(Error::NulError)));
}

#[test]
fn list_of_c_strings() {
    let ok = check_c_strings(&["Hello, world!", "Test 2"]).unwrap();
    assert_eq!(ok, vec!["Hello, world!".to_string(), "Test 2".to_string()]);
    assert!(matches!(check_c_strings(&["fine", "not\0fine"]), Err(Error::NulError)));
    assert!(check_c_strings(&[]).unwrap().is_empty());
}

#[test]
fn native_strings() {
    assert_eq!(native_string(Some("cpu".as_bytes())).unwrap(), "cpu");
    assert!(matches!(native_string(None), Err(Error::NulError)));
    assert!(matches!(native_string(Some(&[0x66, 0x80])), Err(Error::Utf8Error(_))));
    assert_eq!(native_string_lossy(Some("phi3".as_bytes())).unwrap(), "phi3");
    assert_eq!(native_string_lossy(Some(&[0x61, 0xff])).unwrap(), "a\u{FFFD}");
    assert_eq!(native_string_lossy(Some(&[0xff, 0x62, 0xc3])).unwrap(), "\u{FFFD}b\u{FFFD}");
    assert!(matches!(native_string_lossy(None), Err(Error::NulError)));
}

#[test]
fn text_equality() {
    assert!(same_text("web_search", "web_search"));
    assert!(!same_text("web_search", "web_searc"));
    assert!(!same_text("abc", "abd"));
    assert!(same_text("", ""));
}
