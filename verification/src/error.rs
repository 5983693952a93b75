use vstd::prelude::*;
use vstd::std_specs::convert::FromSpecImpl;

verus! {

#[verifier::external_type_specification]
#[verifier::external_body]
pub struct ExUtf8Error(std::str::Utf8Error);

/// Errors returned by the GenAI bindings.
///
/// They cover failures reported by the native library as well as checks made on
/// the Rust side before or after a native call.
#[derive(Debug)]
pub enum Error {
    /// A native GenAI call failed and returned this error text.
    OgaError(String),
    /// A string handed to the native library held a nul character, or the
    /// library handed back a null pointer where a value was expected.
    NulError,
    /// A native string could not be decoded as UTF-8.
    Utf8Error(std::str::Utf8Error),
    /// A tensor element type does not match the requested Rust type.
    TensorTypeMismatch,
    /// A tensor had an invalid shape for the operation being performed.
    InvalidTensorShape,
}

/// Result type used throughout the bindings.
pub type OgaResult<T> = Result<T, Error>;

/// The text that `to_string` gives for an error that carries no decoding failure.
pub open spec fn error_text(e: Error) -> Seq<char> {
    match e {
        Error::OgaError(msg) => "onnxruntime-genai error: "@ + msg@,
        Error::NulError => "Null found in parameter!"@,
        Error::Utf8Error(_) => "Invalid UTF8: "@,
        Error::TensorTypeMismatch => "tensor element type does not match the requested Rust type"@,
        Error::InvalidTensorShape => "invalid tensor shape"@,
    }
}


/// Describes a UTF-8 decoding failure as std's `Display` for `Utf8Error` does.
///
/// Wraps `<std::str::Utf8Error as Display>::fmt`; nothing is claimed about the text,
/// which std documents only informally.
#[verifier::external_body]
fn describe_utf8_error(e: &std::str::Utf8Error) -> String {
    format!("{}", e)
}

impl Error {
    /// Returns the human-readable message of this error.
    ///
    /// Every message starts with the fixed text of its variant; a native error also
    /// carries the library's own text, and a decoding failure std's description of it.
    pub fn to_string(&self) -> (s: String)
        ensures
            match self {
                Error::Utf8Error(_) => error_text(*self).is_prefix_of(s@),
                _ => s@ == error_text(*self),
            },
    {
        match self {
            Error::OgaError(msg) => {
                let mut s = String::from_str("onnxruntime-genai error: ");
                s.append(msg.as_str());
                s
            },
            Error::NulError => String::from_str("Null found in parameter!"),
            Error::Utf8Error(e) => {
                let mut s = String::from_str("Invalid UTF8: ");
                let d = describe_utf8_error(e);
                s.append(d.as_str());
                s
            },
            Error::TensorTypeMismatch => String::from_str(
                "tensor element type does not match the requested Rust type",
            ),
            Error::InvalidTensorShape => String::from_str("invalid tensor shape"),
        }
    }
}


/// Converts a UTF-8 decoding failure into the bindings' error type.
impl From<std::str::Utf8Error> for Error {
    fn from(value: std::str::Utf8Error) -> (e: Error) {
        Error::Utf8Error(value)
    }
}

impl FromSpecImpl<std::str::Utf8Error> for Error {
    open spec fn obeys_from_spec() -> bool {
        true
    }

    open spec fn from_spec(v: std::str::Utf8Error) -> Error {
        Error::Utf8Error(v)
    }
}

/// What a native call reported.
///
/// The C API returns a null result on success; on failure it returns a result object
/// whose error text is read (and the object destroyed) before it reaches this type.
pub struct NativeStatus {
    /// `None` on success, or the error text of the failed call.
    pub error: Option<String>,
}

/// Converts what a native call handed back into a `Result`.
pub trait OgaResultExt<T>: Sized {
    fn to_result(self) -> OgaResult<T>;
}

impl OgaResultExt<()> for NativeStatus {
    /// A call that reported no error succeeds; one that reported an error text fails
    /// with exactly that text.
    fn to_result(self) -> (r: OgaResult<()>)
        ensures
            match self.error {
                None => r is Ok,
                Some(msg) => r matches Err(Error::OgaError(m)) && m@ == msg@,
            },
    {
        match self.error {
            None => Ok(()),
            Some(msg) => Err(Error::OgaError(msg)),
        }
    }
}

impl<T> OgaResultExt<T> for Option<T> {
    /// A handle the native library handed back is usable when it is present; a
    /// missing (null) handle is a `NulError`.
    fn to_result(self) -> (r: OgaResult<T>)
        ensures
            match self {
                Some(h) => r == Ok::<T, Error>(h),
                None => r matches Err(Error::NulError),
            },
    {
        match self {
            Some(h) => Ok(h),
            None => Err(Error::NulError),
        }
    }
}

} // verus!
