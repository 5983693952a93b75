//! Strings that cross the C boundary.
//!
//! Every string argument of the native API is handed over as a nul-terminated C
//! string, so a Rust string that itself holds a nul character cannot be passed and
//! is refused with `Error::NulError`. Strings handed back by the library arrive as
//! the bytes before their terminating nul, and are decoded here.
use vstd::prelude::*;
use vstd::utf8::{decode_utf8, valid_utf8};

use crate::error::{Error, OgaResult};

verus! {

/// True when `s` holds a nul character, so that it cannot become a C string.
pub open spec fn has_nul(s: Seq<char>) -> bool {
    exists|i: int| 0 <= i < s.len() && s[i] == '\0'
}

/// Checks that `s` can be handed to the native library as a C string.
///
/// Fails with `NulError` exactly when `s` holds a nul character; otherwise returns
/// the same text.
pub fn check_c_string(s: &str) -> (r: OgaResult<String>)
    ensures
        has_nul(s@) <==> r is Err,
        r matches Err(e) ==> e is NulError,
        r matches Ok(c) ==> c@ == s@,
{
    let n = s.unicode_len();
    let mut i: usize = 0;
    while i < n
        invariant
            n == s@.len(),
            i <= n,
            forall|j: int| 0 <= j < i ==> s@[j] != '\0',
        decreases n - i,
    {
        if s.get_char(i) == '\0' {
            return Err(Error::NulError);
        }
        i = i + 1;
    }
    Ok(String::from_str(s))
}

/// Checks an optional C-string argument; an absent argument is passed as null and
/// always succeeds.
pub fn check_optional_c_string(s: Option<&str>) -> (r: OgaResult<Option<String>>)
    ensures
        match s {
            None => r matches Ok(None),
            Some(t) => {
                &&& (has_nul(t@) <==> r is Err)
                &&& (r matches Err(e) ==> e is NulError)
                &&& (r matches Ok(c) ==> c matches Some(cs) && cs@ == t@)
            },
        },
{
    match s {
        None => Ok(None),
        Some(t) => match check_c_string(t) {
            Ok(c) => Ok(Some(c)),
            Err(e) => Err(e),
        },
    }
}

/// Checks a list of C-string arguments, keeping their order.
///
/// Fails with `NulError` exactly when one of them holds a nul character.
pub fn check_c_strings(items: &[&str]) -> (r: OgaResult<Vec<String>>)
    ensures
        (exists|k: int| 0 <= k < items@.len() && has_nul(#[trigger] items@[k]@)) <==> r is Err,
        r matches Err(e) ==> e is NulError,
        r matches Ok(v) ==> v@.len() == items@.len() && forall|k: int|
            0 <= k < items@.len() ==> #[trigger] v@[k]@ == items@[k]@,
{
    let mut out: Vec<String> = Vec::new();
    let mut i: usize = 0;
    while i < items.len()
        invariant
            i <= items@.len(),
            out@.len() == i,
            forall|k: int| 0 <= k < i ==> !has_nul(#[trigger] items@[k]@),
            forall|k: int| 0 <= k < i ==> #[trigger] out@[k]@ == items@[k]@,
        decreases items@.len() - i,
    {
        match check_c_string(items[i]) {
            Ok(c) => out.push(c),
            Err(e) => return Err(e),
        }
        i = i + 1;
    }
    Ok(out)
}

/// Decodes the bytes of a native string as strict UTF-8.
///
/// Wraps `std::str::from_utf8`, which std documents to succeed exactly on valid
/// UTF-8 and then to return the decoded text.
#[verifier::external_body]
fn str_from_utf8(bytes: &[u8]) -> (r: Result<&str, std::str::Utf8Error>)
    ensures
        r is Ok <==> valid_utf8(bytes@),
        r matches Ok(s) ==> s@ == decode_utf8(bytes@),
{
    std::str::from_utf8(bytes)
}

/// The text `String::from_utf8_lossy` makes of `bytes`: the valid parts kept and
/// each invalid sequence replaced by U+FFFD.
pub uninterp spec fn lossy_utf8(bytes: Seq<u8>) -> Seq<char>;

/// Decodes the bytes of a native string, replacing invalid sequences.
///
/// Wraps `String::from_utf8_lossy`, whose result depends on the bytes alone and is
/// named [`lossy_utf8`]; std documents it to return valid UTF-8 input unchanged.
/// How invalid sequences are delimited and replaced is not restated here.
#[verifier::external_body]
fn utf8_lossy(bytes: &[u8]) -> (s: String)
    ensures
        s@ == lossy_utf8(bytes@),
        valid_utf8(bytes@) ==> s@ == decode_utf8(bytes@),
{
    String::from_utf8_lossy(bytes).into_owned()
}

/// Takes an owned copy of a string the native library handed back, decoding it
/// leniently as `String::from_utf8_lossy` does. A null string (`None`) is a
/// `NulError`.
pub fn native_string_lossy(bytes: Option<&[u8]>) -> (r: OgaResult<String>)
    ensures
        match bytes {
            None => r matches Err(Error::NulError),
            Some(b) => {
                &&& (r matches Ok(s) && s@ == lossy_utf8(b@))
                &&& (valid_utf8(b@) ==> (r matches Ok(s) && s@ == decode_utf8(b@)))
            },
        },
{
    match bytes {
        None => Err(Error::NulError),
        Some(b) => Ok(utf8_lossy(b)),
    }
}

/// Takes an owned copy of a string the native library handed back, requiring it to
/// be valid UTF-8. A null string (`None`) is a `NulError`; invalid UTF-8 is a
/// `Utf8Error`.
pub fn native_string(bytes: Option<&[u8]>) -> (r: OgaResult<String>)
    ensures
        match bytes {
            None => r matches Err(Error::NulError),
            Some(b) => {
                &&& (r is Ok <==> valid_utf8(b@))
                &&& (r matches Ok(s) ==> s@ == decode_utf8(b@))
                &&& (r matches Err(e) ==> e is Utf8Error)
            },
        },
{
    match bytes {
        None => Err(Error::NulError),
        Some(b) => match str_from_utf8(b) {
            Ok(s) => Ok(String::from_str(s)),
            Err(e) => Err(Error::Utf8Error(e)),
        },
    }
}

/// Compares two strings character by character.
pub fn same_text(a: &str, b: &str) -> (r: bool)
    ensures
        r <==> a@ == b@,
{
    let n = a.unicode_len();
    let m = b.unicode_len();
    if n != m {
        return false;
    }
    let mut i: usize = 0;
    while i < n
        invariant
            n == a@.len(),
            m == b@.len(),
            n == m,
            i <= n,
            forall|j: int| 0 <= j < i ==> a@[j] == b@[j],
        decreases n - i,
    {
        if a.get_char(i) != b.get_char(i) {
            return false;
        }
        i = i + 1;
    }
    assert(a@ =~= b@);
    true
}

} // verus!
