//! Text that the SDK hands back as C strings, decoded into Rust strings.
use vstd::prelude::*;
use vstd::utf8::*;

use crate::cstr::{bytes_until_nul, until_nul};
use crate::error::{ok_spec, Error};

verus! {

/// What `String::from_utf8_lossy` makes of `bytes`: the decoded text, with each
/// invalid sequence replaced by U+FFFD.
pub uninterp spec fn lossy_text(bytes: Seq<u8>) -> Seq<char>;

/// Calls `String::from_utf8_lossy`. Its documentation states that the result
/// is the text that `bytes` encode, unchanged, whenever `bytes` are valid
/// UTF-8; what it gives for other bytes is named, not stated.
#[verifier::external_body]
fn utf8_lossy(bytes: &[u8]) -> (s: String)
    ensures
        s@ == lossy_text(bytes@),
        valid_utf8(bytes@) ==> s@ == decode_utf8(bytes@),
{
    String::from_utf8_lossy(bytes).into_owned()
}

/// Calls `std::str::from_utf8`: per its documentation it succeeds exactly when
/// `bytes` are valid UTF-8, and then holds the text they encode.
#[verifier::external_body]
fn utf8_strict(bytes: &[u8]) -> (s: Option<String>)
    ensures
        s is Some <==> valid_utf8(bytes@),
        s matches Some(t) ==> t@ == decode_utf8(bytes@),
{
    match std::str::from_utf8(bytes) {
        Ok(t) => Some(t.to_string()),
        Err(_) => None,
    }
}

/// The text held in the C buffer `buf` (up to its first NUL byte), with
/// invalid UTF-8 replaced as `String::from_utf8_lossy` does.
pub open spec fn c_text_lossy(buf: Seq<u8>) -> Seq<char> {
    lossy_text(until_nul(buf))
}

/// Decodes the text held in a C buffer, replacing invalid UTF-8.
pub fn string_from_c_buffer(buf: &[u8]) -> (s: String)
    ensures
        s@ == c_text_lossy(buf@),
        valid_utf8(until_nul(buf@)) ==> s@ == decode_utf8(until_nul(buf@)),
{
    let bytes = bytes_until_nul(buf);
    utf8_lossy(bytes.as_slice())
}

/// Decodes the text held in a C buffer; `None` when it is not valid UTF-8.
pub fn str_from_c_buffer(buf: &[u8]) -> (s: Option<String>)
    ensures
        s is Some <==> valid_utf8(until_nul(buf@)),
        s matches Some(t) ==> t@ == decode_utf8(until_nul(buf@)),
{
    let bytes = bytes_until_nul(buf);
    utf8_strict(bytes.as_slice())
}

/// The outcome of an SDK call that fills a caller's buffer with a C string:
/// the SDK's error when `res` reports one, else the text in `buf`.
pub fn string_from_call(res: i32, buf: &[u8]) -> (r: Result<String, Error>)
    ensures
        ok_spec(res) is Err ==> r == Err::<String, Error>(Error::Eos(res)),
        ok_spec(res) is Ok ==> (r matches Ok(s) && s@ == c_text_lossy(buf@)),
        ok_spec(res) is Ok && valid_utf8(until_nul(buf@)) ==> (r matches Ok(s) && s@ == decode_utf8(until_nul(buf@))),
{
    crate::error::ok(res)?;
    Ok(string_from_c_buffer(buf))
}

/// A C string the SDK may hand back as a null pointer, decoded when present
/// and valid UTF-8 (`raw` is `None` for a null pointer).
pub fn optional_text(raw: Option<&[u8]>) -> (s: Option<String>)
    ensures
        raw is None ==> s is None,
        raw matches Some(b) ==> (s is Some <==> valid_utf8(until_nul(b@))),
        raw matches Some(b) ==> (s matches Some(t) ==> t@ == decode_utf8(until_nul(b@))),
{
    match raw {
        None => None,
        Some(b) => str_from_c_buffer(b),
    }
}

/// The name of an SDK result code: `"EOS_Unknown"` when the SDK gave no
/// string (`raw` is `None`), `"EOS_InvalidUtf8"` when the string is not
/// valid UTF-8, and the string itself otherwise.
pub fn result_text(raw: Option<&[u8]>) -> (s: String)
    ensures
        raw is None ==> s@ == "EOS_Unknown"@,
        raw matches Some(b) ==> (!valid_utf8(until_nul(b@)) ==> s@ == "EOS_InvalidUtf8"@),
        raw matches Some(b) ==> (valid_utf8(until_nul(b@)) ==> s@ == decode_utf8(until_nul(b@))),
{
    broadcast use vstd::string::group_string_axioms;
    match raw {
        None => "EOS_Unknown".to_string(),
        Some(b) => match str_from_c_buffer(b) {
            Some(t) => t,
            None => "EOS_InvalidUtf8".to_string(),
        },
    }
}

} // verus!
