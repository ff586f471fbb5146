//! What the bridge takes from serde_json: parsing JSON text, with the
//! string `type` member of an object, and writing a string as a JSON literal.

use vstd::prelude::*;

verus! {

/// serde_json's parsed JSON value, carried through opaquely.
#[verifier::external_type_specification]
#[verifier::external_body]
pub struct ExJsonValue(serde_json::Value);

/// serde_json's error, only ever tested for being there.
#[verifier::external_type_specification]
#[verifier::external_body]
pub struct ExJsonError(serde_json::Error);

/// Whether the bytes are one complete JSON text that serde_json accepts.
pub uninterp spec fn is_json_text(b: Seq<u8>) -> bool;

/// The `type` member of the JSON text `b` when it is an object whose `type`
/// member is a string; `None` otherwise.
pub uninterp spec fn type_tag_of(b: Seq<u8>) -> Option<Seq<char>>;

/// A lowercase hexadecimal digit.
pub open spec fn hex_digit(n: int) -> char {
    seq!['0', '1', '2', '3', '4', '5', '6', '7', '8', '9', 'a', 'b', 'c', 'd', 'e', 'f'][n]
}

/// How one character is written inside a JSON string: quote and backslash
/// behind a backslash, the five control characters with a short escape
/// likewise, the other control characters as `\u00xx`, and every other
/// character as it is.
pub open spec fn escaped_char(c: char) -> Seq<char> {
    if c == '"' {
        seq!['\\', '"']
    } else if c == '\\' {
        seq!['\\', '\\']
    } else if c == '\u{8}' {
        seq!['\\', 'b']
    } else if c == '\t' {
        seq!['\\', 't']
    } else if c == '\n' {
        seq!['\\', 'n']
    } else if c == '\u{c}' {
        seq!['\\', 'f']
    } else if c == '\r' {
        seq!['\\', 'r']
    } else if (c as u32) < 0x20 {
        seq!['\\', 'u', '0', '0', hex_digit((c as u32) as int / 16), hex_digit((c as u32) as int % 16)]
    } else {
        seq![c]
    }
}

/// The characters of `s`, each written as inside a JSON string.
pub open spec fn escaped(s: Seq<char>) -> Seq<char>
    decreases s.len(),
{
    if s.len() == 0 {
        Seq::empty()
    } else {
        escaped(s.drop_last()) + escaped_char(s.last())
    }
}

/// The JSON string literal for the characters `s`.
pub open spec fn json_quoted(s: Seq<char>) -> Seq<char> {
    seq!['"'] + escaped(s) + seq!['"']
}

/// Relies on serde_json::from_slice, which returns a value exactly when the
/// bytes are a JSON text, and on serde_json::Value::get for that value's
/// `type` member, kept only when it is a JSON string.
#[verifier::external_body]
pub(crate) fn parse_json(b: &[u8]) -> (r: Result<(serde_json::Value, Option<String>), serde_json::Error>)
    ensures
        r is Ok <==> is_json_text(b@),
        r matches Ok((_, tag)) ==> match tag {
            Some(t) => type_tag_of(b@) == Some(t@),
            None => type_tag_of(b@) is None,
        },
{
    serde_json::from_slice::<serde_json::Value>(b).map(|v| {
        let tag = match v.get("type") {
            Some(serde_json::Value::String(s)) => Some(s.clone()),
            _ => None,
        };
        (v, tag)
    })
}

/// Relies on serde_json::to_string on a `str`: it writes the string through
/// its escape table into a `Vec`, which cannot fail.
#[verifier::external_body]
pub(crate) fn quote(s: &str) -> (r: Result<String, serde_json::Error>)
    ensures
        r is Ok,
        r matches Ok(q) ==> q@ == json_quoted(s@),
{
    serde_json::to_string(s)
}

/// Relies on String::from_utf8: it succeeds exactly on valid UTF-8, and the
/// string then holds the characters that the bytes encode.
#[verifier::external_body]
pub(crate) fn utf8_text(b: &[u8]) -> (r: Option<String>)
    ensures
        r is Some <==> vstd::utf8::valid_utf8(b@),
        r matches Some(s) ==> s@ == vstd::utf8::decode_utf8(b@),
{
    String::from_utf8(b.to_vec()).ok()
}

} // verus!
