//! Validity of header names and values, as the HTTP transport judges them.
use vstd::prelude::*;

verus! {

/// The longest header name the transport accepts.
pub const MAX_HEADER_NAME_LEN: usize = 65535;

/// A character allowed in a header name (an HTTP token character).
pub open spec fn is_token_char(c: char) -> bool {
    ('0' <= c && c <= '9') || ('a' <= c && c <= 'z') || ('A' <= c && c <= 'Z') || c == '!'
        || c == '#' || c == '$' || c == '%' || c == '&' || c == '\'' || c == '*' || c == '+'
        || c == '-' || c == '.' || c == '^' || c == '_' || c == '`' || c == '|' || c == '~'
}

/// A valid header name: non-empty, not too long, token characters only.
pub open spec fn is_header_name(s: Seq<char>) -> bool {
    &&& 0 < s.len() <= MAX_HEADER_NAME_LEN
    &&& forall|i: int| 0 <= i < s.len() ==> is_token_char(#[trigger] s[i])
}

/// A character allowed in a header value: anything but a control character, tab allowed.
pub open spec fn is_value_char(c: char) -> bool {
    (c as u32 >= 32 && c as u32 != 127) || c == '\t'
}

/// A valid header value.
pub open spec fn is_header_value(s: Seq<char>) -> bool {
    forall|i: int| 0 <= i < s.len() ==> is_value_char(#[trigger] s[i])
}

/// Relies on reqwest::header::HeaderName::from_bytes (http 1.x): it accepts
/// exactly the non-empty names of at most 65535 bytes whose bytes are all
/// token characters; a non-ASCII character is never one.
#[verifier::external_body]
pub(crate) fn header_name_accepted(s: &str) -> (r: bool)
    ensures
        r == is_header_name(s@),
{
    reqwest::header::HeaderName::from_bytes(s.as_bytes()).is_ok()
}

/// Relies on reqwest::header::HeaderValue::from_str (http 1.x): it accepts
/// exactly the strings with no byte below 32 other than tab and no byte 127;
/// every byte of a non-ASCII character is 128 or above.
#[verifier::external_body]
pub(crate) fn header_value_accepted(s: &str) -> (r: bool)
    ensures
        r == is_header_value(s@),
{
    reqwest::header::HeaderValue::from_str(s).is_ok()
}

} // verus!
