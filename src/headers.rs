//! HTTP header entries, with the value check that the HTTP layer applies.
use vstd::prelude::*;

verus! {

/// One header entry of a request.
pub struct Header {
    pub name: String,
    pub value: String,
}

/// Whether `s` can be sent as a header value: every byte is visible ASCII,
/// a space, a tab, or part of a non-ASCII character.
pub open spec fn is_header_value(s: Seq<char>) -> bool {
    forall|i: int|
        0 <= i < s.len() ==> ((#[trigger] s[i] as u32 >= 32 && s[i] as u32 != 127) || s[i] == '\t')
}

/// Whether `h` is the entry `name: value`.
pub open spec fn is_entry(h: Header, name: Seq<char>, value: Seq<char>) -> bool {
    h.name@ == name && h.value@ == value
}

/// Relies on `reqwest::header::HeaderValue::from_str`, which refuses a value
/// exactly when one of its bytes is below 32 (other than a tab) or is 127.
#[verifier::external_body]
pub(crate) fn header_value_ok(s: &str) -> (r: bool)
    ensures
        r == is_header_value(s@),
{
    reqwest::header::HeaderValue::from_str(s).is_ok()
}

/// The entry `name: value`, or `None` where `value` cannot be a header value.
pub fn checked_header(name: &str, value: &str) -> (r: Option<Header>)
    ensures
        r is Some <==> is_header_value(value@),
        r matches Some(h) ==> is_entry(h, name@, value@),
{
    if header_value_ok(value) {
        Some(Header { name: String::from_str(name), value: String::from_str(value) })
    } else {
        None
    }
}

/// The entry `name: value` for a value known to be valid.
pub fn fixed_header(name: &str, value: &str) -> (r: Header)
    ensures
        is_entry(r, name@, value@),
{
    Header { name: String::from_str(name), value: String::from_str(value) }
}

} // verus!
