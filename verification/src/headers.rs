//! HTTP header fields, as `reqwest` holds them, and what they stand for.

use reqwest::header::{HeaderMap, HeaderName, HeaderValue};
use vstd::prelude::*;
use vstd::utf8::encode_utf8;

verus! {

/// The number of distinct names below which a header map always takes one more.
pub const HEADER_ROOM: usize = 4096;

/// The length of the longest header name.
pub const MAX_NAME_LEN: usize = 65535;

/// Whether `c` may stand in a header name.
pub open spec fn is_name_char(c: char) -> bool {
    ||| 'a' <= c <= 'z'
    ||| 'A' <= c <= 'Z'
    ||| '0' <= c <= '9'
    ||| c == '!' || c == '"' || c == '#' || c == '$' || c == '%' || c == '&' || c == '\''
    ||| c == '*' || c == '+' || c == '-' || c == '.'
    ||| c == '^' || c == '_' || c == '`' || c == '|' || c == '~'
}

/// Whether `text` is a header name: between 1 and 65535 characters, each of them a name character.
pub open spec fn is_header_name(text: Seq<char>) -> bool {
    &&& 1 <= text.len() <= MAX_NAME_LEN
    &&& forall|i: int| 0 <= i < text.len() ==> is_name_char(#[trigger] text[i])
}

/// `c` with an ASCII capital turned into its small letter.
pub open spec fn lower(c: char) -> char {
    if 'A' <= c <= 'Z' {
        ((c as u8) + 32) as char
    } else {
        c
    }
}

/// `text` with each ASCII capital turned into its small letter.
pub open spec fn lowercase(text: Seq<char>) -> Seq<char> {
    Seq::new(text.len(), |i: int| lower(text[i]))
}

/// Whether `c` may stand in a header value: a tab, or any character from the space on but DEL.
pub open spec fn is_value_char(c: char) -> bool {
    c == '\t' || (' ' <= c && c != '\u{7f}')
}

/// Whether `text` is a header value: each character is a value character.
pub open spec fn is_header_value(text: Seq<char>) -> bool {
    forall|i: int| 0 <= i < text.len() ==> is_value_char(#[trigger] text[i])
}

/// `reqwest::header::HeaderName`, a name as a header map keys its fields.
#[verifier::external_type_specification]
#[verifier::external_body]
pub struct ExHeaderName(HeaderName);

/// `reqwest::header::HeaderValue`, the bytes of one field.
#[verifier::external_type_specification]
#[verifier::external_body]
pub struct ExHeaderValue(HeaderValue);

/// `reqwest::header::HeaderMap`, the header fields of a request.
#[verifier::external_type_specification]
#[verifier::external_body]
#[verifier::reject_recursive_types(T)]
pub struct ExHeaderMap<T>(HeaderMap<T>);

/// The characters of a header name, as `HeaderName::as_str` gives them.
pub uninterp spec fn name_text(name: HeaderName) -> Seq<char>;

/// The bytes of a header value, as `HeaderValue::as_bytes` gives them.
pub uninterp spec fn value_bytes(value: HeaderValue) -> Seq<u8>;

/// The fields of a header map: under each name the bytes of the first value that the map
/// holds for it.
pub uninterp spec fn fields_of(headers: HeaderMap) -> Map<Seq<char>, Seq<u8>>;

/// `HeaderName::from_bytes` on the bytes of `text`: the name in small letters, or nothing
/// where `text` is no header name.
#[verifier::external_body]
pub(crate) fn header_name(text: &str) -> (name: Option<HeaderName>)
    ensures
        name is Some <==> is_header_name(text@),
        name is Some ==> name_text(name.unwrap()) == lowercase(text@),
{
    HeaderName::from_bytes(text.as_bytes()).ok()
}

/// Tells whether `text` is a header name.
pub fn accepts_name(text: &str) -> (accepted: bool)
    ensures
        accepted == is_header_name(text@),
{
    header_name(text).is_some()
}

/// Tells whether `text` is a header value.
pub fn accepts_value(text: &str) -> (accepted: bool)
    ensures
        accepted == is_header_value(text@),
{
    header_value(text).is_some()
}

/// `HeaderValue::from_str`: a value with the UTF-8 bytes of `text`, or nothing where `text`
/// is no header value.
#[verifier::external_body]
pub(crate) fn header_value(text: &str) -> (value: Option<HeaderValue>)
    ensures
        value is Some <==> is_header_value(text@),
        value is Some ==> value_bytes(value.unwrap()) == encode_utf8(text@),
{
    HeaderValue::from_str(text).ok()
}

/// `HeaderMap::new`: a map without fields.
#[verifier::external_body]
pub(crate) fn headers_new() -> (headers: HeaderMap)
    ensures
        fields_of(headers) == (Map::<Seq<char>, Seq<u8>>::empty()),
{
    HeaderMap::new()
}

/// `HeaderMap::clone`: a map with the same fields.
#[verifier::external_body]
pub(crate) fn headers_clone(headers: &HeaderMap) -> (copy: HeaderMap)
    ensures
        fields_of(copy) == fields_of(*headers),
{
    headers.clone()
}

/// `HeaderMap::keys_len`: the number of distinct names.
#[verifier::external_body]
pub(crate) fn headers_names(headers: &HeaderMap) -> (n: usize)
    ensures
        n == fields_of(*headers).len(),
{
    headers.keys_len()
}

/// `HeaderMap::insert`: puts `value` under `name`, in place of every value that was there,
/// and leaves the other fields alone.
///
/// The call panics where the map cannot grow. Its table grows up to 32768 slots, and it
/// asks for more only when three quarters of them are taken, or a fifth of them while it
/// suspects an attack on its hashing: either takes more than `HEADER_ROOM` names.
#[verifier::external_body]
pub(crate) fn headers_insert(headers: &mut HeaderMap, name: HeaderName, value: HeaderValue)
    requires
        fields_of(*old(headers)).len() < HEADER_ROOM,
    ensures
        fields_of(*final(headers)) == fields_of(*old(headers)).insert(
            name_text(name),
            value_bytes(value),
        ),
{
    headers.insert(name, value);
}

} // verus!
