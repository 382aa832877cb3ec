//! Reading numbers out of HTTP response headers.

use vstd::prelude::*;
use crate::text::parse_unsigned;
use crate::text::parse_trimmed_unsigned;
use reqwest::header::{HeaderMap, HeaderValue};

verus! {

#[verifier::external_type_specification]
#[verifier::external_body]
#[verifier::reject_recursive_types(T)]
pub struct ExHeaderMap<T>(reqwest::header::HeaderMap<T>);

#[verifier::external_type_specification]
#[verifier::external_body]
pub struct ExHeaderValue(reqwest::header::HeaderValue);

/// What a header map holds: for each header name, in lower case, the bytes
/// of its values in the order they were inserted.
pub uninterp spec fn header_map_values(headers: HeaderMap) -> Map<Seq<char>, Seq<Seq<u8>>>;

/// The bytes of a header value.
pub uninterp spec fn header_value_bytes(value: HeaderValue) -> Seq<u8>;

/// A header name of at most 64 ASCII letters, digits and `-`: one that the
/// header-name parser accepts and folds to lower case in its scratch buffer.
pub open spec fn is_header_token(name: Seq<char>) -> bool {
    &&& 0 < name.len() <= 64
    &&& forall|i: int|
        0 <= i < name.len() ==> {
            let u = #[trigger] name[i] as u32;
            ||| 48 <= u <= 57
            ||| 65 <= u <= 90
            ||| 97 <= u <= 122
            ||| u == 45
        }
}

/// ASCII lower case of one character.
pub open spec fn ascii_lower(c: char) -> char {
    if 65 <= c as u32 <= 90 {
        (c as u32 + 32) as char
    } else {
        c
    }
}

/// ASCII lower case of a string, the form in which a header map keys names.
pub open spec fn ascii_lowercase(s: Seq<char>) -> Seq<char> {
    s.map_values(|c: char| ascii_lower(c))
}

/// Bytes that `HeaderValue::to_str` accepts: visible ASCII and tab.
pub open spec fn visible_ascii(bytes: Seq<u8>) -> bool {
    forall|i: int| 0 <= i < bytes.len() ==> (32 <= #[trigger] bytes[i] < 127 || bytes[i] == 9)
}

/// The characters of ASCII bytes.
pub open spec fn ascii_chars(bytes: Seq<u8>) -> Seq<char> {
    bytes.map_values(|b: u8| b as char)
}

/// The first value stored under `name`, if the map holds one.
pub open spec fn first_value(headers: HeaderMap, name: Seq<char>) -> Option<Seq<u8>> {
    let m = header_map_values(headers);
    let k = ascii_lowercase(name);
    if m.contains_key(k) && m[k].len() > 0 {
        Some(m[k][0])
    } else {
        None
    }
}

/// The text of the first value stored under `name`, where that value is
/// visible ASCII.
pub open spec fn header_text(headers: HeaderMap, name: Seq<char>) -> Option<Seq<char>> {
    match first_value(headers, name) {
        Some(b) => if visible_ascii(b) {
            Some(ascii_chars(b))
        } else {
            None
        },
        None => None,
    }
}

/// The unsigned number, at most `max`, that the first value under `name`
/// writes (surrounding white space allowed).
pub open spec fn header_number(headers: HeaderMap, name: Seq<char>, max: int) -> Option<int> {
    match header_text(headers, name) {
        Some(t) => parse_unsigned(t, max),
        None => None,
    }
}

/// `HeaderMap::get` with a `&str` key: the first value stored under the
/// name, looked up without regard to ASCII case. The contract claims that a
/// valid token name is found under its lower-case form, and that the value
/// handed back is the first one inserted under it.
#[verifier::external_body]
fn header_get<'a>(headers: &'a HeaderMap, name: &str) -> (res: Option<&'a HeaderValue>)
    requires
        is_header_token(name@),
    ensures
        res is Some <==> (header_map_values(*headers).contains_key(ascii_lowercase(name@)) && header_map_values(*headers)[ascii_lowercase(name@)].len() > 0),
        res matches Some(v) ==> header_map_values(*headers)[ascii_lowercase(name@)][0] == header_value_bytes(*v),
{
    headers.get(name)
}

/// `HeaderValue::to_str`: the value as text, which succeeds exactly when
/// every byte is visible ASCII or a tab, each byte then being one character.
#[verifier::external_body]
fn header_value_to_str(value: &HeaderValue) -> (res: Option<&str>)
    ensures
        res is Some <==> visible_ascii(header_value_bytes(*value)),
        res matches Some(s) ==> s@ == ascii_chars(header_value_bytes(*value)),
{
    value.to_str().ok()
}

/// The unsigned number, no greater than `max`, written in the first value of
/// header `name`; `None` where the header is missing, not visible ASCII, or
/// not such a number.
pub fn header_unsigned(headers: &HeaderMap, name: &str, max: u64) -> (res: Option<u64>)
    requires
        is_header_token(name@),
    ensures
        res matches Some(n) ==> header_number(*headers, name@, max as int) == Some(n as int),
        res is None ==> header_number(*headers, name@, max as int) is None,
{
    match header_get(headers, name) {
        Some(v) => match header_value_to_str(v) {
            Some(s) => parse_trimmed_unsigned(s, max),
            None => None,
        },
        None => None,
    }
}

} // verus!
