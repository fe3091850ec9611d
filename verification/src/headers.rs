//! HTTP header maps (`reqwest::header::HeaderMap`) as the client uses them.

use vstd::prelude::*;

use reqwest::header::{HeaderMap, HeaderName, HeaderValue};

verus! {

/// An HTTP header map.
#[verifier::external_type_specification]
#[verifier::external_body]
#[verifier::reject_recursive_types(T)]
pub struct ExHeaderMap<T>(reqwest::header::HeaderMap<T>);

/// An HTTP header value, the item type of a header map.
#[verifier::external_type_specification]
#[verifier::external_body]
pub struct ExHeaderValue(reqwest::header::HeaderValue);

/// What a header map holds: for each (lower-case) header name, its values
/// in order.
pub uninterp spec fn header_entries(map: HeaderMap) -> Map<Seq<char>, Seq<Seq<u8>>>;

/// The contents of an empty header map.
pub open spec fn no_headers() -> Map<Seq<char>, Seq<Seq<u8>>> {
    Map::empty()
}

/// Whether `c` may appear in a header name (an HTTP token character).
pub open spec fn is_header_name_char(c: char) -> bool {
    ||| ('0' <= c <= '9')
    ||| ('a' <= c <= 'z')
    ||| ('A' <= c <= 'Z')
    ||| c == '!' || c == '#' || c == '$' || c == '%' || c == '&' || c == '\''
    ||| c == '*' || c == '+' || c == '-' || c == '.' || c == '^' || c == '_'
    ||| c == '`' || c == '|' || c == '~'
}

/// Whether a text is a valid header name: 1 to 65535 token characters.
pub open spec fn valid_header_name(name: Seq<char>) -> bool {
    1 <= name.len() <= 65535 && forall|i: int| 0 <= i < name.len() ==> is_header_name_char(#[trigger] name[i])
}

/// The lower-case form of an ASCII letter; other characters unchanged.
pub open spec fn lower_char(c: char) -> char {
    if 'A' <= c <= 'Z' {
        ((c as u32) + 32) as char
    } else {
        c
    }
}

/// The lower-case form of a header name.
pub open spec fn lower_name(name: Seq<char>) -> Seq<char> {
    name.map_values(|c: char| lower_char(c))
}

/// Whether the bytes form a valid header value: visible ASCII, spaces, tabs
/// and bytes from 128 up; no other control byte and no DEL.
pub open spec fn valid_header_value(value: Seq<u8>) -> bool {
    forall|i: int| 0 <= i < value.len() ==> (#[trigger] value[i] >= 32 && value[i] != 127) || value[i] == 9
}

/// `HeaderMap::new`: an empty map.
#[verifier::external_body]
pub(crate) fn header_map_new() -> (fresh: HeaderMap)
    ensures
        header_entries(fresh) == no_headers(),
{
    HeaderMap::new()
}

/// The fewest distinct header names a map holds when `HeaderMap::try_insert`
/// refuses an insertion for lack of room. The map's table has at most
/// 32768 slots; growing it fails only when the table is at that size and
/// either holds 24576 names or has met hash collisions with at least a fifth
/// of the slots used, that is at least 6554 names.
pub open spec fn header_room_limit() -> nat {
    6554
}

/// Whether a header map surely has room for one more name.
pub open spec fn has_header_room(m: Map<Seq<char>, Seq<Seq<u8>>>) -> bool {
    m.dom().finite() && m.dom().len() < header_room_limit()
}

/// `HeaderName::from_bytes`, `HeaderValue::from_bytes` and
/// `HeaderMap::try_insert`, the name given as text and the value as bytes.
/// An invalid name or value is refused, with the `Display` text of the parse
/// error (what that text says is not stated). `try_insert` may refuse for
/// lack of room (`MaxSizeReached`), which only happens when the map already
/// holds at least `header_room_limit()` names. On success every value of the
/// (lower-cased) name is replaced by the new one; on any refusal the map is
/// unchanged.
#[verifier::external_body]
pub(crate) fn header_map_insert(map: &mut HeaderMap, name: &str, value: &[u8]) -> (r: Result<(), String>)
    ensures
        r is Ok ==> valid_header_name(name@) && valid_header_value(value@),
        r is Ok ==> header_entries(*final(map)) == header_entries(*old(map)).insert(
            lower_name(name@),
            seq![value@],
        ),
        r is Err ==> header_entries(*final(map)) == header_entries(*old(map)),
        r is Err && valid_header_name(name@) && valid_header_value(value@) ==> !has_header_room(
            header_entries(*old(map)),
        ),
{
    let name = HeaderName::from_bytes(name.as_bytes()).map_err(|e| e.to_string())?;
    let value = HeaderValue::from_bytes(value).map_err(|e| e.to_string())?;
    map.try_insert(name, value).map_err(|e| e.to_string())?;
    Ok(())
}

/// `HeaderMap::is_empty`: whether the map holds no header.
#[verifier::external_body]
pub(crate) fn header_map_is_empty(map: &HeaderMap) -> (r: bool)
    ensures
        r == (header_entries(*map) == no_headers()),
{
    map.is_empty()
}

/// `HeaderMap::clone`: a map with the same headers.
#[verifier::external_body]
pub(crate) fn header_map_clone(map: &HeaderMap) -> (r: HeaderMap)
    ensures
        header_entries(r) == header_entries(*map),
{
    map.clone()
}

/// `HeaderMap::iter`, each name handed out as its text and each value as its
/// bytes. Every name of the map comes with each of its values, in order, so
/// the last pair of a name carries its last value; names are valid and lower
/// case, values valid (`HeaderName` and `HeaderValue` accept nothing else
/// outside `unsafe` code).
#[verifier::external_body]
pub(crate) fn header_map_pairs(map: &HeaderMap) -> (pairs: Vec<(String, Vec<u8>)>)
    ensures
        forall|i: int|
            0 <= i < pairs@.len() ==> {
                &&& header_entries(*map).contains_key(#[trigger] pairs@[i].0@)
                &&& valid_header_name(pairs@[i].0@)
                &&& lower_name(pairs@[i].0@) == pairs@[i].0@
                &&& valid_header_value(pairs@[i].1@)
            },
        forall|k: Seq<char>|
            #[trigger] header_entries(*map).contains_key(k) ==> header_entries(*map)[k].len() > 0
                && exists|i: int|
                0 <= i < pairs@.len() && pairs@[i].0@ == k && pairs@[i].1@ == header_entries(
                    *map,
                )[k].last() && forall|j: int| i < j < pairs@.len() ==> (#[trigger] pairs@[j]).0@ != k,
{
    map.iter().map(|(k, v)| (k.as_str().to_string(), v.as_bytes().to_vec())).collect()
}

} // verus!
