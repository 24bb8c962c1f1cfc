//! Response headers: the header map of the `http` crate and what this
//! library assumes of it.
//!
//! A header name and a header value are byte strings that `http` has
//! checked; a header map holds, for each name, the values set for it in the
//! order in which they were added. Verus sees none of these types from the
//! inside: every statement about them in this file is taken from the
//! documentation and source of `http` and is not proved.

use http::header::{HeaderMap, HeaderName, HeaderValue, InvalidHeaderValue, MaxSizeReached};
use vstd::prelude::*;
use vstd::string::StringSliceAdditionalSpecFns;

verus! {

#[verifier::external_type_specification]
#[verifier::external_body]
#[verifier::reject_recursive_types(T)]
pub struct ExHeaderMap<T>(HeaderMap<T>);

#[verifier::external_type_specification]
#[verifier::external_body]
pub struct ExHeaderName(HeaderName);

#[verifier::external_type_specification]
#[verifier::external_body]
pub struct ExHeaderValue(HeaderValue);

#[verifier::external_type_specification]
#[verifier::external_body]
pub struct ExMaxSizeReached(MaxSizeReached);

#[verifier::external_type_specification]
#[verifier::external_body]
pub struct ExInvalidHeaderValue(InvalidHeaderValue);

/// What a header map holds: under each name, as its lower-case bytes, the
/// values of that header in the order in which they were added.
pub type Headers = Map<Seq<u8>, Seq<Seq<u8>>>;

/// The bytes of a header name, which are lower case.
pub uninterp spec fn header_name_bytes(name: HeaderName) -> Seq<u8>;

/// The bytes of a header value.
pub uninterp spec fn header_value_bytes(value: HeaderValue) -> Seq<u8>;

/// The contents of a header map.
pub uninterp spec fn header_map_values(map: HeaderMap<HeaderValue>) -> Headers;

/// Whether a header value may hold the byte `b`: a tab, or anything from
/// the space upwards but the delete character.
pub open spec fn is_value_byte(b: u8) -> bool {
    (b >= 32 && b != 127) || b == 9
}

/// Whether every byte of `bytes` may stand in a header value.
pub open spec fn is_value_text(bytes: Seq<u8>) -> bool {
    forall|i: int| 0 <= i < bytes.len() ==> is_value_byte(#[trigger] bytes[i])
}

/// The name of the header that says what kind of body a response carries.
pub open spec fn content_type_bytes() -> Seq<u8> {
    "content-type".spec_bytes()
}

/// A map that holds fewer names than this takes a value for one more: `http`
/// refuses only a map that holds thousands of names more.
pub open spec fn sure_room() -> nat {
    4096
}

/// Whether `headers` holds so few names that a map with these contents takes
/// `more` settings, whatever their names.
pub open spec fn has_room(headers: Headers, more: nat) -> bool {
    headers.dom().finite() && headers.dom().len() + more <= sure_room()
}

/// The contents of a map that holds no header.
pub open spec fn no_headers() -> Headers {
    Map::empty()
}

/// `headers` after `insert`: `name` holds `value` and nothing else.
pub open spec fn headers_insert(headers: Headers, name: Seq<u8>, value: Seq<u8>) -> Headers {
    headers.insert(name, seq![value])
}

/// `headers` after `append`: `value` comes behind the values that `name`
/// held, if it held any.
pub open spec fn headers_append(headers: Headers, name: Seq<u8>, value: Seq<u8>) -> Headers {
    if headers.dom().contains(name) {
        headers.insert(name, headers[name].push(value))
    } else {
        headers.insert(name, seq![value])
    }
}

/// `HeaderMap::new`: a map that holds nothing.
#[verifier::external_body]
pub(crate) fn new_header_map() -> (r: HeaderMap<HeaderValue>)
    ensures
        header_map_values(r) == no_headers(),
        header_map_values(r).dom().finite(),
{
    HeaderMap::new()
}

/// `HeaderMap::try_insert`. Where the map can take the entry, `name` holds
/// `value` alone afterwards, and the first of the values it held before is
/// handed back. Where the map is full it refuses, and holds what it held.
/// It is not full while it holds fewer than 4096 names: it refuses to grow
/// only beyond 32768 slots, and asks for that at 6554 names at the
/// earliest. A map holds finitely many names.
#[verifier::external_body]
pub(crate) fn try_insert_header(
    map: &mut HeaderMap<HeaderValue>,
    name: &HeaderName,
    value: HeaderValue,
) -> (r: Result<Option<HeaderValue>, MaxSizeReached>)
    ensures
        r is Ok ==> header_map_values(*final(map)) == headers_insert(
            header_map_values(*old(map)),
            header_name_bytes(*name),
            header_value_bytes(value),
        ),
        r is Err ==> header_map_values(*final(map)) == header_map_values(*old(map)),
        has_room(header_map_values(*old(map)), 1) ==> r is Ok,
        header_map_values(*final(map)).dom().finite(),
        r matches Ok(before) ==> (before is Some <==> header_map_values(*old(map)).dom().contains(
            header_name_bytes(*name),
        )),
        r matches Ok(Some(first)) ==> header_value_bytes(first) == header_map_values(
            *old(map),
        )[header_name_bytes(*name)].first(),
{
    map.try_insert(name, value)
}

/// `HeaderMap::try_append`. Where the map can take the entry, `value` comes
/// last among the values of `name` afterwards, and the result says whether
/// `name` held any before. Where the map is full it refuses, and holds what
/// it held. It is not full while it holds fewer than 4096 names, as for
/// `try_insert`. A map holds finitely many names.
#[verifier::external_body]
pub(crate) fn try_append_header(
    map: &mut HeaderMap<HeaderValue>,
    name: &HeaderName,
    value: HeaderValue,
) -> (r: Result<bool, MaxSizeReached>)
    ensures
        r is Ok ==> header_map_values(*final(map)) == headers_append(
            header_map_values(*old(map)),
            header_name_bytes(*name),
            header_value_bytes(value),
        ),
        r is Err ==> header_map_values(*final(map)) == header_map_values(*old(map)),
        has_room(header_map_values(*old(map)), 1) ==> r is Ok,
        header_map_values(*final(map)).dom().finite(),
        r matches Ok(held) ==> held == header_map_values(*old(map)).dom().contains(
            header_name_bytes(*name),
        ),
{
    map.try_append(name, value)
}

/// `HeaderMap::remove`: every value of `name` leaves the map, and the first
/// of them is handed back. A map holds finitely many names.
#[verifier::external_body]
pub(crate) fn remove_header(map: &mut HeaderMap<HeaderValue>, name: &HeaderName) -> (r: Option<
    HeaderValue,
>)
    ensures
        header_map_values(*final(map)) == header_map_values(*old(map)).remove(
            header_name_bytes(*name),
        ),
        header_map_values(*final(map)).dom().finite(),
        r is Some <==> header_map_values(*old(map)).dom().contains(header_name_bytes(*name)),
        r matches Some(first) ==> header_value_bytes(first) == header_map_values(
            *old(map),
        )[header_name_bytes(*name)].first(),
{
    map.remove(name)
}

/// `HeaderValue::clone`: a value of the same bytes.
pub assume_specification[ <http::header::HeaderValue as Clone>::clone ](
    value: &http::header::HeaderValue,
) -> (r: http::header::HeaderValue)
    ensures
        header_value_bytes(r) == header_value_bytes(*value),
;

/// `HeaderName::clone`: a name of the same bytes.
pub assume_specification[ <http::header::HeaderName as Clone>::clone ](
    name: &http::header::HeaderName,
) -> (r: http::header::HeaderName)
    ensures
        header_name_bytes(r) == header_name_bytes(*name),
;

/// `HeaderValue::from_str`: the bytes of `text` as a header value, where
/// each of them may stand in one.
#[verifier::external_body]
pub(crate) fn header_value_from_str(text: &str) -> (r: Result<HeaderValue, InvalidHeaderValue>)
    ensures
        r is Ok <==> is_value_text(text.spec_bytes()),
        r matches Ok(value) ==> header_value_bytes(value) == text.spec_bytes(),
{
    HeaderValue::from_str(text)
}

/// `http::header::CONTENT_TYPE`: the name `content-type`.
#[verifier::external_body]
pub(crate) fn content_type_name() -> (r: HeaderName)
    ensures
        header_name_bytes(r) == content_type_bytes(),
{
    http::header::CONTENT_TYPE
}

} // verus!
