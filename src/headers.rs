//! The header set that authenticates a request to a device endpoint.

use reqwest::header::{HeaderMap, HeaderName, HeaderValue, InvalidHeaderValue};
use vstd::prelude::*;
use vstd::string::StringExecFns;
use vstd::utf8::{encode_utf8, is_ascii_chars, is_ascii_chars_encode_utf8};

verus! {

#[verifier::external_type_specification]
#[verifier::external_body]
#[verifier::reject_recursive_types(T)]
pub struct ExHeaderMap<T>(HeaderMap<T>);

#[verifier::external_type_specification]
#[verifier::external_body]
pub struct ExHeaderName(HeaderName);

#[verifier::external_type_specification]
#[verifier::external_body]
pub struct ExHeaderValue(HeaderValue);

#[verifier::external_type_specification]
#[verifier::external_body]
pub struct ExInvalidHeaderValue(InvalidHeaderValue);

/// The text of a header name, always in lower case.
pub uninterp spec fn header_name_text(n: HeaderName) -> Seq<char>;

/// The bytes of a header value.
pub uninterp spec fn header_value_bytes(v: HeaderValue) -> Seq<u8>;

/// What a header map holds: for each header name, its values in order.
pub uninterp spec fn header_values(h: HeaderMap) -> Map<Seq<char>, Seq<Seq<u8>>>;

/// How many values a header map holds, over all names, as HeaderMap::len
/// counts them.
pub uninterp spec fn header_count(h: HeaderMap) -> nat;

/// A byte that may stand in a header value: visible ASCII, space, tab, or
/// any byte from 0x80 up.
pub open spec fn is_header_value_byte(b: u8) -> bool {
    (b >= 32 && b != 127) || b == 9
}

/// Whether `text`, written in UTF-8, is a valid header value.
pub open spec fn is_header_value_text(text: Seq<char>) -> bool {
    forall|i: int| 0 <= i < encode_utf8(text).len() ==> is_header_value_byte(#[trigger] encode_utf8(text)[i])
}

/// The contents of a header map that holds nothing.
pub open spec fn no_headers() -> Map<Seq<char>, Seq<Seq<u8>>> {
    Map::empty()
}

/// Relies on HeaderMap::new: a map that holds no header.
#[verifier::external_body]
fn empty_header_map() -> (r: HeaderMap)
    ensures
        header_values(r) == no_headers(),
        header_count(r) == 0,
{
    HeaderMap::new()
}

/// Relies on HeaderMap::insert: the name now holds this one value, all its
/// earlier values gone, and the rest of the map is as it was. It panics only
/// once the map nears 32768 values, far above the bound required here.
#[verifier::external_body]
fn insert_header(h: &mut HeaderMap, name: HeaderName, value: HeaderValue)
    requires
        header_count(*old(h)) < 64,
    ensures
        header_values(*final(h)) == header_values(*old(h)).insert(
            header_name_text(name),
            seq![header_value_bytes(value)],
        ),
        header_count(*final(h)) <= header_count(*old(h)) + 1,
{
    h.insert(name, value);
}

/// Relies on HeaderValue::from_str: it fails exactly where a byte of the
/// text's UTF-8 form may not stand in a header value, and otherwise holds
/// those bytes.
#[verifier::external_body]
fn header_value_from_text(text: &str) -> (r: Result<HeaderValue, InvalidHeaderValue>)
    ensures
        r is Ok <==> is_header_value_text(text@),
        r matches Ok(v) ==> header_value_bytes(v) == encode_utf8(text@),
{
    HeaderValue::from_str(text)
}

/// Relies on the constant reqwest::header::AUTHORIZATION.
#[verifier::external_body]
fn authorization_name() -> (r: HeaderName)
    ensures
        header_name_text(r) == "authorization"@,
{
    reqwest::header::AUTHORIZATION
}

/// Relies on the constant reqwest::header::CONTENT_TYPE.
#[verifier::external_body]
fn content_type_name() -> (r: HeaderName)
    ensures
        header_name_text(r) == "content-type"@,
{
    reqwest::header::CONTENT_TYPE
}

/// The value of the `authorization` header: `JWT {token}`.
pub open spec fn authorization_text(token: Seq<char>) -> Seq<char> {
    "JWT "@ + token
}

/// The value of the `content-type` header.
pub open spec fn json_content_type() -> Seq<char> {
    "application/json"@
}

/// The header set of a request made with `token`: the token after `JWT ` as
/// its authorization, and JSON as its content type.
pub open spec fn authenticated_headers(token: Seq<char>) -> Map<Seq<char>, Seq<Seq<u8>>> {
    no_headers().insert("authorization"@, seq![encode_utf8(authorization_text(token))]).insert(
        "content-type"@,
        seq![encode_utf8(json_content_type())],
    )
}

/// Why no header set can be built.
#[derive(Debug, Clone, Copy, PartialEq, Eq, Structural)]
pub enum HeaderError {
    /// The token holds a character that may not stand in a header value.
    InvalidToken,
}

proof fn lemma_printable_is_valid(text: Seq<char>)
    requires
        forall|i: int| 0 <= i < text.len() ==> ' ' <= #[trigger] text[i] <= '~',
    ensures
        is_header_value_text(text),
{
    assert(is_ascii_chars(text));
    is_ascii_chars_encode_utf8(text);
    assert forall|i: int| 0 <= i < encode_utf8(text).len() implies is_header_value_byte(
        #[trigger] encode_utf8(text)[i],
    ) by {
        assert(text[i] as u8 == encode_utf8(text)[i]);
    }
}

proof fn lemma_json_content_type_is_valid()
    ensures
        is_header_value_text(json_content_type()),
{
    reveal_strlit("application/json");
    let text = json_content_type();
    assert(text.len() == 16);
    assert forall|i: int| 0 <= i < text.len() implies ' ' <= #[trigger] text[i] <= '~' by {}
    lemma_printable_is_valid(text);
}

/// The headers that authenticate a request made with `token`; an error where
/// `JWT {token}` cannot stand in a header value.
pub fn authenticated_header_map(token: &str) -> (r: Result<HeaderMap, HeaderError>)
    ensures
        r is Ok <==> is_header_value_text(authorization_text(token@)),
        r matches Ok(h) ==> header_values(h) == authenticated_headers(token@),
{
    let mut jwt = "JWT ".to_owned();
    jwt.append(token);
    let auth = match header_value_from_text(jwt.as_str()) {
        Ok(v) => v,
        Err(_) => {
            return Err(HeaderError::InvalidToken);
        },
    };
    proof {
        lemma_json_content_type_is_valid();
    }
    let content_type = match header_value_from_text("application/json") {
        Ok(v) => v,
        Err(_) => {
            return Err(HeaderError::InvalidToken);
        },
    };
    let mut headers = empty_header_map();
    insert_header(&mut headers, authorization_name(), auth);
    insert_header(&mut headers, content_type_name(), content_type);
    Ok(headers)
}

} // verus!
