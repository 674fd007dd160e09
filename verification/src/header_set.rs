//! The headers that every outbound request carries.
//!
//! The map, its names and its values are `http`'s, reached through `reqwest`.
//! The functions at the end of this file are the only ones that touch them;
//! their contracts speak of what a map holds, not of how it holds it.

use crate::error::RequestError;
use vstd::prelude::*;
use vstd::utf8::{char_is_scalar, encode_scalar, encode_utf8, has_width_1_encoding};

verus! {

/// `http`'s header map, carried through as it is.
#[verifier::external_type_specification]
#[verifier::external_body]
#[verifier::reject_recursive_types(T)]
pub struct ExHeaderMap<T>(reqwest::header::HeaderMap<T>);

/// `http`'s header name, carried through as it is.
#[verifier::external_type_specification]
#[verifier::external_body]
pub struct ExHeaderName(reqwest::header::HeaderName);

/// `http`'s header value, carried through as it is.
#[verifier::external_type_specification]
#[verifier::external_body]
pub struct ExHeaderValue(reqwest::header::HeaderValue);

/// What a `HeaderMap` holds: under each header name, in lower case, the bytes
/// of the first value stored for it.
pub uninterp spec fn header_values(map: reqwest::header::HeaderMap) -> Map<Seq<char>, Seq<u8>>;

/// How many different names a `HeaderMap` holds.
pub uninterp spec fn header_count(map: reqwest::header::HeaderMap) -> nat;

/// The lower-case text of a `HeaderName`.
pub uninterp spec fn header_name_text(name: reqwest::header::HeaderName) -> Seq<char>;

/// The bytes of a `HeaderValue`.
pub uninterp spec fn header_value_bytes(value: reqwest::header::HeaderValue) -> Seq<u8>;

/// A map with fewer names than this takes one more without fail.
const HEADER_ROOM: usize = 4096;

/// The bytes that a header value made from text may hold: everything from the
/// space upwards but DEL, and the tab.
pub open spec fn header_byte_ok(byte: u8) -> bool {
    (byte >= 32 && byte != 127) || byte == 9
}

/// Every byte may stand in a header value.
pub open spec fn header_bytes_ok(bytes: Seq<u8>) -> bool {
    forall|i: int| 0 <= i < bytes.len() ==> header_byte_ok(#[trigger] bytes[i])
}

/// The characters that a header value made from text may hold: the tab and
/// everything from the space upwards but DEL.
pub open spec fn header_char_ok(c: char) -> bool {
    c == '\t' || (' ' <= c && c != '\u{7f}')
}

/// Every character may stand in a header value.
pub open spec fn header_text_ok(text: Seq<char>) -> bool {
    forall|i: int| 0 <= i < text.len() ==> header_char_ok(#[trigger] text[i])
}

/// The content of a map that holds nothing.
pub open spec fn no_headers() -> Map<Seq<char>, Seq<u8>> {
    Map::empty()
}

/// The value sent under `Authorization` for `token`.
pub open spec fn authorization_text(token: Seq<char>) -> Seq<char> {
    "token "@ + token
}

/// The header set for `token`: the bearer authorisation, the media type that
/// is accepted, and the name the client goes by.
pub open spec fn header_set(token: Seq<char>) -> Map<Seq<char>, Seq<u8>> {
    map![
        "authorization"@ => encode_utf8(authorization_text(token)),
        "accept"@ => encode_utf8("application/vnd.github.v3+json"@),
        "user-agent"@ => encode_utf8("Reqwest"@),
    ]
}

/// A sequence of two parts is fit for a header value exactly when both parts
/// are.
pub proof fn lemma_header_bytes_ok_concat(a: Seq<u8>, b: Seq<u8>)
    ensures
        header_bytes_ok(a + b) <==> header_bytes_ok(a) && header_bytes_ok(b),
{
    if header_bytes_ok(a + b) {
        assert forall|i: int| 0 <= i < a.len() implies header_byte_ok(#[trigger] a[i]) by {
            assert((a + b)[i] == a[i]);
        }
        assert forall|i: int| 0 <= i < b.len() implies header_byte_ok(#[trigger] b[i]) by {
            assert((a + b)[a.len() + i] == b[i]);
        }
    }
}

/// A text of two parts is fit for a header value exactly when both parts are.
pub proof fn lemma_header_text_ok_concat(a: Seq<char>, b: Seq<char>)
    ensures
        header_text_ok(a + b) <==> header_text_ok(a) && header_text_ok(b),
{
    if header_text_ok(a + b) {
        assert forall|i: int| 0 <= i < a.len() implies header_char_ok(#[trigger] a[i]) by {
            assert((a + b)[i] == a[i]);
        }
        assert forall|i: int| 0 <= i < b.len() implies header_char_ok(#[trigger] b[i]) by {
            assert((a + b)[a.len() + i] == b[i]);
        }
    }
}

/// The bytes of one character are fit for a header value exactly when the
/// character is: below 128 the byte is the character, and from 128 upwards
/// every byte of the encoding is itself at least 128.
pub proof fn lemma_header_char_bytes(c: char)
    ensures
        header_bytes_ok(encode_scalar(c as u32)) <==> header_char_ok(c),
{
    let scalar = c as u32;
    let bytes = encode_scalar(scalar);
    char_is_scalar(c);
    if has_width_1_encoding(scalar) {
        assert((scalar & 0x7F) as u8 == scalar) by (bit_vector)
            requires
                scalar <= 0x7F,
        ;
        assert(bytes[0] == scalar);
    } else {
        assert forall|lead: u8, rest: u8| lead >= 0x80 implies #[trigger] (lead | rest) >= 0x80 by {
            assert(lead >= 0x80 ==> (lead | rest) >= 0x80) by (bit_vector);
        }
        assert(header_bytes_ok(bytes));
    }
}

/// A text is fit for a header value exactly when the bytes of its encoding
/// are.
pub proof fn lemma_header_text_bytes(text: Seq<char>)
    ensures
        header_bytes_ok(encode_utf8(text)) <==> header_text_ok(text),
    decreases text.len(),
{
    if text.len() > 0 {
        let head = encode_scalar(text[0] as u32);
        let tail = text.drop_first();
        lemma_header_char_bytes(text[0]);
        lemma_header_text_bytes(tail);
        lemma_header_bytes_ok_concat(head, encode_utf8(tail));
        assert(text =~= seq![text[0]] + tail);
        lemma_header_text_ok_concat(seq![text[0]], tail);
    }
}

/// The fixed part of the authorisation value is fit for a header, so the whole
/// value is fit exactly when the token is.
pub proof fn lemma_authorization_ok(token: Seq<char>)
    ensures
        header_bytes_ok(encode_utf8(authorization_text(token))) <==> header_text_ok(token),
{
    reveal_strlit("token ");
    lemma_header_text_bytes(authorization_text(token));
    lemma_header_text_ok_concat("token "@, token);
}

/// The two fixed values are fit for a header.
pub proof fn lemma_fixed_values_ok()
    ensures
        header_bytes_ok(encode_utf8("application/vnd.github.v3+json"@)),
        header_bytes_ok(encode_utf8("Reqwest"@)),
{
    reveal_strlit("application/vnd.github.v3+json");
    reveal_strlit("Reqwest");
    lemma_header_text_bytes("application/vnd.github.v3+json"@);
    lemma_header_text_bytes("Reqwest"@);
}

/// `built` is what building the headers for `token` comes to: the token is
/// refused, as a header that does not parse, exactly when one of its
/// characters cannot stand in a header value; otherwise the map holds the
/// three entries of [`header_set`] and nothing else.
pub open spec fn built_for(
    token: Seq<char>,
    built: Result<reqwest::header::HeaderMap, RequestError>,
) -> bool {
    if header_text_ok(token) {
        built matches Ok(map) && header_values(map) == header_set(token)
    } else {
        built matches Err(err) && err is HeaderParseError
    }
}

/// The three header names are different texts.
pub proof fn lemma_header_names_differ()
    ensures
        "authorization"@ != "accept"@,
        "authorization"@ != "user-agent"@,
        "accept"@ != "user-agent"@,
{
    reveal_strlit("authorization");
    reveal_strlit("accept");
    reveal_strlit("user-agent");
    assert("authorization"@.len() == 13);
    assert("accept"@.len() == 6);
    assert("user-agent"@.len() == 10);
}

/// The header set of any token holds the bearer authorisation for that token,
/// the accepted media type and the client's name, under these three names and
/// no other.
pub proof fn lemma_header_set_entries(token: Seq<char>)
    ensures
        header_set(token).dom() == set!["authorization"@, "accept"@, "user-agent"@],
        header_set(token)["authorization"@] == encode_utf8("token "@ + token),
        header_set(token)["accept"@] == encode_utf8("application/vnd.github.v3+json"@),
        header_set(token)["user-agent"@] == encode_utf8("Reqwest"@),
{
    lemma_header_names_differ();
    assert(header_set(token).dom() =~= set!["authorization"@, "accept"@, "user-agent"@]);
}

/// Building is a function of the token: two outcomes for one token are both
/// refusals, or both maps with the same content.
pub proof fn lemma_headers_deterministic(
    token: Seq<char>,
    first: Result<reqwest::header::HeaderMap, RequestError>,
    second: Result<reqwest::header::HeaderMap, RequestError>,
)
    requires
        built_for(token, first),
        built_for(token, second),
    ensures
        first is Ok <==> second is Ok,
        first is Ok ==> header_values(first->Ok_0) == header_values(second->Ok_0),
{
}

/// A token with a carriage return or a line feed in it is refused, whether
/// one looks at its characters or at its bytes.
pub proof fn lemma_line_break_refused(
    token: Seq<char>,
    built: Result<reqwest::header::HeaderMap, RequestError>,
)
    requires
        built_for(token, built),
        token.contains('\r') || token.contains('\n') || encode_utf8(token).contains(13u8)
            || encode_utf8(token).contains(10u8),
    ensures
        built matches Err(err) && err is HeaderParseError,
{
    lemma_header_text_bytes(token);
}

/// Builds the headers of an outbound request for `token`.
pub fn headers(token: &str) -> (built: Result<reqwest::header::HeaderMap, RequestError>)
    ensures
        built_for(token@, built),
{
    proof {
        lemma_authorization_ok(token@);
        lemma_fixed_values_ok();
    }
    let mut headers = header_map_new();
    let auth_value = "token ".to_owned().concat(token);
    let authorization = match parse_header_value(auth_value.as_str()) {
        Ok(value) => value,
        Err(err) => {
            return Err(RequestError::from(err));
        },
    };
    header_map_insert(&mut headers, authorization_name(), authorization);
    let accept = match parse_header_value("application/vnd.github.v3+json") {
        Ok(value) => value,
        Err(err) => {
            return Err(RequestError::from(err));
        },
    };
    header_map_insert(&mut headers, accept_name(), accept);
    let user_agent = match parse_header_value("Reqwest") {
        Ok(value) => value,
        Err(err) => {
            return Err(RequestError::from(err));
        },
    };
    header_map_insert(&mut headers, user_agent_name(), user_agent);
    Ok(headers)
}

/// `HeaderMap::new`: a map that holds nothing.
#[verifier::external_body]
fn header_map_new() -> (map: reqwest::header::HeaderMap)
    ensures
        header_values(map) == no_headers(),
        header_count(map) == 0,
{
    reqwest::header::HeaderMap::new()
}

/// `HeaderMap::insert`: afterwards `name` holds `value` alone, and every other
/// name holds what it held; the count grows by one exactly when the name is
/// new. The map panics when it would have to grow past 32768 slots, which
/// takes at least 6554 names: `HEADER_ROOM` stays below that.
#[verifier::external_body]
fn header_map_insert(
    map: &mut reqwest::header::HeaderMap,
    name: reqwest::header::HeaderName,
    value: reqwest::header::HeaderValue,
)
    requires
        header_count(*old(map)) < HEADER_ROOM,
    ensures
        header_values(*final(map)) == header_values(*old(map)).insert(
            header_name_text(name),
            header_value_bytes(value),
        ),
        header_values(*old(map)).contains_key(header_name_text(name)) ==> header_count(
            *final(map),
        ) == header_count(*old(map)),
        !header_values(*old(map)).contains_key(header_name_text(name)) ==> header_count(
            *final(map),
        ) == header_count(*old(map)) + 1,
{
    map.insert(name, value);
}

/// `HeaderValue::from_str`: accepts `text` exactly when each of its bytes is
/// the tab or lies from 32 upwards without being 127, and then holds the bytes
/// of `text` unchanged.
#[verifier::external_body]
fn parse_header_value(text: &str) -> (parsed: Result<
    reqwest::header::HeaderValue,
    reqwest::header::InvalidHeaderValue,
>)
    ensures
        parsed is Ok <==> header_bytes_ok(encode_utf8(text@)),
        parsed matches Ok(value) ==> header_value_bytes(value) == encode_utf8(text@),
{
    reqwest::header::HeaderValue::from_str(text)
}

/// The constant `AUTHORIZATION`.
#[verifier::external_body]
fn authorization_name() -> (name: reqwest::header::HeaderName)
    ensures
        header_name_text(name) == "authorization"@,
{
    reqwest::header::AUTHORIZATION
}

/// The constant `ACCEPT`.
#[verifier::external_body]
fn accept_name() -> (name: reqwest::header::HeaderName)
    ensures
        header_name_text(name) == "accept"@,
{
    reqwest::header::ACCEPT
}

/// The constant `USER_AGENT`.
#[verifier::external_body]
fn user_agent_name() -> (name: reqwest::header::HeaderName)
    ensures
        header_name_text(name) == "user-agent"@,
{
    reqwest::header::USER_AGENT
}

} // verus!
