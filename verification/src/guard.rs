//! The guard at the HTTP boundary: stamping the token into a response header
//! collection, reading it back from a request's cookie header or URI, and the
//! fixed rejection of a refused handshake. The header collection, the URI and
//! the response are axum's; each call into them stands behind a trusted item
//! whose contract the surrounding verified code is proved against.

use vstd::prelude::*;
use vstd::string::StringSliceAdditionalSpecFns;
use vstd::utf8::{decode_utf8, encode_utf8};

use std::hash::{BuildHasher, Hasher};

use crate::cookie::{
    cookie_value_with, lemma_cookie_value_printable, lemma_cookie_value_round_trip, SameSite,
    spec_cookie_value, spec_cookie_value_with,
};
use crate::decimal::spec_decimal;
use crate::extract::{
    spec_cookie_token, spec_query_token, token_from_cookie_value, token_from_query,
};

verus! {

#[verifier::external_type_specification]
#[verifier::external_body]
#[verifier::reject_recursive_types(T)]
pub struct ExHeaderMap<T>(axum::http::HeaderMap<T>);

#[verifier::external_type_specification]
#[verifier::external_body]
pub struct ExHeaderValue(axum::http::HeaderValue);

#[verifier::external_type_specification]
#[verifier::external_body]
pub struct ExUri(axum::http::Uri);

#[verifier::external_type_specification]
#[verifier::external_body]
#[verifier::reject_recursive_types(B)]
pub struct ExResponse<B>(axum::http::Response<B>);

#[verifier::external_type_specification]
#[verifier::external_body]
pub struct ExBody(axum::body::Body);

/// What a header collection holds: for each header name present, the bytes of
/// the first value stored under it.
pub uninterp spec fn header_entries(headers: axum::http::HeaderMap) -> Map<Seq<char>, Seq<u8>>;

/// Whether a header collection can take one more value: http's map refuses an
/// insertion, leaving its contents untouched, only when it stands at its
/// maximum size.
pub uninterp spec fn header_room(headers: axum::http::HeaderMap) -> bool;

/// The query component a URI holds, without the leading question mark.
pub uninterp spec fn uri_query_of(uri: axum::http::Uri) -> Option<Seq<char>>;

/// The status code a response carries.
pub uninterp spec fn response_status_of(response: axum::response::Response) -> u16;

/// The bytes a response's body carries.
pub uninterp spec fn response_body_of(response: axum::response::Response) -> Seq<u8>;

/// The name of the request header that carries cookies.
pub open spec fn cookie_key() -> Seq<char> {
    "cookie"@
}

/// The name of the response header that sets a cookie.
pub open spec fn set_cookie_key() -> Seq<char> {
    "set-cookie"@
}

/// A byte that a header value may hold: 32 to 255, excluding 127, plus tab.
pub open spec fn valid_value_byte(b: u8) -> bool {
    b == 9 || (b >= 32 && b != 127)
}

/// A byte of a header value that reads back as text: visible ASCII, space or
/// tab.
pub open spec fn visible_byte(b: u8) -> bool {
    b == 9 || (32 <= b && b < 127)
}

pub open spec fn valid_value_bytes(s: Seq<u8>) -> bool {
    forall|i: int| 0 <= i < s.len() ==> valid_value_byte(#[trigger] s[i])
}

pub open spec fn visible_bytes(s: Seq<u8>) -> bool {
    forall|i: int| 0 <= i < s.len() ==> visible_byte(#[trigger] s[i])
}

/// Relies on http's `HeaderValue::from_str`, which accepts a string exactly
/// when every byte is 32..=255 except 127, or tab, and on http's
/// `HeaderMap::try_insert` with the `set-cookie` name, which succeeds exactly
/// when the map is below its maximum size, on success replaces every value
/// stored under that name with the given one, and on failure leaves the map
/// unchanged.
#[verifier::external_body]
fn insert_set_cookie(headers: &mut axum::http::HeaderMap, value: &str) -> (ok: bool)
    ensures
        ok == (valid_value_bytes(value.spec_bytes()) && header_room(*old(headers))),
        ok ==> header_entries(*final(headers)) == header_entries(*old(headers)).insert(
            set_cookie_key(),
            value.spec_bytes(),
        ),
        !ok ==> header_entries(*final(headers)) == header_entries(*old(headers)),
{
    match axum::http::HeaderValue::from_str(value) {
        Ok(v) => headers.try_insert(axum::http::header::SET_COOKIE, v).is_ok(),
        Err(_) => false,
    }
}

/// Relies on http's `HeaderMap::get` with the `cookie` name, which returns
/// the first value stored under that name, and on http's
/// `HeaderValue::to_str`, which succeeds exactly when every byte of the value
/// is visible ASCII, space or tab, and then yields those very bytes as text.
#[verifier::external_body]
fn cookie_header_value(headers: &axum::http::HeaderMap) -> (r: Option<String>)
    ensures
        match r {
            Some(s) => header_entries(*headers).contains_key(cookie_key()) && visible_bytes(
                header_entries(*headers)[cookie_key()],
            ) && encode_utf8(s@) == header_entries(*headers)[cookie_key()],
            None => !(header_entries(*headers).contains_key(cookie_key()) && visible_bytes(
                header_entries(*headers)[cookie_key()],
            )),
        },
{
    match headers.get(axum::http::header::COOKIE) {
        Some(v) => match v.to_str() {
            Ok(s) => Some(s.to_owned()),
            Err(_) => None,
        },
        None => None,
    }
}

/// Relies on http's `Uri::query`, which returns the query component of the
/// URI, without the leading question mark, or nothing when the URI has no
/// query.
#[verifier::external_body]
fn uri_query(uri: &axum::http::Uri) -> (r: Option<String>)
    ensures
        match r {
            Some(s) => uri_query_of(*uri) == Some(s@),
            None => uri_query_of(*uri) is None,
        },
{
    match uri.query() {
        Some(s) => Some(s.to_owned()),
        None => None,
    }
}

/// Relies on std's `RandomState`: a fresh hasher seeded from per-process
/// entropy, finished at once, yields an arbitrary 64-bit value. Nothing is
/// promised of the result.
#[verifier::external_body]
fn fresh_hash_value() -> u64 {
    std::collections::hash_map::RandomState::new().build_hasher().finish()
}

/// Generates a random CSRF token. The token is unguessable across origins
/// only because the cookie that carries it cannot be read there; no single
/// value is promised, and none is excluded.
pub fn random_token() -> u64 {
    fresh_hash_value()
}

/// Relies on axum's `IntoResponse` for `(StatusCode, String)`: a response
/// with status 403 Forbidden whose body carries the string's bytes.
#[verifier::external_body]
fn forbidden_response(body: String) -> (r: axum::response::Response)
    ensures
        response_status_of(r) == 403,
        response_body_of(r) == encode_utf8(body@),
{
    axum::response::IntoResponse::into_response((axum::http::StatusCode::FORBIDDEN, body))
}

/// Stamps `token` into the headers as the CSRF cookie under a given
/// `SameSite` policy. The cookie value is always a well-formed header value,
/// so stamping succeeds whenever the headers have room for one more value;
/// it fails open only on a full map, leaving the headers unchanged so that
/// any later comparison fails closed for want of a cookie.
pub fn stamp_token_with(headers: &mut axum::http::HeaderMap, token: u64, policy: SameSite) -> (stamped: bool)
    ensures
        stamped == header_room(*old(headers)),
        stamped ==> header_entries(*final(headers)) == header_entries(*old(headers)).insert(
            set_cookie_key(),
            encode_utf8(spec_cookie_value_with(token, policy)),
        ),
        !stamped ==> header_entries(*final(headers)) == header_entries(*old(headers)),
{
    let value = cookie_value_with(token, policy);
    proof {
        broadcast use vstd::utf8::is_ascii_chars_encode_utf8;

        lemma_cookie_value_printable(token, policy);
        assert(valid_value_bytes(encode_utf8(spec_cookie_value_with(token, policy)))) by {
            let v = spec_cookie_value_with(token, policy);
            assert forall|i: int| 0 <= i < encode_utf8(v).len() implies valid_value_byte(
                #[trigger] encode_utf8(v)[i],
            ) by {
                assert(encode_utf8(v)[i] == v[i] as u8);
                assert(' ' <= v[i] <= '~');
            }
        }
    }
    insert_set_cookie(headers, value.as_str())
}

/// Stamps `token` into the headers as the CSRF cookie under the default
/// `SameSite=Lax` policy.
pub fn stamp_token(headers: &mut axum::http::HeaderMap, token: u64) -> (stamped: bool)
    ensures
        stamped == header_room(*old(headers)),
        stamped ==> header_entries(*final(headers)) == header_entries(*old(headers)).insert(
            set_cookie_key(),
            encode_utf8(spec_cookie_value(token)),
        ),
        !stamped ==> header_entries(*final(headers)) == header_entries(*old(headers)),
{
    stamp_token_with(headers, token, SameSite::Lax)
}

/// Sets a cookie with a random CSRF token under a given `SameSite` policy:
/// whenever the headers have room for one more value, they gain the
/// `Set-Cookie` value for some token; only a full map is left unchanged.
pub fn set_cookie_with(headers: &mut axum::http::HeaderMap, policy: SameSite)
    ensures
        header_room(*old(headers)) ==> (exists|t: u64|
            header_entries(*final(headers)) == header_entries(*old(headers)).insert(
                set_cookie_key(),
                encode_utf8(spec_cookie_value_with(t, policy)),
            )),
        !header_room(*old(headers)) ==> header_entries(*final(headers)) == header_entries(
            *old(headers),
        ),
{
    let token = random_token();
    if stamp_token_with(headers, token, policy) {
        proof {
            assert(header_entries(*headers) == header_entries(*old(headers)).insert(
                set_cookie_key(),
                encode_utf8(spec_cookie_value_with(token, policy)),
            ));
        }
    }
}

/// Sets a cookie with a random CSRF token under the default `SameSite=Lax`
/// policy: whenever the headers have room for one more value, they gain the
/// `Set-Cookie` value for some token; only a full map is left unchanged.
pub fn set_cookie(headers: &mut axum::http::HeaderMap)
    ensures
        header_room(*old(headers)) ==> (exists|t: u64|
            header_entries(*final(headers)) == header_entries(*old(headers)).insert(
                set_cookie_key(),
                encode_utf8(spec_cookie_value(t)),
            )),
        !header_room(*old(headers)) ==> header_entries(*final(headers)) == header_entries(
            *old(headers),
        ),
{
    set_cookie_with(headers, SameSite::Lax);
    proof {
        if header_room(*old(headers)) {
            let t = choose|t: u64|
                header_entries(*headers) == header_entries(*old(headers)).insert(
                    set_cookie_key(),
                    encode_utf8(spec_cookie_value_with(t, SameSite::Lax)),
                );
            assert(header_entries(*headers) == header_entries(*old(headers)).insert(
                set_cookie_key(),
                encode_utf8(spec_cookie_value(t)),
            ));
        }
    }
}

/// What a cookie-token lookup on a header collection yields: the extracted
/// token when a cookie header is present and reads back as text, and nothing
/// otherwise.
pub open spec fn spec_cookie_lookup(entries: Map<Seq<char>, Seq<u8>>) -> Option<Seq<char>> {
    if entries.contains_key(cookie_key()) && visible_bytes(entries[cookie_key()]) {
        spec_cookie_token(decode_utf8(entries[cookie_key()]))
    } else {
        None
    }
}

/// What a URI-token lookup yields: the extracted token of the query when the
/// URI has one, and nothing otherwise.
pub open spec fn spec_uri_lookup(query: Option<Seq<char>>) -> Option<Seq<char>> {
    match query {
        Some(q) => spec_query_token(q),
        None => None,
    }
}

/// Retrieves the CSRF token from the request's cookie header. An absent,
/// unreadable or token-less cookie header yields nothing; it is never an
/// error.
pub fn token_from_cookies(headers: &axum::http::HeaderMap) -> (r: Option<String>)
    ensures
        match r {
            Some(t) => spec_cookie_lookup(header_entries(*headers)) == Some(t@),
            None => spec_cookie_lookup(header_entries(*headers)) is None,
        },
{
    match cookie_header_value(headers) {
        None => None,
        Some(s) => {
            proof {
                broadcast use vstd::utf8::encode_utf8_decode_utf8;

                assert(decode_utf8(header_entries(*headers)[cookie_key()]) == s@);
            }
            token_from_cookie_value(s.as_str())
        },
    }
}

/// Retrieves the CSRF token from the URI's query component. A URI without a
/// query, or without the token among its parameters, yields nothing; it is
/// never an error.
pub fn token_from_uri(uri: &axum::http::Uri) -> (r: Option<String>)
    ensures
        match r {
            Some(t) => spec_uri_lookup(uri_query_of(*uri)) == Some(t@),
            None => spec_uri_lookup(uri_query_of(*uri)) is None,
        },
{
    match uri_query(uri) {
        None => None,
        Some(q) => token_from_query(q.as_str()),
    }
}

/// A refused handshake: the fixed Forbidden status and the caller's short
/// explanatory message.
pub struct Rejection {
    pub status: u16,
    pub body: String,
}

/// Builds the uniform rejection of a refused handshake: status 403 with the
/// given reason as its body.
pub fn rejection(reason: &'static str) -> (r: Rejection)
    ensures
        r.status == 403,
        r.body@ == reason@,
{
    Rejection { status: 403, body: reason.to_owned() }
}

/// The rejection as an axum response, for the transport layer attempting the
/// upgrade: status 403 Forbidden, the reason as its body.
pub fn rejection_response(reason: &'static str) -> (response: axum::response::Response)
    ensures
        response_status_of(response) == 403,
        response_body_of(response) == encode_utf8(reason@),
{
    let r = rejection(reason);
    forbidden_response(r.body)
}

/// Law: a header collection without a cookie header yields no token.
pub proof fn lemma_no_cookie_header_no_token(entries: Map<Seq<char>, Seq<u8>>)
    requires
        !entries.contains_key(cookie_key()),
    ensures
        spec_cookie_lookup(entries) is None,
{
}

/// Law: a URI without a query string yields no token.
pub proof fn lemma_no_query_no_token(query: Option<Seq<char>>)
    requires
        query is None,
    ensures
        spec_uri_lookup(query) is None,
{
}

/// Law: stamping a token under any `SameSite` policy and then looking the
/// cookie up on a synthetic request whose cookie header holds the stamped
/// value yields exactly the token's decimal text, which is non-empty.
pub proof fn lemma_stamp_then_extract(token: u64, policy: SameSite)
    ensures
        spec_cookie_lookup(
            map![cookie_key() => encode_utf8(spec_cookie_value_with(token, policy))],
        ) == Some(spec_decimal(token as int)),
        spec_decimal(token as int).len() >= 1,
{
    broadcast use vstd::utf8::is_ascii_chars_encode_utf8;

    lemma_cookie_value_printable(token, policy);
    lemma_cookie_value_round_trip(token, policy);
    let v = spec_cookie_value_with(token, policy);
    let bytes = encode_utf8(v);
    assert(visible_bytes(bytes)) by {
        assert forall|i: int| 0 <= i < bytes.len() implies visible_byte(#[trigger] bytes[i]) by {
            assert(bytes[i] == v[i] as u8);
            assert(' ' <= v[i] <= '~');
        }
    }
    assert(decode_utf8(bytes) == v) by {
        broadcast use vstd::utf8::encode_utf8_decode_utf8;

    }
    assert(map![cookie_key() => bytes][cookie_key()] == bytes);
}

} // verus!
