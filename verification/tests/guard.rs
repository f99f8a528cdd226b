use axum::http::header::{COOKIE, SET_COOKIE};
use axum::http::{HeaderMap, HeaderValue, Uri};

use csrf_guard::cookie::{cookie_value_for, cookie_value_with, SameSite};
use csrf_guard::extract::{token_from_cookie_value, token_from_query};
use csrf_guard::guard::{
    random_token, rejection, rejection_response, set_cookie, set_cookie_with, stamp_token,
    stamp_token_with, token_from_cookies, token_from_uri,
};

#[test]
fn no_cookie_header_yields_none() {
    let headers = HeaderMap::new();
    assert_eq!(token_from_cookies(&headers), None);
}

#[test]
fn other_headers_only_yields_none() {
    let mut headers = HeaderMap::new();
    headers.insert(SET_COOKIE, HeaderValue::from_static("foo=bar"));
    assert_eq!(token_from_cookies(&headers), None);
}

#[test]
fn unreadable_cookie_header_yields_none() {
    let mut headers = HeaderMap::new();
    let raw = HeaderValue::from_bytes(&[b'_', b'l', b'v', 0x80]).unwrap();
    headers.insert(COOKIE, raw);
    assert_eq!(token_from_cookies(&headers), None);
}

#[test]
fn unreadable_byte_beside_token_yields_none() {
    let mut headers = HeaderMap::new();
    let mut bytes = b"_lv_csrf=123".to_vec();
    bytes.push(0x80);
    let raw = HeaderValue::from_bytes(&bytes).unwrap();
    headers.insert(COOKIE, raw);
    assert_eq!(token_from_cookies(&headers), None);
}

#[test]
fn no_query_yields_none() {
    let uri: Uri = "/hello/world".parse().unwrap();
    assert_eq!(token_from_uri(&uri), None);
}

#[test]
fn query_without_token_yields_none() {
    let uri: Uri = "http://example.com/live?a=1&b=2".parse().unwrap();
    assert_eq!(token_from_uri(&uri), None);
}

#[test]
fn stamp_then_extract_round_trip() {
    let mut headers = HeaderMap::new();
    set_cookie(&mut headers);
    let stamped = headers.get(SET_COOKIE).expect("a cookie was stamped");
    let stamped = stamped.to_str().expect("the stamped value is text");

    let mut request = HeaderMap::new();
    request.insert(COOKIE, HeaderValue::from_str(stamped).unwrap());
    let token = token_from_cookies(&request).expect("the token comes back");
    assert!(!token.is_empty());
    assert!(token.chars().all(|c| c.is_ascii_digit()));
    token.parse::<u64>().expect("the token is the decimal form of a 64-bit value");
}

#[test]
fn cookie_among_other_cookies() {
    assert_eq!(
        token_from_cookie_value("foo=bar; _lv_csrf=12345; other=1"),
        Some("12345".to_owned())
    );
    let mut headers = HeaderMap::new();
    headers.insert(
        COOKIE,
        HeaderValue::from_static("foo=bar; _lv_csrf=12345; other=1"),
    );
    assert_eq!(token_from_cookies(&headers), Some("12345".to_owned()));
}

#[test]
fn query_among_other_parameters() {
    assert_eq!(token_from_query("a=1&csrf=98765&b=2"), Some("98765".to_owned()));
    let uri: Uri = "http://example.com/live?a=1&csrf=98765&b=2".parse().unwrap();
    assert_eq!(token_from_uri(&uri), Some("98765".to_owned()));
}

#[test]
fn duplicate_cookie_key_first_occurrence_wins() {
    assert_eq!(
        token_from_cookie_value("_lv_csrf=111;_lv_csrf=222"),
        Some("111".to_owned())
    );
}

#[test]
fn duplicate_query_key_first_occurrence_wins() {
    assert_eq!(token_from_query("csrf=111&csrf=222"), Some("111".to_owned()));
}

#[test]
fn two_stamps_differ() {
    let mut first = HeaderMap::new();
    let mut second = HeaderMap::new();
    set_cookie(&mut first);
    set_cookie(&mut second);
    assert_ne!(
        first.get(SET_COOKIE).unwrap(),
        second.get(SET_COOKIE).unwrap()
    );
    assert_ne!(random_token(), random_token());
}

#[test]
fn rejection_is_forbidden_with_reason() {
    let r = rejection("bad csrf");
    assert_eq!(r.status, 403);
    assert!(r.body.contains("bad csrf"));
}

#[test]
fn rejection_response_is_forbidden() {
    let response = rejection_response("bad csrf");
    assert_eq!(response.status(), axum::http::StatusCode::FORBIDDEN);
}

#[test]
fn stamped_value_is_exact() {
    let mut headers = HeaderMap::new();
    assert!(stamp_token(&mut headers, 42));
    let value = headers.get(SET_COOKIE).unwrap().to_str().unwrap();
    assert_eq!(value, "_lv_csrf=42; SameSite=Lax");
}

#[test]
fn cookie_value_formula() {
    assert_eq!(cookie_value_for(0), "_lv_csrf=0; SameSite=Lax");
    assert_eq!(cookie_value_for(9), "_lv_csrf=9; SameSite=Lax");
    assert_eq!(cookie_value_for(1234567890), "_lv_csrf=1234567890; SameSite=Lax");
    assert_eq!(
        cookie_value_for(u64::MAX),
        "_lv_csrf=18446744073709551615; SameSite=Lax"
    );
}

#[test]
fn cookie_value_same_site_policies() {
    assert_eq!(cookie_value_with(7, SameSite::Omit), "_lv_csrf=7");
    assert_eq!(cookie_value_with(7, SameSite::Lax), "_lv_csrf=7; SameSite=Lax");
    assert_eq!(cookie_value_with(7, SameSite::Strict), "_lv_csrf=7; SameSite=Strict");
    assert_eq!(cookie_value_with(7, SameSite::NoneValue), "_lv_csrf=7; SameSite=None");
}

#[test]
fn stamp_with_policy_is_exact() {
    let mut headers = HeaderMap::new();
    assert!(stamp_token_with(&mut headers, 5, SameSite::Strict));
    let value = headers.get(SET_COOKIE).unwrap().to_str().unwrap();
    assert_eq!(value, "_lv_csrf=5; SameSite=Strict");
}

#[test]
fn stamp_without_attribute_round_trips() {
    let mut headers = HeaderMap::new();
    set_cookie_with(&mut headers, SameSite::Omit);
    let stamped = headers.get(SET_COOKIE).unwrap().to_str().unwrap();
    let mut request = HeaderMap::new();
    request.insert(COOKIE, HeaderValue::from_str(stamped).unwrap());
    let token = token_from_cookies(&request).expect("the token comes back");
    assert!(!token.is_empty());
    assert!(token.chars().all(|c| c.is_ascii_digit()));
}

#[test]
fn stamping_overwrites_an_earlier_cookie() {
    let mut headers = HeaderMap::new();
    assert!(stamp_token(&mut headers, 1));
    assert!(stamp_token(&mut headers, 2));
    let value = headers.get(SET_COOKIE).unwrap().to_str().unwrap();
    assert_eq!(value, "_lv_csrf=2; SameSite=Lax");
    assert_eq!(headers.len(), 1);
}

#[test]
fn empty_token_before_delimiter() {
    assert_eq!(token_from_cookie_value("_lv_csrf=;other=1"), Some(String::new()));
    assert_eq!(token_from_query("csrf="), Some(String::new()));
}

#[test]
fn token_at_end_of_text() {
    assert_eq!(token_from_cookie_value("a=b; _lv_csrf=777"), Some("777".to_owned()));
    assert_eq!(token_from_query("x=y&csrf=888"), Some("888".to_owned()));
}

#[test]
fn name_absent_yields_none() {
    assert_eq!(token_from_cookie_value("foo=bar"), None);
    assert_eq!(token_from_cookie_value(""), None);
    assert_eq!(token_from_query(""), None);
    assert_eq!(token_from_query("csr=1"), None);
}

#[test]
fn leftmost_match_inside_longer_name_wins() {
    assert_eq!(token_from_cookie_value("x_lv_csrf=7; _lv_csrf=8"), Some("7".to_owned()));
    assert_eq!(token_from_query("xcsrf=5&csrf=6"), Some("5".to_owned()));
}

#[test]
fn unicode_around_the_token() {
    assert_eq!(
        token_from_cookie_value("héllo=wörld; _lv_csrf=99"),
        Some("99".to_owned())
    );
    assert_eq!(token_from_query("café=1&csrf=3&x=2"), Some("3".to_owned()));
}
