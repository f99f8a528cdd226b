//! Token extraction: the segment that follows the first occurrence of a fixed
//! name, up to the next delimiter or the end of the text. This is the one
//! parsing step of the guard, shared by the cookie and the query lookups.

use vstd::prelude::*;

use crate::search::{find_from, find_from_index, matches_at};

verus! {

/// The segment of `s` that follows the first occurrence of `name`, cut at the
/// next occurrence of `delim`; `None` when `name` does not occur at all.
pub open spec fn spec_extract(s: Seq<char>, name: Seq<char>, delim: Seq<char>) -> Option<
    Seq<char>,
> {
    match find_from(s, name, 0) {
        None => None,
        Some(i) => {
            let start = i + name.len();
            let end = match find_from(s, delim, start) {
                Some(j) => j,
                None => s.len() as int,
            };
            Some(s.subrange(start, end))
        },
    }
}

/// The token the cookie header carries: the text after the first `_lv_csrf=`,
/// up to the next `;`.
pub open spec fn spec_cookie_token(s: Seq<char>) -> Option<Seq<char>> {
    spec_extract(s, "_lv_csrf="@, ";"@)
}

/// The token the URI query carries: the text after the first `csrf=`, up to
/// the next `&`.
pub open spec fn spec_query_token(q: Seq<char>) -> Option<Seq<char>> {
    spec_extract(q, "csrf="@, "&"@)
}

/// Extracts the segment of `s` after the first occurrence of `name`, up to
/// the next occurrence of `delim` or the end of `s`.
pub fn extract_after(s: &str, name: &str, delim: &str) -> (r: Option<String>)
    ensures
        match r {
            Some(t) => spec_extract(s@, name@, delim@) == Some(t@),
            None => spec_extract(s@, name@, delim@) is None,
        },
{
    let slen = s.unicode_len();
    match find_from_index(s, name, 0) {
        None => None,
        Some(i) => {
            let nlen = name.unicode_len();
            let start = i + nlen;
            let end = match find_from_index(s, delim, start) {
                Some(j) => j,
                None => slen,
            };
            let tok = s.substring_char(start, end);
            Some(tok.to_owned())
        },
    }
}

/// Retrieves the CSRF token from the text of a `Cookie` request header.
pub fn token_from_cookie_value(cookie: &str) -> (r: Option<String>)
    ensures
        match r {
            Some(t) => spec_cookie_token(cookie@) == Some(t@),
            None => spec_cookie_token(cookie@) is None,
        },
{
    extract_after(cookie, "_lv_csrf=", ";")
}

/// Retrieves the CSRF token from the query component of a URI.
pub fn token_from_query(query: &str) -> (r: Option<String>)
    ensures
        match r {
            Some(t) => spec_query_token(query@) == Some(t@),
            None => spec_query_token(query@) is None,
        },
{
    extract_after(query, "csrf=", "&")
}

} // verus!
