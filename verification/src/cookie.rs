//! The `Set-Cookie` value the guard stamps: its specification, an executable
//! builder proved against it, and the laws that the value is plain printable
//! ASCII and that extraction recovers exactly the token it embeds.

use vstd::prelude::*;
use vstd::utf8::is_ascii_chars;

use crate::decimal::{lemma_decimal_digits, spec_decimal, u64_to_decimal};
use crate::extract::spec_cookie_token;
use crate::search::{find_from, lemma_find_from, matches_at};

verus! {

/// The `SameSite` attribute stamped beside the token: absent, `Lax`,
/// `Strict`, or the literal `SameSite=None`, which lets the browser send the
/// cookie on cross-site requests.
#[derive(Clone, Copy, Debug, PartialEq, Eq, Structural)]
pub enum SameSite {
    Omit,
    Lax,
    Strict,
    NoneValue,
}

/// The attribute text that follows the token for a given policy.
pub open spec fn spec_same_site_suffix(policy: SameSite) -> Seq<char> {
    match policy {
        SameSite::Omit => Seq::empty(),
        SameSite::Lax => "; SameSite=Lax"@,
        SameSite::Strict => "; SameSite=Strict"@,
        SameSite::NoneValue => "; SameSite=None"@,
    }
}

/// The text of the `Set-Cookie` value carrying `token` under a given
/// `SameSite` policy: the cookie name, the decimal token, and the attribute.
pub open spec fn spec_cookie_value_with(token: u64, policy: SameSite) -> Seq<char> {
    "_lv_csrf="@ + spec_decimal(token as int) + spec_same_site_suffix(policy)
}

/// The text of the `Set-Cookie` value carrying `token` under the default
/// `SameSite=Lax` policy.
pub open spec fn spec_cookie_value(token: u64) -> Seq<char> {
    spec_cookie_value_with(token, SameSite::Lax)
}

/// The attribute text that follows the token for a given policy.
fn same_site_suffix(policy: SameSite) -> (s: &'static str)
    ensures
        s@ == spec_same_site_suffix(policy),
{
    proof {
        reveal_strlit("");
        assert(""@ =~= Seq::<char>::empty());
    }
    match policy {
        SameSite::Omit => "",
        SameSite::Lax => "; SameSite=Lax",
        SameSite::Strict => "; SameSite=Strict",
        SameSite::NoneValue => "; SameSite=None",
    }
}

/// Builds the `Set-Cookie` value carrying `token` under a given `SameSite`
/// policy.
pub fn cookie_value_with(token: u64, policy: SameSite) -> (s: String)
    ensures
        s@ == spec_cookie_value_with(token, policy),
{
    let mut s = "_lv_csrf=".to_owned();
    let digits = u64_to_decimal(token);
    s.append(digits.as_str());
    s.append(same_site_suffix(policy));
    proof {
        assert(s@ =~= spec_cookie_value_with(token, policy));
    }
    s
}

/// Builds the `Set-Cookie` value carrying `token` under the default
/// `SameSite=Lax` policy.
pub fn cookie_value_for(token: u64) -> (s: String)
    ensures
        s@ == spec_cookie_value(token),
{
    cookie_value_with(token, SameSite::Lax)
}

/// The stamped cookie value is printable ASCII: every character lies between
/// the space and the tilde.
pub proof fn lemma_cookie_value_printable(token: u64, policy: SameSite)
    ensures
        is_ascii_chars(spec_cookie_value_with(token, policy)),
        forall|i: int|
            0 <= i < spec_cookie_value_with(token, policy).len() ==> ' '
                <= #[trigger] spec_cookie_value_with(token, policy)[i] <= '~',
{
    reveal_strlit("_lv_csrf=");
    reveal_strlit("; SameSite=Lax");
    reveal_strlit("; SameSite=Strict");
    reveal_strlit("; SameSite=None");
    lemma_decimal_digits(token as int);
    let v = spec_cookie_value_with(token, policy);
    let digits = spec_decimal(token as int);
    let suffix = spec_same_site_suffix(policy);
    let dlen = digits.len() as int;
    assert forall|i: int| 0 <= i < v.len() implies ' ' <= #[trigger] v[i] <= '~' by {
        if i < 9 {
            assert(v[i] == "_lv_csrf="@[i]);
        } else if i < 9 + dlen {
            assert(v[i] == digits[i - 9]);
        } else {
            assert(v[i] == suffix[i - 9 - dlen]);
        }
    }
}

/// Law: extracting the cookie token from the very value that stamping a
/// token produces, under any `SameSite` policy, yields that token's decimal
/// text, which is non-empty.
pub proof fn lemma_cookie_value_round_trip(token: u64, policy: SameSite)
    ensures
        spec_cookie_token(spec_cookie_value_with(token, policy)) == Some(
            spec_decimal(token as int),
        ),
        spec_decimal(token as int).len() >= 1,
{
    reveal_strlit("_lv_csrf=");
    reveal_strlit("; SameSite=Lax");
    reveal_strlit("; SameSite=Strict");
    reveal_strlit("; SameSite=None");
    reveal_strlit(";");
    lemma_decimal_digits(token as int);
    let v = spec_cookie_value_with(token, policy);
    let name = "_lv_csrf="@;
    let delim = ";"@;
    let digits = spec_decimal(token as int);
    let suffix = spec_same_site_suffix(policy);
    let dlen = digits.len() as int;
    assert(v.len() == 9 + dlen + suffix.len());
    assert(name =~= v.subrange(0, 9));
    assert(find_from(v, name, 0) == Some(0int));
    assert forall|k: int| 9 <= k < 9 + dlen implies !matches_at(v, delim, k) by {
        assert(v[k] == digits[k - 9]);
        if matches_at(v, delim, k) {
            assert(delim[0] == v.subrange(k, k + 1)[0]);
        }
    }
    lemma_find_from(v, delim, 9);
    if policy is Omit {
        assert forall|k: int| 9 <= k implies !matches_at(v, delim, k) by {
            if matches_at(v, delim, k) {
                assert(delim[0] == v.subrange(k, k + 1)[0]);
                assert(v[k] == ';');
            }
        }
        assert(find_from(v, delim, 9) is None);
        assert(v.subrange(9, v.len() as int) =~= digits);
    } else {
        assert(matches_at(v, delim, 9 + dlen)) by {
            assert(v[9 + dlen] == suffix[0]);
            assert(delim =~= v.subrange(9 + dlen, 9 + dlen + 1));
        }
        assert(find_from(v, delim, 9) == Some(9 + dlen));
        assert(v.subrange(9, 9 + dlen) =~= digits);
    }
}

} // verus!
