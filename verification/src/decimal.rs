//! Decimal rendering of the token: the specification of the decimal text of
//! a number, an executable renderer proved against it, and the fact that the
//! text consists of digits only.

use vstd::prelude::*;

verus! {

/// The character for a single decimal digit.
pub open spec fn digit_char(d: int) -> char
    recommends
        0 <= d < 10,
{
    if d == 0 {
        '0'
    } else if d == 1 {
        '1'
    } else if d == 2 {
        '2'
    } else if d == 3 {
        '3'
    } else if d == 4 {
        '4'
    } else if d == 5 {
        '5'
    } else if d == 6 {
        '6'
    } else if d == 7 {
        '7'
    } else if d == 8 {
        '8'
    } else {
        '9'
    }
}

/// The decimal text of a non-negative number, most significant digit first.
pub open spec fn spec_decimal(n: int) -> Seq<char>
    recommends
        0 <= n,
    decreases n,
{
    if n < 10 {
        seq![digit_char(n)]
    } else {
        spec_decimal(n / 10).push(digit_char(n % 10))
    }
}

/// The decimal text of a number is non-empty and holds digits only.
pub proof fn lemma_decimal_digits(n: int)
    requires
        0 <= n,
    ensures
        spec_decimal(n).len() >= 1,
        forall|i: int|
            0 <= i < spec_decimal(n).len() ==> '0' <= #[trigger] spec_decimal(n)[i] <= '9',
    decreases n,
{
    if n >= 10 {
        lemma_decimal_digits(n / 10);
    }
}

/// The one-character text of a single decimal digit.
fn digit_str(d: u64) -> (s: &'static str)
    requires
        d < 10,
    ensures
        s@ =~= seq![digit_char(d as int)],
{
    proof {
        reveal_strlit("0");
        reveal_strlit("1");
        reveal_strlit("2");
        reveal_strlit("3");
        reveal_strlit("4");
        reveal_strlit("5");
        reveal_strlit("6");
        reveal_strlit("7");
        reveal_strlit("8");
        reveal_strlit("9");
    }
    if d == 0 {
        "0"
    } else if d == 1 {
        "1"
    } else if d == 2 {
        "2"
    } else if d == 3 {
        "3"
    } else if d == 4 {
        "4"
    } else if d == 5 {
        "5"
    } else if d == 6 {
        "6"
    } else if d == 7 {
        "7"
    } else if d == 8 {
        "8"
    } else {
        "9"
    }
}

/// Renders a 64-bit number as its decimal text.
pub fn u64_to_decimal(n: u64) -> (s: String)
    ensures
        s@ == spec_decimal(n as int),
    decreases n,
{
    let d = n % 10;
    let ds = digit_str(d);
    if n < 10 {
        let s = ds.to_owned();
        proof {
            assert(s@ =~= spec_decimal(n as int));
        }
        s
    } else {
        let mut s = u64_to_decimal(n / 10);
        s.append(ds);
        proof {
            assert(s@ =~= spec_decimal(n as int));
        }
        s
    }
}

} // verus!
