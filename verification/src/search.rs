//! Substring search over character sequences: the specification of the first
//! occurrence of a pattern at or after a position, and an executable search
//! proved against it.

use vstd::prelude::*;

verus! {

/// The pattern `pat` occurs in `s` at position `i`.
pub open spec fn matches_at(s: Seq<char>, pat: Seq<char>, i: int) -> bool {
    &&& 0 <= i
    &&& i + pat.len() <= s.len()
    &&& pat =~= s.subrange(i, i + pat.len())
}

/// The first position at or after `i` where `pat` occurs in `s`, if any.
pub open spec fn find_from(s: Seq<char>, pat: Seq<char>, i: int) -> Option<int>
    recommends
        0 <= i,
    decreases s.len() - i,
{
    if i < 0 || i + pat.len() > s.len() {
        None
    } else if pat =~= s.subrange(i, i + pat.len()) {
        Some(i)
    } else {
        find_from(s, pat, i + 1)
    }
}

/// `find_from` returns the first occurrence: a position where the pattern
/// matches, before which it matches nowhere at or after `i`; and `None`
/// exactly when the pattern matches nowhere at or after `i`.
pub proof fn lemma_find_from(s: Seq<char>, pat: Seq<char>, i: int)
    requires
        0 <= i,
    ensures
        match find_from(s, pat, i) {
            Some(j) => {
                &&& i <= j
                &&& matches_at(s, pat, j)
                &&& forall|k: int| i <= k < j ==> !matches_at(s, pat, k)
            },
            None => forall|k: int| i <= k ==> !matches_at(s, pat, k),
        },
    decreases s.len() - i,
{
    if i + pat.len() > s.len() {
        assert forall|k: int| i <= k implies !matches_at(s, pat, k) by {
            assert(k + pat.len() >= i + pat.len());
        }
    } else if pat =~= s.subrange(i, i + pat.len()) {
    } else {
        lemma_find_from(s, pat, i + 1);
        assert(!matches_at(s, pat, i));
    }
}

/// Whether `pat` occurs in `s` at position `i`, by character comparison.
pub(crate) fn match_at(s: &str, pat: &str, i: usize) -> (b: bool)
    requires
        i + pat@.len() <= s@.len(),
    ensures
        b == matches_at(s@, pat@, i as int),
{
    let plen = pat.unicode_len();
    let slen = s.unicode_len();
    let mut j: usize = 0;
    while j < plen
        invariant
            plen == pat@.len(),
            slen == s@.len(),
            i + plen <= slen,
            j <= plen,
            forall|k: int| 0 <= k < j ==> s@[i + k] == pat@[k],
        decreases plen - j,
    {
        if s.get_char(i + j) != pat.get_char(j) {
            proof {
                assert(!matches_at(s@, pat@, i as int)) by {
                    if matches_at(s@, pat@, i as int) {
                        assert(pat@[j as int] == s@.subrange(i as int, i + pat@.len())[j as int]);
                    }
                }
            }
            return false;
        }
        j += 1;
    }
    proof {
        assert(pat@ =~= s@.subrange(i as int, i + pat@.len()));
    }
    true
}

/// The position of the first occurrence of `pat` in `s` at or after `from`,
/// if any.
pub(crate) fn find_from_index(s: &str, pat: &str, from: usize) -> (r: Option<usize>)
    ensures
        match r {
            Some(j) => {
                &&& from <= j
                &&& j + pat@.len() <= s@.len()
                &&& matches_at(s@, pat@, j as int)
                &&& find_from(s@, pat@, from as int) == Some(j as int)
            },
            None => find_from(s@, pat@, from as int) is None,
        },
{
    let slen = s.unicode_len();
    let plen = pat.unicode_len();
    if plen > slen || from > slen - plen {
        proof {
            assert(find_from(s@, pat@, from as int) is None);
        }
        return None;
    }
    let mut i: usize = from;
    while i <= slen - plen
        invariant
            slen == s@.len(),
            plen == pat@.len(),
            plen <= slen,
            from <= i,
            i <= slen - plen + 1,
            find_from(s@, pat@, from as int) == find_from(s@, pat@, i as int),
        decreases slen - i,
    {
        if match_at(s, pat, i) {
            proof {
                assert(find_from(s@, pat@, i as int) == Some(i as int));
            }
            return Some(i);
        }
        proof {
            assert(find_from(s@, pat@, i as int) == find_from(s@, pat@, i + 1));
        }
        i += 1;
    }
    proof {
        assert(find_from(s@, pat@, i as int) is None);
    }
    None
}

} // verus!
