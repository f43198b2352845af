//! Verified string comparison and substring search, used by the frame
//! classifier to match routing keys.

use vstd::prelude::*;
use vstd::string::StrSliceExecFns;

verus! {

/// `pat` occurs in `s` starting at offset `at`.
pub open spec fn matches_at(s: Seq<char>, pat: Seq<char>, at: int) -> bool {
    &&& 0 <= at
    &&& at + pat.len() <= s.len()
    &&& forall|k: int| 0 <= k < pat.len() ==> s[at + k] == pat[k]
}

/// `pat` occurs somewhere in `s` (substring match, not exact).
pub open spec fn contains_seq(s: Seq<char>, pat: Seq<char>) -> bool {
    exists|at: int| matches_at(s, pat, at)
}

/// Character-wise equality of two string slices.
pub fn str_eq(a: &str, b: &str) -> (r: bool)
    ensures
        r == (a@ == b@),
{
    let alen = a.unicode_len();
    let blen = b.unicode_len();
    if alen != blen {
        proof {
            if a@ == b@ {
                assert(a@.len() == b@.len());
            }
        }
        return false;
    }
    let mut i: usize = 0;
    while i < alen
        invariant
            i <= alen,
            alen == a@.len(),
            alen == b@.len(),
            forall|k: int| 0 <= k < i ==> a@[k] == b@[k],
        decreases alen - i,
    {
        let ca = a.get_char(i);
        let cb = b.get_char(i);
        if ca != cb {
            proof {
                if a@ == b@ {
                    assert(a@[i as int] == b@[i as int]);
                }
            }
            return false;
        }
        i += 1;
    }
    proof {
        assert(a@ =~= b@);
    }
    true
}

/// `pat` matches `s` at the one offset `at`.
fn match_at(s: &str, pat: &str, at: usize) -> (r: bool)
    requires
        at + pat@.len() <= s@.len(),
        s@.len() <= usize::MAX,
    ensures
        r == matches_at(s@, pat@, at as int),
{
    let plen = pat.unicode_len();
    let mut k: usize = 0;
    while k < plen
        invariant
            k <= plen,
            plen == pat@.len(),
            at + plen <= s@.len(),
            s@.len() <= usize::MAX,
            forall|j: int| 0 <= j < k ==> s@[at + j] == pat@[j],
        decreases plen - k,
    {
        let cs = s.get_char(at + k);
        let cp = pat.get_char(k);
        if cs != cp {
            assert(s@[at + k] != pat@[k as int]);
            return false;
        }
        k += 1;
    }
    true
}

/// Substring search: whether `pat` occurs anywhere in `s`.
pub fn str_contains(s: &str, pat: &str) -> (r: bool)
    ensures
        r == contains_seq(s@, pat@),
{
    let slen = s.unicode_len();
    let plen = pat.unicode_len();
    if plen > slen {
        proof {
            assert forall|at: int| !matches_at(s@, pat@, at) by {
                if 0 <= at && at + pat@.len() <= s@.len() {
                    assert(pat@.len() <= s@.len());
                }
            }
        }
        return false;
    }
    let bound = slen - plen;
    let mut at: usize = 0;
    while at <= bound
        invariant
            bound == slen - plen,
            plen == pat@.len(),
            slen == s@.len(),
            plen <= slen,
            at <= bound + 1,
            forall|j: int| 0 <= j < at ==> !matches_at(s@, pat@, j),
        decreases bound + 1 - at,
    {
        if match_at(s, pat, at) {
            return true;
        }
        at += 1;
    }
    proof {
        assert forall|j: int| !matches_at(s@, pat@, j) by {
            if 0 <= j <= bound as int {
                assert(!matches_at(s@, pat@, j));
            } else if j > bound as int {
                assert(j + pat@.len() > s@.len());
            }
        }
    }
    false
}

} // verus!
