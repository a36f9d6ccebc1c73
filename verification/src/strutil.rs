//! Verified character-sequence helpers: prefix and substring tests.
//!
//! Device discovery matches candidate names by substring, and button
//! actions are classified by string prefix; both tests are implemented
//! here against their mathematical definitions.

use vstd::prelude::*;

verus! {

/// `p` occurs at the start of `s`.
pub open spec fn is_prefix_of(p: Seq<char>, s: Seq<char>) -> bool {
    p.len() <= s.len() && s.subrange(0, p.len() as int) == p
}

/// `needle` occurs in `hay` starting at position `i`.
pub open spec fn match_at(hay: Seq<char>, needle: Seq<char>, i: int) -> bool {
    0 <= i && i + needle.len() <= hay.len() && hay.subrange(i, i + needle.len()) == needle
}

/// `needle` occurs somewhere in `hay`.
pub open spec fn contains_sub(hay: Seq<char>, needle: Seq<char>) -> bool {
    exists|i: int| match_at(hay, needle, i)
}

/// Does `s` start with `p`?
pub fn str_starts_with(s: &str, p: &str) -> (r: bool)
    ensures
        r == is_prefix_of(p@, s@),
{
    let sl = s.unicode_len();
    let pl = p.unicode_len();
    if pl > sl {
        return false;
    }
    let mut i: usize = 0;
    while i < pl
        invariant
            pl <= sl,
            sl == s@.len(),
            pl == p@.len(),
            i <= pl,
            forall|k: int| 0 <= k < i ==> s@[k] == p@[k],
        decreases pl - i,
    {
        if s.get_char(i) != p.get_char(i) {
            proof {
                assert(s@.subrange(0, p@.len() as int)[i as int] == s@[i as int]);
            }
            return false;
        }
        i += 1;
    }
    proof {
        assert(s@.subrange(0, p@.len() as int) =~= p@);
    }
    true
}

/// Does `hay` contain `needle` as a contiguous substring?
pub fn str_contains(hay: &str, needle: &str) -> (r: bool)
    ensures
        r == contains_sub(hay@, needle@),
{
    let hl = hay.unicode_len();
    let nl = needle.unicode_len();
    if nl > hl {
        assert(forall|j: int| match_at(hay@, needle@, j) ==> j + needle@.len() <= hay@.len());
        return false;
    }
    let mut i: usize = 0;
    while i <= hl - nl
        invariant
            nl <= hl,
            hl == hay@.len(),
            nl == needle@.len(),
            i <= hl - nl + 1,
            forall|j: int| 0 <= j < i ==> !match_at(hay@, needle@, j),
        decreases hl - nl + 1 - i,
    {
        let mut k: usize = 0;
        let mut matched = true;
        while k < nl && matched
            invariant
                i + nl <= hl,
                hl == hay@.len(),
                nl == needle@.len(),
                k <= nl,
                matched ==> forall|t: int| 0 <= t < k ==> hay@[i + t] == needle@[t],
                !matched ==> !match_at(hay@, needle@, i as int),
            decreases nl - k + (if matched { 1int } else { 0int }),
        {
            if hay.get_char(i + k) != needle.get_char(k) {
                proof {
                    assert(hay@.subrange(i as int, i + nl as int)[k as int] == hay@[i + k]);
                }
                matched = false;
            } else {
                k += 1;
            }
        }
        if matched {
            proof {
                assert(hay@.subrange(i as int, i + nl as int) =~= needle@);
                assert(match_at(hay@, needle@, i as int));
            }
            return true;
        }
        proof {
            if nl == 0 {
                assert(hay@.subrange(i as int, i as int) =~= needle@);
                assert(match_at(hay@, needle@, i as int));
            }
        }
        i += 1;
    }
    proof {
        assert(forall|j: int| match_at(hay@, needle@, j) ==> 0 <= j && j <= hl - nl);
    }
    false
}

} // verus!
