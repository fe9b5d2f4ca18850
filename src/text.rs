//! Searching for a pattern in text, character by character.
use vstd::prelude::*;

verus! {

/// Whether `p` occurs in `s` starting at index `i`.
pub open spec fn occurs_at(s: Seq<char>, p: Seq<char>, i: int) -> bool {
    0 <= i && i + p.len() <= s.len() && s.subrange(i, i + p.len()) == p
}

/// Whether `p` occurs anywhere in `s`.
pub open spec fn occurs_in(s: Seq<char>, p: Seq<char>) -> bool {
    exists|i: int| occurs_at(s, p, i)
}

/// Whether `p` occurs in `s` at index `i`; `slen` and `plen` are their
/// lengths.
pub fn matches_at(s: &str, slen: usize, p: &str, plen: usize, i: usize) -> (r: bool)
    requires
        slen == s@.len(),
        plen == p@.len(),
        i + plen <= slen,
    ensures
        r == occurs_at(s@, p@, i as int),
{
    let mut k: usize = 0;
    while k < plen
        invariant
            slen == s@.len(),
            plen == p@.len(),
            i + plen <= slen,
            k <= plen,
            forall|m: int| 0 <= m < k ==> s@[i + m] == p@[m],
        decreases plen - k,
    {
        if s.get_char(i + k) != p.get_char(k) {
            assert(s@.subrange(i as int, i + plen)[k as int] != p@[k as int]);
            return false;
        }
        k = k + 1;
    }
    assert(s@.subrange(i as int, i + plen) =~= p@);
    true
}

} // verus!
