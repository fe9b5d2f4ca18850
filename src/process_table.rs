//! Reading the answer of the OS process table about one process.
use vstd::prelude::*;

use crate::text::{matches_at, occurs_at, occurs_in};

verus! {

/// The line the process table prints when no process matches a query.
pub open spec fn no_match_notice() -> Seq<char> {
    "INFO: No tasks"@
}

/// Whether the process table's answer to a query for one pid shows that
/// process: the answer is not empty and does not hold the no-match notice.
pub fn lists_process(answer: &str) -> (r: bool)
    ensures
        r == (answer@.len() > 0 && !occurs_in(answer@, no_match_notice())),
{
    let notice = "INFO: No tasks";
    proof {
        reveal_strlit("INFO: No tasks");
    }
    let slen = answer.unicode_len();
    let plen = notice.unicode_len();
    if slen == 0 {
        return false;
    }
    if plen > slen {
        assert forall|i: int| !occurs_at(answer@, no_match_notice(), i) by {}
        return true;
    }
    let mut i: usize = 0;
    while i <= slen - plen
        invariant
            slen == answer@.len(),
            plen == notice@.len(),
            notice@ == no_match_notice(),
            1 <= plen <= slen,
            i <= slen - plen + 1,
            forall|j: int| 0 <= j < i ==> !occurs_at(answer@, no_match_notice(), j),
        decreases slen - plen + 1 - i,
    {
        if matches_at(answer, slen, notice, plen, i) {
            return false;
        }
        i = i + 1;
    }
    assert forall|j: int| !occurs_at(answer@, no_match_notice(), j) by {
        if 0 <= j < i {
        }
    }
    true
}

} // verus!
