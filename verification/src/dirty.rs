//! The dirty mark: the first line of the text whose picture on the terminal
//! may be stale, or nothing when the picture is current.

use vstd::prelude::*;

verus! {

/// The smaller of two line numbers.
pub open spec fn min_line(a: nat, b: nat) -> nat {
    if a <= b {
        a
    } else {
        b
    }
}

/// The mark after line `start` was reported stale: the earlier of the two
/// starts when a mark was pending, else `start`.
pub open spec fn merge_dirty(mark: Option<nat>, start: nat) -> Option<nat> {
    match mark {
        Some(s) => Some(min_line(s, start)),
        None => Some(start),
    }
}

/// What the executable mark stands for.
pub open spec fn mark_view(mark: Option<usize>) -> Option<nat> {
    match mark {
        Some(s) => Some(s as nat),
        None => None,
    }
}

/// Reports line `start` stale.
pub fn mark_dirty(mark: Option<usize>, start: usize) -> (merged: Option<usize>)
    ensures
        mark_view(merged) == merge_dirty(mark_view(mark), start as nat),
{
    match mark {
        Some(s) => {
            if s < start {
                mark
            } else {
                Some(start)
            }
        },
        None => Some(start),
    }
}

/// Marking line `a` and then line `b` on a clean screen leaves the mark at the
/// smaller of the two, in whichever order they come.
pub proof fn lemma_merge_is_minimum(a: nat, b: nat)
    ensures
        merge_dirty(merge_dirty(None, a), b) == Some(min_line(a, b)),
        merge_dirty(merge_dirty(None, b), a) == Some(min_line(a, b)),
{
}

/// Whatever mark is pending, two reports can be made in either order.
pub proof fn lemma_merge_commutes(mark: Option<nat>, a: nat, b: nat)
    ensures
        merge_dirty(merge_dirty(mark, a), b) == merge_dirty(merge_dirty(mark, b), a),
{
}

/// Reporting the same line twice changes nothing the second time.
pub proof fn lemma_merge_idempotent(mark: Option<nat>, a: nat)
    ensures
        merge_dirty(merge_dirty(mark, a), a) == merge_dirty(mark, a),
{
}

/// A report never moves the mark to a later line: afterwards the screen is
/// dirty, from no later than the reported line and no later than before.
pub proof fn lemma_merge_never_increases(mark: Option<nat>, a: nat)
    ensures
        merge_dirty(mark, a) matches Some(m) && m <= a && (mark matches Some(s) ==> m <= s),
{
}

} // verus!
