//! Laws of the region algebra, stated and proved over the descriptor model.

use vstd::prelude::*;
use crate::buffer::BipBuffer;

verus! {

/// `used()` and `unused()` partition the capacity whenever `B` is inactive,
/// and also when `B` is active and `A` reaches the end of the array.  (While
/// `B` is active with a gap left after `A`, that gap is stranded until `A`
/// is consumed, and is counted by neither.)
pub proof fn lemma_used_unused_partition<T>(s: BipBuffer<T>)
    requires
        s.wf(),
        s.b.in_use ==> s.a.index + s.a.count == s.size,
    ensures
        s.used_els() + s.unused_els() == s.size,
{
}

/// Reserving preserves the region invariants: from any well-formed state,
/// the state after `reserve(req)` is well-formed again.
pub proof fn lemma_reserve_preserves_wf<T>(s: BipBuffer<T>, req: usize)
    requires
        s.wf(),
    ensures
        s.after_reserve(req).wf(),
{
}

/// Committing preserves the region invariants.
pub proof fn lemma_commit_preserves_wf<T>(s: BipBuffer<T>, n: usize)
    requires
        s.wf(),
    ensures
        s.after_commit(n).wf(),
{
}

/// Decommitting preserves the region invariants.
pub proof fn lemma_decommit_preserves_wf<T>(s: BipBuffer<T>, n: usize)
    requires
        s.wf(),
    ensures
        s.after_decommit(n).wf(),
{
}

/// Committing zero elements is equivalent to never having reserved: from a
/// state with no outstanding reservation, any `reserve` followed by
/// `commit(0)` restores the state exactly.
pub proof fn lemma_commit_zero_cancels<T>(s: BipBuffer<T>, req: usize)
    requires
        s.wf(),
        s.rsvp.index == 0 && s.rsvp.count == 0,
    ensures
        s.after_reserve(req).after_commit(0) == s,
{
}

/// Round trip: from a well-formed state in which `B` is inactive and the
/// free stretch after `A` is at least as large as the one before it,
/// reserving `k` elements (which the free stretch can hold in full),
/// committing all `k`, then decommitting all `k` restores the used and
/// unused counts the buffer had before the reservation.
pub proof fn lemma_round_trip<T>(s: BipBuffer<T>, k: usize)
    requires
        s.wf(),
        !s.b.in_use,
        s.size - s.a.index - s.a.count >= s.a.index,
        k <= s.size - s.a.index - s.a.count,
    ensures
        s.after_reserve(k).after_commit(k).after_decommit(k).used_els() == s.used_els(),
        s.after_reserve(k).after_commit(k).after_decommit(k).unused_els() == s.unused_els(),
{
}

} // verus!
