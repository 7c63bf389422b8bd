use vstd::prelude::*;

verus! {

/// Sample stamps in non-decreasing order, as the render driver receives them.
pub open spec fn sorted(stamps: Seq<u64>) -> bool {
    forall|i: int, j: int| 0 <= i <= j < stamps.len() ==> stamps[i] <= stamps[j]
}

/// Moves the event cursor past every event due at sample `now`: the events
/// from `cursor` up to the returned index are stamped at or before `now`, and
/// the one at the returned index, if any, comes later. Those events are the
/// ones to apply before sample `now` is rendered.
pub fn events_due(stamps: &Vec<u64>, cursor: usize, now: u64) -> (r: usize)
    requires
        cursor <= stamps@.len(),
    ensures
        cursor <= r <= stamps@.len(),
        forall|k: int| cursor <= k < r ==> stamps@[k] <= now,
        r < stamps@.len() ==> stamps@[r as int] > now,
{
    let mut c = cursor;
    while c < stamps.len() && stamps[c] <= now
        invariant
            cursor <= c <= stamps@.len(),
            forall|k: int| cursor <= k < c ==> stamps@[k] <= now,
        decreases stamps@.len() - c,
    {
        c = c + 1;
    }
    c
}

/// On sorted stamps, the cursor leaves every event due at `now` behind it:
/// none stamped at or before `now` is left for a later sample.
pub proof fn lemma_due_events_all_taken(stamps: Seq<u64>, cursor: int, r: int, now: u64)
    requires
        sorted(stamps),
        0 <= cursor <= r <= stamps.len(),
        r < stamps.len() ==> stamps[r] > now,
    ensures
        forall|k: int| r <= k < stamps.len() ==> stamps[k] > now,
{
    assert forall|k: int| r <= k < stamps.len() implies stamps[k] > now by {
        assert(stamps[r] <= stamps[k]);
    }
}

} // verus!
