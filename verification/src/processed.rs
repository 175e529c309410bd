//! The bounded record of revision ids that have already been handled.

use vstd::prelude::*;

verus! {

/// Revision ids already handled, oldest first, bounded by `capacity`
/// (a capacity of zero means unbounded).
#[derive(Debug, Clone, Default)]
pub struct ProcessedRevidsState {
    pub capacity: usize,
    pub revids: Vec<u64>,
}

/// The ids kept after appending `revid` to `ids`: the oldest ones are
/// dropped until at most `capacity` remain (no bound when it is zero).
pub open spec fn retained_after_push(ids: Seq<u64>, revid: u64, capacity: nat) -> Seq<u64> {
    let pushed = ids.push(revid);
    if capacity > 0 && pushed.len() > capacity {
        pushed.skip(pushed.len() - capacity)
    } else {
        pushed
    }
}

impl ProcessedRevidsState {
    /// Whether `revid` was recorded and is still retained.
    pub fn contains(&self, revid: u64) -> (r: bool)
        ensures
            r == self.revids@.contains(revid),
    {
        let mut i: usize = 0;
        while i < self.revids.len()
            invariant
                i <= self.revids.len(),
                forall|j: int| 0 <= j < i ==> self.revids@[j] != revid,
            decreases self.revids.len() - i,
        {
            if self.revids[i] == revid {
                return true;
            }
            i = i + 1;
        }
        false
    }

    /// Records `revid` as handled; an id already present changes nothing.
    pub fn insert(&mut self, revid: u64)
        requires
            old(self).revids.len() < usize::MAX,
        ensures
            final(self).capacity == old(self).capacity,
            old(self).revids@.contains(revid) ==> final(self).revids@ == old(self).revids@,
            !old(self).revids@.contains(revid) ==> final(self).revids@ == retained_after_push(
                old(self).revids@,
                revid,
                old(self).capacity as nat,
            ),
    {
        if self.contains(revid) {
            return;
        }
        let mut queue = self.revids.clone();
        queue.push(revid);
        let ghost pushed = queue@;
        assert(pushed == old(self).revids@.push(revid));
        let mut dropped: usize = 0;
        let n = queue.len();
        let mut kept: Vec<u64> = Vec::new();
        if self.capacity > 0 && n > self.capacity {
            dropped = n - self.capacity;
        }
        let mut i = dropped;
        while i < n
            invariant
                dropped <= i <= n == pushed.len(),
                queue@ == pushed,
                kept@ == pushed.subrange(dropped as int, i as int),
            decreases n - i,
        {
            kept.push(queue[i]);
            i = i + 1;
            assert(kept@ =~= pushed.subrange(dropped as int, i as int));
        }
        assert(kept@ =~= retained_after_push(old(self).revids@, revid, old(self).capacity as nat));
        self.revids = kept;
    }
}

/// Once recorded, an id is reported as handled until enough newer ids push
/// it out, and the record never holds more ids than its capacity.
pub proof fn processed_insert_keeps_capacity_and_latest(ids: Seq<u64>, revid: u64, capacity: nat)
    requires
        capacity > 0,
        ids.len() <= capacity,
    ensures
        retained_after_push(ids, revid, capacity).len() <= capacity,
        retained_after_push(ids, revid, capacity).contains(revid),
        retained_after_push(ids, revid, capacity).last() == revid,
{
    let r = retained_after_push(ids, revid, capacity);
    assert(r.last() == revid);
    assert(r[r.len() - 1] == revid);
}

} // verus!
