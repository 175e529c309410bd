//! Exclusive claims on revisions, and the count of high-priority work that
//! background work yields to. A claim is given back explicitly with its
//! guard.

use vstd::prelude::*;

verus! {

/// The revisions currently claimed; each at most once.
#[derive(Debug, Default)]
pub struct KeyLockSet {
    held: Vec<u64>,
}

/// Proof of holding the claim on one revision.
#[derive(Debug)]
pub struct KeyLockGuard {
    key: u64,
}

impl KeyLockGuard {
    /// The claimed revision.
    pub closed spec fn spec_key(&self) -> u64 {
        self.key
    }

    /// The claimed revision.
    pub fn key(&self) -> (r: u64)
        ensures
            r == self.spec_key(),
    {
        self.key
    }
}

impl View for KeyLockSet {
    type V = Set<u64>;

    closed spec fn view(&self) -> Set<u64> {
        self.held@.to_set()
    }
}

impl KeyLockSet {
    /// Each revision is held at most once.
    pub closed spec fn wf(&self) -> bool {
        self.held@.no_duplicates()
    }

    /// Nothing claimed.
    pub fn new() -> (r: Self)
        ensures
            r.wf(),
            r@ == Set::<u64>::empty(),
    {
        let r = KeyLockSet { held: Vec::new() };
        assert(r.held@.to_set() =~= Set::<u64>::empty());
        r
    }

    /// Whether `key` is claimed.
    pub fn is_locked(&self, key: u64) -> (r: bool)
        ensures
            r == self@.contains(key),
    {
        let mut i: usize = 0;
        while i < self.held.len()
            invariant
                i <= self.held.len(),
                forall|j: int| 0 <= j < i ==> self.held@[j] != key,
            decreases self.held.len() - i,
        {
            if self.held[i] == key {
                assert(self.held@.contains(key));
                return true;
            }
            i = i + 1;
        }
        false
    }

    /// Claims `key` if nobody holds it: the guard when claimed, nothing
    /// (and no change) when it is already held.
    pub fn try_lock(&mut self, key: u64) -> (r: Option<KeyLockGuard>)
        requires
            old(self).wf(),
        ensures
            final(self).wf(),
            old(self)@.contains(key) ==> r is None && final(self)@ == old(self)@,
            !old(self)@.contains(key) ==> (r matches Some(g) && g.spec_key() == key && final(self)@
                == old(self)@.insert(key)),
    {
        if self.is_locked(key) {
            return None;
        }
        let ghost before = self.held@;
        self.held.push(key);
        proof {
            assert(self.held@ == before.push(key));
            before.lemma_push_to_set_commute(key);
            assert forall|i: int, j: int|
                0 <= i < self.held@.len() && 0 <= j < self.held@.len() && i != j implies self.held@[i]
                != self.held@[j] by {
                if i < before.len() && j < before.len() {
                } else if i == before.len() {
                    assert(before.contains(before[j]));
                } else {
                    assert(before.contains(before[i]));
                }
            }
        }
        Some(KeyLockGuard { key })
    }

    /// Gives a claim back.
    pub fn release(&mut self, guard: KeyLockGuard)
        requires
            old(self).wf(),
        ensures
            final(self).wf(),
            final(self)@ == old(self)@.remove(guard.spec_key()),
    {
        let key = guard.key;
        let mut i: usize = 0;
        while i < self.held.len()
            invariant
                i <= self.held.len(),
                forall|j: int| 0 <= j < i ==> self.held@[j] != key,
                self.held@ == old(self).held@,
                self.held@.no_duplicates(),
                key == guard.spec_key(),
            decreases self.held.len() - i,
        {
            if self.held[i] == key {
                let ghost before = self.held@;
                let _ = self.held.remove(i);
                proof {
                    broadcast use vstd::seq_lib::group_seq_properties;
                    assert(self.held@ == before.remove(i as int));
                    assert forall|x: u64| self.held@.contains(x) <==> (before.contains(x) && x != key) by {
                        if self.held@.contains(x) {
                            let k = choose|k: int| 0 <= k < self.held@.len() && self.held@[k] == x;
                            if k < i {
                                assert(before[k] == x);
                            } else {
                                assert(before[k + 1] == x);
                            }
                            assert(k < i ==> before[k] != key || k != i as int);
                            if x == key {
                                let kk = if k < i { k } else { k + 1 };
                                assert(before[kk] == key);
                                assert(kk != i as int);
                                assert(before[i as int] == key);
                            }
                        }
                        if before.contains(x) && x != key {
                            let k = choose|k: int| 0 <= k < before.len() && before[k] == x;
                            assert(k != i as int);
                            if k < i {
                                assert(self.held@[k] == x);
                            } else {
                                assert(self.held@[k - 1] == x);
                            }
                        }
                    }
                    assert(self.held@.to_set() =~= before.to_set().remove(key));
                    assert forall|a: int, b: int|
                        0 <= a < self.held@.len() && 0 <= b < self.held@.len() && a != b implies self.held@[a]
                        != self.held@[b] by {
                        let aa = if a < i { a } else { a + 1 };
                        let bb = if b < i { b } else { b + 1 };
                        assert(self.held@[a] == before[aa]);
                        assert(self.held@[b] == before[bb]);
                    }
                }
                return;
            }
            i = i + 1;
        }
        assert(!self.held@.contains(key));
        assert(self.held@.to_set() =~= self.held@.to_set().remove(key));
    }
}

/// The number of high-priority tasks running; background work waits while
/// it is above zero.
#[derive(Debug, Default)]
pub struct PriorityGate {
    high_priority_active: usize,
}

/// Proof of one running high-priority task.
#[derive(Debug)]
pub struct HighPriorityGuard {
    _private: (),
}

impl PriorityGate {
    /// The number of running high-priority tasks.
    pub closed spec fn active(&self) -> nat {
        self.high_priority_active as nat
    }

    /// None running.
    pub fn new() -> (r: Self)
        ensures
            r.active() == 0,
    {
        PriorityGate { high_priority_active: 0 }
    }

    /// A high-priority task starts.
    pub fn begin_high_priority(&mut self) -> (r: HighPriorityGuard)
        requires
            old(self).active() < usize::MAX,
        ensures
            final(self).active() == old(self).active() + 1,
    {
        self.high_priority_active = self.high_priority_active + 1;
        HighPriorityGuard { _private: () }
    }

    /// A high-priority task ends.
    pub fn end_high_priority(&mut self, guard: HighPriorityGuard)
        ensures
            final(self).active() == decremented(old(self).active()),
    {
        self.high_priority_active = decrement_saturating(self.high_priority_active);
    }

    /// The number of running high-priority tasks.
    pub fn high_priority_active_count(&self) -> (r: usize)
        ensures
            r == self.active(),
    {
        self.high_priority_active
    }

    /// Whether background work may run now.
    pub fn high_priority_idle(&self) -> (r: bool)
        ensures
            r == (self.active() == 0),
    {
        self.high_priority_active == 0
    }
}

/// One less, but never below zero.
pub open spec fn decremented(n: nat) -> nat {
    if n == 0 {
        0
    } else {
        (n - 1) as nat
    }
}

/// Decrements a counter, stopping at zero; returns the new value.
pub fn decrement_saturating(value: usize) -> (r: usize)
    ensures
        r == decremented(value as nat),
{
    if value == 0 {
        0
    } else {
        value - 1
    }
}

} // verus!
