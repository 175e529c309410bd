//! The daemon's backlog of hides that failed: pending ones are retried,
//! quarantined ones wait for an operator. One item per revision in each list.
//! Also the health the backlog allows, and the catch-up windows it implies.

use vstd::prelude::*;

use crate::config::CatchupConfig;
use crate::mw_api::{revision_url, revision_url_text};
use crate::processed::ProcessedRevidsState;
use crate::state::{ApiFailureSnapshot, UnresolvedExposureItem};
use crate::text::{copy_opt_string, str_eq};
use crate::time::representable_time;

verus! {

/// The state file of the daemon.
pub const STATE_FILE_NAME: &'static str = "simple_daemon_state.json";
/// How many handled revision ids are remembered by default.
pub const PROCESSED_CAPACITY: usize = 10_000;
/// The most pending hides kept.
pub const MAX_PENDING_ITEMS: usize = 5_000;
/// The most quarantined hides kept.
pub const MAX_QUARANTINED_ITEMS: usize = 5_000;
/// How long a pending hide waits before its next try.
pub const PENDING_RETRY_SECONDS: i64 = 30;
/// How far a live poll reaches back before its cursor.
pub const LIVE_OVERLAP_SECONDS: i64 = 15;

/// A hide that failed, with its failure history.
#[derive(Clone, Debug, Default, PartialEq, Eq)]
pub struct PendingHide {
    pub title: String,
    pub revid: u64,
    pub observed_at: Option<i64>,
    pub first_failed_at: i64,
    pub last_failed_at: i64,
    pub attempt_count: u32,
    pub last_error: Option<ApiFailureSnapshot>,
}

/// What the daemon keeps between runs.
#[derive(Clone, Debug, Default)]
pub struct SimpleDaemonState {
    pub last_successful_poll_at: Option<i64>,
    pub last_observed_change_at: Option<i64>,
    pub last_successful_hide_at: Option<i64>,
    pub last_successful_hide_title: Option<String>,
    pub last_successful_hide_revid: Option<u64>,
    pub last_successful_hide_source_label: Option<String>,
    pub latest_error: Option<ApiFailureSnapshot>,
    pub pending: Vec<PendingHide>,
    pub quarantined: Vec<PendingHide>,
}

/// A revision to hide.
#[derive(Clone, Debug)]
pub struct HideTarget {
    pub title: String,
    pub revid: u64,
    pub observed_at: Option<i64>,
    pub source_label: String,
}

/// A failure that blocks all hiding: the session is gone.
pub open spec fn blocking_failure(f: ApiFailureSnapshot) -> bool {
    f.class@ == "auth-session"@
}

/// A failure that retrying will not cure: permission refused.
pub open spec fn terminal_hide_failure(f: ApiFailureSnapshot) -> bool {
    (f.api_code matches Some(c) && (c@ == "permissiondenied"@ || c@ == "cantdelete"@)) || f.class@
        == "permission"@
}

/// A failure worth one retry with a fresh login before quarantine.
pub open spec fn retry_after_fresh_auth(f: ApiFailureSnapshot) -> bool {
    (f.api_code matches Some(c) && c@ == "permissiondenied"@) || f.class@ == "permission"@
}

/// Whether a failure blocks all hiding.
pub fn is_blocking_failure(failure: &ApiFailureSnapshot) -> (r: bool)
    ensures
        r == blocking_failure(*failure),
{
    str_eq(failure.class.as_str(), "auth-session")
}

/// Whether retrying a hide after this failure is pointless.
pub fn is_terminal_hide_failure(failure: &ApiFailureSnapshot) -> (r: bool)
    ensures
        r == terminal_hide_failure(*failure),
{
    let coded = match &failure.api_code {
        Some(c) => str_eq(c.as_str(), "permissiondenied") || str_eq(c.as_str(), "cantdelete"),
        None => false,
    };
    coded || str_eq(failure.class.as_str(), "permission")
}

/// Whether a hide that failed so gets one retry with a fresh login.
pub fn should_retry_after_fresh_auth(failure: &ApiFailureSnapshot) -> (r: bool)
    ensures
        r == retry_after_fresh_auth(*failure),
{
    let coded = match &failure.api_code {
        Some(c) => str_eq(c.as_str(), "permissiondenied"),
        None => false,
    };
    coded || str_eq(failure.class.as_str(), "permission")
}

impl PendingHide {
    /// The last failure blocks all hiding.
    pub open spec fn blocks(self) -> bool {
        self.last_error matches Some(f) && blocking_failure(f)
    }

    /// The last failure is one that retrying will not cure.
    pub open spec fn terminal(self) -> bool {
        self.last_error matches Some(f) && terminal_hide_failure(f)
    }

    /// When the next try is due.
    pub fn retry_due_at(&self) -> (r: i64)
        requires
            representable_time(self.last_failed_at),
        ensures
            r == self.last_failed_at + PENDING_RETRY_SECONDS,
    {
        self.last_failed_at + PENDING_RETRY_SECONDS
    }

    /// Whether the next try is due at `now`.
    pub fn retry_due(&self, now: i64) -> (r: bool)
        requires
            representable_time(self.last_failed_at),
        ensures
            r == (now >= self.last_failed_at + PENDING_RETRY_SECONDS),
    {
        now >= self.retry_due_at()
    }

    /// Whether this hide blocks all hiding.
    pub fn is_blocking(&self) -> (r: bool)
        ensures
            r == self.blocks(),
    {
        match &self.last_error {
            Some(f) => is_blocking_failure(f),
            None => false,
        }
    }

    /// Whether this hide failed for good.
    pub fn has_terminal_failure(&self) -> (r: bool)
        ensures
            r == self.terminal(),
    {
        match &self.last_error {
            Some(f) => is_terminal_hide_failure(f),
            None => false,
        }
    }
}

/// The handled-revisions record as loaded: a capacity of zero (absent) means
/// the default capacity.
pub fn processed_with_default_capacity(processed: ProcessedRevidsState) -> (r: ProcessedRevidsState)
    ensures
        r.revids == processed.revids,
        r.capacity == if processed.capacity == 0 {
            PROCESSED_CAPACITY
        } else {
            processed.capacity
        },
{
    let mut processed = processed;
    if processed.capacity == 0 {
        processed.capacity = PROCESSED_CAPACITY;
    }
    processed
}

/// The position of the first item for `revid`.
pub open spec fn index_of_revid(items: Seq<PendingHide>, revid: u64) -> Option<int>
    decreases items.len(),
{
    if items.len() == 0 {
        None
    } else {
        match index_of_revid(items.drop_last(), revid) {
            Some(i) => Some(i),
            None => if items.last().revid == revid {
                Some(items.len() - 1)
            } else {
                None
            },
        }
    }
}

/// No two items name the same revision.
pub open spec fn distinct_revids(items: Seq<PendingHide>) -> bool {
    forall|i: int, j: int|
        0 <= i < items.len() && 0 <= j < items.len() && i != j ==> items[i].revid != items[j].revid
}

proof fn lemma_index_of_revid_prefix(items: Seq<PendingHide>, revid: u64, k: int)
    requires
        0 <= k <= items.len(),
        index_of_revid(items.take(k), revid) is Some,
    ensures
        index_of_revid(items, revid) == index_of_revid(items.take(k), revid),
    decreases items.len() - k,
{
    if k < items.len() {
        assert(items.take(k + 1).drop_last() =~= items.take(k));
        lemma_index_of_revid_prefix(items, revid, k + 1);
    } else {
        assert(items.take(k) =~= items);
    }
}

proof fn lemma_index_of_revid_facts(items: Seq<PendingHide>, revid: u64)
    ensures
        match index_of_revid(items, revid) {
            Some(i) => 0 <= i < items.len() && items[i].revid == revid,
            None => forall|j: int| 0 <= j < items.len() ==> items[j].revid != revid,
        },
    decreases items.len(),
{
    if items.len() > 0 {
        let init = items.drop_last();
        lemma_index_of_revid_facts(init, revid);
        if index_of_revid(items, revid) is None {
            assert forall|j: int| 0 <= j < items.len() implies items[j].revid != revid by {
                if j < init.len() {
                    assert(items[j] == init[j]);
                }
            }
        }
    }
}

/// Where the first item for `revid` is.
fn find_revid(items: &Vec<PendingHide>, revid: u64) -> (r: Option<usize>)
    ensures
        match r {
            Some(i) => index_of_revid(items@, revid) == Some(i as int) && i < items@.len(),
            None => index_of_revid(items@, revid) is None,
        },
{
    let mut i: usize = 0;
    while i < items.len()
        invariant
            i <= items.len(),
            index_of_revid(items@.take(i as int), revid) is None,
        decreases items.len() - i,
    {
        assert(items@.take(i + 1).drop_last() =~= items@.take(i as int));
        if items[i].revid == revid {
            proof {
                lemma_index_of_revid_prefix(items@, revid, i + 1);
            }
            return Some(i);
        }
        i = i + 1;
    }
    assert(items@.take(items.len() as int) =~= items@);
    None
}

/// An item after one more failure at `now`.
pub open spec fn failed_again(item: PendingHide, failure: ApiFailureSnapshot, now: i64) -> PendingHide {
    PendingHide {
        last_failed_at: now,
        attempt_count: if item.attempt_count == u32::MAX {
            u32::MAX
        } else {
            (item.attempt_count + 1) as u32
        },
        last_error: Some(failure),
        ..item
    }
}

/// The first failure of a hide at `now`.
pub open spec fn first_failure(target: HideTarget, failure: ApiFailureSnapshot, now: i64) -> PendingHide {
    PendingHide {
        title: target.title,
        revid: target.revid,
        observed_at: target.observed_at,
        first_failed_at: now,
        last_failed_at: now,
        attempt_count: 1,
        last_error: Some(failure),
    }
}

/// The list after recording a failed hide of `target` at `now`: its item
/// is failed again, or a first item is appended.
pub open spec fn upserted(
    items: Seq<PendingHide>,
    target: HideTarget,
    failure: ApiFailureSnapshot,
    now: i64,
) -> Seq<PendingHide> {
    match index_of_revid(items, target.revid) {
        Some(p) => items.update(p, failed_again(items[p], failure, now)),
        None => items.push(first_failure(target, failure, now)),
    }
}

fn upsert_into(items: &mut Vec<PendingHide>, target: &HideTarget, failure: ApiFailureSnapshot, now: i64)
    ensures
        final(items)@ == upserted(old(items)@, *target, failure, now),
        distinct_revids(old(items)@) ==> distinct_revids(final(items)@),
{
    proof {
        lemma_index_of_revid_facts(items@, target.revid);
    }
    match find_revid(items, target.revid) {
        Some(p) => {
            let ghost before = items@;
            let item = items.remove(p);
            let attempts = if item.attempt_count == u32::MAX {
                u32::MAX
            } else {
                item.attempt_count + 1
            };
            let updated = PendingHide {
                last_failed_at: now,
                attempt_count: attempts,
                last_error: Some(failure),
                ..item
            };
            items.insert(p, updated);
            assert(items@ =~= before.update(p as int, failed_again(before[p as int], failure, now)));
        },
        None => {
            let fresh = PendingHide {
                title: target.title.clone(),
                revid: target.revid,
                observed_at: target.observed_at,
                first_failed_at: now,
                last_failed_at: now,
                attempt_count: 1,
                last_error: Some(failure),
            };
            items.push(fresh);
        },
    }
}

/// Records a failed hide that will be retried: its pending item is failed
/// again (attempts saturate), or a first pending item is appended.
pub fn upsert_pending(
    state: &mut SimpleDaemonState,
    target: &HideTarget,
    failure: ApiFailureSnapshot,
    now: i64,
)
    ensures
        final(state).pending@ == upserted(old(state).pending@, *target, failure, now),
        final(state).quarantined@ == old(state).quarantined@,
        distinct_revids(old(state).pending@) ==> distinct_revids(final(state).pending@),
{
    upsert_into(&mut state.pending, target, failure, now);
}

/// The items not for `revid`, in order.
pub open spec fn without_revid(items: Seq<PendingHide>, revid: u64) -> Seq<PendingHide> {
    items.filter(|item: PendingHide| item.revid != revid)
}

fn remove_revid(items: &mut Vec<PendingHide>, revid: u64)
    ensures
        final(items)@ == without_revid(old(items)@, revid),
        distinct_revids(old(items)@) ==> distinct_revids(final(items)@),
{
    let ghost all = items@;
    let mut kept: Vec<PendingHide> = Vec::new();
    let mut rest: Vec<PendingHide> = Vec::new();
    std::mem::swap(&mut rest, items);
    assert(rest@ == all);
    let mut taken: usize = 0;
    assert(all.len() == rest.len());
    while rest.len() > 0
        invariant
            all.len() <= usize::MAX,
            taken + rest@.len() == all.len(),
            rest@ == all.skip(taken as int),
            kept@ == without_revid(all.take(taken as int), revid),
            kept@.len() <= taken,
            forall|i: int| 0 <= i < kept@.len() ==> exists|j: int| 0 <= j < taken && #[trigger] kept@[i] == all[j],
        decreases rest.len(),
    {
        let item = rest.remove(0);
        proof {
            assert(all.take(taken + 1).drop_last() =~= all.take(taken as int));
            assert(all.take(taken + 1).last() == item);
            assert(all.skip(taken + 1) =~= all.skip(taken as int).drop_first());
            reveal(Seq::filter);
        }
        if item.revid != revid {
            kept.push(item);
        }
        taken = taken + 1;
    }
    assert(all.take(all.len() as int) =~= all);
    *items = kept;
    proof {
        if distinct_revids(all) {
            lemma_filter_keeps_distinct(all, revid);
        }
    }
}

proof fn lemma_filter_keeps_distinct(items: Seq<PendingHide>, revid: u64)
    requires
        distinct_revids(items),
    ensures
        distinct_revids(without_revid(items, revid)),
    decreases items.len(),
{
    reveal(Seq::filter);
    if items.len() > 0 {
        let init = items.drop_last();
        assert forall|i: int, j: int|
            0 <= i < init.len() && 0 <= j < init.len() && i != j implies init[i].revid != init[j].revid by {
            assert(init[i] == items[i] && init[j] == items[j]);
        }
        lemma_filter_keeps_distinct(init, revid);
        let f = without_revid(init, revid);
        if items.last().revid != revid {
            assert(without_revid(items, revid) == f.push(items.last()));
            assert forall|k: int| 0 <= k < f.len() implies f[k].revid != items.last().revid by {
                lemma_filter_member(init, revid, k);
                let j = choose|j: int| 0 <= j < init.len() && init[j] == f[k];
                assert(items[j] == init[j]);
            }
        } else {
            assert(without_revid(items, revid) == f);
        }
    }
}

proof fn lemma_filter_member(items: Seq<PendingHide>, revid: u64, k: int)
    requires
        0 <= k < without_revid(items, revid).len(),
    ensures
        exists|j: int| 0 <= j < items.len() && items[j] == without_revid(items, revid)[k],
    decreases items.len(),
{
    reveal(Seq::filter);
    if items.len() > 0 {
        let init = items.drop_last();
        let f = without_revid(init, revid);
        if k < f.len() {
            lemma_filter_member(init, revid, k);
            let j = choose|j: int| 0 <= j < init.len() && init[j] == f[k];
            assert(items[j] == init[j]);
            if items.last().revid != revid {
                assert(without_revid(items, revid)[k] == f.push(items.last())[k]);
            }
        } else {
            assert(without_revid(items, revid)[k] == items.last());
            assert(items[items.len() - 1] == items.last());
        }
    }
}

/// Records a failed hide that will not be retried: it leaves the pending
/// list, and its quarantined item is failed again (or a first one appended).
pub fn upsert_quarantined(
    state: &mut SimpleDaemonState,
    target: &HideTarget,
    failure: ApiFailureSnapshot,
    now: i64,
)
    ensures
        final(state).pending@ == without_revid(old(state).pending@, target.revid),
        final(state).quarantined@ == upserted(old(state).quarantined@, *target, failure, now),
        distinct_revids(old(state).pending@) ==> distinct_revids(final(state).pending@),
        distinct_revids(old(state).quarantined@) ==> distinct_revids(final(state).quarantined@),
{
    remove_revid(&mut state.pending, target.revid);
    upsert_into(&mut state.quarantined, target, failure, now);
}

/// The quarantine after moving `item` into it: a newer failure replaces
/// the item for its revision, an older one is dropped; a new item counts at
/// least one attempt.
pub open spec fn quarantined_with(items: Seq<PendingHide>, item: PendingHide) -> Seq<PendingHide> {
    match index_of_revid(items, item.revid) {
        Some(p) => if item.last_failed_at >= items[p].last_failed_at {
            items.update(p, item)
        } else {
            items
        },
        None => items.push(
            if item.attempt_count == 0 {
                PendingHide { attempt_count: 1, ..item }
            } else {
                item
            },
        ),
    }
}

fn quarantine_item(items: &mut Vec<PendingHide>, item: PendingHide)
    ensures
        final(items)@ == quarantined_with(old(items)@, item),
        distinct_revids(old(items)@) ==> distinct_revids(final(items)@),
{
    proof {
        lemma_index_of_revid_facts(items@, item.revid);
    }
    match find_revid(items, item.revid) {
        Some(p) => {
            if item.last_failed_at >= items[p].last_failed_at {
                let ghost before = items@;
                let _ = items.remove(p);
                items.insert(p, item);
                assert(items@ =~= before.update(p as int, item));
            }
        },
        None => {
            let mut item = item;
            if item.attempt_count == 0 {
                item.attempt_count = 1;
            }
            items.push(item);
        },
    }
}

/// Moves one item into the quarantine of `state`.
pub fn upsert_quarantined_item(state: &mut SimpleDaemonState, item: PendingHide)
    ensures
        final(state).quarantined@ == quarantined_with(old(state).quarantined@, item),
        final(state).pending@ == old(state).pending@,
{
    quarantine_item(&mut state.quarantined, item);
}

/// The pending list split by migration: the items kept pending and the
/// quarantine after moving the terminal ones there, in order.
pub open spec fn migrated(pending: Seq<PendingHide>, quarantined: Seq<PendingHide>) -> (
    Seq<PendingHide>,
    Seq<PendingHide>,
)
    decreases pending.len(),
{
    if pending.len() == 0 {
        (Seq::empty(), quarantined)
    } else {
        let (kept, q) = migrated(pending.drop_last(), quarantined);
        let item = pending.last();
        if item.terminal() {
            (kept, quarantined_with(q, item))
        } else {
            (kept.push(item), q)
        }
    }
}

/// Moves every pending hide whose last failure is terminal to the
/// quarantine; the others stay pending, in order.
pub fn migrate_terminal_pending_to_quarantine(state: &mut SimpleDaemonState)
    ensures
        (final(state).pending@, final(state).quarantined@) == migrated(
            old(state).pending@,
            old(state).quarantined@,
        ),
        forall|i: int| 0 <= i < final(state).pending@.len() ==> !(#[trigger] final(state).pending@[i]).terminal(),
{
    let ghost all = state.pending@;
    let ghost q0 = state.quarantined@;
    let mut rest: Vec<PendingHide> = Vec::new();
    std::mem::swap(&mut rest, &mut state.pending);
    let mut kept: Vec<PendingHide> = Vec::new();
    let mut taken: usize = 0;
    assert(all.take(0) =~= Seq::<PendingHide>::empty());
    assert(all.len() == rest.len());
    while rest.len() > 0
        invariant
            all.len() <= usize::MAX,
            taken + rest@.len() == all.len(),
            rest@ == all.skip(taken as int),
            (kept@, state.quarantined@) == migrated(all.take(taken as int), q0),
            forall|i: int| 0 <= i < kept@.len() ==> !(#[trigger] kept@[i]).terminal(),
        decreases rest.len(),
    {
        let item = rest.remove(0);
        proof {
            assert(all.take(taken + 1).drop_last() =~= all.take(taken as int));
            assert(all.take(taken + 1).last() == item);
            assert(all.skip(taken + 1) =~= all.skip(taken as int).drop_first());
        }
        if item.has_terminal_failure() {
            quarantine_item(&mut state.quarantined, item);
        } else {
            kept.push(item);
        }
        taken = taken + 1;
    }
    assert(all.take(all.len() as int) =~= all);
    state.pending = kept;
}

/// The earliest instant at which a pending hide is due.
pub open spec fn earliest_retry(items: Seq<PendingHide>) -> Option<int>
    decreases items.len(),
{
    if items.len() == 0 {
        None
    } else {
        let t = items.last().last_failed_at + PENDING_RETRY_SECONDS;
        match earliest_retry(items.drop_last()) {
            Some(e) => Some(
                if e <= t {
                    e
                } else {
                    t
                },
            ),
            None => Some(t),
        }
    }
}

/// When the next pending hide is due.
pub fn next_pending_retry_at(pending: &Vec<PendingHide>) -> (r: Option<i64>)
    requires
        forall|i: int| 0 <= i < pending@.len() ==> representable_time(#[trigger] pending@[i].last_failed_at),
    ensures
        match r {
            Some(t) => earliest_retry(pending@) == Some(t as int),
            None => earliest_retry(pending@) is None,
        },
{
    let mut best: Option<i64> = None;
    let mut i: usize = 0;
    while i < pending.len()
        invariant
            i <= pending.len(),
            forall|k: int| 0 <= k < pending@.len() ==> representable_time(#[trigger] pending@[k].last_failed_at),
            match best {
                Some(t) => earliest_retry(pending@.take(i as int)) == Some(t as int),
                None => earliest_retry(pending@.take(i as int)) is None,
            },
        decreases pending.len() - i,
    {
        assert(pending@.take(i + 1).drop_last() =~= pending@.take(i as int));
        let t = pending[i].retry_due_at();
        best = match best {
            Some(e) => Some(
                if e <= t {
                    e
                } else {
                    t
                },
            ),
            None => Some(t),
        };
        i = i + 1;
    }
    assert(pending@.take(pending.len() as int) =~= pending@);
    best
}

/// How many hides are unresolved: pending and quarantined together.
pub fn unresolved_count(state: &SimpleDaemonState) -> (r: usize)
    requires
        state.pending@.len() + state.quarantined@.len() <= usize::MAX,
    ensures
        r == state.pending@.len() + state.quarantined@.len(),
{
    state.pending.len() + state.quarantined.len()
}

/// The position of the item that failed last (the later one on a tie).
pub open spec fn latest_failed(items: Seq<PendingHide>) -> Option<int>
    decreases items.len(),
{
    if items.len() == 0 {
        None
    } else {
        match latest_failed(items.drop_last()) {
            None => Some(items.len() - 1),
            Some(i) => if items.last().last_failed_at >= items[i].last_failed_at {
                Some(items.len() - 1)
            } else {
                Some(i)
            },
        }
    }
}

proof fn lemma_latest_failed_in_range(items: Seq<PendingHide>)
    ensures
        latest_failed(items) matches Some(i) ==> 0 <= i < items.len(),
        items.len() > 0 ==> latest_failed(items) is Some,
    decreases items.len(),
{
    if items.len() > 0 {
        lemma_latest_failed_in_range(items.drop_last());
    }
}

/// The last error of the quarantined hide that failed last.
pub fn latest_quarantined_error(state: &SimpleDaemonState) -> (r: Option<ApiFailureSnapshot>)
    ensures
        r == match latest_failed(state.quarantined@) {
            Some(i) => state.quarantined@[i].last_error,
            None => None,
        },
{
    let items = &state.quarantined;
    let mut best: Option<usize> = None;
    let mut i: usize = 0;
    while i < items.len()
        invariant
            i <= items.len(),
            match best {
                Some(b) => latest_failed(items@.take(i as int)) == Some(b as int) && b < i,
                None => latest_failed(items@.take(i as int)) is None && i == 0,
            },
        decreases items.len() - i,
    {
        let ghost t = items@.take(i + 1);
        assert(t.drop_last() =~= items@.take(i as int));
        proof {
            if let Some(b) = best {
                assert(t[b as int] == items@[b as int]);
            }
        }
        best = match best {
            None => Some(i),
            Some(b) => if items[i].last_failed_at >= items[b].last_failed_at {
                Some(i)
            } else {
                Some(b)
            },
        };
        i = i + 1;
    }
    assert(items@.take(items.len() as int) =~= items@);
    match best {
        Some(b) => match &items[b].last_error {
            Some(f) => Some(f.copy()),
            None => None,
        },
        None => None,
    }
}

/// The unresolved-item report of a backlog item at `now`: its diff link,
/// its age, its last error's message (else `pending retry`) and the given
/// next action.
pub fn unresolved_item_from_pending(
    item: &PendingHide,
    server_name: &str,
    next_action: &str,
    now: i64,
) -> (r: UnresolvedExposureItem)
    requires
        representable_time(now),
        item.observed_at matches Some(t) ==> representable_time(t),
    ensures
        r.title == item.title,
        r.revid == item.revid,
        r.revision_url matches Some(u) && u@ == revision_url_text(server_name@, item.revid),
        r.age_seconds == match item.observed_at {
            Some(t) => Some((now - t) as i64),
            None => None,
        },
        r.reason@ == match item.last_error {
            Some(f) => f.message@,
            None => "pending retry"@,
        },
        r.next_action@ == next_action@,
{
    UnresolvedExposureItem {
        title: item.title.clone(),
        revid: item.revid,
        revision_url: Some(revision_url(server_name, item.revid)),
        age_seconds: match item.observed_at {
            Some(t) => Some(now - t),
            None => None,
        },
        reason: match &item.last_error {
            Some(f) => f.message.clone(),
            None => String::from_str("pending retry"),
        },
        next_action: String::from_str(next_action),
    }
}

/// Whether any item blocks all hiding.
pub open spec fn any_blocking(items: Seq<PendingHide>) -> bool {
    exists|i: int| 0 <= i < items.len() && (#[trigger] items[i]).blocks()
}

/// The health the backlog allows for a requested state at `now`: starting,
/// catching up, stopping and stopped are kept; a blocking error or pending
/// hide blocks; any error or backlog degrades; otherwise health needs a
/// successful poll no older than the stale threshold.
pub open spec fn realtime_state_for(
    requested: Seq<char>,
    state: SimpleDaemonState,
    latest_error: Option<ApiFailureSnapshot>,
    now: i64,
    stale_threshold_seconds: u64,
) -> Seq<char> {
    if requested == "starting"@ || requested == "catching-up"@ || requested == "stopping"@
        || requested == "stopped"@ {
        requested
    } else if (latest_error matches Some(f) && blocking_failure(f)) || any_blocking(state.pending@) {
        "blocked"@
    } else if latest_error is Some || state.pending@.len() > 0 || state.quarantined@.len() > 0 {
        "degraded"@
    } else if state.last_successful_poll_at matches Some(t) && now - t <= (
    stale_threshold_seconds as i64) {
        "healthy"@
    } else {
        "degraded"@
    }
}

/// Whether the last successful poll, if any, is no older at `now` than the
/// stale threshold (taken as a signed count of seconds).
pub open spec fn poll_fresh(last_poll: Option<i64>, now: i64, stale_threshold_seconds: u64) -> bool {
    match last_poll {
        Some(t) => now - t <= (stale_threshold_seconds as i64),
        None => false,
    }
}

/// Health is reported only when nothing is wrong: for any requested state
/// other than starting, catching up, stopping or stopped, the state is
/// healthy exactly when there is no latest error, no pending or
/// quarantined hide, and a successful poll no older than the stale
/// threshold; any latest error gives blocked or degraded, and a lost
/// session (or a pending hide that blocks) gives blocked.
pub proof fn realtime_health_needs_no_trouble(
    requested: Seq<char>,
    state: SimpleDaemonState,
    latest_error: Option<ApiFailureSnapshot>,
    now: i64,
    stale_threshold_seconds: u64,
)
    requires
        requested != "starting"@,
        requested != "catching-up"@,
        requested != "stopping"@,
        requested != "stopped"@,
    ensures
        ({
            let r = realtime_state_for(requested, state, latest_error, now, stale_threshold_seconds);
            &&& r == "healthy"@ || r == "degraded"@ || r == "blocked"@
            &&& r == "healthy"@ <==> (latest_error is None && state.pending@.len() == 0 && state.quarantined@.len() == 0
                && poll_fresh(state.last_successful_poll_at, now, stale_threshold_seconds))
            &&& latest_error is Some ==> (r == "blocked"@ || r == "degraded"@)
            &&& (latest_error matches Some(f) && f.class@ == "auth-session"@) ==> r == "blocked"@
            &&& (exists|i: int| 0 <= i < state.pending@.len() && (#[trigger] state.pending@[i]).blocks()) ==> r
                == "blocked"@
        }),
{
    reveal_strlit("healthy");
    reveal_strlit("degraded");
    reveal_strlit("blocked");
    assert("healthy"@[0] == 'h' && "degraded"@[0] == 'd' && "blocked"@[0] == 'b');
}

/// The realtime state to report, given the backlog.
pub fn effective_realtime_state(
    requested_state: &str,
    state: &SimpleDaemonState,
    latest_error: Option<&ApiFailureSnapshot>,
    now: i64,
    stale_threshold_seconds: u64,
) -> (r: String)
    requires
        representable_time(now),
        state.last_successful_poll_at matches Some(t) ==> representable_time(t),
    ensures
        r@ == realtime_state_for(
            requested_state@,
            *state,
            match latest_error {
                Some(f) => Some(*f),
                None => None,
            },
            now,
            stale_threshold_seconds,
        ),
{
    if str_eq(requested_state, "starting") || str_eq(requested_state, "catching-up") || str_eq(
        requested_state,
        "stopping",
    ) || str_eq(requested_state, "stopped") {
        return String::from_str(requested_state);
    }
    let error_blocks = match latest_error {
        Some(f) => is_blocking_failure(f),
        None => false,
    };
    let mut pending_blocks = false;
    let mut i: usize = 0;
    while i < state.pending.len()
        invariant
            i <= state.pending@.len(),
            pending_blocks == exists|k: int| 0 <= k < i && (#[trigger] state.pending@[k]).blocks(),
        decreases state.pending.len() - i,
    {
        if state.pending[i].is_blocking() {
            pending_blocks = true;
        }
        i = i + 1;
    }
    if error_blocks || pending_blocks {
        return String::from_str("blocked");
    }
    if latest_error.is_some() || state.pending.len() > 0 || state.quarantined.len() > 0 {
        return String::from_str("degraded");
    }
    let fresh = match state.last_successful_poll_at {
        Some(t) => now - t <= stale_threshold_seconds as i64,
        None => false,
    };
    if fresh {
        String::from_str("healthy")
    } else {
        String::from_str("degraded")
    }
}

/// Where a catch-up at startup begins: `default_window_seconds` before `end`
/// without a poll cursor, else the cursor, but no earlier than
/// `max_window_seconds` before `end` and no later than `end`.
pub open spec fn startup_window_start(cursor: Option<i64>, catchup: CatchupConfig, end: i64) -> int {
    match cursor {
        None => end - catchup.default_window_seconds,
        Some(c) => {
            let max_start = end - catchup.max_window_seconds;
            let lower = if c >= max_start {
                c as int
            } else {
                max_start
            };
            if lower <= end {
                lower
            } else {
                end as int
            }
        },
    }
}

/// Whether `t` minus `seconds` stays within the instants the library holds.
pub open spec fn earlier_fits(t: i64, seconds: i64) -> bool {
    representable_time(t) && 0 <= seconds && t - seconds >= -8_000_000_000_000
}

/// The start of the catch-up window run at startup.
pub fn startup_catchup_start(state: &SimpleDaemonState, catchup: &CatchupConfig, end: i64) -> (r: i64)
    requires
        earlier_fits(end, catchup.default_window_seconds),
        earlier_fits(end, catchup.max_window_seconds),
    ensures
        r == startup_window_start(state.last_successful_poll_at, *catchup, end),
{
    let fallback = end - catchup.default_window_seconds;
    let cursor = match state.last_successful_poll_at {
        Some(c) => c,
        None => return fallback,
    };
    let max_start = end - catchup.max_window_seconds;
    let lower = if cursor >= max_start {
        cursor
    } else {
        max_start
    };
    if lower <= end {
        lower
    } else {
        end
    }
}

/// Where a live poll begins: 15 seconds before the poll cursor (or the
/// default window before `end` without one), but no earlier than the
/// maximum window before `end`.
pub open spec fn live_window_start(cursor: Option<i64>, catchup: CatchupConfig, end: i64) -> int {
    let wanted = match cursor {
        Some(c) => c - LIVE_OVERLAP_SECONDS,
        None => end - catchup.default_window_seconds,
    };
    let floor = end - catchup.max_window_seconds;
    if wanted >= floor {
        wanted
    } else {
        floor
    }
}

/// The start of the next live poll window.
pub fn live_poll_start(state: &SimpleDaemonState, catchup: &CatchupConfig, end: i64) -> (r: i64)
    requires
        earlier_fits(end, catchup.default_window_seconds),
        earlier_fits(end, catchup.max_window_seconds),
        state.last_successful_poll_at matches Some(c) ==> representable_time(c),
    ensures
        r == live_window_start(state.last_successful_poll_at, *catchup, end),
{
    let wanted = match state.last_successful_poll_at {
        Some(c) => c - LIVE_OVERLAP_SECONDS,
        None => end - catchup.default_window_seconds,
    };
    let floor = end - catchup.max_window_seconds;
    if wanted >= floor {
        wanted
    } else {
        floor
    }
}

} // verus!
