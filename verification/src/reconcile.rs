//! Reconciliation passes: their modes, the coordinator that runs one pass at
//! a time and queues the strongest requested rerun, per-page checkpoints, and
//! the coalescing of page failures.

use vstd::prelude::*;

use crate::mw_api::RevisionRecord;
use crate::passes::{queued_rerun_recorded, record_queued_rerun};
use crate::runtime::RuntimeStatus;
use crate::scheduler::{rolling_window_start, window_start_fits};
use crate::state::{ApiFailureSnapshot, WarningSummary};
use crate::text::str_eq;
use crate::time::representable_time;
use crate::warnings::{
    counted_again, counted_first, distinct_keys, failure_key, in_report_order, key_index,
    record_failure, warning_before,
};

verus! {

/// What a reconciliation pass checks: the last day, or the whole watched set.
#[derive(Clone, Copy, Debug, PartialEq, Eq, PartialOrd, Ord, Hash)]
pub enum ReconcileMode {
    CurrentDay,
    Full,
}

impl ReconcileMode {
    /// The strength of a mode: a full pass covers a current-day one.
    pub open spec fn rank(self) -> int {
        match self {
            ReconcileMode::CurrentDay => 0,
            ReconcileMode::Full => 1,
        }
    }

    /// The short label of the mode.
    pub fn label(self) -> (r: &'static str)
        ensures
            r@ == match self {
                ReconcileMode::CurrentDay => "last-24h"@,
                ReconcileMode::Full => "nightly-full"@,
            },
    {
        match self {
            ReconcileMode::CurrentDay => "last-24h",
            ReconcileMode::Full => "nightly-full",
        }
    }

    /// The label operators read.
    pub fn operator_label(self) -> (r: &'static str)
        ensures
            r@ == match self {
                ReconcileMode::CurrentDay => "Last 24 hours verification"@,
                ReconcileMode::Full => "Full watched-set recheck"@,
            },
    {
        match self {
            ReconcileMode::CurrentDay => "Last 24 hours verification",
            ReconcileMode::Full => "Full watched-set recheck",
        }
    }
}

/// The stronger of two modes.
pub open spec fn stronger(a: ReconcileMode, b: ReconcileMode) -> ReconcileMode {
    if a.rank() >= b.rank() {
        a
    } else {
        b
    }
}

fn stronger_mode(a: ReconcileMode, b: ReconcileMode) -> (r: ReconcileMode)
    ensures
        r == stronger(a, b),
{
    match (a, b) {
        (ReconcileMode::CurrentDay, ReconcileMode::Full) => ReconcileMode::Full,
        _ => a,
    }
}

/// The source under which a pass's issues are recorded.
pub fn reconciliation_issue_source(mode: ReconcileMode) -> (r: &'static str)
    ensures
        r@ == match mode {
            ReconcileMode::CurrentDay => "last-24h-verification"@,
            ReconcileMode::Full => "full-watched-set-recheck"@,
        },
{
    match mode {
        ReconcileMode::CurrentDay => "last-24h-verification",
        ReconcileMode::Full => "full-watched-set-recheck",
    }
}

/// How many revisions one revision-delete request may name: 500 with the
/// high-limits right, else 50.
pub fn revisiondelete_batch_limit(has_high_limits: bool) -> (r: usize)
    ensures
        r == if has_high_limits {
            500usize
        } else {
            50usize
        },
{
    if has_high_limits {
        500
    } else {
        50
    }
}

/// What a pass does when asked to run.
#[derive(Clone, Copy, Debug, PartialEq, Eq)]
pub enum RunRequestOutcome {
    /// No pass was running: this one starts now.
    Start(ReconcileMode),
    /// A pass is running: a rerun in the given mode is queued after it.
    Queued(ReconcileMode),
}

/// One pass at a time; requests during a pass queue one rerun, in the
/// strongest mode asked for.
#[derive(Clone, Copy, Debug, Default, PartialEq, Eq)]
pub struct ReconcileCoordinator {
    pub active: bool,
    pub pending: Option<ReconcileMode>,
}

impl ReconcileCoordinator {
    /// A rerun is only ever queued behind a running pass.
    pub open spec fn wf(&self) -> bool {
        self.pending is Some ==> self.active
    }

    /// Idle, nothing queued.
    pub fn new() -> (r: Self)
        ensures
            r.wf(),
            !r.active,
            r.pending is None,
    {
        ReconcileCoordinator { active: false, pending: None }
    }

    /// A request at `now` to run a pass in `mode`: starts it when idle (the
    /// status untouched), else queues a rerun in the stronger of the queued
    /// mode and `mode` and records that rerun in the status.
    pub fn request_run(&mut self, status: &mut RuntimeStatus, mode: ReconcileMode, now: i64) -> (r: RunRequestOutcome)
        ensures
            final(self).wf(),
            final(self).active,
            old(self).active ==> {
                let queued = match old(self).pending {
                    Some(p) => stronger(p, mode),
                    None => mode,
                };
                &&& final(self).pending == Some(queued)
                &&& r == RunRequestOutcome::Queued(queued)
                &&& queued_rerun_recorded(*old(status), *final(status), queued, now)
            },
            !old(self).active ==> final(self).pending == old(self).pending && r
                == RunRequestOutcome::Start(mode) && *final(status) == *old(status),
    {
        if self.active {
            let queued = match self.pending {
                Some(p) => stronger_mode(p, mode),
                None => mode,
            };
            self.pending = Some(queued);
            record_queued_rerun(status, queued, now);
            RunRequestOutcome::Queued(queued)
        } else {
            self.active = true;
            RunRequestOutcome::Start(mode)
        }
    }

    /// A pass ended: the queued rerun, if any, runs next (and stays active);
    /// otherwise the coordinator goes idle.
    pub fn pass_finished(&mut self) -> (r: Option<ReconcileMode>)
        requires
            old(self).wf(),
        ensures
            final(self).wf(),
            r == old(self).pending,
            final(self).pending is None,
            final(self).active == (old(self).pending is Some),
    {
        match self.pending {
            Some(next) => {
                self.pending = None;
                Some(next)
            },
            None => {
                self.active = false;
                None
            },
        }
    }
}

/// A queued rerun never weakens: after any request during a pass, the queued
/// mode is at least as strong as the one queued before and as the one asked
/// for.
pub proof fn queued_rerun_never_weakens(queued_before: Option<ReconcileMode>, mode: ReconcileMode)
    ensures
        ({
            let queued = match queued_before {
                Some(p) => stronger(p, mode),
                None => mode,
            };
            &&& queued.rank() >= mode.rank()
            &&& queued_before matches Some(p) ==> queued.rank() >= p.rank()
        }),
{
}

/// Where reconciliation of one page stands.
#[derive(Clone, Copy, Debug, Default, PartialEq, Eq)]
pub struct PageCheckpoint {
    pub last_full_check_at: Option<i64>,
    pub last_reconciled_at: Option<i64>,
    pub last_reconciled_revision_timestamp: Option<i64>,
    pub last_reconciled_revid: Option<u64>,
}

/// The checkpoint after a pass over a page at `now` that last saw the given
/// revision: a full pass moves the full-check instant (to the revision seen,
/// else the previous one, else now); a current-day pass keeps it.
pub open spec fn checkpoint_after(
    mode: ReconcileMode,
    checkpoint: PageCheckpoint,
    last_seen_timestamp: Option<i64>,
    last_seen_revid: Option<u64>,
    now: i64,
) -> PageCheckpoint {
    PageCheckpoint {
        last_full_check_at: match mode {
            ReconcileMode::Full => match last_seen_timestamp {
                Some(t) => Some(t),
                None => match checkpoint.last_full_check_at {
                    Some(t) => Some(t),
                    None => Some(now),
                },
            },
            ReconcileMode::CurrentDay => checkpoint.last_full_check_at,
        },
        last_reconciled_at: match last_seen_timestamp {
            Some(t) => Some(t),
            None => Some(now),
        },
        last_reconciled_revision_timestamp: last_seen_timestamp,
        last_reconciled_revid: last_seen_revid,
    }
}

/// The checkpoint a page gets after a pass at `now`.
pub fn next_checkpoint(
    mode: ReconcileMode,
    checkpoint: &PageCheckpoint,
    last_seen_timestamp: Option<i64>,
    last_seen_revid: Option<u64>,
    now: i64,
) -> (r: PageCheckpoint)
    ensures
        r == checkpoint_after(mode, *checkpoint, last_seen_timestamp, last_seen_revid, now),
{
    PageCheckpoint {
        last_full_check_at: match mode {
            ReconcileMode::Full => match last_seen_timestamp {
                Some(t) => Some(t),
                None => match checkpoint.last_full_check_at {
                    Some(t) => Some(t),
                    None => Some(now),
                },
            },
            ReconcileMode::CurrentDay => checkpoint.last_full_check_at,
        },
        last_reconciled_at: match last_seen_timestamp {
            Some(t) => Some(t),
            None => Some(now),
        },
        last_reconciled_revision_timestamp: last_seen_timestamp,
        last_reconciled_revid: last_seen_revid,
    }
}

/// From when a pass at `now` looks at a page: a full pass from the page's
/// previous checkpoint, a current-day pass from the start of the rolling
/// window of `daytime_window_hours`. The time zone plays no part.
pub fn reconciliation_since(
    mode: ReconcileMode,
    previous: Option<i64>,
    timezone: &str,
    daytime_window_hours: u64,
    now: i64,
) -> (r: Option<i64>)
    requires
        window_start_fits(now, daytime_window_hours),
    ensures
        r == match mode {
            ReconcileMode::Full => previous,
            ReconcileMode::CurrentDay => Some((now - daytime_window_hours * 3600) as i64),
        },
{
    match mode {
        ReconcileMode::Full => previous,
        ReconcileMode::CurrentDay => Some(rolling_window_start(now, daytime_window_hours)),
    }
}

/// The wait a reconciliation failure asks for: rate limits (HTTP 429 or the
/// API code `ratelimited`) their retry-after or the default, other failures
/// their own retry-after if any.
pub open spec fn reconciliation_wait(s: ApiFailureSnapshot, default_backoff_seconds: u64) -> Option<u64> {
    if s.http_status == Some(429u16) || (s.api_code matches Some(code) && code@ == "ratelimited"@) {
        match s.retry_after_seconds {
            Some(r) => Some(r),
            None => Some(default_backoff_seconds),
        }
    } else {
        s.retry_after_seconds
    }
}

/// The wait a reconciliation failure asks for.
pub fn reconciliation_retry_after_seconds(
    snapshot: &ApiFailureSnapshot,
    default_backoff_seconds: u64,
) -> (r: Option<u64>)
    ensures
        r == reconciliation_wait(*snapshot, default_backoff_seconds),
{
    let limited = match snapshot.http_status {
        Some(status) => status == 429,
        None => false,
    };
    let ratelimited_code = match &snapshot.api_code {
        Some(code) => str_eq(code.as_str(), "ratelimited"),
        None => false,
    };
    if limited || ratelimited_code {
        match snapshot.retry_after_seconds {
            Some(r) => Some(r),
            None => Some(default_backoff_seconds),
        }
    } else {
        snapshot.retry_after_seconds
    }
}

/// What one reconciliation failure means: when page checks may resume.
#[derive(Clone, Copy, Debug, Default, PartialEq, Eq)]
pub struct ReconciliationFailureObservation {
    pub backoff_until: Option<i64>,
}

/// Page failures of a pass, one summary per root cause.
#[derive(Debug)]
pub struct ReconciliationFailureAggregates {
    pub sample_limit: usize,
    pub entries: Vec<WarningSummary>,
}

impl ReconciliationFailureAggregates {
    /// Well-formed: one summary per root cause.
    pub open spec fn wf(&self) -> bool {
        distinct_keys(self.entries@)
    }

    /// No failures yet.
    pub fn new(sample_limit: usize) -> (r: Self)
        ensures
            r.wf(),
            r.sample_limit == sample_limit,
            r.entries@.len() == 0,
    {
        ReconciliationFailureAggregates { sample_limit, entries: Vec::new() }
    }

    /// Recording `s` at `now` stays within the counters and the instants the
    /// library can hold.
    pub open spec fn can_record(&self, s: ApiFailureSnapshot, default_backoff_seconds: u64, now: i64) -> bool {
        &&& match key_index(self.entries@, failure_key(s)) {
            Some(p) => self.entries@[p].count < usize::MAX,
            None => true,
        }
        &&& representable_time(now)
        &&& reconciliation_wait(s, default_backoff_seconds) matches Some(w) ==> now + w
            <= 8_000_000_000_000
    }

    /// Records one page failure under its root cause (never stopping the
    /// pass); page checks may resume after `now` plus this failure's wait.
    pub fn record(&mut self, snapshot: ApiFailureSnapshot, default_backoff_seconds: u64, now: i64) -> (r:
        ReconciliationFailureObservation)
        requires
            old(self).wf(),
            old(self).can_record(snapshot, default_backoff_seconds, now),
        ensures
            final(self).wf(),
            final(self).sample_limit == old(self).sample_limit,
            match key_index(old(self).entries@, failure_key(snapshot)) {
                Some(p) => {
                    &&& final(self).entries@.len() == old(self).entries@.len()
                    &&& forall|i: int|
                        0 <= i < old(self).entries@.len() && i != p ==> final(self).entries@[i]
                            == old(self).entries@[i]
                    &&& counted_again(
                        old(self).entries@[p],
                        final(self).entries@[p],
                        snapshot.sample_title,
                        reconciliation_wait(snapshot, default_backoff_seconds),
                        old(self).sample_limit,
                        None,
                    )
                },
                None => {
                    &&& final(self).entries@.len() == old(self).entries@.len() + 1
                    &&& forall|i: int|
                        0 <= i < old(self).entries@.len() ==> final(self).entries@[i]
                            == old(self).entries@[i]
                    &&& counted_first(
                        final(self).entries@[old(self).entries@.len() as int],
                        snapshot,
                        reconciliation_wait(snapshot, default_backoff_seconds),
                        old(self).sample_limit,
                        None,
                    )
                },
            },
            r.backoff_until == match reconciliation_wait(snapshot, default_backoff_seconds) {
                Some(w) => Some((now + w) as i64),
                None => None,
            },
    {
        let wait = reconciliation_retry_after_seconds(&snapshot, default_backoff_seconds);
        let limit = self.sample_limit;
        let _ = record_failure(&mut self.entries, limit, snapshot, wait, None);
        let backoff_until = match wait {
            Some(w) => Some(now + w as i64),
            None => None,
        };
        ReconciliationFailureObservation { backoff_until }
    }

    /// The summaries in report order.
    pub fn into_summaries(self) -> (r: Vec<WarningSummary>)
        requires
            self.wf(),
        ensures
            r@.to_multiset() == self.entries@.to_multiset(),
            forall|i: int, j: int| 0 <= i < j < r@.len() ==> warning_before(r@[i], r@[j]),
    {
        in_report_order(self.entries)
    }
}


/// A revision that still shows its user or its comment.
pub open spec fn needs_hide(r: RevisionRecord) -> bool {
    !r.user_hidden || !r.comment_hidden
}

/// The revisions of `revisions` that still need hiding, in order.
pub open spec fn revids_to_hide(revisions: Seq<RevisionRecord>) -> Seq<u64>
    decreases revisions.len(),
{
    if revisions.len() == 0 {
        Seq::empty()
    } else {
        let rest = revids_to_hide(revisions.drop_last());
        if needs_hide(revisions.last()) {
            rest.push(revisions.last().revid)
        } else {
            rest
        }
    }
}

/// What a pass leaves in a page's checkpoint: a last-24-hours pass never
/// moves the full-check instant (whatever it saw); a full pass moves it to
/// the latest revision it saw, keeps it when it saw none, and sets it to
/// `now` on a page never fully checked; either pass records the revision
/// it saw (or `now` when it saw none) as the reconciled point.
pub proof fn checkpoint_keeps_full_check_on_current_day(
    checkpoint: PageCheckpoint,
    last_seen_timestamp: Option<i64>,
    last_seen_revid: Option<u64>,
    now: i64,
)
    ensures
        checkpoint_after(ReconcileMode::CurrentDay, checkpoint, last_seen_timestamp, last_seen_revid, now).last_full_check_at
            == checkpoint.last_full_check_at,
        last_seen_timestamp matches Some(t) ==> checkpoint_after(
            ReconcileMode::Full,
            checkpoint,
            last_seen_timestamp,
            last_seen_revid,
            now,
        ).last_full_check_at == Some(t),
        last_seen_timestamp is None && checkpoint.last_full_check_at is Some ==> checkpoint_after(
            ReconcileMode::Full,
            checkpoint,
            last_seen_timestamp,
            last_seen_revid,
            now,
        ).last_full_check_at == checkpoint.last_full_check_at,
        last_seen_timestamp is None && checkpoint.last_full_check_at is None ==> checkpoint_after(
            ReconcileMode::Full,
            checkpoint,
            last_seen_timestamp,
            last_seen_revid,
            now,
        ).last_full_check_at == Some(now),
        forall|mode: ReconcileMode|
            {
                let c = #[trigger] checkpoint_after(mode, checkpoint, last_seen_timestamp, last_seen_revid, now);
                &&& c.last_reconciled_at == if last_seen_timestamp is Some {
                    last_seen_timestamp
                } else {
                    Some(now)
                }
                &&& c.last_reconciled_revision_timestamp == last_seen_timestamp
                &&& c.last_reconciled_revid == last_seen_revid
            },
{
}

/// A pass hides exactly the revisions whose user or edit summary is still
/// visible, in the order the page lists them: the revision ids of those
/// revisions and of no others. In particular a revision with neither hidden
/// is always hidden, and one with both hidden never is.
pub proof fn scan_hides_every_visible_revision(revisions: Seq<RevisionRecord>)
    ensures
        revids_to_hide(revisions) == revisions.filter(|r: RevisionRecord| !r.user_hidden || !r.comment_hidden).map_values(
            |r: RevisionRecord| r.revid,
        ),
        forall|i: int|
            0 <= i < revisions.len() && (!revisions[i].user_hidden || !revisions[i].comment_hidden) ==> revids_to_hide(
                revisions,
            ).contains(#[trigger] revisions[i].revid),
        forall|x: u64|
            #[trigger] revids_to_hide(revisions).contains(x) ==> exists|i: int|
                0 <= i < revisions.len() && revisions[i].revid == x && (!revisions[i].user_hidden
                    || !revisions[i].comment_hidden),
    decreases revisions.len(),
{
    let visible = |r: RevisionRecord| !r.user_hidden || !r.comment_hidden;
    let revid = |r: RevisionRecord| r.revid;
    reveal(Seq::filter);
    if revisions.len() > 0 {
        let p = revisions.drop_last();
        let last = revisions.last();
        scan_hides_every_visible_revision(p);
        let fp = p.filter(visible);
        assert(revisions.filter(visible) == if visible(last) { fp.push(last) } else { fp });
        if visible(last) {
            assert(fp.push(last).map_values(revid) =~= fp.map_values(revid).push(last.revid));
        }
        let out = revids_to_hide(revisions);
        let prev = revids_to_hide(p);
        assert forall|i: int|
            0 <= i < revisions.len() && (!revisions[i].user_hidden || !revisions[i].comment_hidden) implies out.contains(
                #[trigger] revisions[i].revid) by {
            if i < p.len() {
                assert(p[i] == revisions[i]);
                assert(prev.contains(p[i].revid));
                let k = choose|k: int| 0 <= k < prev.len() && prev[k] == p[i].revid;
                assert(out[k] == prev[k]);
            } else {
                assert(revisions[i] == last);
                assert(out[out.len() - 1] == last.revid);
            }
        }
        assert forall|x: u64| #[trigger] out.contains(x) implies exists|i: int|
            0 <= i < revisions.len() && revisions[i].revid == x && (!revisions[i].user_hidden
                || !revisions[i].comment_hidden) by {
            let k = choose|k: int| 0 <= k < out.len() && out[k] == x;
            if k < prev.len() {
                assert(prev[k] == x);
                assert(prev.contains(x));
                let i = choose|i: int|
                    0 <= i < p.len() && p[i].revid == x && (!p[i].user_hidden || !p[i].comment_hidden);
                assert(revisions[i] == p[i]);
            } else {
                assert(revisions[revisions.len() - 1] == last);
            }
        }
    } else {
        assert(revisions.filter(visible) =~= Seq::<RevisionRecord>::empty());
    }
}

/// The latest revision instant of `revisions`, starting from `start`.
pub open spec fn latest_timestamp(revisions: Seq<RevisionRecord>, start: Option<i64>) -> Option<i64>
    decreases revisions.len(),
{
    if revisions.len() == 0 {
        start
    } else {
        let t = revisions.last().timestamp;
        match latest_timestamp(revisions.drop_last(), start) {
            Some(p) => Some(if p >= t { p } else { t }),
            None => Some(t),
        }
    }
}

/// Whether `o` holds an instant no earlier than `x`.
pub open spec fn at_least(o: Option<i64>, x: i64) -> bool {
    match o {
        Some(t) => t >= x,
        None => false,
    }
}

/// The latest instant a scan reports is the newest of the checkpoint's
/// instant and the timestamps of the revisions seen: no earlier than any of
/// them, and one of them.
pub proof fn scan_reports_the_newest_instant(revisions: Seq<RevisionRecord>, start: Option<i64>)
    ensures
        forall|i: int|
            0 <= i < revisions.len() ==> at_least(latest_timestamp(revisions, start), #[trigger] revisions[i].timestamp),
        start matches Some(s) ==> at_least(latest_timestamp(revisions, start), s),
        latest_timestamp(revisions, start) == start || exists|i: int|
            0 <= i < revisions.len() && latest_timestamp(revisions, start) == Some(#[trigger] revisions[i].timestamp),
    decreases revisions.len(),
{
    if revisions.len() > 0 {
        let p = revisions.drop_last();
        scan_reports_the_newest_instant(p, start);
        assert forall|i: int| 0 <= i < revisions.len() implies at_least(latest_timestamp(revisions, start),
            #[trigger] revisions[i].timestamp) by {
            if i < p.len() {
                assert(p[i] == revisions[i]);
            }
        }
        let last = revisions.len() - 1;
        if latest_timestamp(revisions, start) != Some(revisions[last].timestamp) {
            if latest_timestamp(p, start) != start {
                let j = choose|j: int| 0 <= j < p.len() && latest_timestamp(p, start) == Some(#[trigger] p[j].timestamp);
                assert(revisions[j] == p[j]);
            }
        }
    }
}

/// What checking a page's revisions found.
#[derive(Clone, Debug, PartialEq, Eq)]
pub struct TitleScan {
    pub to_hide: Vec<u64>,
    pub last_seen_timestamp: Option<i64>,
    pub last_seen_revid: Option<u64>,
}

/// Checks the revisions of a page against its checkpoint: the revisions
/// still to hide, in order; the latest revision instant seen (the
/// checkpoint's when none); the last revision seen (the checkpoint's when
/// none).
pub fn scan_revisions(revisions: &Vec<RevisionRecord>, checkpoint: &PageCheckpoint) -> (r: TitleScan)
    ensures
        r.to_hide@ == revids_to_hide(revisions@),
        r.last_seen_timestamp == latest_timestamp(revisions@, checkpoint.last_reconciled_at),
        r.last_seen_revid == if revisions@.len() > 0 {
            Some(revisions@.last().revid)
        } else {
            checkpoint.last_reconciled_revid
        },
{
    let mut to_hide: Vec<u64> = Vec::new();
    let mut last_seen_timestamp = checkpoint.last_reconciled_at;
    let mut last_seen_revid = checkpoint.last_reconciled_revid;
    let mut i: usize = 0;
    while i < revisions.len()
        invariant
            i <= revisions.len(),
            to_hide@ == revids_to_hide(revisions@.subrange(0, i as int)),
            last_seen_timestamp == latest_timestamp(revisions@.subrange(0, i as int),
                checkpoint.last_reconciled_at),
            last_seen_revid == if i > 0 {
                Some(revisions@[i - 1].revid)
            } else {
                checkpoint.last_reconciled_revid
            },
        decreases revisions.len() - i,
    {
        let revision = revisions[i];
        proof {
            let s = revisions@.subrange(0, i + 1);
            assert(s.drop_last() =~= revisions@.subrange(0, i as int));
            assert(s.last() == revision);
        }
        last_seen_timestamp = Some(match last_seen_timestamp {
            Some(p) => if p >= revision.timestamp {
                p
            } else {
                revision.timestamp
            },
            None => revision.timestamp,
        });
        last_seen_revid = Some(revision.revid);
        if !revision.user_hidden || !revision.comment_hidden {
            to_hide.push(revision.revid);
        }
        i = i + 1;
    }
    assert(revisions@.subrange(0, revisions@.len() as int) =~= revisions@);
    TitleScan { to_hide, last_seen_timestamp, last_seen_revid }
}

/// The batches as sequences.
pub open spec fn batches_view(batches: Seq<Vec<u64>>) -> Seq<Seq<u64>> {
    batches.map_values(|b: Vec<u64>| b@)
}

/// `batches` cut `revids` in order into batches of `limit`, the last one
/// possibly shorter, none empty.
pub open spec fn batched(batches: Seq<Seq<u64>>, revids: Seq<u64>, limit: int) -> bool {
    &&& batches.flatten() == revids
    &&& forall|i: int| 0 <= i < batches.len() ==> 0 < #[trigger] batches[i].len() <= limit
    &&& forall|i: int| 0 <= i < batches.len() - 1 ==> #[trigger] batches[i].len() == limit
}

/// Cuts the revisions to hide into batches of at most `limit`, in order.
pub fn hide_batches(revids: &Vec<u64>, limit: usize) -> (r: Vec<Vec<u64>>)
    requires
        limit > 0,
    ensures
        batched(batches_view(r@), revids@, limit as int),
{
    let mut batches: Vec<Vec<u64>> = Vec::new();
    let mut start: usize = 0;
    let n = revids.len();
    while start < n
        invariant
            n == revids.len(),
            limit > 0,
            start <= n,
            batches_view(batches@).flatten() == revids@.subrange(0, start as int),
            forall|i: int| 0 <= i < batches@.len() ==> 0 < #[trigger] batches@[i]@.len() <= limit,
            forall|i: int| 0 <= i < batches@.len() - 1 ==> #[trigger] batches@[i]@.len() == limit,
            batches@.len() > 0 && batches@.last()@.len() < limit ==> start == n,
        decreases n - start,
    {
        let end: usize = if n - start > limit {
            start + limit
        } else {
            n
        };
        let mut batch: Vec<u64> = Vec::new();
        let mut j: usize = start;
        while j < end
            invariant
                start <= j <= end,
                end <= revids.len(),
                batch@ == revids@.subrange(start as int, j as int),
            decreases end - j,
        {
            batch.push(revids[j]);
            j = j + 1;
        }
        proof {
            let old_view = batches_view(batches@);
            old_view.lemma_flatten_push(batch@);
            assert(batches_view(batches@.push(batch)) =~= old_view.push(batch@));
            assert(revids@.subrange(0, end as int) =~= revids@.subrange(0, start as int) + batch@);
        }
        batches.push(batch);
        start = end;
    }
    assert(revids@.subrange(0, n as int) =~= revids@);
    proof {
        let v = batches_view(batches@);
        assert forall|i: int| 0 <= i < v.len() implies 0 < #[trigger] v[i].len() <= limit by {
            assert(v[i] == batches@[i]@);
        }
        assert forall|i: int| 0 <= i < v.len() - 1 implies #[trigger] v[i].len() == limit by {
            assert(v[i] == batches@[i]@);
        }
    }
    batches
}


/// A page keeps its checkpoint while the source page lists it.
pub fn keeps_checkpoint(listed: &Vec<String>, title: &str) -> (r: bool)
    ensures
        r == crate::text::has_text(listed@, title@),
{
    crate::text::vec_has_str(listed, title)
}

} // verus!
