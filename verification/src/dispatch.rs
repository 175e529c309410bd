//! Admitting hides into the execution lanes: each revision is claimed once,
//! a revision already claimed or already processed is skipped, and what
//! was queued, skipped or refused is shown in the runtime status.

use vstd::prelude::*;

use crate::health::{
    actionable_issue_source_for_mode, should_replace_latest_outcome, persistent_live_failure,
    CurrentTaskSnapshot, ExecutionLaneKind, RealtimeRuntimeStatus, RevDelMode, SuppressionOutcomeSnapshot,
};
use crate::locks::{KeyLockGuard, KeyLockSet};
use crate::mw_api::{revision_url, revision_url_text};
use crate::outcomes::{apply_lane_status_to_runtime_status, economy_after_lanes, lane_from, LaneLoad, RevDelAction};
use crate::processed::ProcessedRevidsState;
use crate::runtime::{make_issue, opt_issue_text, RuntimeStatus};
use crate::text::{decimal, push_decimal, push_str, string_of};
use crate::time::representable_time;

verus! {

/// How long a live hide may take from queueing, in seconds.
pub const LIVE_ACTION_DEADLINE_SECONDS: i64 = 5;

/// How many hides the live lane runs at once.
pub const LIVE_LANE_CONCURRENCY_LIMIT: usize = 1;

/// How many hides the background lane runs at once.
pub const BACKGROUND_LANE_CONCURRENCY_LIMIT: usize = 1;

/// The first revision of `revids` that cannot be admitted, with `true`
/// when it is already claimed (by others or earlier in the batch) and
/// `false` when it is already processed; `None` when all can be.
pub open spec fn first_blocked(claimed: Set<u64>, processed: Seq<u64>, revids: Seq<u64>) -> Option<(int, bool)>
    decreases revids.len(),
{
    if revids.len() == 0 {
        None
    } else {
        match first_blocked(claimed, processed, revids.drop_last()) {
            Some(b) => Some(b),
            None => {
                let i = revids.len() - 1;
                let r = revids[i];
                if claimed.contains(r) || revids.drop_last().contains(r) {
                    Some((i, true))
                } else if processed.contains(r) {
                    Some((i, false))
                } else {
                    None
                }
            },
        }
    }
}

/// What admitting a batch gave.
#[derive(Debug)]
pub enum Admission {
    /// Every revision is claimed; the guards give the claims back.
    Admitted(Vec<KeyLockGuard>),
    /// This revision was skipped: already claimed (`duplicate`) or already
    /// processed; nothing stays claimed.
    Skipped { revid: u64, duplicate: bool },
}

proof fn lemma_first_blocked_prefix(claimed: Set<u64>, processed: Seq<u64>, revids: Seq<u64>, k: int)
    requires
        0 <= k <= revids.len(),
        first_blocked(claimed, processed, revids.take(k)) is Some,
    ensures
        first_blocked(claimed, processed, revids) == first_blocked(claimed, processed, revids.take(k)),
    decreases revids.len() - k,
{
    if k < revids.len() {
        assert(revids.take(k + 1).drop_last() =~= revids.take(k));
        lemma_first_blocked_prefix(claimed, processed, revids, k + 1);
    } else {
        assert(revids.take(k) =~= revids);
    }
}

proof fn lemma_admitted_distinct(claimed: Set<u64>, processed: Seq<u64>, revids: Seq<u64>)
    requires
        first_blocked(claimed, processed, revids) is None,
    ensures
        revids.no_duplicates(),
    decreases revids.len(),
{
    if revids.len() > 0 {
        let d = revids.drop_last();
        lemma_admitted_distinct(claimed, processed, d);
        assert forall|a: int, b: int| 0 <= a < revids.len() && 0 <= b < revids.len() && a != b implies revids[a]
            != revids[b] by {
            if a < d.len() && b < d.len() {
                assert(d[a] != d[b]);
            } else if a == d.len() {
                assert(d[b] == revids[b]);
                assert(d.contains(revids[b]));
            } else {
                assert(d[a] == revids[a]);
                assert(d.contains(revids[a]));
            }
        }
    }
}

/// Claims every revision of a batch, in order; at the first that is
/// already claimed or already processed, gives back what it claimed and
/// skips the batch.
pub fn admit_revisions(locks: &mut KeyLockSet, processed: &ProcessedRevidsState, revids: &Vec<u64>) -> (r: Admission)
    requires
        old(locks).wf(),
    ensures
        final(locks).wf(),
        match first_blocked(old(locks)@, processed.revids@, revids@) {
            Some((i, dup)) => {
                &&& r == Admission::Skipped { revid: revids@[i], duplicate: dup }
                &&& final(locks)@ == old(locks)@
            },
            None => {
                &&& r matches Admission::Admitted(guards) && guards@.len() == revids@.len() && forall|j: int|
                    0 <= j < revids@.len() ==> (#[trigger] guards@[j]).spec_key() == revids@[j]
                &&& final(locks)@ == old(locks)@.union(revids@.to_set())
            },
        },
{
    let ghost start = locks@;
    assert(start == old(locks)@);
    let mut guards: Vec<KeyLockGuard> = Vec::new();
    let mut i: usize = 0;
    while i < revids.len()
        invariant
            i <= revids@.len(),
            locks.wf(),
            start == old(locks)@,
            first_blocked(start, processed.revids@, revids@.take(i as int)) is None,
            guards@.len() == i,
            forall|j: int| 0 <= j < i ==> (#[trigger] guards@[j]).spec_key() == revids@[j],
            locks@ == start.union(revids@.take(i as int).to_set()),
            forall|j: int| 0 <= j < i ==> !start.contains(#[trigger] revids@[j]),
        decreases revids@.len() - i,
    {
        let revid = revids[i];
        proof {
            let t = revids@.take(i as int + 1);
            assert(t.drop_last() =~= revids@.take(i as int));
            assert(t.last() == revid);
            assert(revids@.take(i as int).to_set().contains(revid) <==> revids@.take(i as int).contains(revid));
        }
        let blocked: Option<bool> = match locks.try_lock(revid) {
            None => Some(true),
            Some(guard) => {
                if processed.contains(revid) {
                    locks.release(guard);
                    proof {
                        assert(!locks@.contains(revid) || start.union(revids@.take(i as int).to_set()).contains(revid));
                        assert(locks@ =~= start.union(revids@.take(i as int).to_set()));
                    }
                    Some(false)
                } else {
                    guards.push(guard);
                    None
                }
            },
        };
        match blocked {
            Some(dup) => {
                proof {
                    let t = revids@.take(i as int + 1);
                    assert(t.drop_last() =~= revids@.take(i as int));
                    assert(first_blocked(start, processed.revids@, t) == Some((i as int, dup)));
                    lemma_first_blocked_prefix(start, processed.revids@, revids@, i as int + 1);
                    lemma_admitted_distinct(start, processed.revids@, revids@.take(i as int));
                }
                while guards.len() > 0
                    invariant
                        locks.wf(),
                        i < revids@.len(),
                        first_blocked(start, processed.revids@, revids@) == Some((i as int, dup)),
                        revid == revids@[i as int],
                        start == old(locks)@,
                        guards@.len() <= i,
                        forall|j: int| 0 <= j < guards@.len() ==> (#[trigger] guards@[j]).spec_key() == revids@[j],
                        locks@ == start.union(revids@.take(guards@.len() as int).to_set()),
                        forall|j: int| 0 <= j < i ==> !start.contains(#[trigger] revids@[j]),
                        revids@.take(i as int).no_duplicates(),
                    decreases guards@.len(),
                {
                    let n = guards.len();
                    let g = guards.pop().unwrap();
                    proof {
                        let t = revids@.take(n as int);
                        assert(t.drop_last() =~= revids@.take(n as int - 1));
                        assert(g.spec_key() == revids@[n - 1]);
                        assert(!revids@.take(n as int - 1).contains(revids@[n - 1])) by {
                            if revids@.take(n as int - 1).contains(revids@[n - 1]) {
                                let q = choose|q: int| 0 <= q < n - 1 && #[trigger] revids@.take(n as int - 1)[q] == revids@[n - 1];
                                assert(revids@.take(i as int)[q] == revids@.take(i as int)[n - 1]);
                            }
                        }
                        assert(start.union(t.to_set()).remove(revids@[n - 1]) =~= start.union(revids@.take(n as int - 1).to_set()));
                    }
                    locks.release(g);
                }
                assert(revids@.take(0).to_set() =~= Set::<u64>::empty());
                assert(locks@ =~= start);
                return Admission::Skipped { revid, duplicate: dup };
            },
            None => {},
        }
        proof {
            assert(revids@.take(i as int + 1).to_set() =~= revids@.take(i as int).to_set().insert(revid));
        }
        i = i + 1;
    }
    assert(revids@.take(revids@.len() as int) =~= revids@);
    Admission::Admitted(guards)
}

/// When a hide queued at `queued_at` in `lane` must be done: live hides
/// have a deadline, background ones none.
pub fn live_deadline(lane: ExecutionLaneKind, queued_at: i64) -> (r: Option<i64>)
    requires
        representable_time(queued_at),
    ensures
        r == if lane == ExecutionLaneKind::Live {
            Some((queued_at + LIVE_ACTION_DEADLINE_SECONDS) as i64)
        } else {
            None::<i64>
        },
{
    match lane {
        ExecutionLaneKind::Live => Some(queued_at + LIVE_ACTION_DEADLINE_SECONDS),
        ExecutionLaneKind::Background => None,
    }
}

/// The outcome shown for a revision of `mode` with the given result,
/// reason and instants.
pub open spec fn dispatch_outcome_is(
    s: SuppressionOutcomeSnapshot,
    title: String,
    revid: u64,
    server_name: Seq<char>,
    outcome: Seq<char>,
    reason_code: Option<Seq<char>>,
    mode: RevDelMode,
    observed_at: Option<i64>,
    queued_at: Option<i64>,
    completed_at: Option<i64>,
    deadline_at: Option<i64>,
) -> bool {
    &&& s.title == title
    &&& s.revid == revid
    &&& (s.revision_url matches Some(u) && u@ == revision_url_text(server_name, revid))
    &&& s.outcome@ == outcome
    &&& crate::cli::opt_text(s.reason_code) == reason_code
    &&& s.mode@ == mode.spec_label()
    &&& s.source_label@ == mode.spec_source_label()
    &&& s.observed_at == observed_at
    &&& s.queued_at == queued_at
    &&& s.submitted_at is None
    &&& s.completed_at == completed_at
    &&& (s.lane matches Some(l) && l@ == mode.execution_lane_spec().spec_label())
    &&& s.deadline_at == deadline_at
    &&& s.attempt_count == 0
}

/// The outcome shown for a revision that was skipped: already claimed
/// (`duplicate`) or already processed.
pub fn skipped_outcome(
    title: &String,
    revid: u64,
    mode: RevDelMode,
    duplicate: bool,
    observed_at: Option<i64>,
    server_name: &str,
) -> (r: SuppressionOutcomeSnapshot)
    ensures
        dispatch_outcome_is(r, *title, revid, server_name@, if duplicate {
            "skipped"@
        } else {
            "already-hidden"@
        }, Some(if duplicate {
            "duplicate-queued"@
        } else {
            "already-processed"@
        }), mode, observed_at, None, None, None),
{
    SuppressionOutcomeSnapshot {
        title: title.clone(),
        revid,
        revision_url: Some(revision_url(server_name, revid)),
        outcome: if duplicate {
            String::from_str("skipped")
        } else {
            String::from_str("already-hidden")
        },
        reason_code: Some(if duplicate {
            String::from_str("duplicate-queued")
        } else {
            String::from_str("already-processed")
        }),
        mode: String::from_str(mode.label()),
        source_label: String::from_str(mode.source_label()),
        observed_at,
        queued_at: None,
        submitted_at: None,
        completed_at: None,
        lane: Some(String::from_str(mode.execution_lane().label())),
        deadline_at: None,
        attempt_count: 0,
    }
}

/// The outcome shown for a revision queued at `queued_at`.
pub fn queued_outcome(
    title: &String,
    revid: u64,
    mode: RevDelMode,
    recovery_trigger: &Option<String>,
    observed_at: Option<i64>,
    queued_at: i64,
    deadline_at: Option<i64>,
    server_name: &str,
) -> (r: SuppressionOutcomeSnapshot)
    ensures
        dispatch_outcome_is(r, *title, revid, server_name@, "queued"@, crate::cli::opt_text(*recovery_trigger),
            mode, observed_at, Some(queued_at), None, deadline_at),
{
    SuppressionOutcomeSnapshot {
        title: title.clone(),
        revid,
        revision_url: Some(revision_url(server_name, revid)),
        outcome: String::from_str("queued"),
        reason_code: crate::text::copy_opt_string(recovery_trigger),
        mode: String::from_str(mode.label()),
        source_label: String::from_str(mode.source_label()),
        observed_at,
        queued_at: Some(queued_at),
        submitted_at: None,
        completed_at: None,
        lane: Some(String::from_str(mode.execution_lane().label())),
        deadline_at,
        attempt_count: 0,
    }
}

/// The live-hide task shown for `title` queued at `queued_at`.
pub open spec fn live_task_is(t: CurrentTaskSnapshot, title: Seq<char>, queued_at: Option<i64>) -> bool {
    &&& t.task_kind@ == "live-hide"@
    &&& t.label@ == "hiding watched edit "@ + title
    &&& t.progress_done == Some(0usize) && t.progress_total == Some(1usize)
    &&& t.window_start is None && t.window_end is None
    &&& t.started_at == queued_at
    &&& t.expected_resume_at is None
}

/// Shows an outcome of the dispatcher: the lane loads at `now`, when the
/// last hide was queued, the notice, and the outcome itself unless it would
/// mask a live failure; a surfaced live hide that was queued becomes the
/// current task.
pub fn record_latest_outcome(
    status: &mut RuntimeStatus,
    outcome: SuppressionOutcomeSnapshot,
    live: LaneLoad,
    background: LaneLoad,
    now: i64,
)
    requires
        live.queue_depth + background.queue_depth <= usize::MAX,
        live.in_flight + background.in_flight <= usize::MAX,
    ensures
        ({
            let o = old(status).realtime;
            let f = final(status).realtime;
            let surfaced = outcome.mode@ == "live"@ || !(o.latest_outcome matches Some(c) && persistent_live_failure(c));
            &&& f.queue_depth == live.queue_depth
            &&& f.live_lane == lane_from(live, o.live_lane)
            &&& f.background_lane == lane_from(background, o.background_lane)
            &&& (final(status).resource_economy matches Some(r) && economy_after_lanes(old(status).resource_economy,
                live, background, now, r))
            &&& f.last_action_queued_at == match outcome.queued_at {
                Some(t) => Some(t),
                None => o.last_action_queued_at,
            }
            &&& (f.latest_notice matches Some(n) && n@ == outcome.outcome@ + " revid "@ + decimal(outcome.revid as nat))
            &&& f.latest_outcome == if surfaced {
                Some(outcome)
            } else {
                o.latest_outcome
            }
            &&& if outcome.outcome@ == "queued"@ && surfaced && (outcome.lane matches Some(l) && l@ == "live"@) {
                f.current_task matches Some(t) && live_task_is(t, outcome.title@, outcome.queued_at)
            } else {
                f.current_task == o.current_task
            }
            &&& f == (RealtimeRuntimeStatus {
                queue_depth: f.queue_depth,
                live_lane: f.live_lane,
                background_lane: f.background_lane,
                last_action_queued_at: f.last_action_queued_at,
                latest_notice: f.latest_notice,
                latest_outcome: f.latest_outcome,
                current_task: f.current_task,
                ..o
            })
            &&& *final(status) == (RuntimeStatus {
                realtime: f,
                resource_economy: final(status).resource_economy,
                ..*old(status)
            })
        }),
{
    apply_lane_status_to_runtime_status(status, live, background, now);
    if outcome.queued_at.is_some() {
        status.realtime.last_action_queued_at = outcome.queued_at;
    }
    let mut notice: Vec<char> = Vec::new();
    push_str(&mut notice, outcome.outcome.as_str());
    push_str(&mut notice, " revid ");
    push_decimal(&mut notice, outcome.revid);
    status.realtime.latest_notice = Some(string_of(&notice));
    let surfaced = match &status.realtime.latest_outcome {
        Some(c) => should_replace_latest_outcome(Some(c), &outcome),
        None => should_replace_latest_outcome(None, &outcome),
    };
    let queued = crate::text::str_eq(outcome.outcome.as_str(), "queued");
    let live_lane = crate::text::opt_str_is(&outcome.lane, "live");
    let mut label: Vec<char> = Vec::new();
    push_str(&mut label, "hiding watched edit ");
    push_str(&mut label, outcome.title.as_str());
    let queued_at = outcome.queued_at;
    if surfaced {
        status.realtime.latest_outcome = Some(outcome);
    }
    if queued && surfaced && live_lane {
        status.realtime.current_task = Some(CurrentTaskSnapshot {
            task_kind: String::from_str("live-hide"),
            label: string_of(&label),
            progress_done: Some(0),
            progress_total: Some(1),
            window_start: None,
            window_end: None,
            started_at: queued_at,
            expected_resume_at: None,
        });
    }
}

/// The texts the saturation of a lane raises.
pub open spec fn saturation_issue(lane: ExecutionLaneKind, mode: RevDelMode, revid: u64, at: i64) -> (Seq<char>, Seq<char>, Seq<char>, Seq<char>, Option<i64>) {
    (crate::health::issue_source_of_mode(mode.spec_label()), "warning"@, lane.spec_label() + " lane could not accept revid "@
        + decimal(revid as nat), "watch recovery and rerun emergency catch-up if the edit stays public"@, Some(at))
}

/// Records that `lane` could not accept a hide (for `reason`): the lane's
/// saturation, an unhealthy state, an issue naming the revision, and the
/// refused hide as the latest outcome.
pub fn record_lane_saturation(
    status: &mut RuntimeStatus,
    lane: ExecutionLaneKind,
    reason: &str,
    action: &RevDelAction,
    outcome: &str,
    server_name: &str,
    live: LaneLoad,
    background: LaneLoad,
    now: i64,
)
    requires
        live.queue_depth + background.queue_depth <= usize::MAX,
        live.in_flight + background.in_flight <= usize::MAX,
    ensures
        ({
            let o = old(status).realtime;
            let f = final(status).realtime;
            let revid = crate::outcomes::action_revid(*action);
            let live_after = lane_from(live, o.live_lane);
            let background_after = lane_from(background, o.background_lane);
            &&& f.queue_depth == live.queue_depth
            &&& if lane == ExecutionLaneKind::Live {
                &&& f.live_lane == (crate::health::LaneStatus {
                    latest_saturation_at: Some(now),
                    latest_saturation_reason: f.live_lane.latest_saturation_reason,
                    ..live_after
                })
                &&& (f.live_lane.latest_saturation_reason matches Some(x) && x@ == reason@)
                &&& f.background_lane == background_after
            } else {
                &&& f.background_lane == (crate::health::LaneStatus {
                    latest_saturation_at: Some(now),
                    latest_saturation_reason: f.background_lane.latest_saturation_reason,
                    ..background_after
                })
                &&& (f.background_lane.latest_saturation_reason matches Some(x) && x@ == reason@)
                &&& f.live_lane == live_after
            }
            &&& (final(status).resource_economy matches Some(r) && economy_after_lanes(old(status).resource_economy,
                live, background, now, r))
            &&& f.state@ == "unhealthy"@ && f.last_state_changed_at == Some(now)
            &&& opt_issue_text(f.latest_actionable_issue) == Some(saturation_issue(lane, action.mode, revid, now))
            &&& (f.latest_outcome matches Some(s) && s.title == action.title && s.revid == revid && (s.revision_url
                matches Some(u) && u@ == revision_url_text(server_name@, revid)) && s.outcome@ == outcome@
                && (s.reason_code matches Some(x) && x@ == reason@) && s.mode@ == action.mode.spec_label()
                && s.source_label@ == action.mode.spec_source_label() && s.observed_at == action.observed_at
                && s.queued_at is None && s.submitted_at is None && s.completed_at == Some(now) && (s.lane matches Some(
                l) && l@ == lane.spec_label()) && s.deadline_at == action.deadline_at && s.attempt_count == 0)
            &&& (f.latest_notice matches Some(n) && n@ == outcome@ + " revid "@ + decimal(revid as nat))
            &&& f == (RealtimeRuntimeStatus {
                queue_depth: f.queue_depth,
                live_lane: f.live_lane,
                background_lane: f.background_lane,
                state: f.state,
                last_state_changed_at: f.last_state_changed_at,
                latest_actionable_issue: f.latest_actionable_issue,
                latest_outcome: f.latest_outcome,
                latest_notice: f.latest_notice,
                ..o
            })
            &&& *final(status) == (RuntimeStatus {
                realtime: f,
                resource_economy: final(status).resource_economy,
                ..*old(status)
            })
        }),
{
    let revid: u64 = if action.revids.len() > 0 {
        action.revids[0]
    } else {
        0
    };
    apply_lane_status_to_runtime_status(status, live, background, now);
    match lane {
        ExecutionLaneKind::Live => {
            status.realtime.live_lane.latest_saturation_at = Some(now);
            status.realtime.live_lane.latest_saturation_reason = Some(String::from_str(reason));
        },
        ExecutionLaneKind::Background => {
            status.realtime.background_lane.latest_saturation_at = Some(now);
            status.realtime.background_lane.latest_saturation_reason = Some(String::from_str(reason));
        },
    }
    status.realtime.state = String::from_str("unhealthy");
    status.realtime.last_state_changed_at = Some(now);
    let mut summary: Vec<char> = Vec::new();
    push_str(&mut summary, lane.label());
    push_str(&mut summary, " lane could not accept revid ");
    push_decimal(&mut summary, revid);
    status.realtime.latest_actionable_issue = Some(make_issue(actionable_issue_source_for_mode(action.mode.label()),
        "warning", string_of(&summary),
        String::from_str("watch recovery and rerun emergency catch-up if the edit stays public"), now));
    status.realtime.latest_outcome = Some(SuppressionOutcomeSnapshot {
        title: action.title.clone(),
        revid,
        revision_url: Some(revision_url(server_name, revid)),
        outcome: String::from_str(outcome),
        reason_code: Some(String::from_str(reason)),
        mode: String::from_str(action.mode.label()),
        source_label: String::from_str(action.mode.source_label()),
        observed_at: action.observed_at,
        queued_at: None,
        submitted_at: None,
        completed_at: Some(now),
        lane: Some(String::from_str(lane.label())),
        deadline_at: action.deadline_at,
        attempt_count: 0,
    });
    let mut notice: Vec<char> = Vec::new();
    push_str(&mut notice, outcome);
    push_str(&mut notice, " revid ");
    push_decimal(&mut notice, revid);
    status.realtime.latest_notice = Some(string_of(&notice));
}

} // verus!
