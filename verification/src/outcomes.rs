//! How finished hides and lane loads move the runtime status.

use vstd::prelude::*;

use crate::health::{
    converged_realtime_state_after_primary_poll, idle_task, persistent_live_failure, protection_blocked_task,
    retain_runtime_backoff, retained_shared, runtime_backoff, should_replace_latest_outcome,
    state_after_primary_poll, common_verdict, polling_fresh, ExecutionLaneKind, LaneStatus,
    RealtimeRuntimeStatus, RevDelMode, SuppressionOutcomeSnapshot,
};
use crate::mw_api::{revision_url, revision_url_text};
use crate::realtime::{cleared_issue, idle_waiting, issue_restored, noticed};
use crate::runtime::{
    blocked_actionable_issue_for_mode, blocked_issue, clear_actionable_issue_if_source, make_issue,
    opt_issue_text, restore_persistent_issue, restored_issue, status_times_ok, texts,
    ResourceEconomySnapshot, RuntimeStatus,
};
use crate::text::{decimal, push_decimal, push_str, str_eq, string_of};
use crate::time::representable_time;

verus! {

/// A hide the daemon ran, as the status reads it.
#[derive(Clone, Debug)]
pub struct RevDelAction {
    pub title: String,
    pub revids: Vec<u64>,
    pub mode: RevDelMode,
    pub lane: ExecutionLaneKind,
    pub observed_at: Option<i64>,
    pub queued_at: i64,
    pub submitted_at: Option<i64>,
    pub deadline_at: Option<i64>,
}

/// What a lane holds and runs at one moment.
#[derive(Clone, Copy, Debug, Default, PartialEq, Eq)]
pub struct LaneLoad {
    pub queue_depth: usize,
    pub queue_capacity: usize,
    pub in_flight: usize,
    pub concurrency_limit: usize,
}

/// The lane snapshot of `load`, keeping the saturation last recorded.
pub open spec fn lane_from(load: LaneLoad, previous: LaneStatus) -> LaneStatus {
    LaneStatus {
        queue_depth: load.queue_depth,
        queue_capacity: load.queue_capacity,
        in_flight: load.in_flight,
        concurrency_limit: load.concurrency_limit,
        ..previous
    }
}

/// The larger of two counts.
pub open spec fn max_of(a: int, b: int) -> int {
    if a >= b {
        a
    } else {
        b
    }
}

/// The load peaks after the lanes are measured at `now`.
pub open spec fn economy_after_lanes(
    prev: Option<ResourceEconomySnapshot>,
    live: LaneLoad,
    background: LaneLoad,
    now: i64,
    new: ResourceEconomySnapshot,
) -> bool {
    let p = match prev {
        Some(r) => r,
        None => ResourceEconomySnapshot::default_spec(),
    };
    &&& new.queue_depth_max_recent == max_of(p.queue_depth_max_recent as int, live.queue_depth
        + background.queue_depth)
    &&& new.live_queue_depth_max_recent == max_of(p.live_queue_depth_max_recent as int, live.queue_depth as int)
    &&& new.background_queue_depth_max_recent == max_of(p.background_queue_depth_max_recent as int,
        background.queue_depth as int)
    &&& new.api_concurrency_max_recent == max_of(p.api_concurrency_max_recent as int, live.in_flight
        + background.in_flight)
    &&& new.coalesced_warning_count_recent == p.coalesced_warning_count_recent
    &&& new.latest_measurement_at == Some(now)
}

fn max_usize(a: usize, b: usize) -> (r: usize)
    ensures
        r == max_of(a as int, b as int),
{
    if a >= b {
        a
    } else {
        b
    }
}

/// Records the load of both lanes, measured at `now`, and the peaks.
pub fn apply_lane_status_to_runtime_status(status: &mut RuntimeStatus, live: LaneLoad, background: LaneLoad, now: i64)
    requires
        live.queue_depth + background.queue_depth <= usize::MAX,
        live.in_flight + background.in_flight <= usize::MAX,
    ensures
        final(status).realtime == (RealtimeRuntimeStatus {
            queue_depth: live.queue_depth,
            live_lane: lane_from(live, old(status).realtime.live_lane),
            background_lane: lane_from(background, old(status).realtime.background_lane),
            ..old(status).realtime
        }),
        final(status).resource_economy matches Some(r) && economy_after_lanes(old(status).resource_economy,
            live, background, now, r),
        *final(status) == (RuntimeStatus {
            realtime: final(status).realtime,
            resource_economy: final(status).resource_economy,
            ..*old(status)
        }),
{
    status.realtime.queue_depth = live.queue_depth;
    status.realtime.live_lane.queue_depth = live.queue_depth;
    status.realtime.live_lane.queue_capacity = live.queue_capacity;
    status.realtime.live_lane.in_flight = live.in_flight;
    status.realtime.live_lane.concurrency_limit = live.concurrency_limit;
    status.realtime.background_lane.queue_depth = background.queue_depth;
    status.realtime.background_lane.queue_capacity = background.queue_capacity;
    status.realtime.background_lane.in_flight = background.in_flight;
    status.realtime.background_lane.concurrency_limit = background.concurrency_limit;
    let prev = match &status.resource_economy {
        Some(r) => *r,
        None => ResourceEconomySnapshot::default(),
    };
    status.resource_economy = Some(ResourceEconomySnapshot {
        queue_depth_max_recent: max_usize(prev.queue_depth_max_recent, live.queue_depth + background.queue_depth),
        live_queue_depth_max_recent: max_usize(prev.live_queue_depth_max_recent, live.queue_depth),
        background_queue_depth_max_recent: max_usize(prev.background_queue_depth_max_recent,
            background.queue_depth),
        api_concurrency_max_recent: max_usize(prev.api_concurrency_max_recent, live.in_flight
            + background.in_flight),
        coalesced_warning_count_recent: prev.coalesced_warning_count_recent,
        latest_measurement_at: Some(now),
    });
}

/// The revision a hide names: its first, else zero.
pub open spec fn action_revid(action: RevDelAction) -> u64 {
    if action.revids@.len() > 0 {
        action.revids@[0]
    } else {
        0
    }
}

/// Latencies a finished hide contributes, in milliseconds: submit to
/// completion when it was submitted, and observation to hide for a live
/// hide that hid the revision.
pub open spec fn completion_latency(action: RevDelAction, outcome: Seq<char>, completed_at: i64) -> (Option<int>, Option<int>) {
    let submit = match action.submitted_at {
        Some(s) => Some(if completed_at >= s { (completed_at - s) * 1000 } else { 0 }),
        None => None,
    };
    let observe = if action.mode == RevDelMode::Live && outcome == "hidden"@ {
        match action.observed_at {
            Some(t) => Some(if completed_at >= t { (completed_at - t) * 1000 } else { 0 }),
            None => None,
        }
    } else {
        None
    };
    (submit, observe)
}

fn elapsed_ms(from: i64, to: i64) -> (r: u64)
    requires
        representable_time(from),
        representable_time(to),
    ensures
        r == if to >= from { (to - from) * 1000 } else { 0 },
{
    if to >= from {
        ((to - from) * 1000) as u64
    } else {
        0
    }
}

/// The latencies, in milliseconds, a finished hide records.
pub fn completion_latencies(action: &RevDelAction, outcome: &str, completed_at: i64) -> (r: (Option<u64>, Option<u64>))
    requires
        representable_time(completed_at),
        action.submitted_at matches Some(t) ==> representable_time(t),
        action.observed_at matches Some(t) ==> representable_time(t),
    ensures
        ({
            let (submit, observe) = completion_latency(*action, outcome@, completed_at);
            &&& r.0 == match submit { Some(v) => Some(v as u64), None => None::<u64> }
            &&& r.1 == match observe { Some(v) => Some(v as u64), None => None::<u64> }
        }),
{
    let submit = match action.submitted_at {
        Some(s) => Some(elapsed_ms(s, completed_at)),
        None => None,
    };
    let live = match action.mode {
        RevDelMode::Live => true,
        _ => false,
    };
    let observe = if live && str_eq(outcome, "hidden") {
        match action.observed_at {
            Some(t) => Some(elapsed_ms(t, completed_at)),
            None => None,
        }
    } else {
        None
    };
    (submit, observe)
}

/// The outcome snapshot a finished hide leaves.
pub open spec fn outcome_snapshot_is(
    s: SuppressionOutcomeSnapshot,
    action: RevDelAction,
    outcome: Seq<char>,
    reason_code: Option<String>,
    attempt_count: u32,
    server_name: Seq<char>,
    completed_at: i64,
) -> bool {
    let revid = action_revid(action);
    &&& s.title == action.title
    &&& s.revid == revid
    &&& (s.revision_url matches Some(u) && u@ == revision_url_text(server_name, revid))
    &&& s.outcome@ == outcome
    &&& s.reason_code == reason_code
    &&& s.mode@ == action.mode.spec_label()
    &&& s.source_label@ == action.mode.spec_source_label()
    &&& s.observed_at == action.observed_at
    &&& s.queued_at == Some(action.queued_at)
    &&& s.submitted_at == action.submitted_at
    &&& s.completed_at == Some(completed_at)
    &&& (s.lane matches Some(l) && l@ == action.lane.spec_label())
    &&& s.deadline_at == action.deadline_at
    &&& s.attempt_count == attempt_count
}

/// A hide that made the revision safe.
pub open spec fn succeeded(outcome: Seq<char>) -> bool {
    outcome == "hidden"@ || outcome == "already-hidden"@
}

/// A live hide that failed and will be retried or reported.
pub open spec fn live_failed(action: RevDelAction, outcome: Seq<char>) -> bool {
    action.mode == RevDelMode::Live && (outcome == "failed"@ || outcome == "retrying"@ || outcome
        == "throttled"@ || outcome == "unresolved"@)
}

/// The sources a successful live hide settles.
pub open spec fn live_success_sources() -> Seq<Seq<char>> {
    seq!["live-hide"@, "stream"@, "recovery"@, "polling"@]
}

/// Records that a hide finished at `completed_at` with `outcome`: the lane
/// loads (`live` and `background` as they stood while the hide ran; the
/// hide's own lane then has one fewer in flight), a successful hide as the recovery anchor, a blocked or failed
/// hide as an issue, a successful live hide as a convergence of the state,
/// and the outcome itself unless it would mask a live failure.
#[verifier::spinoff_prover]
#[verifier::rlimit(100)]
pub fn record_action_completed(
    status: &mut RuntimeStatus,
    action: &RevDelAction,
    outcome: &str,
    reason_code: Option<String>,
    attempt_count: u32,
    server_name: &str,
    live: LaneLoad,
    background: LaneLoad,
    completed_at: i64,
)
    requires
        representable_time(completed_at),
        status_times_ok(old(status).realtime),
        live.queue_depth + background.queue_depth <= usize::MAX,
        live.in_flight + background.in_flight <= usize::MAX,
    ensures
        status_times_ok(final(status).realtime),
        ({
            let o = old(status).realtime;
            let f = final(status).realtime;
            let revid = action_revid(*action);
            let backoff = runtime_backoff(o, completed_at);
            let converges = action.mode == RevDelMode::Live && succeeded(outcome@) && !o.catchup_active
                && backoff is None;
            let next = state_after_primary_poll(o, completed_at);
            let after = loads_after_completion(action.lane, live, background);
            &&& f.backoff_until == backoff
            &&& retained_shared(o.shared_backoff, backoff, completed_at, f.shared_backoff)
            &&& f.queue_depth == live.queue_depth
            &&& f.live_lane == lane_from(after.0, o.live_lane)
            &&& f.background_lane == lane_from(after.1, o.background_lane)
            &&& (final(status).resource_economy matches Some(r) && crate::outcomes::economy_after_lanes(
                old(status).resource_economy, after.0, after.1, completed_at, r))
            &&& f.last_action_completed_at == Some(completed_at)
            &&& if succeeded(outcome@) {
                &&& f.last_successful_hide_at == Some(match action.observed_at {
                    Some(t) => t,
                    None => completed_at,
                })
                &&& f.last_successful_hide_title == Some(action.title)
                &&& f.last_successful_hide_revid == Some(revid)
                &&& (f.last_successful_hide_url matches Some(u) && u@ == revision_url_text(server_name@, revid))
            } else {
                &&& f.last_successful_hide_at == o.last_successful_hide_at
                &&& f.last_successful_hide_title == o.last_successful_hide_title
                &&& f.last_successful_hide_revid == o.last_successful_hide_revid
                &&& f.last_successful_hide_url == o.last_successful_hide_url
            }
            &&& if outcome@ == "blocked"@ {
                &&& f.state@ == "blocked"@ && f.last_state_changed_at == Some(completed_at)
                &&& opt_issue_text(f.latest_actionable_issue) == Some(blocked_issue(action.mode.spec_label(), revid,
                    completed_at))
                &&& if action.mode == RevDelMode::Live {
                    f.current_task matches Some(t) && t.task_kind@ == "protection-blocked"@ && t.label@
                        == "protection blocked for revid "@ + decimal(revid as nat) && t.started_at == Some(
                        completed_at)
                } else {
                    f.current_task == o.current_task
                }
                &&& f.latest_error_code == o.latest_error_code && f.latest_error == o.latest_error
            } else if live_failed(*action, outcome@) {
                &&& f.state@ == "unhealthy"@ && f.last_state_changed_at == Some(completed_at)
                &&& opt_issue_text(f.latest_actionable_issue) == Some(("live-hide"@, "error"@,
                    "live hide failed for revid "@ + decimal(revid as nat),
                    "watch the recovery window and confirm a later successful hide"@, Some(completed_at)))
                &&& f.current_task == o.current_task
                &&& f.latest_error_code == o.latest_error_code && f.latest_error == o.latest_error
            } else if converges {
                &&& f.state@ == next && f.last_state_changed_at == Some(completed_at)
                &&& if next == "healthy"@ {
                    &&& f.latest_error_code is None && f.latest_error is None
                    &&& f.latest_actionable_issue == cleared_issue(o.latest_actionable_issue,
                        live_success_sources())
                    &&& if !old(status).reconciliation.active {
                        f.current_task matches Some(t) && idle_waiting(t, completed_at)
                    } else {
                        f.current_task == o.current_task
                    }
                } else {
                    &&& f.latest_error_code == o.latest_error_code && f.latest_error == o.latest_error
                    &&& issue_restored(o, completed_at, f)
                    &&& f.current_task == o.current_task
                }
            } else {
                &&& f.state == o.state && f.last_state_changed_at == o.last_state_changed_at
                &&& f.latest_actionable_issue == o.latest_actionable_issue
                &&& f.current_task == o.current_task
                &&& f.latest_error_code == o.latest_error_code && f.latest_error == o.latest_error
            }
            &&& if action.mode == RevDelMode::Live || !(o.latest_outcome matches Some(c) && persistent_live_failure(c)) {
                f.latest_outcome matches Some(s) && outcome_snapshot_is(s, *action, outcome@, reason_code,
                    attempt_count, server_name@, completed_at)
            } else {
                f.latest_outcome == o.latest_outcome
            }
            &&& (f.latest_notice matches Some(n) && n@ == outcome@ + " revid "@ + decimal(revid as nat))
            &&& f == (RealtimeRuntimeStatus {
                backoff_until: f.backoff_until,
                shared_backoff: f.shared_backoff,
                queue_depth: f.queue_depth,
                live_lane: f.live_lane,
                background_lane: f.background_lane,
                last_action_completed_at: f.last_action_completed_at,
                last_successful_hide_at: f.last_successful_hide_at,
                last_successful_hide_title: f.last_successful_hide_title,
                last_successful_hide_revid: f.last_successful_hide_revid,
                last_successful_hide_url: f.last_successful_hide_url,
                state: f.state,
                last_state_changed_at: f.last_state_changed_at,
                latest_actionable_issue: f.latest_actionable_issue,
                current_task: f.current_task,
                latest_error_code: f.latest_error_code,
                latest_error: f.latest_error,
                latest_outcome: f.latest_outcome,
                latest_notice: f.latest_notice,
                ..o
            })
            &&& *final(status) == (RuntimeStatus {
                realtime: f,
                resource_economy: final(status).resource_economy,
                ..*old(status)
            })
        }),
{
    let ghost o = status.realtime;
    proof {
        action.mode.lemma_live_label();
    }
    let revid: u64 = if action.revids.len() > 0 {
        action.revids[0]
    } else {
        0
    };
    let backoff = retain_runtime_backoff(&mut status.realtime, completed_at);
    let (live_after, background_after) = lane_loads_after_completion(action.lane, live, background);
    apply_lane_status_to_runtime_status(status, live_after, background_after, completed_at);
    status.realtime.last_action_completed_at = Some(completed_at);
    let success = str_eq(outcome, "hidden") || str_eq(outcome, "already-hidden");
    if success {
        status.realtime.last_successful_hide_at = Some(match action.observed_at {
            Some(t) => t,
            None => completed_at,
        });
        status.realtime.last_successful_hide_title = Some(action.title.clone());
        status.realtime.last_successful_hide_revid = Some(revid);
        status.realtime.last_successful_hide_url = Some(revision_url(server_name, revid));
    }
    let is_live = match action.mode {
        RevDelMode::Live => true,
        _ => false,
    };
    let mode = action.mode.label();
    if str_eq(outcome, "blocked") {
        status.realtime.state = String::from_str("blocked");
        status.realtime.last_state_changed_at = Some(completed_at);
        status.realtime.latest_actionable_issue = Some(blocked_actionable_issue_for_mode(mode, revid, completed_at));
        if is_live {
            status.realtime.current_task = Some(protection_blocked_task(revid, completed_at));
        }
    } else if is_live && (str_eq(outcome, "failed") || str_eq(outcome, "retrying") || str_eq(outcome, "throttled")
        || str_eq(outcome, "unresolved")) {
        status.realtime.state = String::from_str("unhealthy");
        status.realtime.last_state_changed_at = Some(completed_at);
        let mut summary: Vec<char> = Vec::new();
        push_str(&mut summary, "live hide failed for revid ");
        push_decimal(&mut summary, revid);
        status.realtime.latest_actionable_issue = Some(make_issue("live-hide", "error", string_of(&summary),
            String::from_str("watch the recovery window and confirm a later successful hide"), completed_at));
    } else if is_live && success && !status.realtime.catchup_active && backoff.is_none() {
        let next_state = converged_realtime_state_after_primary_poll(&status.realtime, completed_at);
        proof {
            assert(common_verdict(status.realtime, completed_at) == common_verdict(o, completed_at));
            assert(polling_fresh(status.realtime, completed_at) == polling_fresh(o, completed_at));
        }
        let healthy = str_eq(next_state.as_str(), "healthy");
        status.realtime.state = next_state;
        status.realtime.last_state_changed_at = Some(completed_at);
        if healthy {
            status.realtime.latest_error_code = None;
            status.realtime.latest_error = None;
            clear_actionable_issue_if_source(&mut status.realtime, &["live-hide", "stream", "recovery", "polling"]);
            assert(texts(["live-hide", "stream", "recovery", "polling"]@) =~= live_success_sources());
            if !status.reconciliation.active {
                status.realtime.current_task = Some(idle_task("waiting for watched-page edits", completed_at));
            }
        } else {
            restore_persistent_issue(status, completed_at);
        }
    }
    let snapshot = SuppressionOutcomeSnapshot {
        title: action.title.clone(),
        revid,
        revision_url: Some(revision_url(server_name, revid)),
        outcome: String::from_str(outcome),
        reason_code,
        mode: String::from_str(mode),
        source_label: String::from_str(action.mode.source_label()),
        observed_at: action.observed_at,
        queued_at: Some(action.queued_at),
        submitted_at: action.submitted_at,
        completed_at: Some(completed_at),
        lane: Some(String::from_str(action.lane.label())),
        deadline_at: action.deadline_at,
        attempt_count,
    };
    let replace = match &status.realtime.latest_outcome {
        Some(c) => should_replace_latest_outcome(Some(c), &snapshot),
        None => should_replace_latest_outcome(None, &snapshot),
    };
    if replace {
        status.realtime.latest_outcome = Some(snapshot);
    }
    let mut notice: Vec<char> = Vec::new();
    push_str(&mut notice, outcome);
    push_str(&mut notice, " revid ");
    push_decimal(&mut notice, revid);
    status.realtime.latest_notice = Some(string_of(&notice));
}


/// The load of a lane once one of its queued hides went to the API: one
/// fewer queued (never below zero), one more in flight.
pub open spec fn load_after_submit(load: LaneLoad) -> LaneLoad {
    LaneLoad {
        queue_depth: if load.queue_depth == 0 { 0 } else { (load.queue_depth - 1) as usize },
        in_flight: (load.in_flight + 1) as usize,
        ..load
    }
}

/// The loads of both lanes once a hide queued on `lane` was submitted.
pub fn lane_loads_after_submit(lane: ExecutionLaneKind, live: LaneLoad, background: LaneLoad) -> (r: (
    LaneLoad,
    LaneLoad,
))
    requires
        lane == ExecutionLaneKind::Live ==> live.in_flight < usize::MAX,
        lane == ExecutionLaneKind::Background ==> background.in_flight < usize::MAX,
    ensures
        r == match lane {
            ExecutionLaneKind::Live => (load_after_submit(live), background),
            ExecutionLaneKind::Background => (live, load_after_submit(background)),
        },
{
    match lane {
        ExecutionLaneKind::Live => (LaneLoad {
            queue_depth: crate::locks::decrement_saturating(live.queue_depth),
            in_flight: live.in_flight + 1,
            ..live
        }, background),
        ExecutionLaneKind::Background => (live, LaneLoad {
            queue_depth: crate::locks::decrement_saturating(background.queue_depth),
            in_flight: background.in_flight + 1,
            ..background
        }),
    }
}

/// The load of a lane once one of its hides finished: one fewer in flight,
/// never below zero.
pub open spec fn load_after_completion(load: LaneLoad) -> LaneLoad {
    LaneLoad { in_flight: if load.in_flight == 0 { 0 } else { (load.in_flight - 1) as usize }, ..load }
}

/// The loads of both lanes once a hide running on `lane` finished.
pub open spec fn loads_after_completion(lane: ExecutionLaneKind, live: LaneLoad, background: LaneLoad) -> (
    LaneLoad,
    LaneLoad,
) {
    match lane {
        ExecutionLaneKind::Live => (load_after_completion(live), background),
        ExecutionLaneKind::Background => (live, load_after_completion(background)),
    }
}

/// The loads of both lanes once a hide running on `lane` finished.
pub fn lane_loads_after_completion(lane: ExecutionLaneKind, live: LaneLoad, background: LaneLoad) -> (r: (
    LaneLoad,
    LaneLoad,
))
    ensures
        r == loads_after_completion(lane, live, background),
{
    match lane {
        ExecutionLaneKind::Live => (LaneLoad { in_flight: crate::locks::decrement_saturating(live.in_flight), ..live }, background),
        ExecutionLaneKind::Background => (live, LaneLoad {
            in_flight: crate::locks::decrement_saturating(background.in_flight),
            ..background
        }),
    }
}

/// The outcome snapshot a hide submitted at `submitted_at` leaves.
pub open spec fn submitted_snapshot_is(
    s: SuppressionOutcomeSnapshot,
    action: RevDelAction,
    server_name: Seq<char>,
    submitted_at: i64,
) -> bool {
    let revid = action_revid(action);
    &&& s.title == action.title
    &&& s.revid == revid
    &&& (s.revision_url matches Some(u) && u@ == revision_url_text(server_name, revid))
    &&& s.outcome@ == "submitted"@
    &&& s.reason_code is None
    &&& s.mode@ == action.mode.spec_label()
    &&& s.source_label@ == action.mode.spec_source_label()
    &&& s.observed_at == action.observed_at
    &&& s.queued_at == Some(action.queued_at)
    &&& s.submitted_at == Some(submitted_at)
    &&& s.completed_at is None
    &&& (s.lane matches Some(l) && l@ == action.lane.spec_label())
    &&& s.deadline_at == action.deadline_at
    &&& s.attempt_count == 1
}

/// Records that a queued hide went to the API at `submitted_at`: the hide
/// carries its submission time, the lanes their loads after it (given as
/// `live` and `background`), and the outcome becomes "submitted" unless it
/// would mask a live failure.
pub fn record_action_submitted(
    status: &mut RuntimeStatus,
    action: &mut RevDelAction,
    server_name: &str,
    live: LaneLoad,
    background: LaneLoad,
    submitted_at: i64,
)
    requires
        live.queue_depth + background.queue_depth <= usize::MAX,
        live.in_flight + background.in_flight <= usize::MAX,
    ensures
        *final(action) == (RevDelAction { submitted_at: Some(submitted_at), ..*old(action) }),
        ({
            let o = old(status).realtime;
            let f = final(status).realtime;
            &&& f.queue_depth == live.queue_depth
            &&& f.live_lane == lane_from(live, o.live_lane)
            &&& f.background_lane == lane_from(background, o.background_lane)
            &&& (final(status).resource_economy matches Some(r) && economy_after_lanes(
                old(status).resource_economy, live, background, submitted_at, r))
            &&& if old(action).mode == RevDelMode::Live || !(o.latest_outcome matches Some(c) && persistent_live_failure(c)) {
                f.latest_outcome matches Some(s) && submitted_snapshot_is(s, *final(action), server_name@, submitted_at)
            } else {
                f.latest_outcome == o.latest_outcome
            }
            &&& f == (RealtimeRuntimeStatus {
                queue_depth: f.queue_depth,
                live_lane: f.live_lane,
                background_lane: f.background_lane,
                latest_outcome: f.latest_outcome,
                ..o
            })
            &&& *final(status) == (RuntimeStatus {
                realtime: f,
                resource_economy: final(status).resource_economy,
                ..*old(status)
            })
        }),
{
    proof {
        action.mode.lemma_live_label();
    }
    action.submitted_at = Some(submitted_at);
    apply_lane_status_to_runtime_status(status, live, background, submitted_at);
    let revid: u64 = if action.revids.len() > 0 {
        action.revids[0]
    } else {
        0
    };
    let snapshot = SuppressionOutcomeSnapshot {
        title: action.title.clone(),
        revid,
        revision_url: Some(revision_url(server_name, revid)),
        outcome: String::from_str("submitted"),
        reason_code: None,
        mode: String::from_str(action.mode.label()),
        source_label: String::from_str(action.mode.source_label()),
        observed_at: action.observed_at,
        queued_at: Some(action.queued_at),
        submitted_at: Some(submitted_at),
        completed_at: None,
        lane: Some(String::from_str(action.lane.label())),
        deadline_at: action.deadline_at,
        attempt_count: 1,
    };
    let replace = match &status.realtime.latest_outcome {
        Some(c) => should_replace_latest_outcome(Some(c), &snapshot),
        None => should_replace_latest_outcome(None, &snapshot),
    };
    if replace {
        status.realtime.latest_outcome = Some(snapshot);
    }
}

} // verus!
