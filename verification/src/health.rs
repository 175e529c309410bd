//! The realtime health the daemon reports: how back-offs, offline
//! intervals, the latest hide outcome, recovery summaries and actionable
//! issues decide the state shown to operators.

use vstd::prelude::*;

use crate::catchup::{compact_text};
use crate::reconcile::ReconcileMode;
use crate::state::{ApiFailureSnapshot, CoverageSummary, SourceListRefresh, WarningSummary};
use crate::text::{decimal, push_decimal, push_str, str_eq, string_of, chars_of, starts_with_chars};
use crate::time::{format_utc_clock, representable_time, utc_clock_text};
use crate::titles::views;

verus! {

/// Why a revision is being hidden.
#[derive(Clone, Copy, Debug, PartialEq, Eq)]
pub enum RevDelMode {
    Live,
    Catchup,
    Coverage,
    Reconciliation,
    Manual,
}

/// The lane a hide runs in.
#[derive(Clone, Copy, Debug, PartialEq, Eq)]
pub enum ExecutionLaneKind {
    Live,
    Background,
}

/// How a dispatched hide ended.
#[derive(Clone, Copy, Debug, PartialEq, Eq)]
pub enum DispatchCompletion {
    Hidden,
    AlreadyHandled,
}

/// Who owns the runtime status file.
#[derive(Clone, Copy, Debug, PartialEq, Eq)]
pub enum RuntimeStatusSurfaceMode {
    DaemonOwned,
    DetachedCommand,
}

impl RevDelMode {
    /// The mode's label.
    pub open spec fn spec_label(self) -> Seq<char> {
        match self {
            RevDelMode::Live => "live"@,
            RevDelMode::Catchup => "catchup"@,
            RevDelMode::Coverage => "coverage"@,
            RevDelMode::Reconciliation => "reconciliation"@,
            RevDelMode::Manual => "manual"@,
        }
    }

    /// The mode's label.
    pub fn label(self) -> (r: &'static str)
        ensures
            r@ == self.spec_label(),
    {
        match self {
            RevDelMode::Live => "live",
            RevDelMode::Catchup => "catchup",
            RevDelMode::Coverage => "coverage",
            RevDelMode::Reconciliation => "reconciliation",
            RevDelMode::Manual => "manual",
        }
    }

    /// Only live hides carry the live label.
    pub proof fn lemma_live_label(self)
        ensures
            (self.spec_label() == "live"@) == (self == RevDelMode::Live),
    {
        reveal_strlit("live");
        reveal_strlit("catchup");
        reveal_strlit("coverage");
        reveal_strlit("reconciliation");
        reveal_strlit("manual");
        assert("live"@[0] != "catchup"@[0]);
        assert("live"@[0] != "coverage"@[0]);
        assert("live"@[0] != "reconciliation"@[0]);
        assert("live"@[0] != "manual"@[0]);
    }

    /// Where hides of this mode come from, for operators.
    pub open spec fn spec_source_label(self) -> Seq<char> {
        match self {
            RevDelMode::Live => "live hiding"@,
            RevDelMode::Catchup => "recovery catch-up"@,
            RevDelMode::Coverage => "coverage verification"@,
            RevDelMode::Reconciliation => "reconciliation"@,
            RevDelMode::Manual => "manual operator action"@,
        }
    }

    /// Where hides of this mode come from, for operators.
    pub fn source_label(self) -> (r: &'static str)
        ensures
            r@ == self.spec_source_label(),
    {
        match self {
            RevDelMode::Live => "live hiding",
            RevDelMode::Catchup => "recovery catch-up",
            RevDelMode::Coverage => "coverage verification",
            RevDelMode::Reconciliation => "reconciliation",
            RevDelMode::Manual => "manual operator action",
        }
    }

    /// Live hides run in the live lane, all others in the background lane.
    pub open spec fn execution_lane_spec(self) -> ExecutionLaneKind {
        if self == RevDelMode::Live {
            ExecutionLaneKind::Live
        } else {
            ExecutionLaneKind::Background
        }
    }

    /// Live hides run in the live lane, all others in the background lane.
    pub fn execution_lane(self) -> (r: ExecutionLaneKind)
        ensures
            r == self.execution_lane_spec(),
    {
        match self {
            RevDelMode::Live => ExecutionLaneKind::Live,
            _ => ExecutionLaneKind::Background,
        }
    }
}

impl ExecutionLaneKind {
    /// The lane's label.
    pub open spec fn spec_label(self) -> Seq<char> {
        match self {
            ExecutionLaneKind::Live => "live"@,
            ExecutionLaneKind::Background => "background"@,
        }
    }

    /// The lane's label.
    pub fn label(self) -> (r: &'static str)
        ensures
            r@ == self.spec_label(),
    {
        match self {
            ExecutionLaneKind::Live => "live",
            ExecutionLaneKind::Background => "background",
        }
    }
}

impl RuntimeStatusSurfaceMode {
    /// Only the daemon writes the runtime status file.
    pub fn persists_runtime_status(self) -> (r: bool)
        ensures
            r == (self == RuntimeStatusSurfaceMode::DaemonOwned),
    {
        match self {
            RuntimeStatusSurfaceMode::DaemonOwned => true,
            RuntimeStatusSurfaceMode::DetachedCommand => false,
        }
    }
}

/// A back-off shared by all background paths.
#[derive(Clone, Debug, Default, PartialEq, Eq)]
pub struct SharedBackoffSnapshot {
    pub source: String,
    pub reason: String,
    pub backoff_until: Option<i64>,
    pub affected_paths: Vec<String>,
    pub live_hiding_blocked: bool,
    pub recorded_at: Option<i64>,
}

/// The task the daemon reports as current.
#[derive(Clone, Debug, Default, PartialEq, Eq)]
pub struct CurrentTaskSnapshot {
    pub task_kind: String,
    pub label: String,
    pub progress_done: Option<usize>,
    pub progress_total: Option<usize>,
    pub window_start: Option<i64>,
    pub window_end: Option<i64>,
    pub started_at: Option<i64>,
    pub expected_resume_at: Option<i64>,
}

/// How the latest hide ended.
#[derive(Clone, Debug, Default, PartialEq, Eq)]
pub struct SuppressionOutcomeSnapshot {
    pub title: String,
    pub revid: u64,
    pub revision_url: Option<String>,
    pub outcome: String,
    pub reason_code: Option<String>,
    pub mode: String,
    pub source_label: String,
    pub observed_at: Option<i64>,
    pub queued_at: Option<i64>,
    pub submitted_at: Option<i64>,
    pub completed_at: Option<i64>,
    pub lane: Option<String>,
    pub deadline_at: Option<i64>,
    pub attempt_count: u32,
}

/// An issue an operator has to act on.
#[derive(Clone, Debug, Default, PartialEq, Eq)]
pub struct ActionableIssueSnapshot {
    pub source: String,
    pub severity: String,
    pub summary: String,
    pub next_action: String,
    pub detected_at: Option<i64>,
}

/// The load of an execution lane.
#[derive(Clone, Debug, Default, PartialEq, Eq)]
pub struct LaneStatus {
    pub queue_depth: usize,
    pub queue_capacity: usize,
    pub in_flight: usize,
    pub concurrency_limit: usize,
    pub latest_saturation_at: Option<i64>,
    pub latest_saturation_reason: Option<String>,
}

/// What the health decisions read of the realtime status.
#[derive(Clone, Debug, Default, PartialEq, Eq)]
pub struct RealtimeRuntimeStatus {
    pub state: String,
    pub catchup_active: bool,
    pub backoff_until: Option<i64>,
    pub shared_backoff: Option<SharedBackoffSnapshot>,
    pub last_offline_started_at: Option<i64>,
    pub last_offline_recovered_at: Option<i64>,
    pub current_task: Option<CurrentTaskSnapshot>,
    pub latest_outcome: Option<SuppressionOutcomeSnapshot>,
    pub latest_recovery_summary: Option<CoverageSummary>,
    pub last_daytime_verification_result: Option<String>,
    pub last_daytime_verification_at: Option<i64>,
    pub last_nightly_full_recheck_result: Option<String>,
    pub last_nightly_full_recheck_at: Option<i64>,
    pub latest_actionable_issue: Option<ActionableIssueSnapshot>,
    pub live_lane: LaneStatus,
    pub last_freshness_probe_source: Option<String>,
    pub last_freshness_probe_at: Option<i64>,
    pub stale_threshold_seconds: u64,
    pub last_event_observed_at: Option<i64>,
    pub last_state_changed_at: Option<i64>,
    pub last_stream_opened_at: Option<i64>,
    pub stream_read_timeout_seconds: u64,
    pub latest_error_code: Option<String>,
    pub latest_error: Option<ApiFailureSnapshot>,
    pub latest_notice: Option<String>,
    pub last_recovery_trigger: Option<String>,
    pub last_reconnect_reason: Option<String>,
    pub last_recovery_started_at: Option<i64>,
    pub last_recovery_completed_at: Option<i64>,
    pub latest_recovery_warnings: Vec<WarningSummary>,
    pub current_lag_seconds: Option<i64>,
    pub current_lag_millis: Option<i64>,
    pub current_lag_source: Option<String>,
    pub last_event_id: Option<String>,
    pub last_matching_edit_at: Option<i64>,
    pub last_matching_title: Option<String>,
    pub last_matching_revid: Option<u64>,
    pub last_matching_revid_url: Option<String>,
    pub last_successful_hide_at: Option<i64>,
    pub last_successful_hide_title: Option<String>,
    pub last_successful_hide_revid: Option<u64>,
    pub last_successful_hide_url: Option<String>,
    pub last_action_completed_at: Option<i64>,
    pub last_action_queued_at: Option<i64>,
    pub last_daytime_verification_window_start: Option<i64>,
    pub last_daytime_verification_window_end: Option<i64>,
    pub last_source_refresh: Option<SourceListRefresh>,
    pub background_lane: LaneStatus,
    pub queue_depth: usize,
    pub daemon_started_at: Option<i64>,
}

/// A back-off that has not yet passed at `now`.
pub open spec fn still_active(until: Option<i64>, now: i64) -> Option<i64> {
    match until {
        Some(u) => if u > now {
            Some(u)
        } else {
            None
        },
        None => None,
    }
}

/// The back-off in force at `now`: the later of the runtime's own and the
/// shared one, among those not yet passed.
pub open spec fn runtime_backoff(status: RealtimeRuntimeStatus, now: i64) -> Option<i64> {
    let legacy = still_active(status.backoff_until, now);
    let shared = match status.shared_backoff {
        Some(s) => still_active(s.backoff_until, now),
        None => None,
    };
    match (legacy, shared) {
        (Some(a), Some(b)) => Some(
            if a >= b {
                a
            } else {
                b
            },
        ),
        (Some(a), None) => Some(a),
        (None, Some(b)) => Some(b),
        (None, None) => None,
    }
}

/// A back-off, if it has not passed at `now`.
pub fn active_backoff_until(backoff_until: Option<i64>, now: i64) -> (r: Option<i64>)
    ensures
        r == still_active(backoff_until, now),
{
    match backoff_until {
        Some(u) => if u > now {
            Some(u)
        } else {
            None
        },
        None => None,
    }
}

/// The back-off in force at `now`.
pub fn active_runtime_backoff_until(status: &RealtimeRuntimeStatus, now: i64) -> (r: Option<i64>)
    ensures
        r == runtime_backoff(*status, now),
{
    let legacy = active_backoff_until(status.backoff_until, now);
    let shared = match &status.shared_backoff {
        Some(s) => active_backoff_until(s.backoff_until, now),
        None => None,
    };
    match (legacy, shared) {
        (Some(a), Some(b)) => Some(
            if a >= b {
                a
            } else {
                b
            },
        ),
        (Some(a), None) => Some(a),
        (None, Some(b)) => Some(b),
        (None, None) => None,
    }
}

/// The background paths a shared back-off holds back.
pub open spec fn backoff_paths() -> Seq<Seq<char>> {
    seq!["catch-up"@, "reconciliation"@, "source-refresh"@, "one-shot-command"@]
}

/// The background paths a shared back-off holds back.
pub fn shared_backoff_paths() -> (r: Vec<String>)
    ensures
        views(r@) == backoff_paths(),
{
    let mut r: Vec<String> = Vec::new();
    r.push(String::from_str("catch-up"));
    r.push(String::from_str("reconciliation"));
    r.push(String::from_str("source-refresh"));
    r.push(String::from_str("one-shot-command"));
    assert(views(r@) =~= backoff_paths());
    r
}

/// A shared back-off snapshot recorded by `source` for `reason` at `now`,
/// until `until`, holding back every background path but not live hiding.
pub open spec fn shared_snapshot_is(
    s: SharedBackoffSnapshot,
    source: Seq<char>,
    reason: Seq<char>,
    until: i64,
    now: i64,
) -> bool {
    &&& s.source@ == source
    &&& s.reason@ == reason
    &&& s.backoff_until == Some(until)
    &&& views(s.affected_paths@) == backoff_paths()
    &&& !s.live_hiding_blocked
    &&& s.recorded_at == Some(now)
}

/// The back-off kept when `until` is recorded over the one in force.
pub open spec fn kept_backoff(status: RealtimeRuntimeStatus, until: i64, now: i64) -> i64 {
    match runtime_backoff(status, now) {
        Some(e) => if e >= until {
            e
        } else {
            until
        },
        None => until,
    }
}

/// Records a back-off until `until` from `source` at `now`, when it has not
/// passed: the back-off kept is the later of it and the one in force, and
/// it is shared with every background path (live hiding is not held back).
/// Returns the back-off kept; nothing changes when `until` has passed.
pub fn set_shared_backoff(
    status: &mut RealtimeRuntimeStatus,
    source: &str,
    reason: &str,
    until: i64,
    now: i64,
) -> (r: Option<i64>)
    ensures
        until <= now ==> r is None && *final(status) == *old(status),
        until > now ==> {
            &&& r == Some(kept_backoff(*old(status), until, now))
            &&& final(status).backoff_until == r
            &&& (final(status).shared_backoff matches Some(s) && shared_snapshot_is(s, source@, reason@,
                kept_backoff(*old(status), until, now), now))
            &&& *final(status) == (RealtimeRuntimeStatus {
                backoff_until: final(status).backoff_until,
                shared_backoff: final(status).shared_backoff,
                ..*old(status)
            })
        },
{
    let active = match active_backoff_until(Some(until), now) {
        Some(u) => u,
        None => return None,
    };
    let selected = match active_runtime_backoff_until(status, now) {
        Some(e) => if e >= active {
            e
        } else {
            active
        },
        None => active,
    };
    status.backoff_until = Some(selected);
    status.shared_backoff = Some(
        SharedBackoffSnapshot {
            source: String::from_str(source),
            reason: String::from_str(reason),
            backoff_until: Some(selected),
            affected_paths: shared_backoff_paths(),
            live_hiding_blocked: false,
            recorded_at: Some(now),
        },
    );
    Some(selected)
}

/// What the shared back-off is after back-offs that passed at `now` are
/// dropped and `kept` stays in force: none without a back-off, the shared
/// one while it is itself in force, else the kept one shared again under a
/// legacy label.
pub open spec fn retained_shared(
    old_shared: Option<SharedBackoffSnapshot>,
    kept: Option<i64>,
    now: i64,
    new_shared: Option<SharedBackoffSnapshot>,
) -> bool {
    match kept {
        None => new_shared is None,
        Some(u) => {
            let live = match old_shared {
                Some(s) => still_active(s.backoff_until, now) is Some,
                None => false,
            };
            if live {
                new_shared == old_shared
            } else {
                new_shared matches Some(s) && shared_snapshot_is(s, "legacy-runtime"@,
                    "legacy-backoff-until"@, u, now)
            }
        },
    }
}

/// Drops back-offs that have passed at `now`; a back-off still in force
/// but no longer shared is shared again under a legacy label. Returns the
/// back-off in force.
pub fn retain_runtime_backoff(status: &mut RealtimeRuntimeStatus, now: i64) -> (r: Option<i64>)
    ensures
        r == runtime_backoff(*old(status), now),
        final(status).backoff_until == r,
        retained_shared(old(status).shared_backoff, r, now, final(status).shared_backoff),
        *final(status) == (RealtimeRuntimeStatus {
            backoff_until: final(status).backoff_until,
            shared_backoff: final(status).shared_backoff,
            ..*old(status)
        }),
        runtime_backoff(*final(status), now) == r,
{
    let active = active_runtime_backoff_until(status, now);
    status.backoff_until = active;
    match active {
        None => {
            status.shared_backoff = None;
        },
        Some(until) => {
            let shared_live = match &status.shared_backoff {
                Some(s) => active_backoff_until(s.backoff_until, now).is_some(),
                None => false,
            };
            if !shared_live {
                status.shared_backoff = Some(
                    SharedBackoffSnapshot {
                        source: String::from_str("legacy-runtime"),
                        reason: String::from_str("legacy-backoff-until"),
                        backoff_until: Some(until),
                        affected_paths: shared_backoff_paths(),
                        live_hiding_blocked: false,
                        recorded_at: Some(now),
                    },
                );
            }
        },
    }
    active
}

/// Whether the daemon is in an offline interval: one started and has not
/// been recovered since.
pub open spec fn offline_now(status: RealtimeRuntimeStatus) -> bool {
    match (status.last_offline_started_at, status.last_offline_recovered_at) {
        (Some(started), Some(recovered)) => started > recovered,
        (Some(_), None) => true,
        _ => false,
    }
}

/// Whether an offline interval is open.
pub fn offline_interval_active(status: &RealtimeRuntimeStatus) -> (r: bool)
    ensures
        r == offline_now(*status),
{
    match (status.last_offline_started_at, status.last_offline_recovered_at) {
        (Some(started), Some(recovered)) => started > recovered,
        (Some(_), None) => true,
        _ => false,
    }
}

/// Opens an offline interval at `now` unless one is open.
pub fn begin_offline_interval_if_needed(status: &mut RealtimeRuntimeStatus, now: i64)
    ensures
        offline_now(*old(status)) ==> *final(status) == *old(status),
        !offline_now(*old(status)) ==> *final(status) == (RealtimeRuntimeStatus {
            last_offline_started_at: Some(now),
            ..*old(status)
        }),
{
    if !offline_interval_active(status) {
        status.last_offline_started_at = Some(now);
    }
}

/// Closes the open offline interval at `now`, if there is one.
pub fn end_offline_interval_if_active(status: &mut RealtimeRuntimeStatus, now: i64)
    ensures
        !offline_now(*old(status)) ==> *final(status) == *old(status),
        offline_now(*old(status)) ==> *final(status) == (RealtimeRuntimeStatus {
            last_offline_recovered_at: Some(now),
            ..*old(status)
        }),
{
    if offline_interval_active(status) {
        status.last_offline_recovered_at = Some(now);
    }
}

/// Whether a recovery was triggered by a gap in the stream.
pub fn is_gap_recovery_trigger(trigger: &str) -> (r: bool)
    ensures
        r == (trigger@ == "startup"@ || trigger@ == "silent-starvation"@ || trigger@ == "invalid-resume"@),
{
    str_eq(trigger, "startup") || str_eq(trigger, "silent-starvation") || str_eq(trigger, "invalid-resume")
}

/// Whether the current task is live work that background status must not
/// replace.
pub open spec fn task_blocks_background(status: RealtimeRuntimeStatus) -> bool {
    status.current_task matches Some(t) && (t.task_kind@ == "live-hide"@ || t.task_kind@
        == "protection-blocked"@)
}

/// Whether the current task is live work.
pub fn current_task_blocks_background_status(status: &RealtimeRuntimeStatus) -> (r: bool)
    ensures
        r == task_blocks_background(*status),
{
    match &status.current_task {
        Some(t) => str_eq(t.task_kind.as_str(), "live-hide") || str_eq(t.task_kind.as_str(), "protection-blocked"),
        None => false,
    }
}

/// Shows a background task as current, unless live work is shown.
pub fn set_background_current_task(status: &mut RealtimeRuntimeStatus, task: CurrentTaskSnapshot)
    ensures
        task_blocks_background(*old(status)) ==> *final(status) == *old(status),
        !task_blocks_background(*old(status)) ==> *final(status) == (RealtimeRuntimeStatus {
            current_task: Some(task),
            ..*old(status)
        }),
{
    if !current_task_blocks_background_status(status) {
        status.current_task = Some(task);
    }
}

/// The idle task, labelled, from `started_at`.
pub fn idle_task(label: &str, started_at: i64) -> (r: CurrentTaskSnapshot)
    ensures
        r.task_kind@ == "idle"@,
        r.label@ == label@,
        r.progress_done is None && r.progress_total is None,
        r.window_start is None && r.window_end is None,
        r.started_at == Some(started_at),
        r.expected_resume_at is None,
{
    CurrentTaskSnapshot {
        task_kind: String::from_str("idle"),
        label: String::from_str(label),
        progress_done: None,
        progress_total: None,
        window_start: None,
        window_end: None,
        started_at: Some(started_at),
        expected_resume_at: None,
    }
}

/// The task shown while a revision cannot be hidden because protection is
/// blocked.
pub fn protection_blocked_task(revid: u64, started_at: i64) -> (r: CurrentTaskSnapshot)
    ensures
        r.task_kind@ == "protection-blocked"@,
        r.label@ == "protection blocked for revid "@ + decimal(revid as nat),
        r.progress_done is None && r.progress_total is None,
        r.window_start is None && r.window_end is None,
        r.started_at == Some(started_at),
        r.expected_resume_at is None,
{
    let mut label: Vec<char> = Vec::new();
    push_str(&mut label, "protection blocked for revid ");
    push_decimal(&mut label, revid);
    assert(label@ =~= "protection blocked for revid "@ + decimal(revid as nat));
    CurrentTaskSnapshot {
        task_kind: String::from_str("protection-blocked"),
        label: string_of(&label),
        progress_done: None,
        progress_total: None,
        window_start: None,
        window_end: None,
        started_at: Some(started_at),
        expected_resume_at: None,
    }
}

/// The task shown while a reconciliation pass runs.
pub fn reconciliation_task(mode: ReconcileMode, started_at: i64, daytime_window_start: Option<i64>) -> (r:
    CurrentTaskSnapshot)
    ensures
        r.started_at == Some(started_at),
        r.progress_done == Some(0usize),
        r.progress_total is None,
        r.expected_resume_at is None,
        mode == ReconcileMode::CurrentDay ==> r.task_kind@ == "last-24h-verification"@ && r.label@
            == "verifying the last 24 hours"@ && r.window_start == daytime_window_start
            && r.window_end == Some(started_at),
        mode == ReconcileMode::Full ==> r.task_kind@ == "full-watched-set-recheck"@ && r.label@
            == "running full watched-set recheck"@ && r.window_start is None && r.window_end is None,
{
    match mode {
        ReconcileMode::CurrentDay => CurrentTaskSnapshot {
            task_kind: String::from_str("last-24h-verification"),
            label: String::from_str("verifying the last 24 hours"),
            progress_done: Some(0),
            progress_total: None,
            window_start: daytime_window_start,
            window_end: Some(started_at),
            started_at: Some(started_at),
            expected_resume_at: None,
        },
        ReconcileMode::Full => CurrentTaskSnapshot {
            task_kind: String::from_str("full-watched-set-recheck"),
            label: String::from_str("running full watched-set recheck"),
            progress_done: Some(0),
            progress_total: None,
            window_start: None,
            window_end: None,
            started_at: Some(started_at),
            expected_resume_at: None,
        },
    }
}

/// A live hide that failed and still needs attention.
pub open spec fn persistent_live_failure(o: SuppressionOutcomeSnapshot) -> bool {
    o.mode@ == "live"@ && (o.outcome@ == "failed"@ || o.outcome@ == "retrying"@ || o.outcome@
        == "throttled"@ || o.outcome@ == "unresolved"@ || o.outcome@ == "blocked"@)
}

/// Whether an outcome is a live hide that still needs attention.
pub fn is_persistent_live_failure_outcome(outcome: &SuppressionOutcomeSnapshot) -> (r: bool)
    ensures
        r == persistent_live_failure(*outcome),
{
    let o = outcome.outcome.as_str();
    str_eq(outcome.mode.as_str(), "live") && (str_eq(o, "failed") || str_eq(o, "retrying")
        || str_eq(o, "throttled") || str_eq(o, "unresolved") || str_eq(o, "blocked"))
}

/// Whether a new outcome replaces the latest one: live outcomes always do;
/// others only when the latest is not a live failure needing attention.
pub fn should_replace_latest_outcome(
    current: Option<&SuppressionOutcomeSnapshot>,
    next: &SuppressionOutcomeSnapshot,
) -> (r: bool)
    ensures
        r == (next.mode@ == "live"@ || !(current matches Some(c) && persistent_live_failure(*c))),
{
    str_eq(next.mode.as_str(), "live") || !match current {
        Some(c) => is_persistent_live_failure_outcome(c),
        None => false,
    }
}

/// The latest outcome is a live failure needing attention.
pub open spec fn live_outcome_degraded(status: RealtimeRuntimeStatus) -> bool {
    status.latest_outcome matches Some(o) && persistent_live_failure(o)
}

/// The latest recovery left revisions unresolved or stopped early.
pub open spec fn recovery_degraded(status: RealtimeRuntimeStatus) -> bool {
    status.latest_recovery_summary matches Some(s) && (s.unresolved_count > 0
        || s.stopped_early_reason is Some)
}

/// A scheduled verification (daytime or nightly) last failed.
pub open spec fn scheduled_verification_failed(status: RealtimeRuntimeStatus) -> bool {
    (status.last_daytime_verification_result matches Some(r) && "failed:"@.is_prefix_of(r@)) || (
    status.last_nightly_full_recheck_result matches Some(r) && "failed:"@.is_prefix_of(r@))
}

/// The sources of actionable issues that keep the stream from being healthy.
pub open spec fn blocking_issue_source(source: Seq<char>) -> bool {
    source == "full-watched-set-freshness"@ || source == "live-hide"@ || source == "launch-path"@
        || source == "polling"@ || source == "pid-file"@ || source == "runtime-status"@ || source
        == "state-persistence"@
}

/// The latest actionable issue keeps the stream from being healthy.
pub open spec fn issue_blocks_health(status: RealtimeRuntimeStatus) -> bool {
    status.latest_actionable_issue matches Some(i) && blocking_issue_source(i.source@)
}

/// Whether the latest outcome is a live failure needing attention.
pub fn latest_live_outcome_is_degraded(status: &RealtimeRuntimeStatus) -> (r: bool)
    ensures
        r == live_outcome_degraded(*status),
{
    match &status.latest_outcome {
        Some(o) => is_persistent_live_failure_outcome(o),
        None => false,
    }
}

/// Whether the latest recovery left work undone.
pub fn latest_recovery_summary_is_degraded(status: &RealtimeRuntimeStatus) -> (r: bool)
    ensures
        r == recovery_degraded(*status),
{
    match &status.latest_recovery_summary {
        Some(s) => s.unresolved_count > 0 || s.stopped_early_reason.is_some(),
        None => false,
    }
}

fn starts_failed(o: &Option<String>) -> (r: bool)
    ensures
        r == (*o matches Some(t) && "failed:"@.is_prefix_of(t@)),
{
    match o {
        Some(t) => {
            let chars = chars_of(t.as_str());
            let prefix = chars_of("failed:");
            starts_with_chars(&chars, &prefix)
        },
        None => false,
    }
}

/// Whether a scheduled verification last failed.
pub fn has_scheduled_verification_failure(status: &RealtimeRuntimeStatus) -> (r: bool)
    ensures
        r == scheduled_verification_failed(*status),
{
    starts_failed(&status.last_daytime_verification_result) || starts_failed(
        &status.last_nightly_full_recheck_result,
    )
}

/// Whether an issue's source keeps the stream from being healthy.
pub fn actionable_issue_blocks_stream_healthy(issue: &ActionableIssueSnapshot) -> (r: bool)
    ensures
        r == blocking_issue_source(issue.source@),
{
    let s = issue.source.as_str();
    str_eq(s, "full-watched-set-freshness") || str_eq(s, "live-hide") || str_eq(s, "launch-path")
        || str_eq(s, "polling") || str_eq(s, "pid-file") || str_eq(s, "runtime-status") || str_eq(
        s,
        "state-persistence",
    )
}

/// Whether the latest actionable issue keeps the stream from being healthy.
pub fn latest_persistent_issue_blocks_stream_healthy(status: &RealtimeRuntimeStatus) -> (r: bool)
    ensures
        r == issue_blocks_health(*status),
{
    match &status.latest_actionable_issue {
        Some(i) => actionable_issue_blocks_stream_healthy(i),
        None => false,
    }
}

/// Whether the latest actionable issue degrades a pass that just completed
/// in `mode` (a full pass settles the full-set freshness issue).
pub fn latest_persistent_issue_is_degraded(status: &RealtimeRuntimeStatus, completed_mode: ReconcileMode) -> (r: bool)
    ensures
        r == (status.latest_actionable_issue matches Some(i) && !(completed_mode == ReconcileMode::Full
            && i.source@ == "full-watched-set-freshness"@) && blocking_issue_source(i.source@)),
{
    match &status.latest_actionable_issue {
        Some(i) => {
            let full = match completed_mode {
                ReconcileMode::Full => true,
                ReconcileMode::CurrentDay => false,
            };
            if full && str_eq(i.source.as_str(), "full-watched-set-freshness") {
                false
            } else {
                actionable_issue_blocks_stream_healthy(i)
            }
        },
        None => false,
    }
}

/// Why a reconciliation pass must not start at `now`: live work is queued
/// or running, live hiding is unresolved, or an API back-off is in force.
pub open spec fn preflight_stop(status: RealtimeRuntimeStatus, now: i64) -> Option<Seq<char>> {
    if status.live_lane.queue_depth > 0 || status.live_lane.in_flight > 0 {
        Some("yielding-to-live"@)
    } else if (status.latest_actionable_issue matches Some(i) && i.source@ == "live-hide"@)
        || live_outcome_degraded(status) {
        Some("live-hide-unresolved"@)
    } else if runtime_backoff(status, now) is Some {
        Some("api-backoff-active"@)
    } else {
        None
    }
}

/// Why a reconciliation pass must not start now, if it must not.
pub fn reconciliation_preflight_stop_reason(status: &RealtimeRuntimeStatus, now: i64) -> (r: Option<String>)
    ensures
        crate::cli::opt_text(r) == preflight_stop(*status, now),
{
    if status.live_lane.queue_depth > 0 || status.live_lane.in_flight > 0 {
        return Some(String::from_str("yielding-to-live"));
    }
    let live_issue = match &status.latest_actionable_issue {
        Some(i) => str_eq(i.source.as_str(), "live-hide"),
        None => false,
    };
    if live_issue || latest_live_outcome_is_degraded(status) {
        return Some(String::from_str("live-hide-unresolved"));
    }
    if active_runtime_backoff_until(status, now).is_some() {
        return Some(String::from_str("api-backoff-active"));
    }
    None
}

/// The last freshness probe came from polling and is no older than the
/// stale threshold.
pub open spec fn polling_fresh(status: RealtimeRuntimeStatus, now: i64) -> bool {
    &&& status.last_freshness_probe_source matches Some(s) && s@ == "polling"@
    &&& status.last_freshness_probe_at matches Some(t) && now - t <= (
    status.stale_threshold_seconds as i64)
}

/// Whether polling keeps the daemon fresh at `now`.
pub fn polling_signal_is_fresh(status: &RealtimeRuntimeStatus, now: i64) -> (r: bool)
    requires
        representable_time(now),
        status.last_freshness_probe_at matches Some(t) ==> representable_time(t),
    ensures
        r == polling_fresh(*status, now),
{
    let from_polling = match &status.last_freshness_probe_source {
        Some(s) => str_eq(s.as_str(), "polling"),
        None => false,
    };
    from_polling && match status.last_freshness_probe_at {
        Some(t) => now - t <= status.stale_threshold_seconds as i64,
        None => false,
    }
}

/// The latest outcome is a blocked live hide, or the state is blocked.
pub open spec fn blocked_now(status: RealtimeRuntimeStatus) -> bool {
    status.state@ == "blocked"@ || (status.latest_outcome matches Some(o) && o.mode@ == "live"@
        && o.outcome@ == "blocked"@)
}

/// The verdict shared by every convergence: catching up while a catch-up
/// runs or a back-off is in force; blocked; unhealthy while a live failure,
/// an incomplete recovery, a failed scheduled verification or a blocking
/// issue stands; otherwise `None` (the caller decides).
pub open spec fn common_verdict(status: RealtimeRuntimeStatus, now: i64) -> Option<Seq<char>> {
    if status.catchup_active || runtime_backoff(status, now) is Some {
        Some("catching-up"@)
    } else if blocked_now(status) {
        Some("blocked"@)
    } else if live_outcome_degraded(status) || recovery_degraded(status)
        || scheduled_verification_failed(status) || issue_blocks_health(status) {
        Some("unhealthy"@)
    } else {
        None
    }
}

fn common_verdict_exec(status: &RealtimeRuntimeStatus, now: i64) -> (r: Option<&'static str>)
    ensures
        match r {
            Some(s) => common_verdict(*status, now) == Some(s@),
            None => common_verdict(*status, now) is None,
        },
{
    if status.catchup_active || active_runtime_backoff_until(status, now).is_some() {
        return Some("catching-up");
    }
    let blocked_outcome = match &status.latest_outcome {
        Some(o) => str_eq(o.mode.as_str(), "live") && str_eq(o.outcome.as_str(), "blocked"),
        None => false,
    };
    if str_eq(status.state.as_str(), "blocked") || blocked_outcome {
        return Some("blocked");
    }
    if latest_live_outcome_is_degraded(status) || latest_recovery_summary_is_degraded(status)
        || has_scheduled_verification_failure(status) || latest_persistent_issue_blocks_stream_healthy(
        status,
    ) {
        return Some("unhealthy");
    }
    None
}

/// The state after a successful primary poll at `now`: the common verdict,
/// else stale when polling was the freshness source but is too old, starting
/// when there is no polling signal yet, else healthy.
pub open spec fn state_after_primary_poll(status: RealtimeRuntimeStatus, now: i64) -> Seq<char> {
    match common_verdict(status, now) {
        Some(v) => v,
        None => if !polling_fresh(status, now) {
            if status.last_freshness_probe_source matches Some(s) && s@ == "polling"@ {
                "stale"@
            } else {
                "starting"@
            }
        } else {
            "healthy"@
        },
    }
}

/// The realtime state after a successful primary poll.
pub fn converged_realtime_state_after_primary_poll(status: &RealtimeRuntimeStatus, now: i64) -> (r:
    String)
    requires
        representable_time(now),
        status.last_freshness_probe_at matches Some(t) ==> representable_time(t),
    ensures
        r@ == state_after_primary_poll(*status, now),
{
    if let Some(v) = common_verdict_exec(status, now) {
        return String::from_str(v);
    }
    if !polling_signal_is_fresh(status, now) {
        let from_polling = match &status.last_freshness_probe_source {
            Some(s) => str_eq(s.as_str(), "polling"),
            None => false,
        };
        if from_polling {
            return String::from_str("stale");
        }
        return String::from_str("starting");
    }
    String::from_str("healthy")
}

/// The state after the stream opened: the common verdict, else starting or
/// reconnecting while no event has arrived in those states, else healthy.
pub open spec fn state_after_stream_open(status: RealtimeRuntimeStatus, now: i64) -> Seq<char> {
    match common_verdict(status, now) {
        Some(v) => v,
        None => if status.last_event_observed_at is None && status.state@ == "starting"@ {
            "starting"@
        } else if status.last_event_observed_at is None && status.state@ == "reconnecting"@ {
            "reconnecting"@
        } else {
            "healthy"@
        },
    }
}

/// The realtime state after the stream opened.
pub fn converged_realtime_state_after_stream_open(status: &RealtimeRuntimeStatus, now: i64) -> (r:
    String)
    ensures
        r@ == state_after_stream_open(*status, now),
{
    if let Some(v) = common_verdict_exec(status, now) {
        return String::from_str(v);
    }
    if status.last_event_observed_at.is_none() && str_eq(status.state.as_str(), "starting") {
        return String::from_str("starting");
    }
    if status.last_event_observed_at.is_none() && str_eq(status.state.as_str(), "reconnecting") {
        return String::from_str("reconnecting");
    }
    String::from_str("healthy")
}

/// The state after a stream event: the common verdict, else healthy.
pub open spec fn state_after_stream_event(status: RealtimeRuntimeStatus, now: i64) -> Seq<char> {
    match common_verdict(status, now) {
        Some(v) => v,
        None => "healthy"@,
    }
}

/// The realtime state after a stream event.
pub fn converged_realtime_state_after_stream_event(status: &RealtimeRuntimeStatus, now: i64) -> (r:
    String)
    ensures
        r@ == state_after_stream_event(*status, now),
{
    match common_verdict_exec(status, now) {
        Some(v) => String::from_str(v),
        None => String::from_str("healthy"),
    }
}

/// Health never hides trouble: whichever signal converges the state, it is
/// healthy only when no catch-up runs, no back-off is in force, nothing is
/// blocked, no live failure, incomplete recovery, failed scheduled
/// verification or blocking issue stands.
pub proof fn healthy_means_no_outstanding_trouble(status: RealtimeRuntimeStatus, now: i64)
    ensures
        (state_after_primary_poll(status, now) == "healthy"@ || state_after_stream_open(status, now)
            == "healthy"@ || state_after_stream_event(status, now) == "healthy"@) ==> {
            &&& !status.catchup_active
            &&& runtime_backoff(status, now) is None
            &&& !blocked_now(status)
            &&& !live_outcome_degraded(status)
            &&& !recovery_degraded(status)
            &&& !scheduled_verification_failed(status)
            &&& !issue_blocks_health(status)
        },
{
    reveal_strlit("healthy");
    reveal_strlit("catching-up");
    reveal_strlit("blocked");
    reveal_strlit("unhealthy");
    reveal_strlit("stale");
    reveal_strlit("starting");
    reveal_strlit("reconnecting");
    assert("healthy"@[0] != "catching-up"@[0]);
    assert("healthy"@[0] != "blocked"@[0]);
    assert("healthy"@[0] != "unhealthy"@[0]);
    assert("healthy"@[0] != "stale"@[0]);
    assert("healthy"@[0] != "starting"@[0]);
    assert("healthy"@[0] != "reconnecting"@[0]);
    if common_verdict(status, now) is Some {
        let v = common_verdict(status, now)->0;
        assert(v != "healthy"@);
    }
}

/// A catch-up or a back-off in force always shows as catching up.
pub proof fn catchup_or_backoff_shows_catching_up(status: RealtimeRuntimeStatus, now: i64)
    requires
        status.catchup_active || runtime_backoff(status, now) is Some,
    ensures
        state_after_primary_poll(status, now) == "catching-up"@,
        state_after_stream_open(status, now) == "catching-up"@,
        state_after_stream_event(status, now) == "catching-up"@,
{
}

/// A shared back-off never shortens the one in force: what is kept lasts
/// at least as long as the back-off asked for and as the one in force.
pub proof fn shared_backoff_never_shortens(status: RealtimeRuntimeStatus, until: i64, now: i64)
    ensures
        kept_backoff(status, until, now) >= until,
        runtime_backoff(status, now) matches Some(e) ==> kept_backoff(status, until, now) >= e,
{
}

/// What an operator should do after an API failure.
pub open spec fn failure_next_action(s: ApiFailureSnapshot) -> Seq<char> {
    match s.retry_after_seconds {
        Some(secs) => "wait "@ + decimal(secs as nat) + "s for backoff, then recheck"@,
        None => if s.class@ == "auth-session"@ {
            "re-authenticate the daemon session and verify the next hide"@
        } else if s.class@ == "permission"@ {
            "verify bot rights or page-level revisiondelete permissions before retrying"@
        } else {
            "inspect auth, API, or network state"@
        },
    }
}

/// The next action after an API failure.
pub fn api_failure_next_action(snapshot: &ApiFailureSnapshot) -> (r: String)
    ensures
        r@ == failure_next_action(*snapshot),
{
    if let Some(secs) = snapshot.retry_after_seconds {
        let mut out: Vec<char> = Vec::new();
        push_str(&mut out, "wait ");
        push_decimal(&mut out, secs);
        push_str(&mut out, "s for backoff, then recheck");
        assert(out@ =~= failure_next_action(*snapshot));
        return string_of(&out);
    }
    if str_eq(snapshot.class.as_str(), "auth-session") {
        String::from_str("re-authenticate the daemon session and verify the next hide")
    } else if str_eq(snapshot.class.as_str(), "permission") {
        String::from_str("verify bot rights or page-level revisiondelete permissions before retrying")
    } else {
        String::from_str("inspect auth, API, or network state")
    }
}

/// The notice a finished recovery leaves: paused until the back-off ends
/// (with the reason when it stopped early), stopped early, or completed
/// with its counts.
pub open spec fn recovery_notice(s: CoverageSummary) -> Seq<char> {
    match s.backoff_until {
        Some(t) => match s.stopped_early_reason {
            Some(r) => "catch-up paused until "@ + utc_clock_text(t) + " ("@ + r@ + ")"@,
            None => "catch-up paused until "@ + utc_clock_text(t),
        },
        None => match s.stopped_early_reason {
            Some(r) => "catch-up stopped early: "@ + r@,
            None => "catch-up completed checked="@ + decimal(s.edits_checked as nat) + " unresolved="@
                + decimal(s.unresolved_count as nat),
        },
    }
}

/// The notice a finished recovery leaves.
pub fn render_recovery_notice(summary: &CoverageSummary) -> (r: String)
    requires
        summary.backoff_until matches Some(t) ==> representable_time(t),
    ensures
        r@ == recovery_notice(*summary),
{
    let mut out: Vec<char> = Vec::new();
    match summary.backoff_until {
        Some(t) => {
            push_str(&mut out, "catch-up paused until ");
            let clock = format_utc_clock(t);
            push_str(&mut out, clock.as_str());
            if let Some(reason) = &summary.stopped_early_reason {
                push_str(&mut out, " (");
                push_str(&mut out, reason.as_str());
                push_str(&mut out, ")");
            }
        },
        None => match &summary.stopped_early_reason {
            Some(reason) => {
                push_str(&mut out, "catch-up stopped early: ");
                push_str(&mut out, reason.as_str());
            },
            None => {
                push_str(&mut out, "catch-up completed checked=");
                push_decimal(&mut out, summary.edits_checked as u64);
                push_str(&mut out, " unresolved=");
                push_decimal(&mut out, summary.unresolved_count as u64);
            },
        },
    }
    assert(out@ =~= recovery_notice(*summary));
    string_of(&out)
}

/// The source an actionable issue of a hide mode is recorded under.
pub open spec fn issue_source_of_mode(mode: Seq<char>) -> Seq<char> {
    if mode == "live"@ {
        "live-hide"@
    } else if mode == "catchup"@ {
        "recovery"@
    } else if mode == "coverage"@ {
        "coverage"@
    } else if mode == "reconciliation"@ {
        "reconciliation"@
    } else if mode == "manual"@ {
        "manual"@
    } else {
        "live-hide"@
    }
}

/// The source an actionable issue of a hide mode is recorded under.
pub fn actionable_issue_source_for_mode(mode: &str) -> (r: &'static str)
    ensures
        r@ == issue_source_of_mode(mode@),
{
    if str_eq(mode, "live") {
        "live-hide"
    } else if str_eq(mode, "catchup") {
        "recovery"
    } else if str_eq(mode, "coverage") {
        "coverage"
    } else if str_eq(mode, "reconciliation") {
        "reconciliation"
    } else if str_eq(mode, "manual") {
        "manual"
    } else {
        "live-hide"
    }
}

} // verus!
