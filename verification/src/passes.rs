//! How reconciliation passes move the runtime status when they start and
//! when they finish.

use vstd::prelude::*;

use crate::health::{
    blocking_issue_source, common_verdict, converged_realtime_state_after_primary_poll,
    has_scheduled_verification_failure, idle_task, latest_live_outcome_is_degraded,
    latest_persistent_issue_blocks_stream_healthy, latest_persistent_issue_is_degraded,
    latest_recovery_summary_is_degraded, live_outcome_degraded, polling_fresh, reconciliation_task,
    recovery_degraded, runtime_backoff, active_runtime_backoff_until, scheduled_verification_failed,
    set_background_current_task, state_after_primary_poll, task_blocks_background, CurrentTaskSnapshot,
    RealtimeRuntimeStatus,
};
use crate::realtime::{cleared_issue, idle_waiting, issue_restored};
use crate::reconcile::ReconcileMode;
use crate::runtime::{
    clear_actionable_issue_if_source, opt_issue_text, reconciliation_stopped_early_issue,
    restore_persistent_issue, status_times_ok, stopped_early_issue, texts, verification_failure_issue,
    verification_failure_issue_for_mode, ReconciliationRuntimeStatus, RuntimeStatus,
};
use crate::text::{chars_of, push_str, starts_with_chars, str_eq, string_of};
use crate::state::{ApiFailureSnapshot, WarningSummary};
use crate::time::representable_time;

verus! {

/// The task a pass in `mode` shows.
pub open spec fn pass_task_is(t: CurrentTaskSnapshot, mode: ReconcileMode, at: i64, window_start: Option<i64>) -> bool {
    &&& t.started_at == Some(at)
    &&& t.progress_done == Some(0usize) && t.progress_total is None
    &&& t.expected_resume_at is None
    &&& mode == ReconcileMode::CurrentDay ==> t.task_kind@ == "last-24h-verification"@ && t.label@
        == "verifying the last 24 hours"@ && t.window_start == window_start && t.window_end == Some(at)
    &&& mode == ReconcileMode::Full ==> t.task_kind@ == "full-watched-set-recheck"@ && t.label@
        == "running full watched-set recheck"@ && t.window_start is None && t.window_end is None
}

/// The label operators read of a mode.
pub open spec fn operator_text(mode: ReconcileMode) -> Seq<char> {
    match mode {
        ReconcileMode::CurrentDay => "Last 24 hours verification"@,
        ReconcileMode::Full => "Full watched-set recheck"@,
    }
}

/// The short label of a mode.
pub open spec fn mode_text(mode: ReconcileMode) -> Seq<char> {
    match mode {
        ReconcileMode::CurrentDay => "last-24h"@,
        ReconcileMode::Full => "nightly-full"@,
    }
}

/// Records that a pass in `mode` started at `started_at`: the pass is
/// active from its first phase, the daemon runs, and the pass task is shown
/// unless live work is.
pub fn apply_reconciliation_started_status(
    status: &mut RuntimeStatus,
    mode: ReconcileMode,
    started_at: i64,
    daytime_window_start: Option<i64>,
)
    ensures
        ({
            let o = *old(status);
            let f = *final(status);
            let r = f.reconciliation;
            &&& r.active
            &&& (r.mode matches Some(m) && m@ == mode_text(mode))
            &&& (r.phase matches Some(p) && p@ == "starting"@)
            &&& r.completed_titles == 0 && r.total_titles == 0
            &&& r.phase_completed == 0 && r.phase_total == 0
            &&& r.current_title is None
            &&& r.last_started_at == Some(started_at)
            &&& r.last_result is None && r.stopped_early_reason is None && r.backoff_until is None
            &&& r.queued_mode == o.reconciliation.queued_mode
            &&& r.last_completed_at == o.reconciliation.last_completed_at
            &&& f.daemon_state@ == if o.dry_run { "dry-run-running"@ } else { "running"@ }
            &&& if task_blocks_background(o.realtime) {
                f.realtime == o.realtime
            } else {
                f.realtime.current_task matches Some(t) && pass_task_is(t, mode, started_at, daytime_window_start)
            }
            &&& f.realtime == (RealtimeRuntimeStatus { current_task: f.realtime.current_task, ..o.realtime })
            &&& (f.last_notice matches Some(n) && n@ == operator_text(mode) + " started"@)
            &&& f.last_notice_at == Some(started_at)
            &&& f == (RuntimeStatus {
                reconciliation: f.reconciliation,
                daemon_state: f.daemon_state,
                realtime: f.realtime,
                last_notice: f.last_notice,
                last_notice_at: f.last_notice_at,
                ..o
            })
        }),
{
    status.reconciliation.active = true;
    status.reconciliation.mode = Some(String::from_str(mode.label()));
    status.reconciliation.phase = Some(String::from_str("starting"));
    status.reconciliation.completed_titles = 0;
    status.reconciliation.total_titles = 0;
    status.reconciliation.phase_completed = 0;
    status.reconciliation.phase_total = 0;
    status.reconciliation.current_title = None;
    status.reconciliation.last_started_at = Some(started_at);
    status.reconciliation.last_result = None;
    status.reconciliation.stopped_early_reason = None;
    status.reconciliation.backoff_until = None;
    status.daemon_state = if status.dry_run {
        String::from_str("dry-run-running")
    } else {
        String::from_str("running")
    };
    set_background_current_task(&mut status.realtime, reconciliation_task(mode, started_at, daytime_window_start));
    let mut notice: Vec<char> = Vec::new();
    push_str(&mut notice, mode.operator_label());
    push_str(&mut notice, " started");
    status.last_notice = Some(string_of(&notice));
    status.last_notice_at = Some(started_at);
}

/// The status once a pass in `mode` finished at `at` with `result` records
/// its result (and, for the last-24-hours pass, its window).
pub open spec fn with_pass_result(
    o: RealtimeRuntimeStatus,
    mode: ReconcileMode,
    at: i64,
    window_start: Option<i64>,
    result: String,
) -> RealtimeRuntimeStatus {
    match mode {
        ReconcileMode::CurrentDay => RealtimeRuntimeStatus {
            last_daytime_verification_at: Some(at),
            last_daytime_verification_window_start: window_start,
            last_daytime_verification_window_end: Some(at),
            last_daytime_verification_result: Some(result),
            ..o
        },
        ReconcileMode::Full => RealtimeRuntimeStatus {
            last_nightly_full_recheck_at: Some(at),
            last_nightly_full_recheck_result: Some(result),
            ..o
        },
    }
}

/// The sources a clean pass in `mode` settles.
pub open spec fn clean_pass_sources(mode: ReconcileMode) -> Seq<Seq<char>> {
    match mode {
        ReconcileMode::Full => seq!["last-24h-verification"@, "full-watched-set-recheck"@,
            "full-watched-set-freshness"@, "recovery"@, "stream"@, "polling"@],
        ReconcileMode::CurrentDay => seq!["last-24h-verification"@, "full-watched-set-recheck"@,
            "recovery"@, "stream"@, "polling"@],
    }
}

/// A pass stopped early for a reason that is not live work taking
/// precedence.
pub open spec fn reportable_stop(reason: Seq<char>) -> bool {
    reason != "yielding-to-live"@ && reason != "live-hide-unresolved"@
}

/// A clean pass may claim convergence: no catch-up, back-off, live
/// failure, incomplete recovery, failed scheduled verification, or issue
/// this pass does not settle stands.
pub open spec fn clean_pass_may_converge(s: RealtimeRuntimeStatus, mode: ReconcileMode, at: i64) -> bool {
    &&& !s.catchup_active
    &&& runtime_backoff(s, at) is None
    &&& !live_outcome_degraded(s)
    &&& !recovery_degraded(s)
    &&& !scheduled_verification_failed(s)
    &&& !(s.latest_actionable_issue matches Some(i) && !(mode == ReconcileMode::Full && i.source@
        == "full-watched-set-freshness"@) && blocking_issue_source(i.source@))
}

fn pass_result_recorded(
    status: &mut RuntimeStatus,
    mode: ReconcileMode,
    completed_at: i64,
    daytime_window_start: Option<i64>,
    last_result: &String,
    stopped_early_reason: &Option<String>,
    reconciliation_backoff_until: Option<i64>,
)
    ensures
        final(status).realtime == (RealtimeRuntimeStatus {
            current_task: final(status).realtime.current_task,
            ..with_pass_result(old(status).realtime, mode, completed_at, daytime_window_start, *last_result)
        }),
        task_blocks_background(old(status).realtime) ==> final(status).realtime.current_task
            == old(status).realtime.current_task,
        !task_blocks_background(old(status).realtime) ==> (final(status).realtime.current_task matches Some(t)
            && idle_waiting(t, completed_at)),
        final(status).reconciliation == (ReconciliationRuntimeStatus {
            active: false,
            phase: final(status).reconciliation.phase,
            current_title: None,
            last_completed_at: Some(completed_at),
            last_result: Some(*last_result),
            stopped_early_reason: *stopped_early_reason,
            backoff_until: reconciliation_backoff_until,
            ..old(status).reconciliation
        }),
        final(status).reconciliation.phase matches Some(p) && p@ == "idle"@,
        *final(status) == (RuntimeStatus {
            realtime: final(status).realtime,
            reconciliation: final(status).reconciliation,
            ..*old(status)
        }),
{
    status.reconciliation.active = false;
    status.reconciliation.phase = Some(String::from_str("idle"));
    status.reconciliation.current_title = None;
    status.reconciliation.last_completed_at = Some(completed_at);
    status.reconciliation.last_result = Some(last_result.clone());
    status.reconciliation.stopped_early_reason = match stopped_early_reason {
        Some(r) => Some(r.clone()),
        None => None,
    };
    status.reconciliation.backoff_until = reconciliation_backoff_until;
    set_background_current_task(&mut status.realtime, idle_task("waiting for watched-page edits", completed_at));
    match mode {
        ReconcileMode::CurrentDay => {
            status.realtime.last_daytime_verification_at = Some(completed_at);
            status.realtime.last_daytime_verification_window_start = daytime_window_start;
            status.realtime.last_daytime_verification_window_end = Some(completed_at);
            status.realtime.last_daytime_verification_result = Some(last_result.clone());
        },
        ReconcileMode::Full => {
            status.realtime.last_nightly_full_recheck_at = Some(completed_at);
            status.realtime.last_nightly_full_recheck_result = Some(last_result.clone());
        },
    }
}

/// Records that a pass in `mode` finished at `completed_at` with
/// `last_result`: a failed pass turns the daemon unhealthy with an issue, a
/// pass that stopped early shows why, and a clean pass converges the state
/// and settles the issues it covers.
#[verifier::spinoff_prover]
#[verifier::rlimit(100)]
pub fn apply_reconciliation_completed_status(
    status: &mut RuntimeStatus,
    mode: ReconcileMode,
    completed_at: i64,
    daytime_window_start: Option<i64>,
    last_result: String,
    notice: String,
    stopped_early_reason: Option<String>,
    reconciliation_backoff_until: Option<i64>,
)
    requires
        representable_time(completed_at),
        status_times_ok(old(status).realtime),
    ensures
        status_times_ok(final(status).realtime),
        ({
            let o = old(status).realtime;
            let f = final(status).realtime;
            let s = with_pass_result(o, mode, completed_at, daytime_window_start, last_result);
            let failed = "failed:"@.is_prefix_of(last_result@);
            let backoff = runtime_backoff(o, completed_at);
            &&& final(status).reconciliation == (ReconciliationRuntimeStatus {
                active: false,
                phase: final(status).reconciliation.phase,
                current_title: None,
                last_completed_at: Some(completed_at),
                last_result: Some(last_result),
                stopped_early_reason: stopped_early_reason,
                backoff_until: reconciliation_backoff_until,
                ..old(status).reconciliation
            })
            &&& (final(status).reconciliation.phase matches Some(p) && p@ == "idle"@)
            &&& if task_blocks_background(o) {
                f.current_task == o.current_task
            } else {
                f.current_task matches Some(t) && idle_waiting(t, completed_at)
            }
            &&& if failed {
                &&& f.state@ == "unhealthy"@ && f.last_state_changed_at == Some(completed_at)
                &&& opt_issue_text(f.latest_actionable_issue) == Some(verification_failure_issue(mode,
                    last_result@, completed_at))
            } else if stopped_early_reason is Some {
                let reason = stopped_early_reason->0@;
                let blocked = (o.latest_actionable_issue matches Some(i) && i.source@ == "live-hide"@)
                    || (o.latest_outcome matches Some(x) && x.mode@ == "live"@ && x.outcome@ == "blocked"@);
                &&& f.state@ == if blocked {
                    "blocked"@
                } else if backoff is Some {
                    "catching-up"@
                } else {
                    "unhealthy"@
                }
                &&& f.last_state_changed_at == Some(completed_at)
                &&& if reportable_stop(reason) {
                    opt_issue_text(f.latest_actionable_issue) == Some(stopped_early_issue(mode, reason,
                        completed_at, backoff))
                } else {
                    issue_restored(s, completed_at, f)
                }
            } else if clean_pass_may_converge(s, mode, completed_at) {
                let next = state_after_primary_poll(s, completed_at);
                &&& f.state@ == next && f.last_state_changed_at == Some(completed_at)
                &&& if next == "healthy"@ {
                    f.latest_actionable_issue == cleared_issue(o.latest_actionable_issue, clean_pass_sources(mode))
                } else if next == "unhealthy"@ || next == "blocked"@ {
                    issue_restored(s, completed_at, f)
                } else {
                    f.latest_actionable_issue == o.latest_actionable_issue
                }
            } else if (o.latest_actionable_issue matches Some(i) && blocking_issue_source(i.source@)) && (
            o.state@ == ""@ || o.state@ == "unknown"@ || o.state@ == "healthy"@) {
                &&& f.state@ == "unhealthy"@ && f.last_state_changed_at == Some(completed_at)
                &&& f.latest_actionable_issue == o.latest_actionable_issue
            } else {
                &&& f.state == o.state && f.last_state_changed_at == o.last_state_changed_at
                &&& f.latest_actionable_issue == o.latest_actionable_issue
            }
            &&& f == (RealtimeRuntimeStatus {
                state: f.state,
                last_state_changed_at: f.last_state_changed_at,
                latest_actionable_issue: f.latest_actionable_issue,
                current_task: f.current_task,
                ..s
            })
            &&& final(status).last_notice == Some(notice)
            &&& final(status).last_notice_at == Some(completed_at)
            &&& *final(status) == (RuntimeStatus {
                realtime: f,
                reconciliation: final(status).reconciliation,
                last_notice: final(status).last_notice,
                last_notice_at: final(status).last_notice_at,
                ..*old(status)
            })
        }),
{
    let ghost o = status.realtime;
    let ghost s = with_pass_result(o, mode, completed_at, daytime_window_start, last_result);
    let result_chars = chars_of(last_result.as_str());
    let failed_prefix = chars_of("failed:");
    let verification_failed = starts_with_chars(&result_chars, &failed_prefix);
    pass_result_recorded(status, mode, completed_at, daytime_window_start, &last_result, &stopped_early_reason,
        reconciliation_backoff_until);
    if verification_failed {
        status.realtime.state = String::from_str("unhealthy");
        status.realtime.last_state_changed_at = Some(completed_at);
        status.realtime.latest_actionable_issue = Some(verification_failure_issue_for_mode(mode,
            last_result.as_str(), completed_at));
    } else if let Some(reason) = &stopped_early_reason {
        let live_issue = match &status.realtime.latest_actionable_issue {
            Some(i) => str_eq(i.source.as_str(), "live-hide"),
            None => false,
        };
        let blocked_outcome = match &status.realtime.latest_outcome {
            Some(x) => str_eq(x.mode.as_str(), "live") && str_eq(x.outcome.as_str(), "blocked"),
            None => false,
        };
        let backoff = active_runtime_backoff_until(&status.realtime, completed_at);
        status.realtime.state = if live_issue || blocked_outcome {
            String::from_str("blocked")
        } else if backoff.is_some() {
            String::from_str("catching-up")
        } else {
            String::from_str("unhealthy")
        };
        status.realtime.last_state_changed_at = Some(completed_at);
        if !str_eq(reason.as_str(), "yielding-to-live") && !str_eq(reason.as_str(), "live-hide-unresolved") {
            status.realtime.latest_actionable_issue = Some(reconciliation_stopped_early_issue(mode,
                reason.as_str(), completed_at, backoff));
        } else {
            restore_persistent_issue(status, completed_at);
        }
    } else if !status.realtime.catchup_active && active_runtime_backoff_until(&status.realtime, completed_at).is_none()
        && !latest_live_outcome_is_degraded(&status.realtime) && !latest_recovery_summary_is_degraded(
        &status.realtime,
    ) && !has_scheduled_verification_failure(&status.realtime) && !latest_persistent_issue_is_degraded(
        &status.realtime,
        mode,
    ) {
        let next_state = converged_realtime_state_after_primary_poll(&status.realtime, completed_at);
        proof {
            assert(common_verdict(status.realtime, completed_at) == common_verdict(s, completed_at));
            assert(polling_fresh(status.realtime, completed_at) == polling_fresh(s, completed_at));
        }
        let healthy = str_eq(next_state.as_str(), "healthy");
        let troubled = str_eq(next_state.as_str(), "unhealthy") || str_eq(next_state.as_str(), "blocked");
        status.realtime.state = next_state;
        status.realtime.last_state_changed_at = Some(completed_at);
        if healthy {
            match mode {
                ReconcileMode::Full => {
                    clear_actionable_issue_if_source(&mut status.realtime, &["last-24h-verification",
                        "full-watched-set-recheck", "full-watched-set-freshness", "recovery", "stream", "polling"]);
                    assert(texts(["last-24h-verification", "full-watched-set-recheck", "full-watched-set-freshness",
                        "recovery", "stream", "polling"]@) =~= clean_pass_sources(mode));
                },
                ReconcileMode::CurrentDay => {
                    clear_actionable_issue_if_source(&mut status.realtime, &["last-24h-verification",
                        "full-watched-set-recheck", "recovery", "stream", "polling"]);
                    assert(texts(["last-24h-verification", "full-watched-set-recheck", "recovery", "stream",
                        "polling"]@) =~= clean_pass_sources(mode));
                },
            }
        } else if troubled {
            restore_persistent_issue(status, completed_at);
        }
    } else if latest_persistent_issue_blocks_stream_healthy(&status.realtime) && (str_eq(status.realtime.state.as_str(),
        "") || str_eq(status.realtime.state.as_str(), "unknown") || str_eq(status.realtime.state.as_str(), "healthy")) {
        status.realtime.state = String::from_str("unhealthy");
        status.realtime.last_state_changed_at = Some(completed_at);
    }
    status.last_notice = Some(notice);
    status.last_notice_at = Some(completed_at);
}

/// The instant a last-24-hours pass started at `started_at` checks from:
/// `window_hours` earlier; a full pass has no window.
pub fn daytime_window_start(mode: ReconcileMode, started_at: i64, window_hours: u64) -> (r: Option<i64>)
    requires
        representable_time(started_at),
        window_hours <= 1_000_000_000,
    ensures
        r == match mode {
            ReconcileMode::CurrentDay => Some((started_at - window_hours * 3600) as i64),
            ReconcileMode::Full => None::<i64>,
        },
{
    match mode {
        ReconcileMode::CurrentDay => Some(started_at - (window_hours as i64) * 3600),
        ReconcileMode::Full => None,
    }
}

/// How a pass ended, as the loop reports it.
#[derive(Clone, Debug)]
pub enum PassOutcome {
    /// The loop returned; it may have stopped early (and asked to wait).
    Finished { stopped_early_reason: Option<String>, backoff_until: Option<i64> },
    /// The loop failed: the error's full chain, and its top message.
    Failed { detail: String, message: String },
}

/// What a finished pass records.
#[derive(Clone, Debug)]
pub struct PassReport {
    pub last_result: String,
    pub notice: String,
    pub stopped_early_reason: Option<String>,
    pub backoff_until: Option<i64>,
    pub succeeded: bool,
}

/// The record a pass in `mode` that ended with `outcome` leaves: stopped
/// early with its reason (and back-off), completed, or failed.
pub open spec fn pass_report_is(r: PassReport, mode: ReconcileMode, outcome: PassOutcome) -> bool {
    match outcome {
        PassOutcome::Finished { stopped_early_reason: Some(reason), backoff_until } => {
            &&& r.last_result@ == "stopped-early: "@ + reason@
            &&& r.notice@ == operator_text(mode) + " stopped early: "@ + reason@
            &&& r.stopped_early_reason == Some(reason)
            &&& r.backoff_until == backoff_until
            &&& !r.succeeded
        },
        PassOutcome::Finished { stopped_early_reason: None, .. } => {
            &&& r.last_result@ == "completed"@
            &&& r.notice@ == operator_text(mode) + " completed"@
            &&& r.stopped_early_reason is None && r.backoff_until is None
            &&& r.succeeded
        },
        PassOutcome::Failed { detail, message } => {
            &&& r.last_result@ == "failed: "@ + detail@
            &&& r.notice@ == operator_text(mode) + " failed: "@ + message@
            &&& r.stopped_early_reason is None && r.backoff_until is None
            &&& !r.succeeded
        },
    }
}

fn joined3(a: &str, b: &str, c: &str) -> (r: String)
    ensures
        r@ == a@ + b@ + c@,
{
    let mut out: Vec<char> = Vec::new();
    push_str(&mut out, a);
    push_str(&mut out, b);
    push_str(&mut out, c);
    string_of(&out)
}

/// The record a pass in `mode` that ended with `outcome` leaves.
pub fn pass_report(mode: ReconcileMode, outcome: PassOutcome) -> (r: PassReport)
    ensures
        pass_report_is(r, mode, outcome),
{
    match outcome {
        PassOutcome::Finished { stopped_early_reason: Some(reason), backoff_until } => PassReport {
            last_result: crate::runtime::joined_text("stopped-early: ", reason.as_str()),
            notice: joined3(mode.operator_label(), " stopped early: ", reason.as_str()),
            stopped_early_reason: Some(reason),
            backoff_until,
            succeeded: false,
        },
        PassOutcome::Finished { stopped_early_reason: None, .. } => PassReport {
            last_result: String::from_str("completed"),
            notice: crate::runtime::joined_text(mode.operator_label(), " completed"),
            stopped_early_reason: None,
            backoff_until: None,
            succeeded: true,
        },
        PassOutcome::Failed { detail, message } => PassReport {
            last_result: crate::runtime::joined_text("failed: ", detail.as_str()),
            notice: joined3(mode.operator_label(), " failed: ", message.as_str()),
            stopped_early_reason: None,
            backoff_until: None,
            succeeded: false,
        },
    }
}

/// The error a pass in `mode` that stopped early returns.
pub fn stopped_early_error(mode: ReconcileMode) -> (r: &'static str)
    ensures
        r@ == match mode {
            ReconcileMode::CurrentDay => "last 24 hours verification stopped early"@,
            ReconcileMode::Full => "full watched-set recheck stopped early"@,
        },
{
    match mode {
        ReconcileMode::CurrentDay => "last 24 hours verification stopped early",
        ReconcileMode::Full => "full watched-set recheck stopped early",
    }
}

/// Starts the redirect phase of a pass over `total` listed titles.
pub fn begin_redirect_phase(status: &mut RuntimeStatus, total: usize)
    ensures
        (final(status).reconciliation.phase matches Some(p) && p@ == "resolving redirects"@),
        final(status).reconciliation == (ReconciliationRuntimeStatus {
            phase: final(status).reconciliation.phase,
            total_titles: total,
            completed_titles: 0,
            phase_total: total,
            phase_completed: 0,
            current_title: None,
            queued_mode: None,
            ..old(status).reconciliation
        }),
        *final(status) == (RuntimeStatus { reconciliation: final(status).reconciliation, ..*old(status) }),
{
    status.reconciliation.phase = Some(String::from_str("resolving redirects"));
    status.reconciliation.total_titles = total;
    status.reconciliation.completed_titles = 0;
    status.reconciliation.phase_total = total;
    status.reconciliation.phase_completed = 0;
    status.reconciliation.current_title = None;
    status.reconciliation.queued_mode = None;
}

/// Starts the page-check phase of a pass at `now`.
pub fn begin_page_check_phase(status: &mut RuntimeStatus, now: i64)
    ensures
        (final(status).reconciliation.phase matches Some(p) && p@ == "checking page revisions"@),
        final(status).reconciliation == (ReconciliationRuntimeStatus {
            phase: final(status).reconciliation.phase,
            phase_completed: 0,
            phase_total: old(status).reconciliation.total_titles,
            current_title: None,
            ..old(status).reconciliation
        }),
        (final(status).last_notice matches Some(n) && n@ == "redirect discovery finished; checking page revisions"@),
        final(status).last_notice_at == Some(now),
        *final(status) == (RuntimeStatus {
            reconciliation: final(status).reconciliation,
            last_notice: final(status).last_notice,
            last_notice_at: final(status).last_notice_at,
            ..*old(status)
        }),
{
    status.reconciliation.phase = Some(String::from_str("checking page revisions"));
    status.reconciliation.phase_completed = 0;
    status.reconciliation.phase_total = status.reconciliation.total_titles;
    status.reconciliation.current_title = None;
    status.last_notice = Some(String::from_str("redirect discovery finished; checking page revisions"));
    status.last_notice_at = Some(now);
}

/// Counts one more page checked.
pub fn page_check_done(status: &mut RuntimeStatus)
    requires
        old(status).reconciliation.completed_titles < usize::MAX,
        old(status).reconciliation.phase_completed < usize::MAX,
    ensures
        *final(status) == (RuntimeStatus {
            reconciliation: ReconciliationRuntimeStatus {
                completed_titles: (old(status).reconciliation.completed_titles + 1) as usize,
                phase_completed: (old(status).reconciliation.phase_completed + 1) as usize,
                ..old(status).reconciliation
            },
            ..*old(status)
        }),
{
    status.reconciliation.completed_titles = status.reconciliation.completed_titles + 1;
    status.reconciliation.phase_completed = status.reconciliation.phase_completed + 1;
}

/// The issue a failed page check of a pass in `mode` raises.
pub open spec fn page_failure_issue(mode: ReconcileMode, failure: ApiFailureSnapshot, at: i64) -> (Seq<char>, Seq<char>, Seq<char>, Seq<char>, Option<i64>) {
    (match mode {
        ReconcileMode::CurrentDay => "last-24h-verification"@,
        ReconcileMode::Full => "full-watched-set-recheck"@,
    }, "error"@, operator_text(mode) + " page check failed: "@ + failure.message@, match failure.retry_after_seconds {
        Some(secs) => "wait "@ + crate::text::decimal(secs as nat) + "s for backoff, then rerun scheduled verification"@,
        None => "inspect API/network state and rerun scheduled verification"@,
    }, Some(at))
}

/// Records a failed page check at `now`: its error, the back-off it asks
/// for (shared with the background paths), and an issue naming the pass.
pub fn record_reconciliation_failure_status(
    status: &mut RuntimeStatus,
    mode: ReconcileMode,
    failure: ApiFailureSnapshot,
    backoff_until: Option<i64>,
    now: i64,
)
    requires
        representable_time(now),
        backoff_until matches Some(u) ==> representable_time(u),
        status_times_ok(old(status).realtime),
    ensures
        status_times_ok(final(status).realtime),
        ({
            let o = old(status).realtime;
            let f = final(status).realtime;
            &&& f.latest_error_code == match failure.api_code {
                Some(c) => Some(c),
                None => Some(failure.class),
            }
            &&& f.latest_error == Some(failure)
            &&& match backoff_until {
                Some(u) => if u > now {
                    &&& f.backoff_until == Some(crate::health::kept_backoff(o, u, now))
                    &&& (f.shared_backoff matches Some(b) && crate::health::shared_snapshot_is(b, match mode {
                        ReconcileMode::CurrentDay => "last-24h-verification"@,
                        ReconcileMode::Full => "full-watched-set-recheck"@,
                    }, "reconciliation-rate-limit"@, crate::health::kept_backoff(o, u, now), now))
                } else {
                    f.backoff_until == o.backoff_until && f.shared_backoff == o.shared_backoff
                },
                None => f.backoff_until == o.backoff_until && f.shared_backoff == o.shared_backoff,
            }
            &&& opt_issue_text(f.latest_actionable_issue) == Some(page_failure_issue(mode, failure, now))
            &&& f == (RealtimeRuntimeStatus {
                latest_error_code: f.latest_error_code,
                latest_error: f.latest_error,
                backoff_until: f.backoff_until,
                shared_backoff: f.shared_backoff,
                latest_actionable_issue: f.latest_actionable_issue,
                ..o
            })
            &&& *final(status) == (RuntimeStatus { realtime: f, ..*old(status) })
        }),
{
    let source = crate::reconcile::reconciliation_issue_source(mode);
    let mut summary: Vec<char> = Vec::new();
    push_str(&mut summary, mode.operator_label());
    push_str(&mut summary, " page check failed: ");
    push_str(&mut summary, failure.message.as_str());
    let next_action = match failure.retry_after_seconds {
        Some(secs) => {
            let mut out: Vec<char> = Vec::new();
            push_str(&mut out, "wait ");
            crate::text::push_decimal(&mut out, secs);
            push_str(&mut out, "s for backoff, then rerun scheduled verification");
            string_of(&out)
        },
        None => String::from_str("inspect API/network state and rerun scheduled verification"),
    };
    status.realtime.latest_error_code = match &failure.api_code {
        Some(c) => Some(c.clone()),
        None => Some(failure.class.clone()),
    };
    status.realtime.latest_error = Some(failure);
    if let Some(until) = backoff_until {
        crate::health::set_shared_backoff(&mut status.realtime, source, "reconciliation-rate-limit", until, now);
    }
    status.realtime.latest_actionable_issue = Some(crate::runtime::make_issue(source, "error", string_of(&summary),
        next_action, now));
}

/// Records the coalesced page failures of a pass at `now`: they become the
/// latest warnings, and their total the recent warning count.
pub fn record_reconciliation_warning_summaries(status: &mut RuntimeStatus, warnings: Vec<WarningSummary>, now: i64)
    requires
        crate::recovery::warning_total(warnings@) <= usize::MAX,
    ensures
        final(status).realtime == (RealtimeRuntimeStatus { latest_recovery_warnings: warnings, ..old(status).realtime }),
        final(status).resource_economy matches Some(r) && r == (crate::runtime::ResourceEconomySnapshot {
            coalesced_warning_count_recent: crate::recovery::warning_total(warnings@) as usize,
            latest_measurement_at: Some(now),
            ..match old(status).resource_economy {
                Some(p) => p,
                None => crate::runtime::ResourceEconomySnapshot::default_spec(),
            }
        }),
        *final(status) == (RuntimeStatus {
            realtime: final(status).realtime,
            resource_economy: final(status).resource_economy,
            ..*old(status)
        }),
{
    let total = crate::recovery::total_warnings(&warnings);
    let prev = match &status.resource_economy {
        Some(r) => *r,
        None => crate::runtime::ResourceEconomySnapshot::default(),
    };
    status.realtime.latest_recovery_warnings = warnings;
    status.resource_economy = Some(crate::runtime::ResourceEconomySnapshot {
        coalesced_warning_count_recent: total,
        latest_measurement_at: Some(now),
        ..prev
    });
}

/// The error a pass in `mode` returns when page checks failed: how many,
/// and the top root cause (its API code, else its class).
pub open spec fn page_failures_message(mode: ReconcileMode, warnings: Seq<WarningSummary>) -> Seq<char> {
    operator_text(mode) + " failed for "@ + crate::text::decimal(crate::recovery::warning_total(warnings))
        + " page checks; top root cause: "@ + if warnings.len() > 0 {
        match warnings[0].api_code {
            Some(c) => c@,
            None => warnings[0].class@,
        }
    } else {
        "unknown"@
    }
}

/// The error a pass in `mode` returns when page checks failed.
pub fn page_failures_error(mode: ReconcileMode, warnings: &Vec<WarningSummary>) -> (r: String)
    requires
        crate::recovery::warning_total(warnings@) <= usize::MAX,
    ensures
        r@ == page_failures_message(mode, warnings@),
{
    let total = crate::recovery::total_warnings(warnings);
    let mut out: Vec<char> = Vec::new();
    push_str(&mut out, mode.operator_label());
    push_str(&mut out, " failed for ");
    crate::text::push_decimal(&mut out, total as u64);
    push_str(&mut out, " page checks; top root cause: ");
    if warnings.len() > 0 {
        match &warnings[0].api_code {
            Some(c) => push_str(&mut out, c.as_str()),
            None => push_str(&mut out, warnings[0].class.as_str()),
        }
    } else {
        push_str(&mut out, "unknown");
    }
    string_of(&out)
}


/// The status `new` once `old` recorded at `now` that a rerun in `queued`
/// waits behind the running pass: the queued mode and a notice.
pub open spec fn queued_rerun_recorded(old: RuntimeStatus, new: RuntimeStatus, queued: ReconcileMode, now: i64) -> bool {
    &&& (new.reconciliation.queued_mode matches Some(q) && q@ == mode_text(queued))
    &&& (new.last_notice matches Some(n) && n@ == "queued "@ + mode_text(queued) + " reconciliation rerun"@)
    &&& new.last_notice_at == Some(now)
    &&& new == (RuntimeStatus {
        reconciliation: ReconciliationRuntimeStatus { queued_mode: new.reconciliation.queued_mode, ..old.reconciliation },
        last_notice: new.last_notice,
        last_notice_at: new.last_notice_at,
        ..old
    })
}

/// Records at `now` that a rerun in `queued` waits behind the running pass.
pub fn record_queued_rerun(status: &mut RuntimeStatus, queued: ReconcileMode, now: i64)
    ensures
        queued_rerun_recorded(*old(status), *final(status), queued, now),
{
    status.reconciliation.queued_mode = Some(String::from_str(queued.label()));
    let mut notice: Vec<char> = Vec::new();
    push_str(&mut notice, "queued ");
    push_str(&mut notice, queued.label());
    push_str(&mut notice, " reconciliation rerun");
    status.last_notice = Some(string_of(&notice));
    status.last_notice_at = Some(now);
}


/// Shows the title a pass is on, and how many of its phase are done.
pub fn mark_current_title(status: &mut RuntimeStatus, title: String, phase_completed: Option<usize>)
    ensures
        *final(status) == (RuntimeStatus {
            reconciliation: ReconciliationRuntimeStatus {
                current_title: Some(title),
                phase_completed: match phase_completed {
                    Some(n) => n,
                    None => old(status).reconciliation.phase_completed,
                },
                ..old(status).reconciliation
            },
            ..*old(status)
        }),
{
    status.reconciliation.current_title = Some(title);
    if let Some(n) = phase_completed {
        status.reconciliation.phase_completed = n;
    }
}

} // verus!
