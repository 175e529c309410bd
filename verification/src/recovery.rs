//! How recoveries (catch-up runs) and reloads of the watched-page list move
//! the runtime status.

use vstd::prelude::*;

use crate::health::{
    common_verdict, converged_realtime_state_after_primary_poll, idle_task, kept_backoff,
    blocked_now, issue_blocks_health, latest_live_outcome_is_degraded, live_outcome_degraded,
    polling_fresh, recovery_notice, scheduled_verification_failed,
    render_recovery_notice, retain_runtime_backoff, retained_shared, runtime_backoff,
    set_background_current_task, set_shared_backoff, shared_snapshot_is, state_after_primary_poll,
    task_blocks_background, CurrentTaskSnapshot, RealtimeRuntimeStatus,
};
use crate::realtime::{
    cleared_issue, idle_waiting, noticed, offer_idle, set_notice, task_after_idle_offer,
};
use crate::runtime::{
    clear_actionable_issue_if_source, make_issue, opt_issue_text, restore_persistent_issue,
    restored_issue, status_times_ok, texts, ResourceEconomySnapshot, RuntimeStatus,
};
use crate::state::{
    copy_warnings, same_warnings, ApiFailureSnapshot, CoverageSummary, SourceListRefresh, WarningSummary,
};
use crate::text::{chars_of, copy_opt_string, decimal, ends_with_chars, push_decimal, push_str, str_eq, string_of};
use crate::time::{format_utc_clock, representable_time, utc_clock_text};

verus! {

/// The catch-up task over `[window_start, window_end]` labelled `label`.
pub open spec fn catchup_task_is(t: CurrentTaskSnapshot, label: Seq<char>, window_start: i64, window_end: i64, at: i64) -> bool {
    &&& t.task_kind@ == "catch-up"@
    &&& t.label@ == label
    &&& t.progress_done == Some(0usize) && t.progress_total is None
    &&& t.window_start == Some(window_start) && t.window_end == Some(window_end)
    &&& t.started_at == Some(at)
    &&& t.expected_resume_at is None
}

/// Records that a recovery over `[window_start, window_end]` started at
/// `now`: the daemon catches up, shows the catch-up task unless live work
/// is shown, and clears recovery and stream issues.
pub fn mark_recovery_started(
    status: &mut RuntimeStatus,
    trigger: String,
    scope_label: String,
    window_start: i64,
    window_end: i64,
    now: i64,
)
    ensures
        ({
            let o = old(status).realtime;
            let f = final(status).realtime;
            &&& f.state@ == "catching-up"@ && f.last_state_changed_at == Some(now)
            &&& f.catchup_active
            &&& f.last_recovery_trigger == Some(trigger)
            &&& f.last_recovery_started_at == Some(now)
            &&& if task_blocks_background(o) {
                f.current_task == o.current_task
            } else {
                f.current_task matches Some(t) && catchup_task_is(t, scope_label@, window_start, window_end, now)
            }
            &&& if o.latest_actionable_issue matches Some(i) && seq!["recovery"@, "stream"@].contains(i.source@) {
                f.latest_actionable_issue is None
            } else {
                f.latest_actionable_issue == o.latest_actionable_issue
            }
            &&& noticed(*final(status), scope_label@ + " catch-up started ("@ + trigger@ + ")"@, now)
            &&& f == (RealtimeRuntimeStatus {
                state: f.state,
                last_state_changed_at: f.last_state_changed_at,
                catchup_active: f.catchup_active,
                last_recovery_trigger: f.last_recovery_trigger,
                last_recovery_started_at: f.last_recovery_started_at,
                current_task: f.current_task,
                latest_actionable_issue: f.latest_actionable_issue,
                latest_notice: f.latest_notice,
                ..o
            })
            &&& *final(status) == (RuntimeStatus {
                realtime: f,
                last_notice: final(status).last_notice,
                last_notice_at: final(status).last_notice_at,
                ..*old(status)
            })
        }),
{
    let mut text: Vec<char> = Vec::new();
    push_str(&mut text, scope_label.as_str());
    push_str(&mut text, " catch-up started (");
    push_str(&mut text, trigger.as_str());
    push_str(&mut text, ")");
    status.realtime.state = String::from_str("catching-up");
    status.realtime.last_state_changed_at = Some(now);
    status.realtime.catchup_active = true;
    status.realtime.last_recovery_trigger = Some(trigger);
    status.realtime.last_recovery_started_at = Some(now);
    set_background_current_task(&mut status.realtime, CurrentTaskSnapshot {
        task_kind: String::from_str("catch-up"),
        label: scope_label,
        progress_done: Some(0),
        progress_total: None,
        window_start: Some(window_start),
        window_end: Some(window_end),
        started_at: Some(now),
        expected_resume_at: None,
    });
    clear_actionable_issue_if_source(&mut status.realtime, &["recovery", "stream"]);
    assert(texts(["recovery", "stream"]@) =~= seq!["recovery"@, "stream"@]);
    set_notice(status, string_of(&text), now);
}

/// The window a recovery ending at `end` covers by default.
#[derive(Clone, Debug, PartialEq, Eq)]
pub struct RecoveryWindowSelection {
    pub start: i64,
    pub scope_label: String,
    pub allow_large_window: bool,
}

/// The default recovery window ending at `end`: from the last successful
/// hide when there is one before `end` (and then it may be large), else the
/// configured recent window.
pub fn default_recovery_window(status: &RuntimeStatus, end: i64, default_window_seconds: i64) -> (r:
    RecoveryWindowSelection)
    requires
        representable_time(end),
        0 <= default_window_seconds <= 8_000_000_000_000,
    ensures
        (status.realtime.last_successful_hide_at matches Some(a) && a < end) ==> {
            &&& r.start == status.realtime.last_successful_hide_at->0
            &&& r.scope_label@ == "since last successful hide"@
            &&& r.allow_large_window
        },
        !(status.realtime.last_successful_hide_at matches Some(a) && a < end) ==> {
            &&& r.start == end - default_window_seconds
            &&& r.scope_label@ == "recent emergency window"@
            &&& !r.allow_large_window
        },
{
    if let Some(anchor) = status.realtime.last_successful_hide_at {
        if anchor < end {
            return RecoveryWindowSelection {
                start: anchor,
                scope_label: String::from_str("since last successful hide"),
                allow_large_window: true,
            };
        }
    }
    RecoveryWindowSelection {
        start: end - default_window_seconds,
        scope_label: String::from_str("recent emergency window"),
        allow_large_window: false,
    }
}

/// The notice a reload of the watched-page list leaves.
pub open spec fn refresh_notice(r: SourceListRefresh) -> Seq<char> {
    "source refresh "@ + r.outcome@ + " new="@ + decimal(r.new_titles_count as nat) + " removed="@
        + decimal(r.removed_titles_count as nat) + " catchup="@ + if r.catchup_triggered {
        "true"@
    } else {
        "false"@
    }
}

/// The back-off a deferred reload leaves: its deferral, when it has not
/// passed at `now`, kept over the one in force.
pub open spec fn refresh_backoff(o: RealtimeRuntimeStatus, r: SourceListRefresh, now: i64) -> Option<i64> {
    match r.deferred_until {
        Some(u) => if u > now {
            Some(kept_backoff(o, u, now))
        } else {
            None
        },
        None => None,
    }
}

/// The deferral task of a reload that waits for a back-off.
pub open spec fn deferral_task_is(t: CurrentTaskSnapshot, until: i64, at: i64) -> bool {
    &&& t.task_kind@ == "source-refresh-backoff"@
    &&& t.label@ == "watched-page reload deferred by backoff"@
    &&& t.progress_done is None && t.progress_total is None
    &&& t.window_start is None && t.window_end is None
    &&& t.started_at == Some(at)
    &&& t.expected_resume_at == Some(until)
}

fn usize_text(out: &mut Vec<char>, n: usize)
    ensures
        final(out)@ == old(out)@ + decimal(n as nat),
{
    push_decimal(out, n as u64);
}

/// Records a reload of the watched-page list: a deferral shares its
/// back-off and shows the deferral task, a failure turns the daemon
/// unhealthy with an issue, and an error is recorded.
#[verifier::spinoff_prover]
#[verifier::rlimit(60)]
pub fn record_source_refresh(status: &mut RuntimeStatus, refresh: SourceListRefresh, now: i64)
    requires
        representable_time(now),
        refresh.deferred_until matches Some(u) ==> representable_time(u),
        status_times_ok(old(status).realtime),
    ensures
        status_times_ok(final(status).realtime),
        ({
            let o = old(status).realtime;
            let f = final(status).realtime;
            let deferred = refresh_backoff(o, refresh, now);
            let failed = refresh.error is Some || "failed"@.is_suffix_of(refresh.outcome@);
            &&& match deferred {
                Some(u) => {
                    &&& f.backoff_until == Some(u)
                    &&& (f.shared_backoff matches Some(b) && shared_snapshot_is(b, "source-refresh"@,
                        "source-refresh-deferred"@, u, now))
                    &&& f.state@ == "catching-up"@ && f.last_state_changed_at == Some(now)
                    &&& f.latest_actionable_issue == o.latest_actionable_issue
                    &&& if task_blocks_background(o) {
                        f.current_task == o.current_task
                    } else {
                        f.current_task matches Some(t) && deferral_task_is(t, u, now)
                    }
                },
                None => {
                    &&& f.backoff_until == o.backoff_until && f.shared_backoff == o.shared_backoff
                    &&& if failed {
                        &&& f.state@ == "unhealthy"@ && f.last_state_changed_at == Some(now)
                        &&& opt_issue_text(f.latest_actionable_issue) == Some(("source-refresh"@, "error"@,
                            "watched-page reload failed"@,
                            "check the latest reload log and rerun reload watched pages"@, Some(now)))
                    } else {
                        &&& f.state == o.state && f.last_state_changed_at == o.last_state_changed_at
                        &&& f.latest_actionable_issue == o.latest_actionable_issue
                    }
                    &&& task_after_idle_offer(o, !old(status).reconciliation.active && !o.catchup_active,
                        now, f.current_task)
                },
            }
            &&& match refresh.error {
                Some(e) => {
                    &&& f.latest_error_code == match e.api_code {
                        Some(c) => Some(c),
                        None => Some(e.class),
                    }
                    &&& f.latest_error == Some(e)
                },
                None => f.latest_error_code == o.latest_error_code && f.latest_error == o.latest_error,
            }
            &&& f.last_source_refresh == Some(refresh)
            &&& noticed(*final(status), refresh_notice(refresh), now)
            &&& f == (RealtimeRuntimeStatus {
                backoff_until: f.backoff_until,
                shared_backoff: f.shared_backoff,
                state: f.state,
                last_state_changed_at: f.last_state_changed_at,
                latest_actionable_issue: f.latest_actionable_issue,
                current_task: f.current_task,
                latest_error_code: f.latest_error_code,
                latest_error: f.latest_error,
                last_source_refresh: f.last_source_refresh,
                latest_notice: f.latest_notice,
                ..o
            })
            &&& *final(status) == (RuntimeStatus {
                realtime: f,
                last_notice: final(status).last_notice,
                last_notice_at: final(status).last_notice_at,
                ..*old(status)
            })
        }),
{
    let deferred = match refresh.deferred_until {
        Some(u) => set_shared_backoff(&mut status.realtime, "source-refresh", "source-refresh-deferred", u, now),
        None => None,
    };
    let mut text: Vec<char> = Vec::new();
    push_str(&mut text, "source refresh ");
    push_str(&mut text, refresh.outcome.as_str());
    push_str(&mut text, " new=");
    usize_text(&mut text, refresh.new_titles_count);
    push_str(&mut text, " removed=");
    usize_text(&mut text, refresh.removed_titles_count);
    push_str(&mut text, " catchup=");
    if refresh.catchup_triggered {
        push_str(&mut text, "true");
    } else {
        push_str(&mut text, "false");
    }
    let outcome_chars = chars_of(refresh.outcome.as_str());
    let failed_suffix = chars_of("failed");
    let failed = refresh.error.is_some() || ends_with_chars(&outcome_chars, &failed_suffix);
    match deferred {
        Some(u) => {
            status.realtime.state = String::from_str("catching-up");
            status.realtime.last_state_changed_at = Some(now);
            set_background_current_task(&mut status.realtime, CurrentTaskSnapshot {
                task_kind: String::from_str("source-refresh-backoff"),
                label: String::from_str("watched-page reload deferred by backoff"),
                progress_done: None,
                progress_total: None,
                window_start: None,
                window_end: None,
                started_at: Some(now),
                expected_resume_at: Some(u),
            });
        },
        None => {
            if failed {
                status.realtime.state = String::from_str("unhealthy");
                status.realtime.last_state_changed_at = Some(now);
                status.realtime.latest_actionable_issue = Some(make_issue("source-refresh", "error",
                    String::from_str("watched-page reload failed"),
                    String::from_str("check the latest reload log and rerun reload watched pages"), now));
            }
        },
    }
    if let Some(e) = &refresh.error {
        status.realtime.latest_error_code = match &e.api_code {
            Some(c) => Some(c.clone()),
            None => Some(e.class.clone()),
        };
        status.realtime.latest_error = Some(e.copy());
    }
    let offer = deferred.is_none() && !status.reconciliation.active && !status.realtime.catchup_active;
    offer_idle(status, offer, now);
    status.realtime.last_source_refresh = Some(refresh);
    set_notice(status, string_of(&text), now);
}

/// The back-off a finished recovery leaves: its own, when it has not
/// passed at `now`, kept over the one in force; else the one in force.
pub open spec fn recovery_backoff(o: RealtimeRuntimeStatus, summary: CoverageSummary, now: i64) -> Option<i64> {
    match summary.backoff_until {
        Some(u) => if u > now {
            Some(kept_backoff(o, u, now))
        } else {
            runtime_backoff(o, now)
        },
        None => runtime_backoff(o, now),
    }
}

/// A recovery asked by a failed live hide that left nothing unresolved and
/// hid the revision settles that failure.
pub open spec fn clears_live_failure(o: RealtimeRuntimeStatus, summary: CoverageSummary) -> bool {
    &&& summary.requested_by@ == "live-failure"@
    &&& summary.unresolved_count == 0
    &&& (summary.hidden_count > 0 || summary.already_hidden_count > 0)
    &&& live_outcome_degraded(o)
}

/// The status a finished recovery starts from: the catch-up is over, and a
/// settled live failure is gone with its issue.
pub open spec fn recovery_base(o: RealtimeRuntimeStatus, summary: CoverageSummary) -> RealtimeRuntimeStatus {
    let clears = clears_live_failure(o, summary);
    RealtimeRuntimeStatus {
        catchup_active: false,
        latest_outcome: if clears {
            None
        } else {
            o.latest_outcome
        },
        latest_actionable_issue: if clears {
            cleared_issue(o.latest_actionable_issue, seq!["live-hide"@])
        } else {
            o.latest_actionable_issue
        },
        ..o
    }
}

/// The state a finished recovery leaves: catching up under a back-off,
/// unhealthy with revisions unresolved, else as after a primary poll.
pub open spec fn recovery_state(o: RealtimeRuntimeStatus, summary: CoverageSummary, now: i64) -> Seq<char> {
    if recovery_backoff(o, summary, now) is Some {
        "catching-up"@
    } else if summary.unresolved_count == 0 {
        state_after_primary_poll(recovery_base(o, summary), now)
    } else {
        "unhealthy"@
    }
}

/// The back-off task of a recovery that waits until `until`.
pub open spec fn backoff_task_is(t: CurrentTaskSnapshot, summary: CoverageSummary, until: i64, at: i64) -> bool {
    &&& t.task_kind@ == "backoff"@
    &&& t.label@ == "waiting for backoff to expire"@
    &&& t.progress_done is None && t.progress_total is None
    &&& t.window_start == summary.started_at && t.window_end == summary.ended_at
    &&& t.started_at == Some(at)
    &&& t.expected_resume_at == Some(until)
}

/// The error the first warning of a recovery shows, at `at`.
pub open spec fn warning_error_is(e: ApiFailureSnapshot, w: WarningSummary, at: i64) -> bool {
    &&& e.class == w.class && e.api_code == w.api_code && e.http_status == w.http_status
    &&& e.content_type == w.content_type && e.retryable == w.retryable
    &&& e.retry_after_seconds == w.retry_after_seconds && e.operation == w.operation
    &&& e.sample_title is None && e.sample_revid is None
    &&& e.message == w.message && e.occurred_at == Some(at)
}

/// The scope a recovery names in its summary.
pub open spec fn scope_text(summary: CoverageSummary) -> Seq<char> {
    match summary.scope_label {
        Some(s) => s@,
        None => "recovery"@,
    }
}

/// The issue a finished recovery leaves, once its state is `state`: the
/// back-off to wait for, the unresolved revisions, none when healthy, else
/// the standing trouble raised again (`None` then keeps the issue).
pub open spec fn recovery_issue(o: RealtimeRuntimeStatus, summary: CoverageSummary, now: i64) -> Option<
    Option<(Seq<char>, Seq<char>, Seq<char>, Seq<char>, Option<i64>)>,
> {
    match recovery_backoff(o, summary, now) {
        Some(u) => Some(Some(("recovery"@, "warning"@, recovery_notice(summary),
            "wait for recovery backoff until "@ + utc_clock_text(u), Some(now)))),
        None => if summary.unresolved_count > 0 {
            Some(Some(("recovery"@, "error"@, decimal(summary.unresolved_count as nat)
                + " unresolved revisions remain after "@ + scope_text(summary),
                "review the unresolved revision link and rerun recovery"@, Some(now))))
        } else if recovery_state(o, summary, now) == "healthy"@ {
            Some(None)
        } else {
            match restored_issue(recovery_base(o, summary), now) {
                Some(v) => Some(Some(v)),
                None => None,
            }
        },
    }
}

/// The sum of the counts of `ws`.
pub open spec fn warning_total(ws: Seq<WarningSummary>) -> nat
    decreases ws.len(),
{
    if ws.len() == 0 {
        0
    } else {
        warning_total(ws.drop_last()) + ws.last().count as nat
    }
}

/// The load peaks after `count` coalesced warnings are recorded at `now`.
pub open spec fn economy_after_warnings(
    prev: Option<ResourceEconomySnapshot>,
    o: RealtimeRuntimeStatus,
    count: nat,
    now: i64,
    new: ResourceEconomySnapshot,
) -> bool {
    let p = match prev {
        Some(r) => r,
        None => ResourceEconomySnapshot::default_spec(),
    };
    &&& new.queue_depth_max_recent == if p.queue_depth_max_recent >= o.queue_depth {
        p.queue_depth_max_recent
    } else {
        o.queue_depth
    }
    &&& new.live_queue_depth_max_recent == if p.live_queue_depth_max_recent >= o.live_lane.queue_depth {
        p.live_queue_depth_max_recent
    } else {
        o.live_lane.queue_depth
    }
    &&& new.background_queue_depth_max_recent == if p.background_queue_depth_max_recent
        >= o.background_lane.queue_depth {
        p.background_queue_depth_max_recent
    } else {
        o.background_lane.queue_depth
    }
    &&& new.api_concurrency_max_recent == p.api_concurrency_max_recent
    &&& new.coalesced_warning_count_recent == count
    &&& new.latest_measurement_at == Some(now)
}

pub(crate) fn total_warnings(ws: &Vec<WarningSummary>) -> (r: usize)
    requires
        warning_total(ws@) <= usize::MAX,
    ensures
        r == warning_total(ws@),
{
    let mut total: usize = 0;
    let mut i: usize = 0;
    while i < ws.len()
        invariant
            i <= ws@.len(),
            total == warning_total(ws@.take(i as int)),
            warning_total(ws@) <= usize::MAX,
        decreases ws@.len() - i,
    {
        proof {
            assert(ws@.take(i as int + 1).drop_last() =~= ws@.take(i as int));
            lemma_warning_total_prefix(ws@, i as int + 1);
        }
        total = total + ws[i].count;
        i = i + 1;
    }
    assert(ws@.take(ws@.len() as int) =~= ws@);
    total
}

proof fn lemma_warning_total_prefix(ws: Seq<WarningSummary>, k: int)
    requires
        0 <= k <= ws.len(),
    ensures
        warning_total(ws.take(k)) <= warning_total(ws),
    decreases ws.len(),
{
    if k < ws.len() {
        assert(ws.drop_last().take(k) =~= ws.take(k));
        lemma_warning_total_prefix(ws.drop_last(), k);
    } else {
        assert(ws.take(k) =~= ws);
    }
}

fn max_usize(a: usize, b: usize) -> (r: usize)
    ensures
        r == if a >= b {
            a
        } else {
            b
        },
{
    if a >= b {
        a
    } else {
        b
    }
}

fn begin_recovery_completion(status: &mut RuntimeStatus, summary: &CoverageSummary, now: i64) -> (r: Option<i64>)
    requires
        representable_time(now),
        summary.backoff_until matches Some(u) ==> representable_time(u),
        status_times_ok(old(status).realtime),
    ensures
        r == recovery_backoff(old(status).realtime, *summary, now),
        final(status).realtime == (RealtimeRuntimeStatus {
            backoff_until: final(status).realtime.backoff_until,
            shared_backoff: final(status).realtime.shared_backoff,
            ..recovery_base(old(status).realtime, *summary)
        }),
        final(status).realtime.backoff_until == r,
        runtime_backoff(final(status).realtime, now) == r,
        match summary.backoff_until {
            Some(u) => if u > now {
                final(status).realtime.shared_backoff matches Some(b) && shared_snapshot_is(b,
                    "recovery"@, "rate-limit-backoff"@, kept_backoff(old(status).realtime, u, now), now)
            } else {
                retained_shared(old(status).realtime.shared_backoff, r, now,
                    final(status).realtime.shared_backoff)
            },
            None => retained_shared(old(status).realtime.shared_backoff, r, now,
                final(status).realtime.shared_backoff),
        },
        status_times_ok(final(status).realtime),
        *final(status) == (RuntimeStatus { realtime: final(status).realtime, ..*old(status) }),
{
    let asked = match summary.backoff_until {
        Some(u) => set_shared_backoff(&mut status.realtime, "recovery", "rate-limit-backoff", u, now),
        None => None,
    };
    let backoff = match asked {
        Some(u) => Some(u),
        None => retain_runtime_backoff(&mut status.realtime, now),
    };
    proof {
        if asked is Some {
            assert(runtime_backoff(status.realtime, now) == backoff);
        }
    }
    status.realtime.catchup_active = false;
    let hid = summary.hidden_count > 0 || summary.already_hidden_count > 0;
    let clears = str_eq(summary.requested_by.as_str(), "live-failure") && summary.unresolved_count == 0 && hid
        && latest_live_outcome_is_degraded(&status.realtime);
    if clears {
        status.realtime.latest_outcome = None;
        clear_actionable_issue_if_source(&mut status.realtime, &["live-hide"]);
        assert(texts(["live-hide"]@) =~= seq!["live-hide"@]);
    }
    backoff
}

/// Records that a recovery finished at `now` with `summary`: its back-off
/// is shared, a settled live failure is cleared, the state converges (or
/// turns unhealthy with revisions unresolved), the issue, task, error and
/// notices say what remains, and the offline interval ends.
#[verifier::spinoff_prover]
#[verifier::rlimit(100)]
pub fn mark_recovery_completed(status: &mut RuntimeStatus, summary: CoverageSummary, now: i64)
    requires
        representable_time(now),
        summary.backoff_until matches Some(u) ==> representable_time(u),
        status_times_ok(old(status).realtime),
        warning_total(summary.warning_summaries@) <= usize::MAX,
    ensures
        ({
            let o = old(status).realtime;
            let f = final(status).realtime;
            let base = recovery_base(o, summary);
            let backoff = recovery_backoff(o, summary, now);
            let next = recovery_state(o, summary, now);
            let ws = summary.warning_summaries@;
            &&& f.backoff_until == backoff
            &&& !f.catchup_active
            &&& f.latest_outcome == base.latest_outcome
            &&& f.state@ == next && f.last_state_changed_at == Some(now)
            &&& f.last_recovery_completed_at == Some(now)
            &&& if task_blocks_background(o) {
                f.current_task == o.current_task
            } else {
                match backoff {
                    Some(u) => f.current_task matches Some(t) && backoff_task_is(t, summary, u, now),
                    None => f.current_task matches Some(t) && idle_waiting(t, now),
                }
            }
            &&& noticed(*final(status), recovery_notice(summary), now)
            &&& if ws.len() > 0 {
                &&& f.latest_error_code == match ws[0].api_code {
                    Some(c) => Some(c),
                    None => Some(ws[0].class),
                }
                &&& (f.latest_error matches Some(e) && warning_error_is(e, ws[0], now))
            } else if backoff is None && summary.unresolved_count == 0 && next == "healthy"@ {
                f.latest_error_code is None && f.latest_error is None
            } else {
                f.latest_error_code == o.latest_error_code && f.latest_error == o.latest_error
            }
            &&& match recovery_issue(o, summary, now) {
                Some(v) => opt_issue_text(f.latest_actionable_issue) == v,
                None => f.latest_actionable_issue == base.latest_actionable_issue,
            }
            &&& if warning_total(ws) > 0 {
                final(status).resource_economy matches Some(r) && economy_after_warnings(
                    old(status).resource_economy, o, warning_total(ws), now, r)
            } else {
                final(status).resource_economy == old(status).resource_economy
            }
            &&& same_warnings(f.latest_recovery_warnings@, ws)
            &&& f.latest_recovery_summary == Some(summary)
            &&& f.last_offline_recovered_at == Some(now)
            &&& f == (RealtimeRuntimeStatus {
                backoff_until: f.backoff_until,
                shared_backoff: f.shared_backoff,
                catchup_active: f.catchup_active,
                latest_outcome: f.latest_outcome,
                state: f.state,
                last_state_changed_at: f.last_state_changed_at,
                last_recovery_completed_at: f.last_recovery_completed_at,
                current_task: f.current_task,
                latest_notice: f.latest_notice,
                latest_error_code: f.latest_error_code,
                latest_error: f.latest_error,
                latest_actionable_issue: f.latest_actionable_issue,
                latest_recovery_warnings: f.latest_recovery_warnings,
                latest_recovery_summary: f.latest_recovery_summary,
                last_offline_recovered_at: f.last_offline_recovered_at,
                ..o
            })
            &&& *final(status) == (RuntimeStatus {
                realtime: f,
                last_notice: final(status).last_notice,
                last_notice_at: final(status).last_notice_at,
                resource_economy: final(status).resource_economy,
                ..*old(status)
            })
        }),
{
    let ghost o = status.realtime;
    let backoff = begin_recovery_completion(status, &summary, now);
    let notice = render_recovery_notice(&summary);
    let next_state = if backoff.is_some() {
        String::from_str("catching-up")
    } else if summary.unresolved_count == 0 {
        converged_realtime_state_after_primary_poll(&status.realtime, now)
    } else {
        String::from_str("unhealthy")
    };
    proof {
        let base = recovery_base(o, summary);
        if backoff is None {
            assert(runtime_backoff(base, now) is None);
            assert(common_verdict(status.realtime, now) == common_verdict(base, now));
            assert(polling_fresh(status.realtime, now) == polling_fresh(base, now));
        }
    }
    let healthy = str_eq(next_state.as_str(), "healthy");
    status.realtime.state = next_state;
    status.realtime.last_state_changed_at = Some(now);
    status.realtime.last_recovery_completed_at = Some(now);
    match backoff {
        Some(until) => {
            set_background_current_task(&mut status.realtime, CurrentTaskSnapshot {
                task_kind: String::from_str("backoff"),
                label: String::from_str("waiting for backoff to expire"),
                progress_done: None,
                progress_total: None,
                window_start: summary.started_at,
                window_end: summary.ended_at,
                started_at: Some(now),
                expected_resume_at: Some(until),
            });
        },
        None => {
            set_background_current_task(&mut status.realtime, idle_task("waiting for watched-page edits", now));
        },
    }
    set_notice(status, notice, now);
    if summary.warning_summaries.len() > 0 {
        let w = &summary.warning_summaries[0];
        status.realtime.latest_error_code = match &w.api_code {
            Some(c) => Some(c.clone()),
            None => Some(w.class.clone()),
        };
        status.realtime.latest_error = Some(ApiFailureSnapshot {
            class: w.class.clone(),
            api_code: copy_opt_string(&w.api_code),
            http_status: w.http_status,
            content_type: copy_opt_string(&w.content_type),
            retryable: w.retryable,
            retry_after_seconds: w.retry_after_seconds,
            operation: w.operation.clone(),
            sample_title: None,
            sample_revid: None,
            message: w.message.clone(),
            occurred_at: Some(now),
        });
    } else if backoff.is_none() && summary.unresolved_count == 0 && healthy {
        status.realtime.latest_error_code = None;
        status.realtime.latest_error = None;
    }
    match backoff {
        Some(until) => {
            let mut next_action: Vec<char> = Vec::new();
            push_str(&mut next_action, "wait for recovery backoff until ");
            let clock = format_utc_clock(until);
            push_str(&mut next_action, clock.as_str());
            status.realtime.latest_actionable_issue = Some(make_issue("recovery", "warning",
                render_recovery_notice(&summary), string_of(&next_action), now));
        },
        None => {
            if summary.unresolved_count > 0 {
                let mut text: Vec<char> = Vec::new();
                usize_text(&mut text, summary.unresolved_count);
                push_str(&mut text, " unresolved revisions remain after ");
                match &summary.scope_label {
                    Some(s) => push_str(&mut text, s.as_str()),
                    None => push_str(&mut text, "recovery"),
                }
                status.realtime.latest_actionable_issue = Some(make_issue("recovery", "error",
                    string_of(&text), String::from_str("review the unresolved revision link and rerun recovery"),
                    now));
            } else if healthy {
                status.realtime.latest_actionable_issue = None;
            } else {
                restore_persistent_issue(status, now);
            }
        },
    }
    let warning_count = total_warnings(&summary.warning_summaries);
    if warning_count > 0 {
        let prev = match &status.resource_economy {
            Some(r) => r.clone(),
            None => ResourceEconomySnapshot::default(),
        };
        status.resource_economy = Some(ResourceEconomySnapshot {
            queue_depth_max_recent: max_usize(prev.queue_depth_max_recent, status.realtime.queue_depth),
            live_queue_depth_max_recent: max_usize(prev.live_queue_depth_max_recent,
                status.realtime.live_lane.queue_depth),
            background_queue_depth_max_recent: max_usize(prev.background_queue_depth_max_recent,
                status.realtime.background_lane.queue_depth),
            api_concurrency_max_recent: prev.api_concurrency_max_recent,
            coalesced_warning_count_recent: warning_count,
            latest_measurement_at: Some(now),
        });
    }
    status.realtime.latest_recovery_warnings = copy_warnings(&summary.warning_summaries);
    status.realtime.latest_recovery_summary = Some(summary);
    status.realtime.last_offline_recovered_at = Some(now);
}

/// A recovery that left revisions unresolved never reports healthy: the
/// daemon catches up under a back-off, else it is unhealthy.
pub proof fn unresolved_recovery_is_never_healthy(o: RealtimeRuntimeStatus, summary: CoverageSummary, now: i64)
    requires
        summary.unresolved_count > 0,
    ensures
        recovery_state(o, summary, now) == (if recovery_backoff(o, summary, now) is Some {
            "catching-up"@
        } else {
            "unhealthy"@
        }),
        recovery_state(o, summary, now) != "healthy"@,
{
    reveal_strlit("healthy");
    reveal_strlit("unhealthy");
    reveal_strlit("catching-up");
    assert("healthy"@[0] != "unhealthy"@[0]);
    assert("healthy"@[0] != "catching-up"@[0]);
}

/// A recovery that reports healthy left nothing standing: no back-off,
/// nothing unresolved, no live failure, failed verification or blocking
/// issue, and polling is fresh.
pub proof fn healthy_recovery_leaves_no_trouble(o: RealtimeRuntimeStatus, summary: CoverageSummary, now: i64)
    requires
        recovery_state(o, summary, now) == "healthy"@,
    ensures
        recovery_backoff(o, summary, now) is None,
        summary.unresolved_count == 0,
        !live_outcome_degraded(recovery_base(o, summary)),
        !scheduled_verification_failed(o),
        !issue_blocks_health(recovery_base(o, summary)),
        !blocked_now(recovery_base(o, summary)),
        polling_fresh(o, now),
{
    crate::health::healthy_means_no_outstanding_trouble(recovery_base(o, summary), now);
    reveal_strlit("healthy");
    reveal_strlit("unhealthy");
    reveal_strlit("catching-up");
    assert("healthy"@[0] != "unhealthy"@[0]);
    assert("healthy"@[0] != "catching-up"@[0]);
    reveal_strlit("stale");
    reveal_strlit("starting");
    assert("healthy"@[0] != "stale"@[0]);
    assert("healthy"@[0] != "starting"@[0]);
}

} // verus!
