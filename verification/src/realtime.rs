//! How the stream and the polling path move the runtime status: the stream
//! opening, events, freshness probes, polls, quiet periods, reconnects and
//! gaps.

use vstd::prelude::*;

use crate::health::{
    converged_realtime_state_after_stream_event, converged_realtime_state_after_stream_open,
    end_offline_interval_if_active, idle_task, state_after_stream_event,
    offline_now, retain_runtime_backoff, retained_shared, runtime_backoff,
    set_background_current_task, state_after_stream_open, task_blocks_background,
    converged_realtime_state_after_primary_poll, common_verdict, ActionableIssueSnapshot,
    begin_offline_interval_if_needed, kept_backoff, set_shared_backoff, shared_snapshot_is,
    actionable_issue_blocks_stream_healthy, api_failure_next_action, blocking_issue_source,
    failure_next_action, is_gap_recovery_trigger, blocked_now, live_outcome_degraded,
    recovery_degraded, scheduled_verification_failed,
    CurrentTaskSnapshot, RealtimeRuntimeStatus,
};
use crate::state::ApiFailureSnapshot;
use crate::runtime::{joined_text, make_issue, 
    clear_actionable_issue_if_source, texts, opt_issue_text, restore_persistent_issue,
    restored_issue, status_times_ok, RuntimeStatus,
};
use crate::text::{chars_of, decimal, push_decimal, push_str, str_eq, string_of};
use crate::time::{format_utc_clock, representable_time, utc_clock_text};

verus! {

/// The idle task shown while the daemon waits for watched-page edits.
pub open spec fn idle_waiting(t: CurrentTaskSnapshot, at: i64) -> bool {
    &&& t.task_kind@ == "idle"@
    &&& t.label@ == "waiting for watched-page edits"@
    &&& t.progress_done is None && t.progress_total is None
    &&& t.window_start is None && t.window_end is None
    &&& t.started_at == Some(at)
    &&& t.expected_resume_at is None
}

/// The current task after the idle task is offered at `at` when `offer`
/// holds: live work shown stays shown.
pub open spec fn task_after_idle_offer(
    old: RealtimeRuntimeStatus,
    offer: bool,
    at: i64,
    new: Option<CurrentTaskSnapshot>,
) -> bool {
    if offer && !task_blocks_background(old) {
        new matches Some(t) && idle_waiting(t, at)
    } else {
        new == old.current_task
    }
}

/// The state moves to `next` at `now`; the time of the last change moves
/// only when the state does.
pub open spec fn state_moved(old: RealtimeRuntimeStatus, next: Seq<char>, now: i64, new: RealtimeRuntimeStatus) -> bool {
    if old.state@ == next {
        new.state == old.state && new.last_state_changed_at == old.last_state_changed_at
    } else {
        new.state@ == next && new.last_state_changed_at == Some(now)
    }
}

/// Both notices read `notice`, noted at `now`.
pub open spec fn noticed(new: RuntimeStatus, notice: Seq<char>, now: i64) -> bool {
    &&& new.realtime.latest_notice matches Some(n) && n@ == notice
    &&& new.last_notice == new.realtime.latest_notice
    &&& new.last_notice_at == Some(now)
}

/// The issue after those from `sources` are cleared.
pub open spec fn issue_cleared(
    old: RealtimeRuntimeStatus,
    sources: Seq<Seq<char>>,
    new: RealtimeRuntimeStatus,
) -> bool {
    if old.latest_actionable_issue matches Some(i) && sources.contains(i.source@) {
        new.latest_actionable_issue is None
    } else {
        new.latest_actionable_issue == old.latest_actionable_issue
    }
}

/// The issue after the standing trouble raises its issue again.
pub open spec fn issue_restored(old: RealtimeRuntimeStatus, at: i64, new: RealtimeRuntimeStatus) -> bool {
    match restored_issue(old, at) {
        Some(v) => opt_issue_text(new.latest_actionable_issue) == Some(v),
        None => new.latest_actionable_issue == old.latest_actionable_issue,
    }
}

pub(crate) fn set_notice(status: &mut RuntimeStatus, notice: String, now: i64)
    ensures
        final(status).realtime == (RealtimeRuntimeStatus {
            latest_notice: Some(notice),
            ..old(status).realtime
        }),
        *final(status) == (RuntimeStatus {
            realtime: final(status).realtime,
            last_notice: Some(notice),
            last_notice_at: Some(now),
            ..*old(status)
        }),
{
    status.realtime.latest_notice = Some(notice.clone());
    status.last_notice = Some(notice);
    status.last_notice_at = Some(now);
}

pub(crate) fn move_state(status: &mut RealtimeRuntimeStatus, next: &str, now: i64)
    ensures
        state_moved(*old(status), next@, now, *final(status)),
        *final(status) == (RealtimeRuntimeStatus {
            state: final(status).state,
            last_state_changed_at: final(status).last_state_changed_at,
            ..*old(status)
        }),
{
    if !str_eq(status.state.as_str(), next) {
        status.state = String::from_str(next);
        status.last_state_changed_at = Some(now);
    }
}

pub(crate) fn offer_idle(status: &mut RuntimeStatus, offer: bool, now: i64)
    ensures
        task_after_idle_offer(old(status).realtime, offer, now, final(status).realtime.current_task),
        final(status).realtime == (RealtimeRuntimeStatus {
            current_task: final(status).realtime.current_task,
            ..old(status).realtime
        }),
        *final(status) == (RuntimeStatus { realtime: final(status).realtime, ..*old(status) }),
{
    if offer {
        set_background_current_task(&mut status.realtime, idle_task("waiting for watched-page edits", now));
    }
}

/// The open offline interval, if any, closes at `now`.
pub open spec fn offline_closed(old: RealtimeRuntimeStatus, now: i64, new: RealtimeRuntimeStatus) -> bool {
    new.last_offline_recovered_at == if offline_now(old) {
        Some(now)
    } else {
        old.last_offline_recovered_at
    }
}

/// An offline interval opens at `now` unless one is open.
pub open spec fn offline_opened(old: RealtimeRuntimeStatus, now: i64, new: RealtimeRuntimeStatus) -> bool {
    new.last_offline_started_at == if offline_now(old) {
        old.last_offline_started_at
    } else {
        Some(now)
    }
}

/// The lag, in milliseconds, of an event observed at `observed` seen at
/// `now`; never negative.
pub open spec fn lag_millis(now: i64, observed: i64) -> int {
    if now >= observed {
        (now - observed) * 1000
    } else {
        0
    }
}

/// The later of a recorded instant and a new one.
pub open spec fn later_of(previous: Option<i64>, t: i64) -> i64 {
    match previous {
        Some(p) => if p >= t {
            p
        } else {
            t
        },
        None => t,
    }
}

/// The state the stream opening leaves: the convergence after a stream
/// opens, read before anything else changes.
pub open spec fn opened_state(old: RuntimeStatus, now: i64) -> Seq<char> {
    state_after_stream_open(old.realtime, now)
}

/// Whether the stream noise settles: any state but reconnecting, catching
/// up or starting.
pub open spec fn settles(state: Seq<char>) -> bool {
    state != "reconnecting"@ && state != "catching-up"@ && state != "starting"@
}

/// The notice the stream opening leaves.
pub open spec fn stream_open_notice(backoff: Option<i64>) -> Seq<char> {
    match backoff {
        Some(u) => "real-time stream opened; catch-up backoff until "@ + utc_clock_text(u),
        None => "real-time stream opened"@,
    }
}

/// Records that the stream opened at `now`: drops back-offs that passed,
/// converges the state, clears stream errors when healthy or raises the
/// standing issue again when unhealthy or blocked, ends the offline
/// interval once the stream settles, and shows the idle task when nothing
/// else runs.
pub fn mark_realtime_stream_open(
    status: &mut RuntimeStatus,
    stale_threshold_seconds: u64,
    stream_read_timeout_seconds: u64,
    now: i64,
)
    requires
        representable_time(now),
        status_times_ok(old(status).realtime),
    ensures
        status_times_ok(final(status).realtime),
        ({
            let o = old(status).realtime;
            let f = final(status).realtime;
            let backoff = runtime_backoff(o, now);
            let next = opened_state(*old(status), now);
            &&& f.backoff_until == backoff
            &&& retained_shared(o.shared_backoff, backoff, now, f.shared_backoff)
            &&& state_moved(o, next, now, f)
            &&& f.last_stream_opened_at == Some(now)
            &&& f.stale_threshold_seconds == stale_threshold_seconds
            &&& f.stream_read_timeout_seconds == stream_read_timeout_seconds
            &&& if backoff is None && next == "healthy"@ {
                &&& f.latest_error_code is None && f.latest_error is None
                &&& issue_cleared(o, seq!["stream"@], f)
            } else {
                &&& f.latest_error_code == o.latest_error_code && f.latest_error == o.latest_error
                &&& if backoff is None && (next == "unhealthy"@ || next == "blocked"@) {
                    issue_restored(o, now, f)
                } else {
                    f.latest_actionable_issue == o.latest_actionable_issue
                }
            }
            &&& if settles(next) {
                &&& f.last_reconnect_reason is None
                &&& f.last_offline_recovered_at == if offline_now(o) {
                    Some(now)
                } else {
                    o.last_offline_recovered_at
                }
            } else {
                f.last_reconnect_reason == o.last_reconnect_reason && f.last_offline_recovered_at
                    == o.last_offline_recovered_at
            }
            &&& task_after_idle_offer(o, backoff is None && !old(status).reconciliation.active
                && !o.catchup_active, now, f.current_task)
            &&& noticed(*final(status), stream_open_notice(backoff), now)
            &&& f == (RealtimeRuntimeStatus {
                backoff_until: f.backoff_until,
                shared_backoff: f.shared_backoff,
                state: f.state,
                last_state_changed_at: f.last_state_changed_at,
                last_stream_opened_at: f.last_stream_opened_at,
                stale_threshold_seconds: f.stale_threshold_seconds,
                stream_read_timeout_seconds: f.stream_read_timeout_seconds,
                latest_error_code: f.latest_error_code,
                latest_error: f.latest_error,
                latest_actionable_issue: f.latest_actionable_issue,
                last_reconnect_reason: f.last_reconnect_reason,
                last_offline_recovered_at: f.last_offline_recovered_at,
                current_task: f.current_task,
                latest_notice: f.latest_notice,
                ..o
            })
            &&& *final(status) == (RuntimeStatus {
                realtime: f,
                last_notice: final(status).last_notice,
                last_notice_at: final(status).last_notice_at,
                ..*old(status)
            })
        }),
{
    let ghost o = status.realtime;
    let backoff_until = retain_runtime_backoff(&mut status.realtime, now);
    let next_state = converged_realtime_state_after_stream_open(&status.realtime, now);
    assert(next_state@ == state_after_stream_open(o, now));
    move_state(&mut status.realtime, next_state.as_str(), now);
    status.realtime.last_stream_opened_at = Some(now);
    status.realtime.stale_threshold_seconds = stale_threshold_seconds;
    status.realtime.stream_read_timeout_seconds = stream_read_timeout_seconds;
    let healthy = str_eq(next_state.as_str(), "healthy");
    let troubled = str_eq(next_state.as_str(), "unhealthy") || str_eq(next_state.as_str(), "blocked");
    if backoff_until.is_none() && healthy {
        status.realtime.latest_error_code = None;
        status.realtime.latest_error = None;
        let ghost before = status.realtime;
        clear_actionable_issue_if_source(&mut status.realtime, &["stream"]);
        assert(texts(["stream"]@) =~= seq!["stream"@]);
    } else if backoff_until.is_none() && troubled {
        restore_persistent_issue(status, now);
    }
    if !str_eq(next_state.as_str(), "reconnecting") && !str_eq(next_state.as_str(), "catching-up")
        && !str_eq(next_state.as_str(), "starting") {
        status.realtime.last_reconnect_reason = None;
        end_offline_interval_if_active(&mut status.realtime, now);
    }
    let notice = match backoff_until {
        Some(until) => {
            let mut out: Vec<char> = Vec::new();
            push_str(&mut out, "real-time stream opened; catch-up backoff until ");
            let clock = format_utc_clock(until);
            push_str(&mut out, clock.as_str());
            string_of(&out)
        },
        None => String::from_str("real-time stream opened"),
    };
    let offer = backoff_until.is_none() && !status.reconciliation.active && !status.realtime.catchup_active;
    offer_idle(status, offer, now);
    set_notice(status, notice, now);
}

fn lag_of(now: i64, observed: i64) -> (r: i64)
    requires
        representable_time(now),
        representable_time(observed),
    ensures
        r == lag_millis(now, observed),
{
    if now >= observed {
        (now - observed) * 1000
    } else {
        0
    }
}

/// The notice an observed event leaves.
pub open spec fn event_notice(backoff: Option<i64>) -> Seq<char> {
    match backoff {
        Some(u) => "observed target-wiki event; recovery backoff until "@ + utc_clock_text(u),
        None => "observed target-wiki event"@,
    }
}

/// Records a target-wiki event from the stream, observed at `observed_at`
/// (at `now` when the event carries no time): the lag it shows, its id,
/// and the state the event converges to.
pub fn mark_realtime_event(
    status: &mut RuntimeStatus,
    event_id: Option<String>,
    observed_at: Option<i64>,
    now: i64,
)
    requires
        representable_time(now),
        observed_at matches Some(t) ==> representable_time(t),
        status_times_ok(old(status).realtime),
    ensures
        status_times_ok(final(status).realtime),
        ({
            let o = old(status).realtime;
            let f = final(status).realtime;
            let backoff = runtime_backoff(o, now);
            let observed = match observed_at {
                Some(t) => t,
                None => now,
            };
            &&& f.backoff_until == backoff
            &&& retained_shared(o.shared_backoff, backoff, now, f.shared_backoff)
            &&& f.last_event_observed_at == Some(observed)
            &&& (f.last_freshness_probe_source matches Some(x) && x@ == "stream"@)
            &&& f.current_lag_millis == Some(lag_millis(now, observed) as i64)
            &&& f.current_lag_seconds == Some((lag_millis(now, observed) / 1000) as i64)
            &&& (f.current_lag_source matches Some(x) && x@ == "stream"@)
            &&& f.last_event_id == match event_id {
                Some(id) => Some(id),
                None => o.last_event_id,
            }
            &&& state_moved(o, state_after_stream_event(o, now), now, f)
            &&& (f.latest_notice matches Some(n) && n@ == event_notice(backoff))
            &&& f == (RealtimeRuntimeStatus {
                backoff_until: f.backoff_until,
                shared_backoff: f.shared_backoff,
                last_event_observed_at: f.last_event_observed_at,
                last_freshness_probe_source: f.last_freshness_probe_source,
                current_lag_seconds: f.current_lag_seconds,
                current_lag_millis: f.current_lag_millis,
                current_lag_source: f.current_lag_source,
                last_event_id: f.last_event_id,
                state: f.state,
                last_state_changed_at: f.last_state_changed_at,
                latest_notice: f.latest_notice,
                ..o
            })
            &&& *final(status) == (RuntimeStatus { realtime: f, ..*old(status) })
        }),
{
    let observed = match observed_at {
        Some(t) => t,
        None => now,
    };
    let lag = lag_of(now, observed);
    let backoff_until = retain_runtime_backoff(&mut status.realtime, now);
    status.realtime.last_event_observed_at = Some(observed);
    status.realtime.last_freshness_probe_source = Some(String::from_str("stream"));
    status.realtime.current_lag_seconds = Some(lag / 1000);
    status.realtime.current_lag_millis = Some(lag);
    status.realtime.current_lag_source = Some(String::from_str("stream"));
    if let Some(id) = event_id {
        status.realtime.last_event_id = Some(id);
    }
    let next_state = converged_realtime_state_after_stream_event(&status.realtime, now);
    move_state(&mut status.realtime, next_state.as_str(), now);
    let notice = match backoff_until {
        Some(until) => {
            let mut out: Vec<char> = Vec::new();
            push_str(&mut out, "observed target-wiki event; recovery backoff until ");
            let clock = format_utc_clock(until);
            push_str(&mut out, clock.as_str());
            string_of(&out)
        },
        None => String::from_str("observed target-wiki event"),
    };
    status.realtime.latest_notice = Some(notice);
}

/// Records an edit of a watched page seen on the stream.
pub fn mark_realtime_match(
    status: &mut RuntimeStatus,
    title: String,
    revid: u64,
    revid_url: String,
    observed_at: Option<i64>,
    now: i64,
)
    ensures
        ({
            let o = old(status).realtime;
            let f = final(status).realtime;
            &&& f.last_matching_edit_at == Some(match observed_at {
                Some(t) => t,
                None => now,
            })
            &&& f.last_matching_title == Some(title)
            &&& f.last_matching_revid == Some(revid)
            &&& f.last_matching_revid_url == Some(revid_url)
            &&& (f.latest_notice matches Some(n) && n@ == "matched watched revid "@ + decimal(revid as nat))
            &&& f == (RealtimeRuntimeStatus {
                last_matching_edit_at: f.last_matching_edit_at,
                last_matching_title: f.last_matching_title,
                last_matching_revid: f.last_matching_revid,
                last_matching_revid_url: f.last_matching_revid_url,
                latest_notice: f.latest_notice,
                ..o
            })
            &&& *final(status) == (RuntimeStatus { realtime: f, ..*old(status) })
        }),
{
    status.realtime.last_matching_edit_at = Some(match observed_at {
        Some(t) => t,
        None => now,
    });
    status.realtime.last_matching_title = Some(title);
    status.realtime.last_matching_revid = Some(revid);
    status.realtime.last_matching_revid_url = Some(revid_url);
    let mut out: Vec<char> = Vec::new();
    push_str(&mut out, "matched watched revid ");
    push_decimal(&mut out, revid);
    status.realtime.latest_notice = Some(string_of(&out));
}

/// Records a freshness probe from `source` that found the latest event at
/// `latest_event_at`.
pub fn record_freshness_probe(
    status: &mut RuntimeStatus,
    latest_event_at: i64,
    source: String,
    notice: String,
    now: i64,
)
    requires
        representable_time(now),
        representable_time(latest_event_at),
        status_times_ok(old(status).realtime),
    ensures
        status_times_ok(final(status).realtime),
        ({
            let o = old(status).realtime;
            let f = final(status).realtime;
            &&& f.last_event_observed_at == Some(later_of(o.last_event_observed_at, latest_event_at))
            &&& f.last_freshness_probe_at == Some(now)
            &&& f.last_freshness_probe_source == Some(source)
            &&& f.current_lag_millis == Some(lag_millis(now, latest_event_at) as i64)
            &&& f.current_lag_seconds == Some((lag_millis(now, latest_event_at) / 1000) as i64)
            &&& f.current_lag_source == Some(source)
            &&& noticed(*final(status), notice@, now)
            &&& f == (RealtimeRuntimeStatus {
                last_event_observed_at: f.last_event_observed_at,
                last_freshness_probe_at: f.last_freshness_probe_at,
                last_freshness_probe_source: f.last_freshness_probe_source,
                current_lag_seconds: f.current_lag_seconds,
                current_lag_millis: f.current_lag_millis,
                current_lag_source: f.current_lag_source,
                latest_notice: f.latest_notice,
                ..o
            })
            &&& *final(status) == (RuntimeStatus {
                realtime: f,
                last_notice: final(status).last_notice,
                last_notice_at: final(status).last_notice_at,
                ..*old(status)
            })
        }),
{
    let lag = lag_of(now, latest_event_at);
    let seen = match status.realtime.last_event_observed_at {
        Some(p) => if p >= latest_event_at {
            p
        } else {
            latest_event_at
        },
        None => latest_event_at,
    };
    status.realtime.last_event_observed_at = Some(seen);
    status.realtime.last_freshness_probe_at = Some(now);
    status.realtime.last_freshness_probe_source = Some(source.clone());
    status.realtime.current_lag_seconds = Some(lag / 1000);
    status.realtime.current_lag_millis = Some(lag);
    status.realtime.current_lag_source = Some(source);
    set_notice(status, notice, now);
}

/// A task of `kind` labelled `label`, started at `at`, with no progress or
/// window, expected to resume at `resume`.
pub open spec fn plain_task_is(
    t: CurrentTaskSnapshot,
    kind: Seq<char>,
    label: Seq<char>,
    at: i64,
    resume: Option<i64>,
) -> bool {
    &&& t.task_kind@ == kind
    &&& t.label@ == label
    &&& t.progress_done is None && t.progress_total is None
    &&& t.window_start is None && t.window_end is None
    &&& t.started_at == Some(at)
    &&& t.expected_resume_at == resume
}

pub(crate) fn plain_task(kind: &str, label: &String, at: i64, resume: Option<i64>) -> (r: CurrentTaskSnapshot)
    ensures
        plain_task_is(r, kind@, label@, at, resume),
{
    CurrentTaskSnapshot {
        task_kind: String::from_str(kind),
        label: label.clone(),
        progress_done: None,
        progress_total: None,
        window_start: None,
        window_end: None,
        started_at: Some(at),
        expected_resume_at: resume,
    }
}

/// The issue without those from `sources`.
pub open spec fn cleared_issue(o: Option<ActionableIssueSnapshot>, sources: Seq<Seq<char>>) -> Option<
    ActionableIssueSnapshot,
> {
    match o {
        Some(i) => if sources.contains(i.source@) {
            None
        } else {
            o
        },
        None => None,
    }
}

/// The sources a successful poll settles.
pub open spec fn poll_sources() -> Seq<Seq<char>> {
    seq!["polling"@, "stream"@, "freshness-probe"@]
}

/// The state a successful poll at `now` leaves: the common verdict once the
/// poll settled its own issues, else healthy (stale only when the stale
/// threshold reads as negative).
pub open spec fn poll_state(o: RealtimeRuntimeStatus, now: i64) -> Seq<char> {
    let s = RealtimeRuntimeStatus {
        latest_actionable_issue: cleared_issue(o.latest_actionable_issue, poll_sources()),
        ..o
    };
    match common_verdict(s, now) {
        Some(v) => v,
        None => if 0 <= (o.stale_threshold_seconds as i64) {
            "healthy"@
        } else {
            "stale"@
        },
    }
}

/// Records a successful recent-changes poll at `now` that found the latest
/// event at `latest_event_at`: polling becomes the freshness signal with no
/// lag, the poll's own issues and errors are settled, and the state
/// converges as after a primary poll.
#[verifier::spinoff_prover]
#[verifier::rlimit(60)]
pub fn mark_recentchanges_poll_succeeded(
    status: &mut RuntimeStatus,
    latest_event_at: Option<i64>,
    notice: String,
    now: i64,
)
    requires
        representable_time(now),
        latest_event_at matches Some(t) ==> representable_time(t),
        status_times_ok(old(status).realtime),
    ensures
        status_times_ok(final(status).realtime),
        ({
            let o = old(status).realtime;
            let f = final(status).realtime;
            let next = poll_state(o, now);
            let c = cleared_issue(o.latest_actionable_issue, poll_sources());
            let poll_error = o.latest_error matches Some(e) && e.operation@ == "recentchanges-poll"@;
            &&& f.last_event_observed_at == match latest_event_at {
                Some(t) => Some(later_of(o.last_event_observed_at, t)),
                None => o.last_event_observed_at,
            }
            &&& f.current_lag_seconds == Some(0i64) && f.current_lag_millis == Some(0i64)
            &&& (f.current_lag_source matches Some(x) && x@ == "polling"@)
            &&& f.last_freshness_probe_at == Some(now)
            &&& (f.last_freshness_probe_source matches Some(x) && x@ == "polling"@)
            &&& if poll_error {
                f.latest_error_code is None && f.latest_error is None
            } else {
                f.latest_error_code == o.latest_error_code && f.latest_error == o.latest_error
            }
            &&& state_moved(o, next, now, f)
            &&& if next == "healthy"@ {
                &&& f.latest_actionable_issue == c
                &&& offline_closed(o, now, f)
                &&& task_after_idle_offer(o, !old(status).reconciliation.active && !o.catchup_active, now,
                    f.current_task)
            } else {
                &&& f.last_offline_recovered_at == o.last_offline_recovered_at
                &&& f.current_task == o.current_task
                &&& if (next == "unhealthy"@ || next == "blocked"@) && restored_issue(o, now) is Some {
                    opt_issue_text(f.latest_actionable_issue) == restored_issue(o, now)
                } else {
                    f.latest_actionable_issue == c
                }
            }
            &&& noticed(*final(status), notice@, now)
            &&& f == (RealtimeRuntimeStatus {
                last_event_observed_at: f.last_event_observed_at,
                current_lag_seconds: f.current_lag_seconds,
                current_lag_millis: f.current_lag_millis,
                current_lag_source: f.current_lag_source,
                last_freshness_probe_at: f.last_freshness_probe_at,
                last_freshness_probe_source: f.last_freshness_probe_source,
                latest_error_code: f.latest_error_code,
                latest_error: f.latest_error,
                latest_actionable_issue: f.latest_actionable_issue,
                state: f.state,
                last_state_changed_at: f.last_state_changed_at,
                last_offline_recovered_at: f.last_offline_recovered_at,
                current_task: f.current_task,
                latest_notice: f.latest_notice,
                ..o
            })
            &&& *final(status) == (RuntimeStatus {
                realtime: f,
                last_notice: final(status).last_notice,
                last_notice_at: final(status).last_notice_at,
                ..*old(status)
            })
        }),
{
    let ghost o = status.realtime;
    if let Some(t) = latest_event_at {
        let seen = match status.realtime.last_event_observed_at {
            Some(p) => if p >= t {
                p
            } else {
                t
            },
            None => t,
        };
        status.realtime.last_event_observed_at = Some(seen);
    }
    status.realtime.current_lag_seconds = Some(0);
    status.realtime.current_lag_millis = Some(0);
    status.realtime.current_lag_source = Some(String::from_str("polling"));
    status.realtime.last_freshness_probe_at = Some(now);
    status.realtime.last_freshness_probe_source = Some(String::from_str("polling"));
    let ghost before_clear = status.realtime;
    clear_actionable_issue_if_source(&mut status.realtime, &["polling", "stream", "freshness-probe"]);
    assert(texts(["polling", "stream", "freshness-probe"]@) =~= poll_sources());
    let poll_error = match &status.realtime.latest_error {
        Some(e) => str_eq(e.operation.as_str(), "recentchanges-poll"),
        None => false,
    };
    if poll_error {
        status.realtime.latest_error_code = None;
        status.realtime.latest_error = None;
    }
    let next_state = converged_realtime_state_after_primary_poll(&status.realtime, now);
    proof {
        let mid = status.realtime;
        let s = RealtimeRuntimeStatus {
            latest_actionable_issue: cleared_issue(o.latest_actionable_issue, poll_sources()),
            ..o
        };
        assert(common_verdict(mid, now) == common_verdict(s, now));
        reveal_strlit("polling");
    }
    move_state(&mut status.realtime, next_state.as_str(), now);
    if str_eq(next_state.as_str(), "healthy") {
        end_offline_interval_if_active(&mut status.realtime, now);
        let offer = !status.reconciliation.active && !status.realtime.catchup_active;
        offer_idle(status, offer, now);
    } else if str_eq(next_state.as_str(), "unhealthy") || str_eq(next_state.as_str(), "blocked") {
        restore_persistent_issue(status, now);
    }
    set_notice(status, notice, now);
}

/// The back-off a failed call at `at` leaves: one it asked for, when it is
/// retryable and asked to wait a positive number of seconds, kept over the
/// one in force; else the one in force.
pub open spec fn failure_backoff(o: RealtimeRuntimeStatus, snapshot: ApiFailureSnapshot, at: i64) -> Option<i64> {
    match snapshot.retry_after_seconds {
        Some(secs) => if snapshot.retryable && secs > 0 {
            Some(kept_backoff(o, (at + secs) as i64, at))
        } else {
            runtime_backoff(o, at)
        },
        None => runtime_backoff(o, at),
    }
}

/// The instant a failure happened at: its own, else `now`.
pub open spec fn failure_time(snapshot: ApiFailureSnapshot, now: i64) -> i64 {
    match snapshot.occurred_at {
        Some(t) => t,
        None => now,
    }
}

/// The error code a failure shows: its API code, else its class.
pub open spec fn failure_code(snapshot: ApiFailureSnapshot) -> Option<String> {
    match snapshot.api_code {
        Some(c) => Some(c),
        None => Some(snapshot.class),
    }
}

/// A failure can be recorded: its instant, and the back-off it asks for,
/// lie in the range the clock format takes.
pub open spec fn failure_times_ok(snapshot: ApiFailureSnapshot, now: i64) -> bool {
    &&& representable_time(failure_time(snapshot, now))
    &&& snapshot.retry_after_seconds matches Some(secs) ==> failure_time(snapshot, now) + secs
        <= 8_000_000_000_000
}

/// The back-off fields after a failure that may ask for a back-off: the
/// asked-for one is shared under `source` and `reason`, else passed
/// back-offs are dropped.
pub open spec fn failure_backoff_recorded(
    o: RealtimeRuntimeStatus,
    snapshot: ApiFailureSnapshot,
    source: Seq<char>,
    reason: Seq<char>,
    at: i64,
    f: RealtimeRuntimeStatus,
) -> bool {
    let asked = snapshot.retryable && (snapshot.retry_after_seconds matches Some(secs) && secs > 0);
    &&& f.backoff_until == failure_backoff(o, snapshot, at)
    &&& if asked {
        f.shared_backoff matches Some(b) && shared_snapshot_is(b, source, reason,
            kept_backoff(o, (at + snapshot.retry_after_seconds->0) as i64, at), at)
    } else {
        retained_shared(o.shared_backoff, runtime_backoff(o, at), at, f.shared_backoff)
    }
}

pub(crate) fn record_failure_backoff(status: &mut RealtimeRuntimeStatus, snapshot: &ApiFailureSnapshot, source: &str, reason: &str, at: i64) -> (r: Option<i64>)
    requires
        representable_time(at),
        snapshot.retry_after_seconds matches Some(secs) ==> at + secs <= 8_000_000_000_000,
        status_times_ok(*old(status)),
    ensures
        r == failure_backoff(*old(status), *snapshot, at),
        failure_backoff_recorded(*old(status), *snapshot, source@, reason@, at, *final(status)),
        status_times_ok(*final(status)),
        *final(status) == (RealtimeRuntimeStatus {
            backoff_until: final(status).backoff_until,
            shared_backoff: final(status).shared_backoff,
            ..*old(status)
        }),
{
    let asked = match snapshot.retry_after_seconds {
        Some(secs) => if snapshot.retryable {
            set_shared_backoff(status, source, reason, at + secs as i64, at)
        } else {
            None
        },
        None => None,
    };
    match asked {
        Some(u) => Some(u),
        None => retain_runtime_backoff(status, at),
    }
}

/// The next action a failed poll leaves.
pub open spec fn poll_failure_next_action(backoff: Option<i64>) -> Seq<char> {
    match backoff {
        Some(u) => "wait until "@ + utc_clock_text(u) + " and verify the next poll cycle"@,
        None => "check API/network state and verify the next poll cycle"@,
    }
}

/// The state a failed poll leaves: catching up under a back-off or a
/// catch-up, blocked while protection is blocked, else stale.
pub open spec fn poll_failed_state(o: RealtimeRuntimeStatus, backoff: Option<i64>) -> Seq<char> {
    if backoff is Some || o.catchup_active {
        "catching-up"@
    } else if o.state@ == "blocked"@ || (o.latest_outcome matches Some(x) && x.mode@ == "live"@
        && x.outcome@ == "blocked"@) {
        "blocked"@
    } else {
        "stale"@
    }
}

/// Records a failed recent-changes poll: a back-off it asked for is
/// shared, the state falls to catching up, blocked or stale, an offline
/// interval opens, and the polling issue and task show what to do next.
#[verifier::spinoff_prover]
#[verifier::rlimit(60)]
pub fn mark_recentchanges_poll_failed(status: &mut RuntimeStatus, snapshot: ApiFailureSnapshot, notice: String, now: i64)
    requires
        failure_times_ok(snapshot, now),
        status_times_ok(old(status).realtime),
    ensures
        status_times_ok(final(status).realtime),
        ({
            let o = old(status).realtime;
            let f = final(status).realtime;
            let at = failure_time(snapshot, now);
            let backoff = failure_backoff(o, snapshot, at);
            &&& failure_backoff_recorded(o, snapshot, "recentchanges-poll"@, "api-retry-after"@, at, f)
            &&& f.state@ == poll_failed_state(o, backoff)
            &&& f.last_state_changed_at == Some(at)
            &&& f.latest_error_code == failure_code(snapshot)
            &&& f.latest_error == Some(snapshot)
            &&& offline_opened(o, at, f)
            &&& opt_issue_text(f.latest_actionable_issue) == Some(("polling"@,
                if snapshot.retryable { "warning"@ } else { "error"@ }, notice@,
                poll_failure_next_action(backoff), Some(at)))
            &&& if !old(status).reconciliation.active && !o.catchup_active {
                f.current_task matches Some(t) && plain_task_is(t, "polling"@, notice@, at, backoff)
            } else {
                f.current_task == o.current_task
            }
            &&& noticed(*final(status), notice@, at)
            &&& f == (RealtimeRuntimeStatus {
                backoff_until: f.backoff_until,
                shared_backoff: f.shared_backoff,
                state: f.state,
                last_state_changed_at: f.last_state_changed_at,
                latest_error_code: f.latest_error_code,
                latest_error: f.latest_error,
                last_offline_started_at: f.last_offline_started_at,
                latest_actionable_issue: f.latest_actionable_issue,
                current_task: f.current_task,
                latest_notice: f.latest_notice,
                ..o
            })
            &&& *final(status) == (RuntimeStatus {
                realtime: f,
                last_notice: final(status).last_notice,
                last_notice_at: final(status).last_notice_at,
                ..*old(status)
            })
        }),
{
    let at = match snapshot.occurred_at {
        Some(t) => t,
        None => now,
    };
    let backoff_until = record_failure_backoff(&mut status.realtime, &snapshot, "recentchanges-poll", "api-retry-after", at);
    let blocked_outcome = match &status.realtime.latest_outcome {
        Some(x) => str_eq(x.mode.as_str(), "live") && str_eq(x.outcome.as_str(), "blocked"),
        None => false,
    };
    let next_state = if backoff_until.is_some() || status.realtime.catchup_active {
        "catching-up"
    } else if str_eq(status.realtime.state.as_str(), "blocked") || blocked_outcome {
        "blocked"
    } else {
        "stale"
    };
    status.realtime.state = String::from_str(next_state);
    status.realtime.last_state_changed_at = Some(at);
    status.realtime.latest_error_code = match &snapshot.api_code {
        Some(c) => Some(c.clone()),
        None => Some(snapshot.class.clone()),
    };
    begin_offline_interval_if_needed(&mut status.realtime, at);
    let next_action = match backoff_until {
        Some(u) => {
            let mut out: Vec<char> = Vec::new();
            push_str(&mut out, "wait until ");
            let clock = format_utc_clock(u);
            push_str(&mut out, clock.as_str());
            push_str(&mut out, " and verify the next poll cycle");
            string_of(&out)
        },
        None => String::from_str("check API/network state and verify the next poll cycle"),
    };
    let severity = if snapshot.retryable {
        "warning"
    } else {
        "error"
    };
    status.realtime.latest_actionable_issue = Some(make_issue("polling", severity, notice.clone(), next_action, at));
    if !status.reconciliation.active && !status.realtime.catchup_active {
        status.realtime.current_task = Some(plain_task("polling", &notice, at, backoff_until));
    }
    status.realtime.latest_error = Some(snapshot);
    set_notice(status, notice, at);
}

/// The notice a quiet stream leaves: the one given, or a default naming
/// the silence.
pub open spec fn quiet_notice(silence_seconds: u64, notice: Seq<char>) -> Seq<char> {
    if notice.len() == 0 {
        "stream quiet for "@ + decimal(silence_seconds as nat)
            + "s; freshness probe found no newer target-wiki edits"@
    } else {
        notice
    }
}

/// Records that the stream was quiet for `silence_seconds` while a
/// freshness probe found no gap: the state converges as after an event,
/// stream noise is cleared and the offline interval ends.
#[verifier::spinoff_prover]
#[verifier::rlimit(60)]
pub fn mark_stream_quiet_without_gap(status: &mut RuntimeStatus, silence_seconds: u64, notice: String, now: i64)
    requires
        representable_time(now),
        status_times_ok(old(status).realtime),
    ensures
        status_times_ok(final(status).realtime),
        ({
            let o = old(status).realtime;
            let f = final(status).realtime;
            let next = state_after_stream_event(o, now);
            &&& state_moved(o, next, now, f)
            &&& if next == "healthy"@ {
                &&& f.latest_error_code is None && f.latest_error is None
                &&& issue_cleared(o, seq!["stream"@], f)
            } else {
                &&& f.latest_error_code == o.latest_error_code && f.latest_error == o.latest_error
                &&& if next == "unhealthy"@ || next == "blocked"@ {
                    issue_restored(o, now, f)
                } else {
                    f.latest_actionable_issue == o.latest_actionable_issue
                }
            }
            &&& f.last_recovery_trigger is None && f.last_reconnect_reason is None
            &&& offline_closed(o, now, f)
            &&& task_after_idle_offer(o, !o.catchup_active && !old(status).reconciliation.active, now,
                f.current_task)
            &&& noticed(*final(status), quiet_notice(silence_seconds, notice@), now)
            &&& f == (RealtimeRuntimeStatus {
                state: f.state,
                last_state_changed_at: f.last_state_changed_at,
                latest_error_code: f.latest_error_code,
                latest_error: f.latest_error,
                latest_actionable_issue: f.latest_actionable_issue,
                last_recovery_trigger: f.last_recovery_trigger,
                last_reconnect_reason: f.last_reconnect_reason,
                last_offline_recovered_at: f.last_offline_recovered_at,
                current_task: f.current_task,
                latest_notice: f.latest_notice,
                ..o
            })
            &&& *final(status) == (RuntimeStatus {
                realtime: f,
                last_notice: final(status).last_notice,
                last_notice_at: final(status).last_notice_at,
                ..*old(status)
            })
        }),
{
    let next_state = converged_realtime_state_after_stream_event(&status.realtime, now);
    move_state(&mut status.realtime, next_state.as_str(), now);
    if str_eq(next_state.as_str(), "healthy") {
        status.realtime.latest_error_code = None;
        status.realtime.latest_error = None;
        clear_actionable_issue_if_source(&mut status.realtime, &["stream"]);
        assert(texts(["stream"]@) =~= seq!["stream"@]);
    } else if str_eq(next_state.as_str(), "unhealthy") || str_eq(next_state.as_str(), "blocked") {
        restore_persistent_issue(status, now);
    }
    status.realtime.last_recovery_trigger = None;
    status.realtime.last_reconnect_reason = None;
    end_offline_interval_if_active(&mut status.realtime, now);
    let offer = !status.realtime.catchup_active && !status.reconciliation.active;
    offer_idle(status, offer, now);
    let text = if chars_of(notice.as_str()).len() == 0 {
        let mut out: Vec<char> = Vec::new();
        push_str(&mut out, "stream quiet for ");
        push_decimal(&mut out, silence_seconds);
        push_str(&mut out, "s; freshness probe found no newer target-wiki edits");
        string_of(&out)
    } else {
        notice
    };
    set_notice(status, text, now);
}

/// The frame of a transition that sets the state at `now`, records an
/// error code, opens an offline interval and shows an issue and a task:
/// everything else of `o` is kept.
pub open spec fn alarm_frame(o: RealtimeRuntimeStatus, f: RealtimeRuntimeStatus) -> bool {
    f == (RealtimeRuntimeStatus {
        state: f.state,
        last_state_changed_at: f.last_state_changed_at,
        last_recovery_trigger: f.last_recovery_trigger,
        last_reconnect_reason: f.last_reconnect_reason,
        latest_error_code: f.latest_error_code,
        latest_error: f.latest_error,
        last_offline_started_at: f.last_offline_started_at,
        latest_actionable_issue: f.latest_actionable_issue,
        current_task: f.current_task,
        latest_notice: f.latest_notice,
        ..o
    })
}

/// Records that the stream dropped and is reconnecting: an offline
/// interval opens and a stream issue is shown unless a blocking one stands.
pub fn mark_stream_reconnecting(
    status: &mut RuntimeStatus,
    error_code: String,
    reconnect_reason: String,
    notice: String,
    now: i64,
)
    ensures
        ({
            let o = old(status).realtime;
            let f = final(status).realtime;
            &&& f.state@ == "reconnecting"@ && f.last_state_changed_at == Some(now)
            &&& f.last_recovery_trigger is None
            &&& f.last_reconnect_reason == Some(reconnect_reason)
            &&& f.latest_error_code == Some(error_code)
            &&& f.latest_error == o.latest_error
            &&& offline_opened(o, now, f)
            &&& if o.latest_actionable_issue matches Some(i) && blocking_issue_source(i.source@) {
                f.latest_actionable_issue == o.latest_actionable_issue
            } else {
                opt_issue_text(f.latest_actionable_issue) == Some(("stream"@, "error"@, notice@,
                    "wait for the stream to reopen and verify the next watched edit"@, Some(now)))
            }
            &&& (f.current_task matches Some(t) && plain_task_is(t, "reconnecting"@, notice@, now, None))
            &&& noticed(*final(status), notice@, now)
            &&& alarm_frame(o, f)
            &&& *final(status) == (RuntimeStatus {
                realtime: f,
                last_notice: final(status).last_notice,
                last_notice_at: final(status).last_notice_at,
                ..*old(status)
            })
        }),
{
    status.realtime.state = String::from_str("reconnecting");
    status.realtime.last_state_changed_at = Some(now);
    status.realtime.last_recovery_trigger = None;
    status.realtime.last_reconnect_reason = Some(reconnect_reason);
    status.realtime.latest_error_code = Some(error_code);
    begin_offline_interval_if_needed(&mut status.realtime, now);
    let blocking = match &status.realtime.latest_actionable_issue {
        Some(i) => actionable_issue_blocks_stream_healthy(i),
        None => false,
    };
    if !blocking {
        status.realtime.latest_actionable_issue = Some(make_issue("stream", "error", notice.clone(),
            String::from_str("wait for the stream to reopen and verify the next watched edit"), now));
    }
    status.realtime.current_task = Some(plain_task("reconnecting", &notice, now, None));
    set_notice(status, notice, now);
}

/// Records that local state could not be written during `operation` on
/// `path`: the daemon turns unhealthy and reopens the stream.
pub fn record_state_persistence_failure(
    status: &mut RuntimeStatus,
    operation: String,
    path: &str,
    error: String,
    now: i64,
)
    ensures
        ({
            let o = old(status).realtime;
            let f = final(status).realtime;
            let summary = "local state persistence failed for "@ + operation@;
            &&& f.state@ == "unhealthy"@ && f.last_state_changed_at == Some(now)
            &&& (f.latest_error_code matches Some(c) && c@ == "state-persistence"@)
            &&& offline_opened(o, now, f)
            &&& (f.latest_error matches Some(e) && e.class@ == "state-persistence"@ && e.api_code is None
                && e.http_status is None && e.content_type is None && e.retryable
                && e.retry_after_seconds is None && e.operation == operation && e.sample_title is None
                && e.sample_revid is None && e.message == error && e.occurred_at == Some(now))
            &&& opt_issue_text(f.latest_actionable_issue) == Some(("state-persistence"@, "error"@, summary,
                "check writable state path "@ + path@ + " and watch reconnect status"@, Some(now)))
            &&& (f.current_task matches Some(t) && plain_task_is(t, "state-persistence"@,
                "reopening stream after local state write failure"@, now, None))
            &&& noticed(*final(status), summary, now)
            &&& f.last_recovery_trigger == o.last_recovery_trigger
            &&& f.last_reconnect_reason == o.last_reconnect_reason
            &&& alarm_frame(o, f)
            &&& *final(status) == (RuntimeStatus {
                realtime: f,
                last_notice: final(status).last_notice,
                last_notice_at: final(status).last_notice_at,
                ..*old(status)
            })
        }),
{
    let summary = joined_text("local state persistence failed for ", operation.as_str());
    status.realtime.state = String::from_str("unhealthy");
    status.realtime.last_state_changed_at = Some(now);
    status.realtime.latest_error_code = Some(String::from_str("state-persistence"));
    begin_offline_interval_if_needed(&mut status.realtime, now);
    let mut next_action: Vec<char> = Vec::new();
    push_str(&mut next_action, "check writable state path ");
    push_str(&mut next_action, path);
    push_str(&mut next_action, " and watch reconnect status");
    status.realtime.latest_actionable_issue = Some(make_issue("state-persistence", "error", summary.clone(),
        string_of(&next_action), now));
    status.realtime.latest_error = Some(ApiFailureSnapshot {
        class: String::from_str("state-persistence"),
        api_code: None,
        http_status: None,
        content_type: None,
        retryable: true,
        retry_after_seconds: None,
        operation,
        sample_title: None,
        sample_revid: None,
        message: error,
        occurred_at: Some(now),
    });
    let label = String::from_str("reopening stream after local state write failure");
    status.realtime.current_task = Some(plain_task("state-persistence", &label, now, None));
    set_notice(status, summary, now);
}

/// Records a gap in the stream found by `trigger`: the daemon goes stale
/// until recovery covers the gap.
pub fn mark_stream_gap_detected(status: &mut RuntimeStatus, trigger: String, error_code: String, notice: String, now: i64)
    ensures
        ({
            let o = old(status).realtime;
            let f = final(status).realtime;
            &&& f.state@ == "stale"@ && f.last_state_changed_at == Some(now)
            &&& f.last_recovery_trigger == Some(trigger)
            &&& f.last_reconnect_reason == o.last_reconnect_reason
            &&& f.latest_error_code == Some(error_code)
            &&& f.latest_error == o.latest_error
            &&& offline_opened(o, now, f)
            &&& opt_issue_text(f.latest_actionable_issue) == Some(("stream"@, "warning"@, notice@,
                "watch the recovery window and the next successful hide"@, Some(now)))
            &&& (f.current_task matches Some(t) && plain_task_is(t, "stale"@, notice@, now, None))
            &&& noticed(*final(status), notice@, now)
            &&& alarm_frame(o, f)
            &&& *final(status) == (RuntimeStatus {
                realtime: f,
                last_notice: final(status).last_notice,
                last_notice_at: final(status).last_notice_at,
                ..*old(status)
            })
        }),
{
    status.realtime.state = String::from_str("stale");
    status.realtime.last_state_changed_at = Some(now);
    status.realtime.last_recovery_trigger = Some(trigger);
    status.realtime.latest_error_code = Some(error_code);
    begin_offline_interval_if_needed(&mut status.realtime, now);
    status.realtime.latest_actionable_issue = Some(make_issue("stream", "warning", notice.clone(),
        String::from_str("watch the recovery window and the next successful hide"), now));
    status.realtime.current_task = Some(plain_task("stale", &notice, now, None));
    set_notice(status, notice, now);
}

/// Records that a recovery triggered by `trigger` failed: the daemon turns
/// unhealthy, and an offline interval opens when the trigger was a gap.
pub fn mark_recovery_failed(status: &mut RuntimeStatus, trigger: String, error_code: String, notice: String, now: i64)
    ensures
        ({
            let o = old(status).realtime;
            let f = final(status).realtime;
            let gap = trigger@ == "startup"@ || trigger@ == "silent-starvation"@ || trigger@
                == "invalid-resume"@;
            &&& f.state@ == "unhealthy"@ && f.last_state_changed_at == Some(now)
            &&& f.last_recovery_trigger == Some(trigger)
            &&& f.last_reconnect_reason == o.last_reconnect_reason
            &&& f.latest_error_code == Some(error_code)
            &&& f.latest_error == o.latest_error
            &&& if gap {
                offline_opened(o, now, f)
            } else {
                f.last_offline_started_at == o.last_offline_started_at
            }
            &&& opt_issue_text(f.latest_actionable_issue) == Some(("recovery"@, "error"@, notice@,
                "watch the recovery window and confirm the next successful hide"@, Some(now)))
            &&& (f.current_task matches Some(t) && plain_task_is(t, "unhealthy"@, notice@, now, None))
            &&& noticed(*final(status), notice@, now)
            &&& alarm_frame(o, f)
            &&& *final(status) == (RuntimeStatus {
                realtime: f,
                last_notice: final(status).last_notice,
                last_notice_at: final(status).last_notice_at,
                ..*old(status)
            })
        }),
{
    let gap = is_gap_recovery_trigger(trigger.as_str());
    status.realtime.state = String::from_str("unhealthy");
    status.realtime.last_state_changed_at = Some(now);
    status.realtime.last_recovery_trigger = Some(trigger);
    status.realtime.latest_error_code = Some(error_code);
    if gap {
        begin_offline_interval_if_needed(&mut status.realtime, now);
    }
    status.realtime.latest_actionable_issue = Some(make_issue("recovery", "error", notice.clone(),
        String::from_str("watch the recovery window and confirm the next successful hide"), now));
    status.realtime.current_task = Some(plain_task("unhealthy", &notice, now, None));
    set_notice(status, notice, now);
}

/// Sets the realtime state directly; a stale, reconnecting or unhealthy
/// state opens an offline interval when none was ever opened, and shows a
/// stream issue and a task of that state.
pub fn mark_realtime_state(
    status: &mut RuntimeStatus,
    state: &str,
    trigger: Option<String>,
    reconnect_reason: Option<String>,
    error_code: Option<String>,
    notice: String,
    now: i64,
)
    ensures
        ({
            let o = old(status).realtime;
            let f = final(status).realtime;
            let alarm = state@ == "stale"@ || state@ == "reconnecting"@ || state@ == "unhealthy"@;
            &&& f.state@ == state@ && f.last_state_changed_at == Some(now)
            &&& f.last_recovery_trigger == trigger
            &&& f.last_reconnect_reason == reconnect_reason
            &&& f.latest_error_code == error_code
            &&& f.latest_error == o.latest_error
            &&& if alarm {
                &&& f.last_offline_started_at == match o.last_offline_started_at {
                    Some(t) => Some(t),
                    None => Some(now),
                }
                &&& opt_issue_text(f.latest_actionable_issue) == Some(("stream"@, if state@ == "stale"@ {
                    "warning"@
                } else {
                    "error"@
                }, notice@, "watch the recovery window and the next successful hide"@, Some(now)))
                &&& (f.current_task matches Some(t) && plain_task_is(t, state@, notice@, now, None))
            } else {
                &&& f.last_offline_started_at == o.last_offline_started_at
                &&& f.latest_actionable_issue == o.latest_actionable_issue
                &&& f.current_task == o.current_task
            }
            &&& noticed(*final(status), notice@, now)
            &&& alarm_frame(o, f)
            &&& *final(status) == (RuntimeStatus {
                realtime: f,
                last_notice: final(status).last_notice,
                last_notice_at: final(status).last_notice_at,
                ..*old(status)
            })
        }),
{
    status.realtime.state = String::from_str(state);
    status.realtime.last_state_changed_at = Some(now);
    status.realtime.last_recovery_trigger = trigger;
    status.realtime.last_reconnect_reason = reconnect_reason;
    status.realtime.latest_error_code = error_code;
    let stale = str_eq(state, "stale");
    if stale || str_eq(state, "reconnecting") || str_eq(state, "unhealthy") {
        if status.realtime.last_offline_started_at.is_none() {
            status.realtime.last_offline_started_at = Some(now);
        }
        let severity = if stale {
            "warning"
        } else {
            "error"
        };
        status.realtime.latest_actionable_issue = Some(make_issue("stream", severity, notice.clone(),
            String::from_str("watch the recovery window and the next successful hide"), now));
        status.realtime.current_task = Some(plain_task(state, &notice, now, None));
    }
    set_notice(status, notice, now);
}

/// Records a failed API call: its error and code, an issue naming the next
/// step, and the back-off it asked for, shared with every background path.
#[verifier::spinoff_prover]
#[verifier::rlimit(60)]
pub fn record_api_failure(status: &mut RuntimeStatus, snapshot: ApiFailureSnapshot, now: i64)
    requires
        failure_times_ok(snapshot, now),
        status_times_ok(old(status).realtime),
    ensures
        status_times_ok(final(status).realtime),
        ({
            let o = old(status).realtime;
            let f = final(status).realtime;
            let at = failure_time(snapshot, now);
            let asked = snapshot.retryable && (snapshot.retry_after_seconds matches Some(secs) && secs > 0);
            &&& f.latest_error_code == failure_code(snapshot)
            &&& (f.latest_notice matches Some(n) && n@ == snapshot.operation@ + " "@
                + failure_code(snapshot)->0@ + " failed"@)
            &&& opt_issue_text(f.latest_actionable_issue) == Some((snapshot.operation@,
                if snapshot.retryable { "warning"@ } else { "error"@ },
                snapshot.operation@ + " failed: "@ + snapshot.message@, failure_next_action(snapshot), Some(at)))
            &&& if asked {
                &&& f.backoff_until == Some(kept_backoff(o, (at + snapshot.retry_after_seconds->0) as i64, at))
                &&& (f.shared_backoff matches Some(b) && shared_snapshot_is(b, snapshot.operation@,
                    "api-retry-after"@, kept_backoff(o, (at + snapshot.retry_after_seconds->0) as i64, at), at))
            } else {
                f.backoff_until == o.backoff_until && f.shared_backoff == o.shared_backoff
            }
            &&& f.latest_error == Some(snapshot)
            &&& f == (RealtimeRuntimeStatus {
                latest_error_code: f.latest_error_code,
                latest_notice: f.latest_notice,
                latest_actionable_issue: f.latest_actionable_issue,
                backoff_until: f.backoff_until,
                shared_backoff: f.shared_backoff,
                latest_error: f.latest_error,
                ..o
            })
            &&& *final(status) == (RuntimeStatus { realtime: f, ..*old(status) })
        }),
{
    let at = match snapshot.occurred_at {
        Some(t) => t,
        None => now,
    };
    let code = match &snapshot.api_code {
        Some(c) => c.clone(),
        None => snapshot.class.clone(),
    };
    let mut text: Vec<char> = Vec::new();
    push_str(&mut text, snapshot.operation.as_str());
    push_str(&mut text, " ");
    push_str(&mut text, code.as_str());
    push_str(&mut text, " failed");
    status.realtime.latest_error_code = Some(code);
    status.realtime.latest_notice = Some(string_of(&text));
    let severity = if snapshot.retryable {
        "warning"
    } else {
        "error"
    };
    let mut summary: Vec<char> = Vec::new();
    push_str(&mut summary, snapshot.operation.as_str());
    push_str(&mut summary, " failed: ");
    push_str(&mut summary, snapshot.message.as_str());
    status.realtime.latest_actionable_issue = Some(make_issue(snapshot.operation.as_str(), severity,
        string_of(&summary), api_failure_next_action(&snapshot), at));
    if snapshot.retryable {
        if let Some(secs) = snapshot.retry_after_seconds {
            set_shared_backoff(&mut status.realtime, snapshot.operation.as_str(), "api-retry-after",
                at + secs as i64, at);
        }
    }
    status.realtime.latest_error = Some(snapshot);
}

/// A failed poll never reports healthy.
pub proof fn failed_poll_is_never_healthy(o: RealtimeRuntimeStatus, backoff: Option<i64>)
    ensures
        poll_failed_state(o, backoff) != "healthy"@,
{
    reveal_strlit("healthy");
    reveal_strlit("catching-up");
    reveal_strlit("blocked");
    reveal_strlit("stale");
    assert("healthy"@[0] != "catching-up"@[0]);
    assert("healthy"@[0] != "blocked"@[0]);
    assert("healthy"@[0] != "stale"@[0]);
}

/// A successful poll reports healthy only when no catch-up runs, no
/// back-off is in force, nothing is blocked, and no live failure,
/// incomplete recovery, failed verification or blocking issue the poll
/// does not settle stands.
pub proof fn healthy_poll_leaves_no_trouble(o: RealtimeRuntimeStatus, now: i64)
    requires
        poll_state(o, now) == "healthy"@,
    ensures
        !o.catchup_active,
        runtime_backoff(o, now) is None,
        !blocked_now(o),
        !live_outcome_degraded(o),
        !recovery_degraded(o),
        !scheduled_verification_failed(o),
        !(cleared_issue(o.latest_actionable_issue, poll_sources()) matches Some(i) && blocking_issue_source(
            i.source@,
        )),
{
    reveal_strlit("healthy");
    reveal_strlit("catching-up");
    reveal_strlit("blocked");
    reveal_strlit("unhealthy");
    reveal_strlit("stale");
    assert("healthy"@[0] != "catching-up"@[0]);
    assert("healthy"@[0] != "blocked"@[0]);
    assert("healthy"@[0] != "unhealthy"@[0]);
    assert("healthy"@[0] != "stale"@[0]);
}

} // verus!
