use suppressor::health::{
    ActionableIssueSnapshot, CurrentTaskSnapshot, ExecutionLaneKind, RevDelMode,
    SuppressionOutcomeSnapshot,
};
use suppressor::outcomes::{
    completion_latencies, lane_loads_after_completion, record_action_completed, LaneLoad, RevDelAction,
};
use suppressor::passes::{apply_reconciliation_completed_status, apply_reconciliation_started_status};
use suppressor::realtime::{
    mark_realtime_event, mark_realtime_match, mark_realtime_state, mark_realtime_stream_open,
    mark_recentchanges_poll_failed, mark_recentchanges_poll_succeeded, mark_recovery_failed,
    mark_stream_gap_detected, mark_stream_quiet_without_gap, mark_stream_reconnecting,
    record_api_failure, record_freshness_probe, record_state_persistence_failure,
};
use suppressor::reconcile::ReconcileMode;
use suppressor::recovery::{
    default_recovery_window, mark_recovery_completed, mark_recovery_started, record_source_refresh,
};
use suppressor::runtime::{
    blocked_actionable_issue_for_mode, reconciliation_stopped_early_issue, restore_persistent_issue,
    scheduled_verification_failure_issue, RuntimeStatus,
};
use suppressor::state::{ApiFailureSnapshot, CoverageSummary, SourceListRefresh, WarningSummary};
use suppressor::mw_api::parse_timestamp;

const NOW: i64 = 1_777_464_000; // 2026-04-29T12:00:00Z

fn at(text: &str) -> i64 {
    parse_timestamp(text).unwrap()
}

fn issue(source: &str, summary: &str) -> ActionableIssueSnapshot {
    ActionableIssueSnapshot {
        source: source.to_string(),
        severity: "error".to_string(),
        summary: summary.to_string(),
        next_action: "watch the recovery window".to_string(),
        detected_at: Some(NOW - 60),
    }
}

fn live_outcome(outcome: &str, revid: u64) -> SuppressionOutcomeSnapshot {
    SuppressionOutcomeSnapshot {
        title: "Title".to_string(),
        revid,
        outcome: outcome.to_string(),
        mode: RevDelMode::Live.label().to_string(),
        source_label: RevDelMode::Live.source_label().to_string(),
        ..SuppressionOutcomeSnapshot::default()
    }
}

fn poll_failure(at: i64) -> ApiFailureSnapshot {
    ApiFailureSnapshot {
        class: "transport".to_string(),
        api_code: Some("transport".to_string()),
        retryable: true,
        operation: "recentchanges-poll".to_string(),
        message: "network timeout".to_string(),
        occurred_at: Some(at),
        ..ApiFailureSnapshot::default()
    }
}

fn action(mode: RevDelMode, title: &str, revid: u64, observed_at: i64) -> RevDelAction {
    RevDelAction {
        title: title.to_string(),
        revids: vec![revid],
        mode,
        lane: mode.execution_lane(),
        observed_at: Some(observed_at),
        queued_at: observed_at,
        submitted_at: Some(observed_at + 1),
        deadline_at: None,
    }
}

fn reconnect(status: &mut RuntimeStatus, now: i64) {
    mark_stream_reconnecting(
        status,
        "stream-error".to_string(),
        "temporary network timeout".to_string(),
        "real-time stream reconnecting after error".to_string(),
        now,
    );
}

#[test]
fn mark_stream_reconnecting_starts_offline_interval_without_recovery_trigger() {
    let mut status = RuntimeStatus::default();
    reconnect(&mut status, NOW);
    assert_eq!(status.realtime.state, "reconnecting");
    assert_eq!(status.realtime.last_recovery_trigger, None);
    assert_eq!(
        status.realtime.last_reconnect_reason.as_deref(),
        Some("temporary network timeout")
    );
    assert_eq!(status.realtime.last_offline_started_at, Some(NOW));
    assert!(status.realtime.last_offline_recovered_at.is_none());
    assert_eq!(status.realtime.current_task.unwrap().task_kind, "reconnecting");
}

#[test]
fn stream_open_recovers_reconnect_noise_without_clearing_live_failure() {
    let mut status = RuntimeStatus::default();
    status.realtime.latest_outcome = Some(live_outcome("failed", 42));
    status.realtime.latest_actionable_issue =
        Some(issue("live-hide", "live hide failed for revid 42"));
    reconnect(&mut status, NOW);

    mark_realtime_stream_open(&mut status, 90, 60, NOW + 5);

    assert_eq!(status.realtime.state, "unhealthy");
    assert_eq!(status.realtime.last_reconnect_reason, None);
    assert_eq!(status.realtime.last_offline_recovered_at, Some(NOW + 5));
    let shown = status.realtime.latest_actionable_issue.unwrap();
    assert!(shown.summary.contains("live hide failed"));
    assert_eq!(shown.next_action, "watch the recovery window and confirm a later successful hide");
    assert_eq!(status.realtime.stale_threshold_seconds, 90);
    assert_eq!(status.last_notice.as_deref(), Some("real-time stream opened"));
}

#[test]
fn stream_open_keeps_failed_scheduled_verification_unhealthy() {
    let mut status = RuntimeStatus::default();
    status.realtime.last_daytime_verification_at = Some(NOW - 30);
    status.realtime.last_daytime_verification_result = Some("failed: non-json-response".to_string());
    status.realtime.latest_actionable_issue = Some(issue(
        "last-24h-verification",
        "Last 24 hours verification failed: non-json-response",
    ));
    reconnect(&mut status, NOW);

    mark_realtime_stream_open(&mut status, 90, 60, NOW + 5);

    assert_eq!(status.realtime.state, "unhealthy");
    let shown = status.realtime.latest_actionable_issue.unwrap();
    assert_eq!(shown.source, "last-24h-verification");
    assert!(shown.summary.contains("Last 24 hours verification failed"));
}

#[test]
fn stream_open_keeps_stale_full_recheck_freshness_unhealthy() {
    let mut status = RuntimeStatus::default();
    status.realtime.last_event_observed_at = Some(NOW - 2);
    status.realtime.latest_actionable_issue = Some(ActionableIssueSnapshot {
        severity: "warning".to_string(),
        ..issue(
            "full-watched-set-freshness",
            "full watched-set coverage is stale for 7/10 pages",
        )
    });
    reconnect(&mut status, NOW);

    mark_realtime_stream_open(&mut status, 90, 60, NOW + 5);

    assert_eq!(status.realtime.state, "unhealthy");
    assert_eq!(
        status.realtime.latest_actionable_issue.unwrap().source,
        "full-watched-set-freshness"
    );
}

#[test]
fn stream_open_under_backoff_names_the_deadline() {
    let mut status = RuntimeStatus::default();
    status.realtime.backoff_until = Some(at("2026-04-29T12:01:00Z"));
    mark_realtime_stream_open(&mut status, 90, 60, NOW);
    assert_eq!(status.realtime.state, "catching-up");
    assert_eq!(
        status.last_notice.as_deref(),
        Some("real-time stream opened; catch-up backoff until 12:01:00 UTC")
    );
    assert!(status.realtime.current_task.is_none());
}

#[test]
fn default_recovery_window_prefers_last_successful_hide() {
    let mut status = RuntimeStatus::default();
    let anchor = at("2026-04-29T08:00:00Z");
    status.realtime.last_successful_hide_at = Some(anchor);
    let end = at("2026-04-29T09:00:00Z");
    let window = default_recovery_window(&status, end, 1800);
    assert_eq!(window.start, anchor);
    assert_eq!(window.scope_label, "since last successful hide");
    assert!(window.allow_large_window);
}

#[test]
fn default_recovery_window_falls_back_to_configured_recent_window() {
    let status = RuntimeStatus::default();
    let end = at("2026-04-29T09:00:00Z");
    let window = default_recovery_window(&status, end, 1800);
    assert_eq!(window.start, end - 1800);
    assert_eq!(window.scope_label, "recent emergency window");
    assert!(!window.allow_large_window);
}

fn summary(scope: &str, requested_by: &str) -> CoverageSummary {
    CoverageSummary {
        scope_label: Some(scope.to_string()),
        started_at: Some(NOW - 300),
        ended_at: Some(NOW),
        requested_by: requested_by.to_string(),
        edits_checked: 4,
        ..CoverageSummary::default()
    }
}

#[test]
fn mark_recovery_completed_converges_stale_state_to_healthy_when_clear() {
    let mut status = RuntimeStatus::default();
    status.realtime.state = "stale".to_string();
    status.realtime.catchup_active = true;
    status.realtime.stale_threshold_seconds = 90;
    status.realtime.latest_actionable_issue = Some(ActionableIssueSnapshot {
        severity: "warning".to_string(),
        ..issue("stream", "stream went stale")
    });
    mark_recentchanges_poll_succeeded(
        &mut status,
        Some(NOW - 1),
        "recentchanges poll completed".to_string(),
        NOW,
    );
    let done = summary("since last successful hide", "stream-gap");

    mark_recovery_completed(&mut status, done.clone(), NOW + 1);

    assert_eq!(status.realtime.state, "healthy");
    assert!(!status.realtime.catchup_active);
    assert!(status.realtime.latest_actionable_issue.is_none());
    assert_eq!(status.realtime.current_task.as_ref().unwrap().task_kind, "idle");
    assert_eq!(status.realtime.latest_recovery_summary, Some(done));
    assert_eq!(
        status.last_notice.as_deref(),
        Some("catch-up completed checked=4 unresolved=0")
    );
}

#[test]
fn mark_recovery_completed_without_fresh_poll_does_not_claim_healthy() {
    let mut status = RuntimeStatus::default();
    status.realtime.state = "stale".to_string();
    status.realtime.catchup_active = true;
    mark_recovery_completed(&mut status, summary("since last successful hide", "startup"), NOW);
    assert_ne!(status.realtime.state, "healthy");
    assert!(matches!(status.realtime.state.as_str(), "starting" | "stale"));
}

#[test]
fn mark_recovery_completed_converges_stale_state_to_unhealthy_when_unresolved_remain() {
    let mut status = RuntimeStatus::default();
    status.realtime.state = "stale".to_string();
    status.realtime.catchup_active = true;
    let done = CoverageSummary {
        unresolved_count: 2,
        edits_checked: 2,
        ..summary("recent emergency window", "startup")
    };

    mark_recovery_completed(&mut status, done.clone(), NOW);

    assert_eq!(status.realtime.state, "unhealthy");
    assert!(!status.realtime.catchup_active);
    let shown = status.realtime.latest_actionable_issue.unwrap();
    assert_eq!(
        shown.summary,
        "2 unresolved revisions remain after recent emergency window"
    );
    assert_eq!(status.realtime.latest_recovery_summary, Some(done));
}

#[test]
fn mark_recovery_completed_preserves_persistent_live_issue_until_live_or_recovery_success() {
    let mut status = RuntimeStatus::default();
    status.realtime.catchup_active = true;
    status.realtime.latest_outcome = Some(live_outcome("retrying", 77));
    status.realtime.latest_actionable_issue =
        Some(issue("live-hide", "live hide failed for revid 77"));
    mark_recentchanges_poll_succeeded(
        &mut status,
        Some(NOW - 1),
        "recentchanges poll completed".to_string(),
        NOW,
    );
    mark_recovery_completed(&mut status, summary("since last successful hide", "startup"), NOW + 1);
    assert_eq!(status.realtime.state, "unhealthy");
    assert_eq!(status.realtime.latest_actionable_issue.unwrap().source, "live-hide");
}

#[test]
fn live_failure_recovery_success_clears_persistent_live_issue() {
    let mut status = RuntimeStatus::default();
    status.realtime.catchup_active = true;
    status.realtime.stale_threshold_seconds = 90;
    status.realtime.latest_outcome = Some(live_outcome("retrying", 77));
    status.realtime.latest_actionable_issue =
        Some(issue("live-hide", "live hide failed for revid 77"));
    mark_recentchanges_poll_succeeded(
        &mut status,
        Some(NOW - 1),
        "recentchanges poll completed".to_string(),
        NOW,
    );
    let done = CoverageSummary {
        hidden_count: 1,
        edits_checked: 1,
        ..summary("since last successful hide", "live-failure")
    };
    mark_recovery_completed(&mut status, done, NOW + 1);
    assert_eq!(status.realtime.state, "healthy");
    assert!(status.realtime.latest_outcome.is_none());
    assert!(status.realtime.latest_actionable_issue.is_none());
}

#[test]
fn recovery_backoff_shows_catching_up_and_the_wait() {
    let mut status = RuntimeStatus::default();
    status.realtime.catchup_active = true;
    let done = CoverageSummary {
        backoff_until: Some(at("2026-04-29T12:11:00Z")),
        stopped_early_reason: Some("rate-limited".to_string()),
        warning_summaries: vec![WarningSummary {
            class: "rate-limit".to_string(),
            api_code: Some("ratelimited".to_string()),
            operation: "revisiondelete".to_string(),
            count: 3,
            ..WarningSummary::default()
        }],
        ..summary("recent emergency window", "startup")
    };
    mark_recovery_completed(&mut status, done, NOW);
    assert_eq!(status.realtime.state, "catching-up");
    assert_eq!(status.realtime.backoff_until, Some(at("2026-04-29T12:11:00Z")));
    let shared = status.realtime.shared_backoff.clone().unwrap();
    assert_eq!(shared.source, "recovery");
    assert_eq!(shared.reason, "rate-limit-backoff");
    let task = status.realtime.current_task.clone().unwrap();
    assert_eq!(task.task_kind, "backoff");
    assert_eq!(task.expected_resume_at, Some(at("2026-04-29T12:11:00Z")));
    let shown = status.realtime.latest_actionable_issue.clone().unwrap();
    assert_eq!(shown.severity, "warning");
    assert_eq!(shown.next_action, "wait for recovery backoff until 12:11:00 UTC");
    assert_eq!(shown.summary, "catch-up paused until 12:11:00 UTC (rate-limited)");
    assert_eq!(status.realtime.latest_error_code.as_deref(), Some("ratelimited"));
    assert_eq!(status.resource_economy.unwrap().coalesced_warning_count_recent, 3);
    assert_eq!(status.realtime.latest_recovery_warnings.len(), 1);
}

#[test]
fn freshness_probe_updates_precise_lag_and_source() {
    let mut status = RuntimeStatus::default();
    record_freshness_probe(
        &mut status,
        NOW - 1,
        "api-freshness-probe".to_string(),
        "probe updated lag".to_string(),
        NOW,
    );
    assert_eq!(status.realtime.current_lag_source.as_deref(), Some("api-freshness-probe"));
    assert_eq!(status.realtime.current_lag_seconds, Some(1));
    assert_eq!(status.realtime.current_lag_millis, Some(1000));
    assert_eq!(status.realtime.last_freshness_probe_at, Some(NOW));
    assert_eq!(status.last_notice.as_deref(), Some("probe updated lag"));
}

#[test]
fn recentchanges_poll_success_restores_healthy_truth() {
    let mut status = RuntimeStatus::default();
    mark_recentchanges_poll_failed(
        &mut status,
        poll_failure(NOW),
        "recentchanges polling failed: network timeout".to_string(),
        NOW,
    );
    assert_eq!(status.realtime.state, "stale");
    assert_eq!(status.realtime.latest_actionable_issue.as_ref().unwrap().source, "polling");

    mark_recentchanges_poll_succeeded(
        &mut status,
        Some(NOW),
        "recentchanges poll completed".to_string(),
        NOW + 1,
    );

    assert_eq!(status.realtime.state, "healthy");
    assert_eq!(status.realtime.last_freshness_probe_source.as_deref(), Some("polling"));
    assert!(status.realtime.latest_actionable_issue.is_none());
    assert!(status.realtime.latest_error.is_none());
    assert_eq!(status.realtime.last_offline_recovered_at, Some(NOW + 1));
}

#[test]
fn recentchanges_poll_success_does_not_clear_unresolved_live_hide_issue() {
    let mut status = RuntimeStatus::default();
    status.realtime.state = "starting".to_string();
    status.realtime.latest_actionable_issue = Some(issue(
        "live-hide",
        "cannot hide synthetic revid because protection is blocked",
    ));
    mark_recentchanges_poll_succeeded(
        &mut status,
        Some(NOW - 1),
        "recentchanges poll completed".to_string(),
        NOW,
    );
    assert_eq!(status.realtime.state, "unhealthy");
    assert_eq!(status.realtime.latest_actionable_issue.unwrap().source, "live-hide");
}

#[test]
fn recentchanges_poll_success_resets_lag_to_current_poll_head() {
    let mut status = RuntimeStatus::default();
    let older_event = NOW - 7200;
    status.realtime.last_event_observed_at = Some(older_event);
    mark_recentchanges_poll_succeeded(
        &mut status,
        Some(NOW - 4),
        "recentchanges poll completed".to_string(),
        NOW,
    );
    assert_eq!(status.realtime.current_lag_seconds, Some(0));
    assert_eq!(status.realtime.current_lag_millis, Some(0));
    assert_eq!(status.realtime.current_lag_source.as_deref(), Some("polling"));
    assert_eq!(status.realtime.last_event_observed_at, Some(NOW - 4));
}

#[test]
fn poll_failure_with_retry_after_shares_backoff() {
    let mut status = RuntimeStatus::default();
    let failure = ApiFailureSnapshot {
        retry_after_seconds: Some(60),
        ..poll_failure(NOW)
    };
    mark_recentchanges_poll_failed(&mut status, failure, "recentchanges polling throttled".to_string(), NOW);
    assert_eq!(status.realtime.state, "catching-up");
    assert_eq!(status.realtime.backoff_until, Some(NOW + 60));
    let shown = status.realtime.latest_actionable_issue.unwrap();
    assert_eq!(shown.severity, "warning");
    assert_eq!(
        shown.next_action,
        "wait until 12:01:00 UTC and verify the next poll cycle"
    );
    let task = status.realtime.current_task.unwrap();
    assert_eq!(task.task_kind, "polling");
    assert_eq!(task.expected_resume_at, Some(NOW + 60));
    assert_eq!(status.realtime.last_offline_started_at, Some(NOW));
}

#[test]
fn mark_stream_quiet_without_gap_keeps_idle_work_visible() {
    let mut status = RuntimeStatus::default();
    mark_stream_quiet_without_gap(
        &mut status,
        10,
        "stream quiet for 10s; freshness probe found no newer target-wiki edits".to_string(),
        NOW,
    );
    assert_eq!(status.realtime.state, "healthy");
    assert_eq!(status.realtime.current_task.as_ref().unwrap().task_kind, "idle");
    assert!(status
        .realtime
        .latest_notice
        .as_deref()
        .is_some_and(|notice| notice.contains("no newer target-wiki edits")));
}

#[test]
fn mark_stream_quiet_without_gap_clears_reconnect_noise_state() {
    let mut status = RuntimeStatus::default();
    mark_stream_reconnecting(
        &mut status,
        "stream-closed".to_string(),
        "event stream ended".to_string(),
        "real-time stream closed; reconnecting".to_string(),
        NOW,
    );
    mark_stream_quiet_without_gap(&mut status, 10, String::new(), NOW + 10);
    assert_eq!(status.realtime.state, "healthy");
    assert_eq!(status.realtime.last_recovery_trigger, None);
    assert_eq!(status.realtime.last_reconnect_reason, None);
    assert!(status.realtime.latest_actionable_issue.is_none());
    assert_eq!(status.realtime.last_offline_recovered_at, Some(NOW + 10));
    assert_eq!(
        status.last_notice.as_deref(),
        Some("stream quiet for 10s; freshness probe found no newer target-wiki edits")
    );
}

#[test]
fn mark_recovery_started_preserves_polling_issue() {
    let mut status = RuntimeStatus::default();
    mark_recentchanges_poll_failed(
        &mut status,
        ApiFailureSnapshot { message: "timeout".to_string(), ..poll_failure(NOW) },
        "recentchanges polling failed: timeout".to_string(),
        NOW,
    );
    mark_recovery_started(
        &mut status,
        "startup".to_string(),
        "since last successful hide".to_string(),
        NOW - 300,
        NOW,
        NOW + 1,
    );
    assert_eq!(status.realtime.latest_actionable_issue.as_ref().unwrap().source, "polling");
    assert!(status.realtime.catchup_active);
    assert_eq!(status.realtime.state, "catching-up");
    assert_eq!(
        status.last_notice.as_deref(),
        Some("since last successful hide catch-up started (startup)")
    );
}

#[test]
fn record_action_completed_surfaces_blocked_and_retrying_live_outcomes() {
    let mut status = RuntimeStatus::default();
    let live = action(RevDelMode::Live, "Foo", 88, NOW - 5);
    record_action_completed(
        &mut status,
        &live,
        "blocked",
        Some("permissiondenied".to_string()),
        1,
        "be.wikipedia.org",
        LaneLoad::default(),
        LaneLoad::default(),
        NOW,
    );
    assert_eq!(status.realtime.state, "blocked");
    assert_eq!(status.realtime.live_lane.in_flight, 0);
    let shown = status.realtime.latest_actionable_issue.clone().unwrap();
    assert_eq!(shown.source, "live-hide");
    assert_eq!(shown.summary, "cannot hide revid 88 because protection is blocked");
    assert_eq!(status.realtime.latest_outcome.as_ref().unwrap().outcome, "blocked");
    assert_eq!(status.realtime.current_task.as_ref().unwrap().task_kind, "protection-blocked");

    record_action_completed(
        &mut status,
        &live,
        "retrying",
        Some("rate-limited".to_string()),
        2,
        "be.wikipedia.org",
        LaneLoad::default(),
        LaneLoad::default(),
        NOW + 1,
    );
    assert_eq!(status.realtime.state, "unhealthy");
    let outcome = status.realtime.latest_outcome.clone().unwrap();
    assert_eq!(outcome.outcome, "retrying");
    assert_eq!(outcome.attempt_count, 2);
    assert_eq!(outcome.lane.as_deref(), Some("live"));
    assert_eq!(
        outcome.revision_url.as_deref(),
        Some("https://be.wikipedia.org/wiki/Special:Diff/88")
    );
    assert_eq!(status.realtime.latest_notice.as_deref(), Some("retrying revid 88"));
}

#[test]
fn background_actions_do_not_mask_live_failure_outcome() {
    let mut status = RuntimeStatus::default();
    let live = action(RevDelMode::Live, "Live", 101, NOW - 5);
    record_action_completed(&mut status, &live, "retrying", Some("rate-limited".to_string()), 1,
        "be.wikipedia.org", LaneLoad::default(), LaneLoad::default(), NOW);
    let background = action(RevDelMode::Catchup, "Catchup", 202, NOW - 5);
    record_action_completed(&mut status, &background, "hidden", None, 1, "be.wikipedia.org",
        LaneLoad::default(), LaneLoad::default(), NOW + 1);
    let outcome = status.realtime.latest_outcome.unwrap();
    assert_eq!(outcome.mode, RevDelMode::Live.label());
    assert_eq!(outcome.outcome, "retrying");
}

#[test]
fn successful_background_hide_keeps_recovery_anchor_on_revision_time() {
    let mut status = RuntimeStatus::default();
    let older_revision = NOW - 600;
    let newer_missed_live_edit = NOW - 60;
    let live = action(RevDelMode::Live, "Live", 101, newer_missed_live_edit);
    record_action_completed(&mut status, &live, "retrying", Some("rate-limited".to_string()), 1,
        "be.wikipedia.org", LaneLoad::default(), LaneLoad::default(), NOW);
    let background = action(RevDelMode::Catchup, "Catchup", 202, older_revision);
    record_action_completed(&mut status, &background, "hidden", None, 1, "be.wikipedia.org",
        LaneLoad::default(), LaneLoad::default(), NOW + 1);
    let window = default_recovery_window(&status, NOW + 2, 1800);
    assert_eq!(status.realtime.last_successful_hide_at, Some(older_revision));
    assert_eq!(window.start, older_revision);
    assert!(window.start < newer_missed_live_edit);
}

#[test]
fn live_hide_success_converges_to_healthy_and_records_lanes() {
    let mut status = RuntimeStatus::default();
    status.realtime.state = "unhealthy".to_string();
    status.realtime.last_freshness_probe_source = Some("polling".to_string());
    status.realtime.last_freshness_probe_at = Some(NOW);
    status.realtime.stale_threshold_seconds = 90;
    status.realtime.latest_actionable_issue = Some(issue("stream", "stream dropped"));
    let live = action(RevDelMode::Live, "Foo", 5, NOW - 3);
    let lanes = LaneLoad { queue_depth: 2, queue_capacity: 8, in_flight: 2, concurrency_limit: 2 };
    record_action_completed(&mut status, &live, "hidden", None, 1, "be.wikipedia.org", lanes,
        LaneLoad { queue_depth: 3, ..LaneLoad::default() }, NOW + 1);
    assert_eq!(status.realtime.state, "healthy");
    assert!(status.realtime.latest_actionable_issue.is_none());
    assert_eq!(status.realtime.current_task.as_ref().unwrap().task_kind, "idle");
    assert_eq!(status.realtime.last_successful_hide_revid, Some(5));
    assert_eq!(status.realtime.queue_depth, 2);
    assert_eq!(status.realtime.live_lane.queue_capacity, 8);
    assert_eq!(status.realtime.live_lane.in_flight, 1);
    let economy = status.resource_economy.unwrap();
    assert_eq!(economy.queue_depth_max_recent, 5);
    assert_eq!(economy.api_concurrency_max_recent, 1);
}

#[test]
fn completion_latencies_follow_the_hide() {
    let live = action(RevDelMode::Live, "Foo", 5, NOW - 3);
    assert_eq!(completion_latencies(&live, "hidden", NOW), (Some(2000), Some(3000)));
    assert_eq!(completion_latencies(&live, "failed", NOW), (Some(2000), None));
    let background = action(RevDelMode::Catchup, "Foo", 5, NOW - 3);
    assert_eq!(completion_latencies(&background, "hidden", NOW), (Some(2000), None));
    let lane = ExecutionLaneKind::Background;
    assert_eq!(lane.label(), "background");
}

#[test]
fn reconciliation_status_updates_preserve_active_live_hide_task() {
    let started_at = at("2026-04-30T09:00:00Z");
    let completed_at = at("2026-04-30T09:05:00Z");
    let daytime_window_start = Some(at("2026-04-29T09:00:00Z"));
    let mut status = RuntimeStatus::default();
    status.realtime.current_task = Some(CurrentTaskSnapshot {
        task_kind: "live-hide".to_string(),
        label: "hiding watched edit Foo".to_string(),
        progress_done: Some(0),
        progress_total: Some(1),
        window_start: None,
        window_end: None,
        started_at: Some(started_at),
        expected_resume_at: None,
    });

    apply_reconciliation_started_status(&mut status, ReconcileMode::CurrentDay, started_at, daytime_window_start);

    assert!(status.reconciliation.active);
    assert_eq!(status.reconciliation.mode.as_deref(), Some("last-24h"));
    assert_eq!(status.realtime.current_task.as_ref().unwrap().task_kind, "live-hide");

    apply_reconciliation_completed_status(
        &mut status,
        ReconcileMode::CurrentDay,
        completed_at,
        daytime_window_start,
        "completed".to_string(),
        "Last 24 hours verification completed".to_string(),
        None,
        None,
    );

    assert!(!status.reconciliation.active);
    assert_eq!(status.realtime.current_task.as_ref().unwrap().task_kind, "live-hide");
    assert_eq!(status.realtime.last_daytime_verification_window_start, daytime_window_start);
    assert_eq!(status.realtime.last_daytime_verification_at, Some(completed_at));
}

#[test]
fn full_recheck_stopped_by_unresolved_live_hide_stays_blocked() {
    let mut status = RuntimeStatus::default();
    status.realtime.state = "blocked".to_string();
    status.realtime.latest_actionable_issue = Some(issue(
        "live-hide",
        "cannot hide synthetic revid because protection is blocked",
    ));
    apply_reconciliation_started_status(&mut status, ReconcileMode::Full, NOW, None);
    assert_eq!(status.daemon_state, "running");
    assert_eq!(status.last_notice.as_deref(), Some("Full watched-set recheck started"));
    apply_reconciliation_completed_status(
        &mut status,
        ReconcileMode::Full,
        NOW + 1,
        None,
        "stopped-early: live-hide-unresolved".to_string(),
        "Full watched-set recheck stopped early".to_string(),
        Some("live-hide-unresolved".to_string()),
        None,
    );
    assert!(!status.reconciliation.active);
    assert_eq!(status.realtime.state, "blocked");
    assert_eq!(
        status.reconciliation.stopped_early_reason.as_deref(),
        Some("live-hide-unresolved")
    );
    assert_eq!(status.realtime.latest_actionable_issue.unwrap().source, "live-hide");
}

#[test]
fn failed_pass_raises_its_verification_issue() {
    let mut status = RuntimeStatus::default();
    apply_reconciliation_completed_status(
        &mut status,
        ReconcileMode::Full,
        NOW,
        None,
        "failed: non-json-response".to_string(),
        "Full watched-set recheck failed".to_string(),
        None,
        None,
    );
    assert_eq!(status.realtime.state, "unhealthy");
    let shown = status.realtime.latest_actionable_issue.unwrap();
    assert_eq!(shown.source, "full-watched-set-recheck");
    assert_eq!(shown.summary, "full watched-set recheck failed: non-json-response");
    assert_eq!(status.realtime.last_nightly_full_recheck_at, Some(NOW));
}

#[test]
fn stopped_pass_reports_the_wait() {
    let mut status = RuntimeStatus::default();
    status.realtime.backoff_until = Some(NOW + 60);
    apply_reconciliation_completed_status(
        &mut status,
        ReconcileMode::CurrentDay,
        NOW,
        Some(NOW - 86_400),
        "stopped-early: rate-limited".to_string(),
        "Last 24 hours verification stopped early".to_string(),
        Some("rate-limited".to_string()),
        Some(NOW + 60),
    );
    assert_eq!(status.realtime.state, "catching-up");
    let shown = status.realtime.latest_actionable_issue.unwrap();
    assert_eq!(shown.summary, "Last 24 hours verification stopped early: rate-limited");
    assert_eq!(shown.next_action, "wait until 12:01:00 UTC and rerun scheduled verification");
}

#[test]
fn issue_builders_name_the_mode() {
    let blocked = blocked_actionable_issue_for_mode("coverage", 9, NOW);
    assert_eq!(blocked.source, "coverage");
    assert_eq!(blocked.summary, "coverage hide blocked for revid 9");
    let other = blocked_actionable_issue_for_mode("unknown", 9, NOW);
    assert_eq!(other.source, "live-hide");
    assert_eq!(other.next_action, "check auth and wiki-side rights immediately");
    let auth = reconciliation_stopped_early_issue(ReconcileMode::Full, "auth-session", NOW, None);
    assert_eq!(
        auth.next_action,
        "re-authenticate the daemon session and rerun scheduled verification"
    );
    assert_eq!(auth.summary, "Full watched-set recheck stopped early: auth-session");
}

#[test]
fn scheduled_failure_issue_prefers_the_later_failure() {
    let mut status = RuntimeStatus::default();
    status.realtime.last_daytime_verification_result = Some("failed: a".to_string());
    status.realtime.last_daytime_verification_at = Some(NOW);
    status.realtime.last_nightly_full_recheck_result = Some("failed: b".to_string());
    status.realtime.last_nightly_full_recheck_at = Some(NOW - 10);
    let shown = scheduled_verification_failure_issue(&status.realtime, NOW).unwrap();
    assert_eq!(shown.source, "last-24h-verification");
    status.realtime.last_nightly_full_recheck_at = Some(NOW);
    let shown = scheduled_verification_failure_issue(&status.realtime, NOW).unwrap();
    assert_eq!(shown.source, "full-watched-set-recheck");
    status.realtime.last_daytime_verification_result = Some("completed".to_string());
    status.realtime.last_nightly_full_recheck_result = None;
    assert!(scheduled_verification_failure_issue(&status.realtime, NOW).is_none());
}

#[test]
fn restore_raises_the_standing_trouble_again() {
    let mut status = RuntimeStatus::default();
    status.realtime.latest_outcome = Some(live_outcome("blocked", 12));
    restore_persistent_issue(&mut status, NOW);
    let shown = status.realtime.latest_actionable_issue.clone().unwrap();
    assert_eq!(shown.summary, "cannot hide revid 12 because protection is blocked");
    let mut quiet = RuntimeStatus::default();
    restore_persistent_issue(&mut quiet, NOW);
    assert!(quiet.realtime.latest_actionable_issue.is_none());
}

#[test]
fn alarms_open_offline_intervals_and_name_the_step() {
    let mut status = RuntimeStatus::default();
    mark_stream_gap_detected(&mut status, "silent-starvation".to_string(), "gap".to_string(),
        "stream went quiet".to_string(), NOW);
    assert_eq!(status.realtime.state, "stale");
    assert_eq!(status.realtime.last_offline_started_at, Some(NOW));
    mark_recovery_failed(&mut status, "startup".to_string(), "recovery-error".to_string(),
        "recovery failed".to_string(), NOW + 5);
    assert_eq!(status.realtime.state, "unhealthy");
    assert_eq!(status.realtime.last_offline_started_at, Some(NOW));
    assert_eq!(status.realtime.latest_actionable_issue.as_ref().unwrap().source, "recovery");
    record_state_persistence_failure(&mut status, "processed-revids".to_string(), "/var/state",
        "disk full".to_string(), NOW + 6);
    let shown = status.realtime.latest_actionable_issue.clone().unwrap();
    assert_eq!(shown.summary, "local state persistence failed for processed-revids");
    assert_eq!(shown.next_action, "check writable state path /var/state and watch reconnect status");
    mark_realtime_state(&mut status, "healthy", None, None, None, "all good".to_string(), NOW + 7);
    assert_eq!(status.realtime.state, "healthy");
    assert_eq!(status.realtime.latest_actionable_issue.unwrap().source, "state-persistence");
}

#[test]
fn api_failure_records_issue_and_backoff() {
    let mut status = RuntimeStatus::default();
    let failure = ApiFailureSnapshot {
        class: "rate-limit".to_string(),
        api_code: None,
        retryable: true,
        retry_after_seconds: Some(30),
        operation: "revisiondelete".to_string(),
        message: "slow down".to_string(),
        occurred_at: Some(NOW),
        ..ApiFailureSnapshot::default()
    };
    record_api_failure(&mut status, failure, NOW);
    assert_eq!(status.realtime.latest_error_code.as_deref(), Some("rate-limit"));
    assert_eq!(status.realtime.latest_notice.as_deref(), Some("revisiondelete rate-limit failed"));
    let shown = status.realtime.latest_actionable_issue.clone().unwrap();
    assert_eq!(shown.summary, "revisiondelete failed: slow down");
    assert_eq!(shown.next_action, "wait 30s for backoff, then recheck");
    assert_eq!(status.realtime.backoff_until, Some(NOW + 30));
    assert_eq!(status.realtime.shared_backoff.unwrap().source, "revisiondelete");
}

#[test]
fn stream_events_and_matches_are_recorded() {
    let mut status = RuntimeStatus::default();
    mark_realtime_event(&mut status, Some("evt-1".to_string()), Some(NOW - 2), NOW);
    assert_eq!(status.realtime.last_event_id.as_deref(), Some("evt-1"));
    assert_eq!(status.realtime.current_lag_millis, Some(2000));
    assert_eq!(status.realtime.state, "healthy");
    assert_eq!(status.realtime.latest_notice.as_deref(), Some("observed target-wiki event"));
    mark_realtime_match(&mut status, "Foo".to_string(), 9, "https://x/9".to_string(), None, NOW);
    assert_eq!(status.realtime.last_matching_edit_at, Some(NOW));
    assert_eq!(status.realtime.latest_notice.as_deref(), Some("matched watched revid 9"));
}

#[test]
fn source_refresh_deferral_and_failure() {
    let mut status = RuntimeStatus::default();
    let deferred = SourceListRefresh {
        outcome: "deferred".to_string(),
        deferred_until: Some(NOW + 120),
        ..SourceListRefresh::default()
    };
    record_source_refresh(&mut status, deferred, NOW);
    assert_eq!(status.realtime.state, "catching-up");
    assert_eq!(status.realtime.current_task.as_ref().unwrap().task_kind, "source-refresh-backoff");
    assert_eq!(
        status.last_notice.as_deref(),
        Some("source refresh deferred new=0 removed=0 catchup=false")
    );
    let mut failing = RuntimeStatus::default();
    let failed = SourceListRefresh {
        outcome: "fetch-failed".to_string(),
        new_titles_count: 2,
        ..SourceListRefresh::default()
    };
    record_source_refresh(&mut failing, failed, NOW);
    assert_eq!(failing.realtime.state, "unhealthy");
    assert_eq!(failing.realtime.latest_actionable_issue.unwrap().source, "source-refresh");
}

#[test]
fn finishing_a_hide_lowers_only_its_own_lane() {
    let busy = LaneLoad { queue_depth: 1, queue_capacity: 4, in_flight: 3, concurrency_limit: 4 };
    let (live, background) = lane_loads_after_completion(ExecutionLaneKind::Background, busy, busy);
    assert_eq!(live.in_flight, 3);
    assert_eq!(background.in_flight, 2);
    assert_eq!(background.queue_depth, 1);
    let (live, _) = lane_loads_after_completion(ExecutionLaneKind::Live, LaneLoad::default(), busy);
    assert_eq!(live.in_flight, 0);

    let mut status = RuntimeStatus::default();
    let catchup = action(RevDelMode::Catchup, "Foo", 9, NOW - 3);
    record_action_completed(&mut status, &catchup, "hidden", None, 1, "be.wikipedia.org", busy, busy, NOW);
    assert_eq!(status.realtime.live_lane.in_flight, 3);
    assert_eq!(status.realtime.background_lane.in_flight, 2);
}
