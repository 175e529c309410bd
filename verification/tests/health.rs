use suppressor::health::{
    active_backoff_until, active_runtime_backoff_until, api_failure_next_action,
    begin_offline_interval_if_needed, converged_realtime_state_after_primary_poll,
    converged_realtime_state_after_stream_event, converged_realtime_state_after_stream_open,
    end_offline_interval_if_active, idle_task, is_gap_recovery_trigger, offline_interval_active,
    protection_blocked_task, reconciliation_preflight_stop_reason, reconciliation_task,
    render_recovery_notice, retain_runtime_backoff, set_background_current_task,
    set_shared_backoff, shared_backoff_paths, should_replace_latest_outcome,
    ActionableIssueSnapshot, LaneStatus, RealtimeRuntimeStatus, RevDelMode,
    SharedBackoffSnapshot, SuppressionOutcomeSnapshot,
};
use suppressor::reconcile::ReconcileMode;
use suppressor::state::{ApiFailureSnapshot, CoverageSummary};
use suppressor::mw_api::parse_timestamp;

fn at(text: &str) -> i64 {
    parse_timestamp(text).unwrap()
}

fn live_outcome(outcome: &str) -> SuppressionOutcomeSnapshot {
    SuppressionOutcomeSnapshot {
        title: "Title".to_string(),
        revid: 42,
        outcome: outcome.to_string(),
        mode: RevDelMode::Live.label().to_string(),
        source_label: RevDelMode::Live.source_label().to_string(),
        ..SuppressionOutcomeSnapshot::default()
    }
}

#[test]
fn active_backoff_filters_expired_values() {
    let now = at("2026-04-25T17:10:00Z");
    let expired = at("2026-04-25T17:09:59Z");
    let active = at("2026-04-25T17:10:30Z");

    assert_eq!(active_backoff_until(Some(expired), now), None);
    assert_eq!(active_backoff_until(Some(active), now), Some(active));
    assert_eq!(active_backoff_until(Some(now), now), None);
    assert_eq!(active_backoff_until(None, now), None);
}

#[test]
fn active_runtime_backoff_uses_shared_snapshot_and_filters_expired_values() {
    let now = at("2026-04-25T17:10:00Z");
    let shared_until = now + 45;
    let legacy_until = now + 5;
    let expired = now - 1;

    let status = RealtimeRuntimeStatus {
        backoff_until: Some(legacy_until),
        shared_backoff: Some(SharedBackoffSnapshot {
            source: "recovery".to_string(),
            reason: "rate-limit-backoff".to_string(),
            backoff_until: Some(shared_until),
            affected_paths: shared_backoff_paths(),
            live_hiding_blocked: false,
            recorded_at: Some(now),
        }),
        ..RealtimeRuntimeStatus::default()
    };
    assert_eq!(active_runtime_backoff_until(&status, now), Some(shared_until));

    let expired_status = RealtimeRuntimeStatus {
        backoff_until: Some(expired),
        shared_backoff: Some(SharedBackoffSnapshot {
            backoff_until: Some(expired),
            ..SharedBackoffSnapshot::default()
        }),
        ..RealtimeRuntimeStatus::default()
    };
    assert_eq!(active_runtime_backoff_until(&expired_status, now), None);
}

#[test]
fn recovery_notice_prefers_backoff_and_stop_reason() {
    let summary = CoverageSummary {
        stopped_early_reason: Some("rate-limited".to_string()),
        backoff_until: Some(at("2026-04-25T17:11:00Z")),
        edits_checked: 7,
        unresolved_count: 3,
        ..CoverageSummary::default()
    };
    assert_eq!(
        render_recovery_notice(&summary),
        "catch-up paused until 17:11:00 UTC (rate-limited)"
    );
}

#[test]
fn recovery_notice_reports_stop_and_completion() {
    let stopped = CoverageSummary {
        stopped_early_reason: Some("rate-limited".to_string()),
        ..CoverageSummary::default()
    };
    assert_eq!(
        render_recovery_notice(&stopped),
        "catch-up stopped early: rate-limited"
    );
    let completed = CoverageSummary {
        edits_checked: 7,
        unresolved_count: 3,
        ..CoverageSummary::default()
    };
    assert_eq!(
        render_recovery_notice(&completed),
        "catch-up completed checked=7 unresolved=3"
    );
}

#[test]
fn stream_event_converges_idle_catchup_to_healthy() {
    let now = at("2026-04-28T11:00:00Z");
    let status = RealtimeRuntimeStatus {
        state: "catching-up".to_string(),
        catchup_active: false,
        backoff_until: None,
        latest_outcome: Some(live_outcome("hidden")),
        ..RealtimeRuntimeStatus::default()
    };
    assert_eq!(converged_realtime_state_after_stream_event(&status, now), "healthy");
}

#[test]
fn stream_event_keeps_failed_live_protection_unhealthy() {
    let now = at("2026-04-28T11:00:00Z");
    let status = RealtimeRuntimeStatus {
        state: "catching-up".to_string(),
        catchup_active: false,
        backoff_until: None,
        latest_outcome: Some(live_outcome("failed")),
        ..RealtimeRuntimeStatus::default()
    };
    assert_eq!(converged_realtime_state_after_stream_event(&status, now), "unhealthy");
}

#[test]
fn stream_open_keeps_starting_before_first_event() {
    let now = at("2026-04-28T11:00:00Z");
    let status = RealtimeRuntimeStatus {
        state: "starting".to_string(),
        ..RealtimeRuntimeStatus::default()
    };
    assert_eq!(converged_realtime_state_after_stream_open(&status, now), "starting");
}

#[test]
fn stream_open_after_reconnect_and_event_is_healthy() {
    let now = at("2026-04-28T11:00:00Z");
    let reconnecting = RealtimeRuntimeStatus {
        state: "reconnecting".to_string(),
        ..RealtimeRuntimeStatus::default()
    };
    assert_eq!(
        converged_realtime_state_after_stream_open(&reconnecting, now),
        "reconnecting"
    );
    let seen = RealtimeRuntimeStatus {
        state: "reconnecting".to_string(),
        last_event_observed_at: Some(now - 10),
        ..RealtimeRuntimeStatus::default()
    };
    assert_eq!(converged_realtime_state_after_stream_open(&seen, now), "healthy");
}

#[test]
fn catchup_or_backoff_shows_catching_up_everywhere() {
    let now = at("2026-04-28T11:00:00Z");
    let status = RealtimeRuntimeStatus {
        state: "healthy".to_string(),
        backoff_until: Some(now + 30),
        latest_outcome: Some(live_outcome("failed")),
        ..RealtimeRuntimeStatus::default()
    };
    assert_eq!(converged_realtime_state_after_stream_event(&status, now), "catching-up");
    assert_eq!(converged_realtime_state_after_stream_open(&status, now), "catching-up");
    assert_eq!(converged_realtime_state_after_primary_poll(&status, now), "catching-up");
}

#[test]
fn blocked_and_blocking_issues_are_never_healthy() {
    let now = at("2026-04-28T11:00:00Z");
    let blocked = RealtimeRuntimeStatus {
        latest_outcome: Some(live_outcome("blocked")),
        ..RealtimeRuntimeStatus::default()
    };
    assert_eq!(converged_realtime_state_after_stream_event(&blocked, now), "blocked");

    let issue = RealtimeRuntimeStatus {
        latest_actionable_issue: Some(ActionableIssueSnapshot {
            source: "polling".to_string(),
            severity: "warning".to_string(),
            summary: "polling failed".to_string(),
            next_action: "check".to_string(),
            detected_at: Some(now),
        }),
        ..RealtimeRuntimeStatus::default()
    };
    assert_eq!(converged_realtime_state_after_stream_event(&issue, now), "unhealthy");

    let failed_nightly = RealtimeRuntimeStatus {
        last_nightly_full_recheck_result: Some("failed: timeout".to_string()),
        ..RealtimeRuntimeStatus::default()
    };
    assert_eq!(
        converged_realtime_state_after_stream_event(&failed_nightly, now),
        "unhealthy"
    );
}

#[test]
fn primary_poll_uses_polling_freshness() {
    let now = at("2026-04-28T11:00:00Z");
    let fresh = RealtimeRuntimeStatus {
        last_freshness_probe_source: Some("polling".to_string()),
        last_freshness_probe_at: Some(now - 30),
        stale_threshold_seconds: 60,
        ..RealtimeRuntimeStatus::default()
    };
    assert_eq!(converged_realtime_state_after_primary_poll(&fresh, now), "healthy");
    let stale = RealtimeRuntimeStatus {
        last_freshness_probe_at: Some(now - 120),
        ..fresh.clone()
    };
    assert_eq!(converged_realtime_state_after_primary_poll(&stale, now), "stale");
    let no_signal = RealtimeRuntimeStatus::default();
    assert_eq!(converged_realtime_state_after_primary_poll(&no_signal, now), "starting");
}

#[test]
fn offline_interval_helpers_track_active_gap_window() {
    let now = at("2026-04-29T09:00:00Z");
    let recovered = now + 20;
    let mut status = RealtimeRuntimeStatus::default();

    assert!(!offline_interval_active(&status));
    begin_offline_interval_if_needed(&mut status, now);
    assert!(offline_interval_active(&status));
    assert_eq!(status.last_offline_started_at, Some(now));

    end_offline_interval_if_active(&mut status, recovered);
    assert!(!offline_interval_active(&status));
    assert_eq!(status.last_offline_recovered_at, Some(recovered));
}

#[test]
fn shared_backoff_keeps_the_later_deadline() {
    let now = at("2026-04-25T17:10:00Z");
    let mut status = RealtimeRuntimeStatus::default();
    assert_eq!(set_shared_backoff(&mut status, "recovery", "rate-limit", now + 60, now), Some(now + 60));
    assert_eq!(set_shared_backoff(&mut status, "coverage", "rate-limit", now + 10, now), Some(now + 60));
    assert_eq!(status.backoff_until, Some(now + 60));
    let shared = status.shared_backoff.clone().unwrap();
    assert_eq!(shared.source, "coverage");
    assert_eq!(shared.affected_paths, shared_backoff_paths());
    assert!(!shared.live_hiding_blocked);
    let before = status.clone();
    assert_eq!(set_shared_backoff(&mut status, "recovery", "late", now - 1, now), None);
    assert_eq!(status, before);

    assert_eq!(retain_runtime_backoff(&mut status, now + 61), None);
    assert_eq!(status.backoff_until, None);
    assert!(status.shared_backoff.is_none());
}

#[test]
fn background_task_does_not_replace_live_work() {
    let mut status = RealtimeRuntimeStatus::default();
    set_background_current_task(&mut status, idle_task("waiting", 5));
    assert_eq!(status.current_task.as_ref().unwrap().task_kind, "idle");
    set_background_current_task(&mut status, protection_blocked_task(77, 6));
    let shown = status.current_task.clone().unwrap();
    assert_eq!(shown.label, "protection blocked for revid 77");
    let mut blocked = RealtimeRuntimeStatus {
        current_task: Some(protection_blocked_task(77, 6)),
        ..RealtimeRuntimeStatus::default()
    };
    set_background_current_task(
        &mut blocked,
        reconciliation_task(ReconcileMode::Full, 10, None),
    );
    assert_eq!(blocked.current_task.unwrap().task_kind, "protection-blocked");
    let daytime = reconciliation_task(ReconcileMode::CurrentDay, 10, Some(3));
    assert_eq!(daytime.task_kind, "last-24h-verification");
    assert_eq!(daytime.window_start, Some(3));
    assert_eq!(daytime.window_end, Some(10));
}

#[test]
fn live_failure_outcome_is_not_replaced_by_background_outcome() {
    let failed = live_outcome("failed");
    let background = SuppressionOutcomeSnapshot {
        mode: "catchup".to_string(),
        ..live_outcome("hidden")
    };
    assert!(!should_replace_latest_outcome(Some(&failed), &background));
    assert!(should_replace_latest_outcome(Some(&failed), &live_outcome("hidden")));
    assert!(should_replace_latest_outcome(None, &background));
}

#[test]
fn preflight_yields_to_live_work_then_backoff() {
    let now = at("2026-04-25T17:10:00Z");
    let busy = RealtimeRuntimeStatus {
        live_lane: LaneStatus { queue_depth: 1, ..LaneStatus::default() },
        backoff_until: Some(now + 5),
        ..RealtimeRuntimeStatus::default()
    };
    assert_eq!(
        reconciliation_preflight_stop_reason(&busy, now).as_deref(),
        Some("yielding-to-live")
    );
    let backoff = RealtimeRuntimeStatus {
        backoff_until: Some(now + 5),
        ..RealtimeRuntimeStatus::default()
    };
    assert_eq!(
        reconciliation_preflight_stop_reason(&backoff, now).as_deref(),
        Some("api-backoff-active")
    );
    let failed = RealtimeRuntimeStatus {
        latest_outcome: Some(live_outcome("retrying")),
        ..RealtimeRuntimeStatus::default()
    };
    assert_eq!(
        reconciliation_preflight_stop_reason(&failed, now).as_deref(),
        Some("live-hide-unresolved")
    );
    assert_eq!(reconciliation_preflight_stop_reason(&RealtimeRuntimeStatus::default(), now), None);
}

#[test]
fn api_failure_next_action_names_the_operator_step() {
    let mut snapshot = ApiFailureSnapshot::default();
    snapshot.retry_after_seconds = Some(30);
    assert_eq!(api_failure_next_action(&snapshot), "wait 30s for backoff, then recheck");
    snapshot.retry_after_seconds = None;
    snapshot.class = "permission".to_string();
    assert_eq!(
        api_failure_next_action(&snapshot),
        "verify bot rights or page-level revisiondelete permissions before retrying"
    );
    snapshot.class = "network".to_string();
    assert_eq!(api_failure_next_action(&snapshot), "inspect auth, API, or network state");
}

#[test]
fn gap_recovery_triggers_are_named() {
    assert!(is_gap_recovery_trigger("startup"));
    assert!(is_gap_recovery_trigger("silent-starvation"));
    assert!(is_gap_recovery_trigger("invalid-resume"));
    assert!(!is_gap_recovery_trigger("manual"));
}
