use serde_json::Value;

use suppressor::cache::redirect_target_from;
use suppressor::catchup_run::start_catchup_summary;
use suppressor::dispatch::{live_deadline, queued_outcome, record_latest_outcome};
use suppressor::health::{
    active_runtime_backoff_until, reconciliation_preflight_stop_reason, shared_backoff_paths, ActionableIssueSnapshot,
    ExecutionLaneKind, RevDelMode,
};
use suppressor::mw_api::{parse_timestamp, probe_from, RawRecentChange, RecentChangeWindow};
use suppressor::outcomes::LaneLoad;
use suppressor::passes::{
    apply_reconciliation_completed_status, apply_reconciliation_started_status, pass_report, stopped_early_error,
    PassOutcome,
};
use suppressor::realtime::record_api_failure;
use suppressor::reconcile::ReconcileMode;
use suppressor::recovery::{default_recovery_window, record_source_refresh};
use suppressor::runtime::RuntimeStatus;
use suppressor::state::{ApiFailureSnapshot, SourceListRefresh};

const NOW: i64 = 1_777_464_000;

fn raw_changes(body: &str) -> Vec<RawRecentChange> {
    let value: Value = serde_json::from_str(body).unwrap();
    value["query"]["recentchanges"]
        .as_array()
        .map(|changes| {
            changes
                .iter()
                .map(|c| RawRecentChange {
                    title: c["title"].as_str().map(str::to_string),
                    timestamp: c["timestamp"].as_str().map(str::to_string),
                    revid: c["revid"].as_u64(),
                })
                .collect()
        })
        .unwrap_or_default()
}

#[test]
fn fetches_latest_recent_change_probe() {
    let changes = raw_changes(
        r#"{"query":{"recentchanges":[{"title":"Fixture Page","timestamp":"2026-04-29T09:10:02Z","revid":9000001}]}}"#,
    );
    let probe = probe_from(changes.first().cloned()).unwrap().unwrap();
    assert_eq!(probe.title.as_deref(), Some("Fixture Page"));
    assert_eq!(probe.revid, Some(9000001));
    assert_eq!(Some(probe.timestamp), parse_timestamp("2026-04-29T09:10:02+00:00"));
}

#[test]
fn latest_recent_change_probe_allows_empty_results() {
    let changes = raw_changes(r#"{"query":{"recentchanges":[]}}"#);
    assert!(probe_from(changes.first().cloned()).unwrap().is_none());
}

#[test]
fn fetches_recentchanges_window_candidates() {
    let changes = raw_changes(
        r#"{"query":{"recentchanges":[{"title":"Fixture Page","timestamp":"2026-05-13T12:00:00Z","revid":9000001}]}}"#,
    );
    let mut window = RecentChangeWindow::default();
    let more = window.absorb_chunk(&changes, false, 50).unwrap();
    assert!(!more);
    assert_eq!(window.chunk_count, 1);
    assert!(!window.truncated);
    assert_eq!(window.changes.len(), 1);
    assert_eq!(window.changes[0].title, "Fixture Page");
    assert_eq!(window.changes[0].revid, 9000001);
}

fn redirect_of(body: &str, title: &str) -> Option<String> {
    let value: Value = serde_json::from_str(body).unwrap();
    let resolved = value["query"]["redirects"]
        .as_array()
        .and_then(|redirects| redirects.first())
        .and_then(|redirect| redirect["to"].as_str())
        .map(str::to_string);
    redirect_target_from(title, resolved)
}

#[test]
fn fetch_redirect_target_uses_api_redirect_targets() {
    let redirect = redirect_of(r#"{"query":{"redirects":[{"from":"Foo","to":"Foo Redirect"}]}}"#, "Foo");
    assert_eq!(redirect, Some("Foo Redirect".to_string()));
}

#[test]
fn source_fetch_redirect_target_uses_api_redirect_targets() {
    let redirect = redirect_of(r#"{"query":{"redirects":[{"from":"Foo","to":"Foo Redirect"}]}}"#, "Foo");
    assert_eq!(redirect, Some("Foo Redirect".to_string()));
    assert_eq!(redirect_of(r#"{"query":{}}"#, "Foo"), None);
}

#[test]
fn default_catchup_reports_last_successful_hide_anchor_in_summary() {
    let max_window_seconds = 7_200;
    let anchor = NOW - 3 * 3600;
    let mut status = RuntimeStatus::default();
    status.realtime.last_successful_hide_at = Some(anchor);
    let window = default_recovery_window(&status, NOW, 1_800);
    let summary = start_catchup_summary(&window.scope_label, window.start, NOW, &"stream-gap".to_string());
    assert_eq!(summary.scope_label.as_deref(), Some("since last successful hide"));
    assert_eq!(summary.requested_by, "stream-gap");
    assert_eq!(summary.started_at, Some(anchor));
    assert!(summary
        .ended_at
        .zip(summary.started_at)
        .is_some_and(|(end, start)| end - start > max_window_seconds));
    assert!(window.allow_large_window);
}

#[test]
fn default_catchup_reports_recent_emergency_window_when_anchor_is_missing() {
    let default_window_seconds = 1_800;
    let status = RuntimeStatus::default();
    let window = default_recovery_window(&status, NOW, default_window_seconds);
    let summary = start_catchup_summary(&window.scope_label, window.start, NOW, &"startup".to_string());
    let start = summary.started_at.unwrap();
    let end = summary.ended_at.unwrap();
    assert_eq!(summary.scope_label.as_deref(), Some("recent emergency window"));
    assert_eq!(summary.requested_by, "startup");
    assert_eq!(end - start, default_window_seconds);
}

#[test]
fn source_refresh_status_does_not_overwrite_active_live_hide_task() {
    let mut status = RuntimeStatus::default();
    let deadline = live_deadline(ExecutionLaneKind::Live, NOW);
    let outcome = queued_outcome(&"Foo".to_string(), 88, RevDelMode::Live, &None, Some(NOW - 1), NOW, deadline, "be.wikipedia.org");
    let live = LaneLoad { queue_depth: 1, queue_capacity: 100, in_flight: 0, concurrency_limit: 1 };
    record_latest_outcome(&mut status, outcome, live, LaneLoad::default(), NOW);
    record_source_refresh(
        &mut status,
        SourceListRefresh {
            trigger_title: "Удзельнік:Wizardist/SuppressionList".to_string(),
            trigger_revid: Some(99),
            started_at: Some(NOW),
            completed_at: Some(NOW),
            outcome: "refreshed".to_string(),
            ..SourceListRefresh::default()
        },
        NOW,
    );
    assert_eq!(status.realtime.current_task.as_ref().map(|task| task.task_kind.as_str()), Some("live-hide"));
    assert_eq!(
        status.realtime.last_source_refresh.as_ref().map(|refresh| refresh.outcome.as_str()),
        Some("refreshed")
    );
}

#[test]
fn api_retry_after_records_shared_backoff_without_blocking_live_hiding_contract() {
    let mut status = RuntimeStatus::default();
    record_api_failure(
        &mut status,
        ApiFailureSnapshot {
            class: "http-status".to_string(),
            http_status: Some(429),
            retryable: true,
            retry_after_seconds: Some(30),
            operation: "revisiondelete".to_string(),
            message: "rate limited".to_string(),
            occurred_at: Some(NOW),
            ..ApiFailureSnapshot::default()
        },
        NOW,
    );
    let shared = status.realtime.shared_backoff.as_ref().unwrap();
    assert_eq!(shared.source, "revisiondelete");
    assert_eq!(shared.reason, "api-retry-after");
    assert_eq!(shared.affected_paths, shared_backoff_paths());
    assert!(!shared.live_hiding_blocked);
    assert_eq!(status.realtime.backoff_until, shared.backoff_until);
    assert_eq!(
        status.realtime.latest_actionable_issue.as_ref().map(|issue| issue.source.as_str()),
        Some("revisiondelete")
    );
}

#[test]
fn full_recheck_stops_before_work_when_live_hide_is_unresolved() {
    let mode = ReconcileMode::Full;
    let mut status = RuntimeStatus::default();
    status.realtime.state = "blocked".to_string();
    status.realtime.latest_actionable_issue = Some(ActionableIssueSnapshot {
        source: "live-hide".to_string(),
        severity: "error".to_string(),
        summary: "cannot hide synthetic revid because protection is blocked".to_string(),
        next_action: "run check-auth and verify wiki-side rights immediately".to_string(),
        detected_at: Some(NOW),
    });
    let reason = reconciliation_preflight_stop_reason(&status.realtime, NOW).unwrap();
    apply_reconciliation_started_status(&mut status, mode, NOW, None);
    let backoff_until = active_runtime_backoff_until(&status.realtime, NOW);
    let report = pass_report(mode, PassOutcome::Finished { stopped_early_reason: Some(reason), backoff_until });
    apply_reconciliation_completed_status(
        &mut status,
        mode,
        NOW,
        None,
        report.last_result,
        report.notice,
        report.stopped_early_reason,
        report.backoff_until,
    );
    let result: Result<(), &str> = Err(stopped_early_error(mode));
    assert!(result.is_err());
    assert!(!status.reconciliation.active);
    assert_eq!(status.realtime.state, "blocked");
    assert_eq!(status.reconciliation.stopped_early_reason.as_deref(), Some("live-hide-unresolved"));
    assert_eq!(
        status.realtime.latest_actionable_issue.as_ref().map(|issue| issue.source.as_str()),
        Some("live-hide")
    );
}

#[test]
fn low_priority_waits_until_high_priority_work_finishes() {
    let mut gate = suppressor::locks::PriorityGate::new();
    let guard = gate.begin_high_priority();
    assert!(!gate.high_priority_idle());
    gate.end_high_priority(guard);
    assert!(gate.high_priority_idle());
}
