use suppressor::auth::AuthState;
use suppressor::metrics::{
    latency_sample_limit_for_tests, record_observed_to_hide_latency_ms,
    record_observed_to_queue_latency_ms, reset_runtime_latency_metrics_for_tests,
    snapshot_runtime_latency_metrics, BoundedLatencyMetric, RuntimeLatencyMetrics,
};
use suppressor::processed::ProcessedRevidsState;
use suppressor::recentchange::{Meta, RecentChangeEvent, RevisionPayload};
use suppressor::reconcile::{
    next_checkpoint, reconciliation_issue_source, reconciliation_since,
    revisiondelete_batch_limit, PageCheckpoint, ReconcileCoordinator, ReconcileMode,
    ReconciliationFailureAggregates, RunRequestOutcome,
};
use suppressor::scheduler::{next_current_day_delay, rolling_window_start, scheduler_backoff_delay};
use suppressor::state::ApiFailureSnapshot;
use suppressor::titles::{normalize_title, parse_source_list};

#[test]
fn normalizes_basic_titles() {
    assert_eq!(normalize_title(" Foo_bar "), "Foo bar");
    assert_eq!(normalize_title("user : Example "), "User:Example");
}

#[test]
fn parses_strict_newline_titles() {
    let input = "Foo bar\n<!-- comment -->\nBaz_qux\n* ignored\n";
    let parsed = parse_source_list(input);
    assert_eq!(parsed.titles, vec!["Foo bar", "Baz qux"]);
    assert_eq!(parsed.warnings.len(), 1);
}

#[test]
fn parsed_titles_are_distinct_and_warnings_name_the_line() {
    let parsed = parse_source_list("Foo\nfoo\nFoo\n\n[[Link]]\n");
    assert_eq!(parsed.titles, vec!["Foo", "foo"]);
    assert_eq!(parsed.warnings, vec!["Ignored unsupported source line 5: [[Link]]"]);
}

fn auth_state(rights: &[&str]) -> AuthState {
    AuthState {
        username: "Wizardist".to_string(),
        csrf_token: "csrf".to_string(),
        rights: rights.iter().map(|right| (*right).to_string()).collect(),
    }
}

#[test]
fn reports_missing_bot_right() {
    let state = auth_state(&["deleterevision", "deletelogentry"]);
    assert_eq!(state.missing_required_rights(), vec!["bot"]);
    assert!(!state.has_required_rights());
    assert!(!state.has_bot_right());
}

#[test]
fn accepts_full_required_right_set() {
    let state = auth_state(&["bot", "deleterevision", "deletelogentry"]);
    assert!(state.missing_required_rights().is_empty());
    assert!(state.has_required_rights());
    assert!(state.has_bot_right());
}

#[test]
fn high_limits_and_missing_rights_follow_the_right_set() {
    let state = auth_state(&["apihighlimits"]);
    assert!(state.has_high_limits());
    assert_eq!(
        state.missing_required_rights(),
        vec!["bot", "deleterevision", "deletelogentry"]
    );
}

#[test]
fn processed_revids_respects_capacity() {
    let mut state = ProcessedRevidsState {
        capacity: 3,
        revids: vec![],
    };
    state.insert(1);
    state.insert(2);
    state.insert(3);
    state.insert(4);
    assert_eq!(state.revids, vec![2, 3, 4]);
}

#[test]
fn processed_revids_ignore_repeats() {
    let mut state = ProcessedRevidsState {
        capacity: 0,
        revids: vec![],
    };
    state.insert(7);
    state.insert(7);
    assert_eq!(state.revids, vec![7]);
    assert!(state.contains(7));
    assert!(!state.contains(8));
}

#[test]
fn bounded_latency_metrics_keep_only_recent_samples() {
    let limit = latency_sample_limit_for_tests();
    let mut metric = BoundedLatencyMetric::default();
    for value in 1..=(limit as u64 + 8) {
        metric.record(value);
    }

    let snapshot = metric.snapshot();

    assert_eq!(snapshot.sample_count, limit);
    assert_eq!(snapshot.latest_ms, Some(limit as u64 + 8));
    assert_eq!(snapshot.min_ms, Some(9));
    assert_eq!(snapshot.max_ms, Some(limit as u64 + 8));
}

#[test]
fn latency_metric_snapshot_reports_percentiles() {
    let mut metric = BoundedLatencyMetric::default();
    for value in [5_u64, 10, 15, 20, 25] {
        metric.record(value);
    }

    let snapshot = metric.snapshot();

    assert_eq!(snapshot.sample_count, 5);
    assert_eq!(snapshot.p50_ms, Some(15));
    assert_eq!(snapshot.p95_ms, Some(25));
    assert_eq!(snapshot.p99_ms, Some(25));
}

#[test]
fn runtime_latency_metrics_record_and_reset() {
    let mut metrics = RuntimeLatencyMetrics::new();
    record_observed_to_queue_latency_ms(&mut metrics, 40);
    record_observed_to_hide_latency_ms(&mut metrics, 90);
    let snapshot = snapshot_runtime_latency_metrics(&metrics);
    assert_eq!(snapshot.observed_to_queue.latest_ms, Some(40));
    assert_eq!(snapshot.observed_to_hide.max_ms, Some(90));
    reset_runtime_latency_metrics_for_tests(&mut metrics);
    assert_eq!(snapshot_runtime_latency_metrics(&metrics).observed_to_hide.sample_count, 0);
}

fn edit_event(title: &str, old: Option<u64>, new: Option<u64>) -> RecentChangeEvent {
    RecentChangeEvent {
        meta: Some(Meta {
            id: Some("fixture-1".to_string()),
            domain: Some("be.wikipedia.org".to_string()),
        }),
        wiki: Some("bewiki".to_string()),
        server_name: Some("be.wikipedia.org".to_string()),
        change_type: Some("edit".to_string()),
        title: Some(title.to_string()),
        user: Some("FixtureUser".to_string()),
        comment: Some("Fixture comment".to_string()),
        timestamp: Some(1_714_379_810),
        revision: Some(RevisionPayload { old, new }),
    }
}

#[test]
fn recentchange_accepts_edit_event_with_revision_new() {
    let event = edit_event("Foo_bar", Some(1), Some(2));
    let candidate = event.to_candidate(Some("stream-1")).unwrap();
    assert_eq!(candidate.revid, 2);
    assert_eq!(candidate.normalized_title, "Foo bar");
    assert_eq!(candidate.event_id.as_deref(), Some("stream-1"));
    assert!(event.is_revision_event());
    assert_eq!(event.observed_at(), Some(1_714_379_810));
}

#[test]
fn accepts_edit_event_with_revision_new() {
    let event = edit_event("Foo_bar", Some(1), Some(2));
    let candidate = event.to_candidate(Some("stream-1")).unwrap();
    assert_eq!(candidate.revid, 2);
    assert_eq!(candidate.normalized_title, "Foo bar");
    assert_eq!(candidate.event_id.as_deref(), Some("stream-1"));
    assert!(event.is_revision_event());
    assert_eq!(event.observed_at(), Some(1_714_379_810));
}

#[test]
fn recentchange_rejects_missing_revision_new() {
    let event = edit_event("Foo", Some(1), None);
    assert!(event.to_candidate(None).is_none());
}

#[test]
fn rejects_missing_revision_new() {
    let event = edit_event("Foo", Some(1), None);
    assert!(event.to_candidate(None).is_none());
}

#[test]
fn recentchange_rejects_canary_and_non_matching_wikis() {
    let mut canary = edit_event("Foo", None, Some(2));
    canary.meta = Some(Meta {
        id: None,
        domain: Some("canary".to_string()),
    });
    assert!(canary.is_canary());

    let mut other = edit_event("Foo", None, Some(3));
    other.wiki = Some("enwiki".to_string());
    other.server_name = Some("en.wikipedia.org".to_string());
    assert!(!other.matches_wiki("bewiki", "be.wikipedia.org"));
    assert!(edit_event("Foo", None, Some(3)).matches_wiki("bewiki", "be.wikipedia.org"));
}

#[test]
fn rejects_canary_and_non_matching_wikis() {
    let mut canary = edit_event("Foo", None, Some(2));
    canary.meta = Some(Meta {
        id: None,
        domain: Some("canary".to_string()),
    });
    assert!(canary.is_canary());

    let mut other = edit_event("Foo", None, Some(3));
    other.wiki = Some("enwiki".to_string());
    other.server_name = Some("en.wikipedia.org".to_string());
    assert!(!other.matches_wiki("bewiki", "be.wikipedia.org"));
    assert!(edit_event("Foo", None, Some(3)).matches_wiki("bewiki", "be.wikipedia.org"));
}

#[test]
fn synthetic_fixture_can_model_source_page_events() {
    let event = edit_event("Удзельнік:Wizardist/SuppressionList", Some(10), Some(11));
    assert_eq!(
        event.title.as_deref(),
        Some("Удзельнік:Wizardist/SuppressionList")
    );
    assert!(event.is_revision_event());
    assert!(event.matches_wiki("bewiki", "be.wikipedia.org"));
}

#[test]
fn page_change_trigger_normalizes_title_and_keeps_trigger_revid() {
    let event = edit_event("Вікіпедыя:Запыты_да_схавальнікаў", Some(10), Some(11));
    let trigger = event.to_page_change_trigger().unwrap();
    assert_eq!(trigger.title, "Вікіпедыя:Запыты_да_схавальнікаў");
    assert_eq!(trigger.normalized_title, "Вікіпедыя:Запыты да схавальнікаў");
    assert_eq!(trigger.trigger_revid, Some(11));
    assert_eq!(event.event_id(None).as_deref(), Some("fixture-1"));
}

#[test]
fn page_change_trigger_capitalises_the_first_letter() {
    let event = edit_event("user:_Some_page", Some(1), Some(9));
    let trigger = event.to_page_change_trigger().unwrap();
    assert_eq!(trigger.normalized_title, "User:Some page");
}

#[test]
fn reconcile_batch_limit_uses_high_limit_rights() {
    assert_eq!(revisiondelete_batch_limit(true), 500);
    assert_eq!(revisiondelete_batch_limit(false), 50);
}

#[test]
fn batch_limit_uses_high_limit_rights() {
    assert_eq!(revisiondelete_batch_limit(true), 500);
    assert_eq!(revisiondelete_batch_limit(false), 50);
}

#[test]
fn reconcile_full_mode_since_keeps_previous_checkpoint() {
    // 2026-04-07T21:00:00Z
    let previous: i64 = 1_775_595_600;
    let since = reconciliation_since(
        ReconcileMode::Full,
        Some(previous),
        "Europe/Warsaw",
        24,
        1_777_000_000,
    );
    assert_eq!(since, Some(previous));
}

#[test]
fn full_mode_since_keeps_previous_checkpoint() {
    // 2026-04-07T21:00:00Z
    let previous: i64 = 1_775_595_600;
    let since = reconciliation_since(
        ReconcileMode::Full,
        Some(previous),
        "Europe/Warsaw",
        24,
        1_777_000_000,
    );
    assert_eq!(since, Some(previous));
}

#[test]
fn current_day_since_uses_rolling_last_24_hours_window() {
    let now: i64 = 1_776_675_600;
    let since = reconciliation_since(ReconcileMode::CurrentDay, Some(1), "Europe/Warsaw", 24, now);
    assert_eq!(since, Some(now - 24 * 3600));
}

#[test]
fn reconcile_next_checkpoint_preserves_full_check_for_current_day_runs() {
    let previous_full: i64 = 1_775_448_000;
    let last_seen: i64 = 1_775_637_000;
    let checkpoint = PageCheckpoint {
        last_full_check_at: Some(previous_full),
        ..PageCheckpoint::default()
    };

    let next = next_checkpoint(
        ReconcileMode::CurrentDay,
        &checkpoint,
        Some(last_seen),
        Some(123),
        1_777_000_000,
    );

    assert_eq!(next.last_full_check_at, Some(previous_full));
    assert_eq!(next.last_reconciled_at, Some(last_seen));
    assert_eq!(next.last_reconciled_revision_timestamp, Some(last_seen));
    assert_eq!(next.last_reconciled_revid, Some(123));
}

#[test]
fn next_checkpoint_preserves_full_check_for_current_day_runs() {
    let previous_full: i64 = 1_775_448_000;
    let last_seen: i64 = 1_775_637_000;
    let checkpoint = PageCheckpoint {
        last_full_check_at: Some(previous_full),
        ..PageCheckpoint::default()
    };

    let next = next_checkpoint(
        ReconcileMode::CurrentDay,
        &checkpoint,
        Some(last_seen),
        Some(123),
        1_777_000_000,
    );

    assert_eq!(next.last_full_check_at, Some(previous_full));
    assert_eq!(next.last_reconciled_at, Some(last_seen));
    assert_eq!(next.last_reconciled_revision_timestamp, Some(last_seen));
    assert_eq!(next.last_reconciled_revid, Some(123));
}

#[test]
fn reconcile_next_checkpoint_updates_full_check_for_full_runs() {
    let last_seen: i64 = 1_775_637_000;
    let checkpoint = PageCheckpoint::default();

    let next = next_checkpoint(
        ReconcileMode::Full,
        &checkpoint,
        Some(last_seen),
        Some(123),
        1_777_000_000,
    );

    assert_eq!(next.last_full_check_at, Some(last_seen));
    assert_eq!(next.last_reconciled_at, Some(last_seen));
    assert_eq!(next.last_reconciled_revision_timestamp, Some(last_seen));
    assert_eq!(next.last_reconciled_revid, Some(123));
    let unseen = next_checkpoint(ReconcileMode::Full, &checkpoint, None, None, 1_777_000_000);
    assert_eq!(unseen.last_full_check_at, Some(1_777_000_000));
    assert_eq!(unseen.last_reconciled_at, Some(1_777_000_000));
}

#[test]
fn next_checkpoint_updates_full_check_for_full_runs() {
    let last_seen: i64 = 1_775_637_000;
    let checkpoint = PageCheckpoint::default();

    let next = next_checkpoint(
        ReconcileMode::Full,
        &checkpoint,
        Some(last_seen),
        Some(123),
        1_777_000_000,
    );

    assert_eq!(next.last_full_check_at, Some(last_seen));
    assert_eq!(next.last_reconciled_at, Some(last_seen));
    assert_eq!(next.last_reconciled_revision_timestamp, Some(last_seen));
    assert_eq!(next.last_reconciled_revid, Some(123));
    let unseen = next_checkpoint(ReconcileMode::Full, &checkpoint, None, None, 1_777_000_000);
    assert_eq!(unseen.last_full_check_at, Some(1_777_000_000));
    assert_eq!(unseen.last_reconciled_at, Some(1_777_000_000));
}

#[test]
fn operator_labels_use_plain_language() {
    assert_eq!(
        ReconcileMode::CurrentDay.operator_label(),
        "Last 24 hours verification"
    );
    assert_eq!(
        ReconcileMode::Full.operator_label(),
        "Full watched-set recheck"
    );
    assert_eq!(ReconcileMode::CurrentDay.label(), "last-24h");
    assert_eq!(ReconcileMode::Full.label(), "nightly-full");
    assert_eq!(
        reconciliation_issue_source(ReconcileMode::Full),
        "full-watched-set-recheck"
    );
}

#[test]
fn reconciliation_failures_coalesce_root_causes_and_preserve_backoff() {
    // 2026-04-29T09:00:00Z
    let now: i64 = 1_777_453_200;
    let mut failures = ReconciliationFailureAggregates::new(2);

    for title in ["A", "B", "C"] {
        let observation = failures.record(
            ApiFailureSnapshot {
                class: "api-json-error".to_string(),
                api_code: Some("ratelimited".to_string()),
                http_status: Some(429),
                retryable: true,
                retry_after_seconds: Some(45),
                operation: "reconciliation".to_string(),
                sample_title: Some(title.to_string()),
                message: "rate limited".to_string(),
                occurred_at: Some(now),
                ..ApiFailureSnapshot::default()
            },
            30,
            now,
        );
        assert_eq!(observation.backoff_until, Some(now + 45));
    }

    let summaries = failures.into_summaries();

    assert_eq!(summaries.len(), 1);
    assert_eq!(summaries[0].count, 3);
    assert_eq!(summaries[0].retry_after_seconds, Some(45));
    assert_eq!(summaries[0].sample_titles, vec!["A", "B"]);
    assert!(!summaries[0].stopped_early);
}

#[test]
fn coordinator_runs_one_pass_and_queues_the_strongest_rerun() {
    let mut coordinator = ReconcileCoordinator::new();
    let mut status = suppressor::runtime::RuntimeStatus::default();
    assert_eq!(
        coordinator.request_run(&mut status, ReconcileMode::CurrentDay, 0),
        RunRequestOutcome::Start(ReconcileMode::CurrentDay)
    );
    assert_eq!(
        coordinator.request_run(&mut status, ReconcileMode::Full, 0),
        RunRequestOutcome::Queued(ReconcileMode::Full)
    );
    assert_eq!(
        coordinator.request_run(&mut status, ReconcileMode::CurrentDay, 0),
        RunRequestOutcome::Queued(ReconcileMode::Full)
    );
    assert_eq!(status.reconciliation.queued_mode.as_deref(), Some("nightly-full"));
    assert_eq!(coordinator.pass_finished(), Some(ReconcileMode::Full));
    assert!(coordinator.active);
    assert_eq!(coordinator.pass_finished(), None);
    assert!(!coordinator.active);
}

#[test]
fn rolling_window_start_uses_exact_last_24_hours_window() {
    // 2026-04-29T09:30:00Z and 2026-04-28T09:30:00Z
    assert_eq!(rolling_window_start(1_777_455_000, 24), 1_777_368_600);
}

#[test]
fn scheduler_backoff_delay_is_none_without_active_backoff() {
    let now: i64 = 1_777_453_200;
    assert_eq!(scheduler_backoff_delay(now, None), None);
    assert_eq!(scheduler_backoff_delay(now, Some(now - 1)), None);
}

#[test]
fn scheduler_backoff_delay_uses_remaining_backoff() {
    let now: i64 = 1_777_453_200;
    assert_eq!(scheduler_backoff_delay(now, Some(now + 37)), Some(37));
}

#[test]
fn daytime_delay_stays_inside_configured_range() {
    for _ in 0..64 {
        let delay = next_current_day_delay(10, 20);
        assert!(delay >= 10);
        assert!(delay <= 20);
    }
}

#[test]
fn daytime_delay_uses_exact_value_for_fixed_interval() {
    assert_eq!(next_current_day_delay(42, 42), 42);
}

#[test]
fn lock_is_exclusive() {
    let mut locks = suppressor::locks::KeyLockSet::new();
    let guard = locks.try_lock(42).unwrap();
    assert!(locks.try_lock(42).is_none());
    locks.release(guard);
    assert!(locks.try_lock(42).is_some());
}

#[test]
fn lock_claims_are_per_key() {
    let mut locks = suppressor::locks::KeyLockSet::new();
    let a = locks.try_lock(1).unwrap();
    let b = locks.try_lock(2).unwrap();
    assert_eq!(a.key(), 1);
    assert!(locks.is_locked(2));
    locks.release(b);
    assert!(!locks.is_locked(2));
    assert!(locks.is_locked(1));
}

#[test]
fn priority_gate_counts_active_high_priority_work() {
    let mut gate = suppressor::locks::PriorityGate::default();
    assert_eq!(gate.high_priority_active_count(), 0);
    let first = gate.begin_high_priority();
    let second = gate.begin_high_priority();
    assert_eq!(gate.high_priority_active_count(), 2);
    gate.end_high_priority(first);
    assert_eq!(gate.high_priority_active_count(), 1);
    gate.end_high_priority(second);
    assert_eq!(gate.high_priority_active_count(), 0);
    assert!(gate.high_priority_idle());
    assert_eq!(suppressor::locks::decrement_saturating(0), 0);
    assert_eq!(suppressor::locks::decrement_saturating(5), 4);
}

#[test]
fn normalizing_a_title_twice_changes_nothing() {
    for input in [" user :  Foo__bar  baz ", "Plain_title", "  : leading colon", "talk:x:y", "\tA \u{a0} b_ "] {
        let once = normalize_title(input);
        assert_eq!(normalize_title(&once), once);
        assert!(!once.contains('_'));
        assert!(!once.contains("  "));
        assert_eq!(once.trim(), once);
    }
    assert_eq!(normalize_title(" user :  Foo__bar  baz "), "User:Foo bar baz");
}
