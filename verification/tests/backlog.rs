use suppressor::catchup::format_summary_lines;
use suppressor::commands::{
    format_auth_status_lines, format_hide_revid_result, format_server_start_receipt_lines,
    next_action_for_summary, parse_rfc3339_utc, read_positive_pid, render_command_report_lines,
    resolve_server_start_log_path, validate_window_bounds, PidFileError, ServerStartReceipt,
    WindowBoundsError,
};
use suppressor::auth::AuthState;
use suppressor::config::RuntimePaths;
use suppressor::daemon_backlog::{
    effective_realtime_state, is_terminal_hide_failure, latest_quarantined_error,
    live_poll_start, migrate_terminal_pending_to_quarantine, next_pending_retry_at,
    should_retry_after_fresh_auth, startup_catchup_start, unresolved_count,
    unresolved_item_from_pending, upsert_pending, upsert_quarantined, HideTarget, PendingHide,
    SimpleDaemonState,
};
use suppressor::config::CatchupConfig;
use suppressor::state::{ApiFailureSnapshot, CoverageSummary, UnresolvedExposureItem};

fn api_failure(class: &str) -> ApiFailureSnapshot {
    ApiFailureSnapshot {
        class: class.to_string(),
        operation: "revisiondelete".to_string(),
        message: "failed".to_string(),
        ..ApiFailureSnapshot::default()
    }
}

fn api_failure_with_code(class: &str, code: &str) -> ApiFailureSnapshot {
    ApiFailureSnapshot {
        api_code: Some(code.to_string()),
        retryable: false,
        ..api_failure(class)
    }
}

const NOW: i64 = 1_780_228_800;

fn test_catchup_config() -> CatchupConfig {
    CatchupConfig {
        default_window_seconds: 1_800,
        max_window_seconds: 7_200,
        max_revisions_per_run: 500,
        warning_sample_limit: 5,
        source_refresh_title_scope_limit: 250,
        rate_limit_backoff_default_seconds: 30,
        rate_limit_stop_after_failures: 3,
        unresolved_sample_limit: 25,
    }
}

#[test]
fn permission_failure_gets_fresh_auth_retry_before_quarantine() {
    let permission = api_failure_with_code("permission", "permissiondenied");
    let cantdelete = api_failure_with_code("permission", "cantdelete");
    let timeout = api_failure("timeout");

    assert!(should_retry_after_fresh_auth(&permission));
    assert!(is_terminal_hide_failure(&permission));
    assert!(should_retry_after_fresh_auth(&cantdelete));
    assert!(is_terminal_hide_failure(&cantdelete));
    assert!(!should_retry_after_fresh_auth(&timeout));
}

#[test]
fn startup_catchup_uses_recent_window_without_cursor() {
    let state = SimpleDaemonState::default();
    assert_eq!(
        startup_catchup_start(&state, &test_catchup_config(), NOW),
        NOW - 1800
    );
}

#[test]
fn startup_catchup_clamps_old_cursor_to_max_window() {
    let state = SimpleDaemonState {
        last_successful_poll_at: Some(NOW - 86_400),
        ..SimpleDaemonState::default()
    };
    assert_eq!(
        startup_catchup_start(&state, &test_catchup_config(), NOW),
        NOW - 7_200
    );
}

#[test]
fn startup_catchup_clamps_future_cursor_to_now() {
    let state = SimpleDaemonState {
        last_successful_poll_at: Some(NOW + 60),
        ..SimpleDaemonState::default()
    };
    assert_eq!(startup_catchup_start(&state, &test_catchup_config(), NOW), NOW);
}

#[test]
fn live_poll_reuses_overlap_without_exceeding_max_window() {
    let recent = SimpleDaemonState {
        last_successful_poll_at: Some(NOW - 60),
        ..SimpleDaemonState::default()
    };
    assert_eq!(live_poll_start(&recent, &test_catchup_config(), NOW), NOW - 75);
    let old = SimpleDaemonState {
        last_successful_poll_at: Some(NOW - 86_400),
        ..SimpleDaemonState::default()
    };
    assert_eq!(live_poll_start(&old, &test_catchup_config(), NOW), NOW - 7_200);
    let none = SimpleDaemonState::default();
    assert_eq!(live_poll_start(&none, &test_catchup_config(), NOW), NOW - 1_800);
}

#[test]
fn permission_quarantine_degrades_health() {
    let state = SimpleDaemonState {
        last_successful_poll_at: Some(NOW),
        quarantined: vec![PendingHide {
            revid: 1,
            last_error: Some(api_failure_with_code("permission", "permissiondenied")),
            ..PendingHide::default()
        }],
        ..SimpleDaemonState::default()
    };

    assert_eq!(
        effective_realtime_state("healthy", &state, None, NOW, 10),
        "degraded"
    );
}

#[test]
fn auth_session_pending_blocks_health() {
    let state = SimpleDaemonState {
        last_successful_poll_at: Some(NOW),
        pending: vec![PendingHide {
            revid: 1,
            last_error: Some(api_failure("auth-session")),
            ..PendingHide::default()
        }],
        ..SimpleDaemonState::default()
    };

    assert_eq!(
        effective_realtime_state("healthy", &state, None, NOW, 10),
        "blocked"
    );
}

#[test]
fn nonblocking_pending_degrades_health() {
    let state = SimpleDaemonState {
        last_successful_poll_at: Some(NOW),
        pending: vec![PendingHide {
            revid: 1,
            last_error: Some(api_failure("non-json-response")),
            ..PendingHide::default()
        }],
        ..SimpleDaemonState::default()
    };

    assert_eq!(
        effective_realtime_state("healthy", &state, None, NOW, 10),
        "degraded"
    );
}

#[test]
fn fresh_empty_state_is_healthy() {
    let state = SimpleDaemonState {
        last_successful_poll_at: Some(NOW),
        ..SimpleDaemonState::default()
    };

    assert_eq!(
        effective_realtime_state("healthy", &state, None, NOW, 10),
        "healthy"
    );
    assert_eq!(
        effective_realtime_state("catching-up", &state, None, NOW, 10),
        "catching-up"
    );
    let blocked = api_failure("auth-session");
    assert_eq!(
        effective_realtime_state("healthy", &state, Some(&blocked), NOW, 10),
        "blocked"
    );
}

#[test]
fn stale_empty_state_is_degraded() {
    let state = SimpleDaemonState {
        last_successful_poll_at: Some(NOW - 30),
        ..SimpleDaemonState::default()
    };

    assert_eq!(
        effective_realtime_state("healthy", &state, None, NOW, 10),
        "degraded"
    );
}

#[test]
fn upsert_pending_preserves_single_item_per_revision() {
    let mut state = SimpleDaemonState::default();
    let target = HideTarget {
        title: "Title".to_string(),
        revid: 42,
        observed_at: None,
        source_label: "test".to_string(),
    };

    upsert_pending(&mut state, &target, api_failure("timeout"), NOW);
    upsert_pending(&mut state, &target, api_failure("timeout"), NOW + 5);

    assert_eq!(state.pending.len(), 1);
    assert_eq!(state.pending[0].attempt_count, 2);
    assert_eq!(state.pending[0].first_failed_at, NOW);
    assert_eq!(state.pending[0].last_failed_at, NOW + 5);
    assert_eq!(next_pending_retry_at(&state.pending), Some(NOW + 35));

    upsert_quarantined(&mut state, &target, api_failure("permission"), NOW + 9);
    assert!(state.pending.is_empty());
    assert_eq!(state.quarantined.len(), 1);
    assert_eq!(unresolved_count(&state), 1);
}

#[test]
fn terminal_pending_migrates_to_quarantine() {
    let mut state = SimpleDaemonState {
        pending: vec![PendingHide {
            revid: 42,
            last_error: Some(api_failure_with_code("permission", "permissiondenied")),
            attempt_count: 255,
            ..PendingHide::default()
        }],
        ..SimpleDaemonState::default()
    };

    migrate_terminal_pending_to_quarantine(&mut state);

    assert!(state.pending.is_empty());
    assert_eq!(state.quarantined.len(), 1);
    assert_eq!(state.quarantined[0].revid, 42);
    assert_eq!(state.quarantined[0].attempt_count, 255);
}

#[test]
fn migration_keeps_retryable_items_pending_in_order() {
    let mut state = SimpleDaemonState {
        pending: vec![
            PendingHide {
                revid: 1,
                last_error: Some(api_failure("timeout")),
                ..PendingHide::default()
            },
            PendingHide {
                revid: 2,
                last_error: Some(api_failure("permission")),
                ..PendingHide::default()
            },
            PendingHide {
                revid: 3,
                ..PendingHide::default()
            },
        ],
        ..SimpleDaemonState::default()
    };
    migrate_terminal_pending_to_quarantine(&mut state);
    let kept: Vec<u64> = state.pending.iter().map(|item| item.revid).collect();
    assert_eq!(kept, vec![1, 3]);
    assert_eq!(state.quarantined[0].revid, 2);
    assert_eq!(state.quarantined[0].attempt_count, 1);
}

#[test]
fn latest_quarantined_error_comes_from_the_last_failure() {
    let state = SimpleDaemonState {
        quarantined: vec![
            PendingHide {
                revid: 1,
                last_failed_at: NOW,
                last_error: Some(api_failure("first")),
                ..PendingHide::default()
            },
            PendingHide {
                revid: 2,
                last_failed_at: NOW + 10,
                last_error: Some(api_failure("second")),
                ..PendingHide::default()
            },
            PendingHide {
                revid: 3,
                last_failed_at: NOW + 10,
                last_error: Some(api_failure("third")),
                ..PendingHide::default()
            },
        ],
        ..SimpleDaemonState::default()
    };
    assert_eq!(
        latest_quarantined_error(&state).map(|error| error.class),
        Some("third".to_string())
    );
    assert_eq!(latest_quarantined_error(&SimpleDaemonState::default()), None);
}

#[test]
fn quarantine_summary_does_not_claim_auto_retry() {
    let item = PendingHide {
        title: "Title".to_string(),
        revid: 42,
        last_error: Some(api_failure_with_code("permission", "permissiondenied")),
        ..PendingHide::default()
    };

    let unresolved = unresolved_item_from_pending(
        &item,
        "be.wikipedia.org",
        "manual review required; daemon will not retry this non-retryable API failure automatically",
        NOW,
    );

    assert!(unresolved.next_action.contains("will not retry"));
    assert_eq!(
        unresolved.revision_url.as_deref(),
        Some("https://be.wikipedia.org/wiki/Special:Diff/42")
    );
    assert_eq!(unresolved.reason, "failed");
    assert_eq!(unresolved.age_seconds, None);
}

#[test]
fn formats_compact_auth_status_lines() {
    let auth = AuthState {
        username: "ExampleBot".to_string(),
        csrf_token: "token".to_string(),
        rights: vec!["edit".to_string(), "bot".to_string()],
    };

    assert_eq!(
        format_auth_status_lines(&auth),
        vec![
            "auth.user=ExampleBot".to_string(),
            "auth.bot=true".to_string(),
            "auth.rights=bot,edit".to_string(),
        ]
    );
}

#[test]
fn formats_compact_hide_revid_result() {
    assert_eq!(format_hide_revid_result(42), "revdel.ok revid=42");
}

fn redaction_summary() -> CoverageSummary {
    CoverageSummary {
        requested_by: "coverage".to_string(),
        unresolved_count: 1,
        unresolved_items: vec![UnresolvedExposureItem {
            title: "Sensitive Page".to_string(),
            revid: 77,
            revision_url: Some("https://be.wikipedia.org/wiki/Special:Diff/77".to_string()),
            age_seconds: Some(45),
            reason: "revisiondelete failed token=abc123 cookie=sessionid".to_string(),
            next_action: "inspect response body: <html>bad</html> password=secret".to_string(),
        }],
        ..CoverageSummary::default()
    }
}

#[test]
fn commands_command_reports_redact_sensitive_reason_and_action_text() {
    let rendered = render_command_report_lines(&redaction_summary()).join("\n");

    assert!(rendered.contains("coverage.unresolved_item"));
    assert!(rendered.contains("title=Sensitive Page"));
    assert!(rendered.contains("revid=77"));
    assert!(rendered.contains("age_seconds=45"));
    assert!(!rendered.contains("abc123"));
    assert!(!rendered.contains("sessionid"));
    assert!(!rendered.contains("<html>bad</html>"));
    assert!(!rendered.contains("password=secret"));
}

#[test]
fn coverage_command_command_reports_redact_sensitive_reason_and_action_text() {
    let rendered = format_summary_lines(&redaction_summary()).join("\n");

    assert!(rendered.contains("coverage.unresolved_item"));
    assert!(rendered.contains("title=Sensitive Page"));
    assert!(rendered.contains("revid=77"));
    assert!(rendered.contains("age_seconds=45"));
    assert!(!rendered.contains("abc123"));
    assert!(!rendered.contains("sessionid"));
    assert!(!rendered.contains("<html>bad</html>"));
    assert!(!rendered.contains("password=secret"));
}

#[test]
fn next_action_prefers_backoff_then_report_only() {
    let mut summary = redaction_summary();
    assert_eq!(
        next_action_for_summary(&summary, true).as_deref(),
        Some("run emergency catch-up without report-only if hiding should proceed")
    );
    assert_eq!(
        next_action_for_summary(&summary, false).as_deref(),
        Some("review unresolved items and rerun the command if exposure remains")
    );
    summary.backoff_until = Some(NOW);
    assert_eq!(
        next_action_for_summary(&summary, false).as_deref(),
        Some("wait for backoff to expire and rerun the command")
    );
    assert_eq!(next_action_for_summary(&CoverageSummary::default(), true), None);
}

fn test_runtime_paths() -> RuntimePaths {
    RuntimePaths {
        config_path: "/srv/bot/config.toml".to_string(),
        state_dir: "/srv/bot/state".to_string(),
        env_file: "/srv/bot/.env".to_string(),
        cache_file: "/srv/bot/cache.json".to_string(),
        last_event_id_file: "/srv/bot/last_event_id.txt".to_string(),
        processed_revids_file: "/srv/bot/processed.json".to_string(),
        nightly_sweep_progress_file: "/srv/bot/progress.json".to_string(),
        runtime_status_file: "/srv/bot/runtime_status.json".to_string(),
        pid_file: "/srv/bot/daemon.pid".to_string(),
    }
}

#[test]
fn server_start_resolves_relative_log_path_from_config_dir() {
    let paths = test_runtime_paths();
    assert_eq!(
        resolve_server_start_log_path(
            &paths.config_path,
            &paths,
            Some("./state/server.log".to_string())
        ),
        "/srv/bot/./state/server.log"
    );
    assert_eq!(
        resolve_server_start_log_path(&paths.config_path, &paths, Some("/var/log/bot.log".to_string())),
        "/var/log/bot.log"
    );
    assert_eq!(
        resolve_server_start_log_path(&paths.config_path, &paths, None),
        "/srv/bot/state/daemon.log"
    );
}

#[test]
fn server_start_receipt_lines_are_non_sensitive_and_complete() {
    let paths = test_runtime_paths();
    let receipt = ServerStartReceipt {
        mode: "live".to_string(),
        pid: 42,
        config_path: paths.config_path.clone(),
        pid_file: paths.pid_file.clone(),
        runtime_status_file: paths.runtime_status_file.clone(),
        log_path: "/srv/bot/state/daemon.log".to_string(),
    };

    let lines = format_server_start_receipt_lines(&receipt);

    assert_eq!(lines[0], "server-start.ok mode=live pid=42");
    assert!(lines.iter().any(|line| line.starts_with("config=")));
    assert!(lines.iter().any(|line| line.starts_with("pid_file=")));
    assert!(lines.iter().any(|line| line.starts_with("runtime_status=")));
    assert!(lines.iter().any(|line| line.starts_with("log=")));
    assert_eq!(
        lines.last().map(String::as_str),
        Some("launch_path=server-start")
    );
    assert!(!lines.join("\n").contains("password"));
    assert!(!lines.join("\n").contains("token"));
}

#[test]
fn pid_files_must_hold_a_positive_pid() {
    assert_eq!(read_positive_pid("9999999"), Ok(9_999_999));
    assert_eq!(read_positive_pid("0"), Err(PidFileError::NonPositive(0)));
    assert_eq!(read_positive_pid("-12"), Err(PidFileError::NonPositive(-12)));
    assert_eq!(read_positive_pid("12\n"), Err(PidFileError::NotANumber));
    assert_eq!(read_positive_pid("3000000000"), Err(PidFileError::NotANumber));
    assert_eq!(
        PidFileError::NonPositive(-12).message("/run/bot.pid"),
        "invalid non-positive PID -12 in /run/bot.pid"
    );
}

#[test]
fn commands_parses_rfc3339_utc_timestamp() {
    // 2026-04-24T16:00:00Z
    assert_eq!(parse_rfc3339_utc("2026-04-24T16:00:00Z"), Some(1_777_046_400));
}

#[test]
fn commands_rejects_timestamp_without_timezone() {
    assert_eq!(parse_rfc3339_utc("2026-04-24T16:00:00"), None);
}

#[test]
fn commands_rejects_inverted_windows_before_api_work() {
    let start = parse_rfc3339_utc("2026-04-24T16:30:00Z").unwrap();
    let end = parse_rfc3339_utc("2026-04-24T16:00:00Z").unwrap();

    let error = validate_window_bounds(start, end, 1800, false, false).unwrap_err();

    assert!(error.message("coverage-report").contains("requires start <= end"));
    assert_eq!(
        error.message("coverage-report"),
        "coverage-report requires start <= end; got start=2026-04-24T16:30:00+00:00 end=2026-04-24T16:00:00+00:00"
    );
}

#[test]
fn commands_rejects_oversized_windows_without_override_or_report_only() {
    let start = parse_rfc3339_utc("2026-04-24T16:00:00Z").unwrap();
    let end = parse_rfc3339_utc("2026-04-24T17:00:01Z").unwrap();

    let error = validate_window_bounds(start, end, 3600, false, false).unwrap_err();

    assert_eq!(
        error,
        WindowBoundsError::TooLarge {
            seconds: 3601,
            max_seconds: 3600
        }
    );
    assert!(error.message("emergency-catchup").contains("--allow-large-window"));
    assert!(error.message("emergency-catchup").contains("--report-only"));
}

#[test]
fn commands_accepts_oversized_windows_with_explicit_override() {
    let start = parse_rfc3339_utc("2026-04-24T16:00:00Z").unwrap();
    let end = parse_rfc3339_utc("2026-04-24T18:00:01Z").unwrap();

    validate_window_bounds(start, end, 3600, true, false).unwrap();
}

#[test]
fn commands_accepts_oversized_windows_in_report_only_mode() {
    let start = parse_rfc3339_utc("2026-04-24T16:00:00Z").unwrap();
    let end = parse_rfc3339_utc("2026-04-24T18:00:01Z").unwrap();

    validate_window_bounds(start, end, 3600, false, true).unwrap();
}
