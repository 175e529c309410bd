use suppressor::commands::{WindowBoundsError, parse_rfc3339_utc, validate_window_bounds};
use suppressor::config::CatchupConfig;
use suppressor::daemon_backlog::{startup_catchup_start, SimpleDaemonState};

fn test_catchup_config() -> CatchupConfig {
    CatchupConfig {
        default_window_seconds: 1_800,
        max_window_seconds: 7_200,
        max_revisions_per_run: 500,
        warning_sample_limit: 5,
        source_refresh_title_scope_limit: 250,
        rate_limit_backoff_default_seconds: 30,
        rate_limit_stop_after_failures: 3,
        unresolved_sample_limit: 25,
    }
}

#[test]
fn startup_catchup_uses_default_window_without_poll_cursor() {
    let end = parse_rfc3339_utc("2026-05-31T12:00:00Z").unwrap();
    let state = SimpleDaemonState::default();
    assert_eq!(
        startup_catchup_start(&state, &test_catchup_config(), end),
        end - 1_800
    );
}

#[test]
fn coverage_command_parses_rfc3339_utc_timestamp() {
    let parsed = parse_rfc3339_utc("2026-04-24T16:00:00Z").unwrap();
    let shown = WindowBoundsError::Inverted { start: parsed, end: parsed }.message("coverage-report");
    assert!(shown.contains("start=2026-04-24T16:00:00+00:00"));
}

#[test]
fn coverage_command_rejects_timestamp_without_timezone() {
    assert!(parse_rfc3339_utc("2026-04-24T16:00:00").is_none());
}

#[test]
fn coverage_command_rejects_inverted_windows_before_api_work() {
    let start = parse_rfc3339_utc("2026-04-24T16:30:00Z").unwrap();
    let end = parse_rfc3339_utc("2026-04-24T16:00:00Z").unwrap();
    let error = validate_window_bounds(start, end, 1800, false, false).unwrap_err();
    assert!(error.message("coverage-report").contains("requires start <= end"));
}

#[test]
fn coverage_command_rejects_oversized_windows_without_override_or_report_only() {
    let start = parse_rfc3339_utc("2026-04-24T16:00:00Z").unwrap();
    let end = parse_rfc3339_utc("2026-04-24T17:00:01Z").unwrap();
    let error = validate_window_bounds(start, end, 3600, false, false).unwrap_err();
    assert!(error.message("emergency-catchup").contains("--allow-large-window"));
    assert!(error.message("emergency-catchup").contains("--report-only"));
}

#[test]
fn coverage_command_accepts_oversized_windows_with_explicit_override() {
    let start = parse_rfc3339_utc("2026-04-24T16:00:00Z").unwrap();
    let end = parse_rfc3339_utc("2026-04-24T18:00:01Z").unwrap();
    validate_window_bounds(start, end, 3600, true, false).unwrap();
}

#[test]
fn coverage_command_accepts_oversized_windows_in_report_only_mode() {
    let start = parse_rfc3339_utc("2026-04-24T16:00:00Z").unwrap();
    let end = parse_rfc3339_utc("2026-04-24T18:00:01Z").unwrap();
    validate_window_bounds(start, end, 3600, false, true).unwrap();
}

#[test]
fn window_at_the_limit_is_accepted() {
    let start = parse_rfc3339_utc("2026-04-24T16:00:00Z").unwrap();
    let end = parse_rfc3339_utc("2026-04-24T17:00:00Z").unwrap();
    validate_window_bounds(start, end, 3600, false, false).unwrap();
}
