use suppressor::cli::{Cli, CliErrorKind, Command};

#[test]
fn parses_hide_revid_command() {
    let cli = Cli::try_parse_from(&[
        "suppressor",
        "--config",
        "config.example.toml",
        "--verbose",
        "hide-revid",
        "42",
    ])
    .unwrap();
    assert_eq!(cli.config, Some("config.example.toml".to_string()));
    assert!(cli.verbose);
    match cli.command {
        Command::HideRevid { id } => assert_eq!(id, 42),
        other => panic!("unexpected command: {other:?}"),
    }
}

#[test]
fn parses_smoke_test_command() {
    let cli = Cli::try_parse_from(&[
        "suppressor",
        "--config",
        "config.example.toml",
        "smoke-test",
        "--page",
        "User:Bot/Test",
    ])
    .unwrap();
    match cli.command {
        Command::SmokeTest { page } => assert_eq!(page.as_deref(), Some("User:Bot/Test")),
        other => panic!("unexpected command: {other:?}"),
    }
}

#[test]
fn parses_config_after_subcommand() {
    let cli = Cli::try_parse_from(&["suppressor", "dry-run", "--config", "config.example.toml"])
        .unwrap();
    assert_eq!(cli.config, Some("config.example.toml".to_string()));
    match cli.command {
        Command::DryRun => {}
        other => panic!("unexpected command: {other:?}"),
    }
}

#[test]
fn parses_status_command() {
    let cli = Cli::try_parse_from(&[
        "suppressor",
        "--config",
        "config.example.toml",
        "status",
        "--json",
    ])
    .unwrap();
    match cli.command {
        Command::Status { json } => assert!(json),
        other => panic!("unexpected command: {other:?}"),
    }
}

#[test]
fn requires_an_explicit_config_file() {
    let cli = Cli::try_parse_from(&["suppressor", "status"]).unwrap();
    assert!(cli.required_config().is_err());
}

#[test]
fn parses_health_command() {
    let cli = Cli::try_parse_from(&[
        "suppressor",
        "--config",
        "config.example.toml",
        "health",
        "--json",
    ])
    .unwrap();
    match cli.command {
        Command::Health { json } => assert!(json),
        other => panic!("unexpected command: {other:?}"),
    }
}

#[test]
fn parses_last_edits_command() {
    let cli = Cli::try_parse_from(&[
        "suppressor",
        "--config",
        "config.example.toml",
        "last-edits",
        "--limit",
        "7",
    ])
    .unwrap();
    match cli.command {
        Command::LastEdits { limit, json } => {
            assert_eq!(limit, 7);
            assert!(!json);
        }
        other => panic!("unexpected command: {other:?}"),
    }
}

#[test]
fn parses_perf_command() {
    let cli =
        Cli::try_parse_from(&["suppressor", "--config", "config.example.toml", "perf"]).unwrap();
    match cli.command {
        Command::Perf { json } => assert!(!json),
        other => panic!("unexpected command: {other:?}"),
    }
}

#[test]
fn parses_emergency_catchup_command() {
    let cli = Cli::try_parse_from(&[
        "suppressor",
        "--config",
        "config.example.toml",
        "emergency-catchup",
        "--start",
        "2026-04-24T16:00:00Z",
        "--end",
        "2026-04-24T16:30:00Z",
        "--dry-run",
    ])
    .unwrap();
    match cli.command {
        Command::EmergencyCatchup {
            start,
            end,
            allow_large_window,
            dry_run,
            report_only,
        } => {
            assert_eq!(start.as_deref(), Some("2026-04-24T16:00:00Z"));
            assert_eq!(end.as_deref(), Some("2026-04-24T16:30:00Z"));
            assert!(!allow_large_window);
            assert!(dry_run);
            assert!(!report_only);
        }
        other => panic!("unexpected command: {other:?}"),
    }
}

#[test]
fn parses_coverage_report_command() {
    let cli = Cli::try_parse_from(&[
        "suppressor",
        "--config",
        "config.example.toml",
        "coverage-report",
        "--start",
        "2026-04-24T16:00:00Z",
        "--report-only",
    ])
    .unwrap();
    match cli.command {
        Command::CoverageReport {
            start,
            end,
            allow_large_window,
            dry_run,
            report_only,
        } => {
            assert_eq!(start, "2026-04-24T16:00:00Z");
            assert!(end.is_none());
            assert!(!allow_large_window);
            assert!(!dry_run);
            assert!(report_only);
        }
        other => panic!("unexpected command: {other:?}"),
    }
}

#[test]
fn parses_last_24h_coverage_command() {
    let cli = Cli::try_parse_from(&[
        "suppressor",
        "--config",
        "config.example.toml",
        "coverage-last-24h",
        "--report-only",
    ])
    .unwrap();
    match cli.command {
        Command::CoverageLast24h {
            dry_run,
            report_only,
        } => {
            assert!(!dry_run);
            assert!(report_only);
        }
        other => panic!("unexpected command: {other:?}"),
    }
}

#[test]
fn parses_catch_up_now_command() {
    let cli = Cli::try_parse_from(&[
        "suppressor",
        "--config",
        "config.example.toml",
        "catch-up-now",
    ])
    .unwrap();
    match cli.command {
        Command::CatchUpNow => {}
        other => panic!("unexpected command: {other:?}"),
    }
}

#[test]
fn parses_server_start_command() {
    let cli = Cli::try_parse_from(&[
        "suppressor",
        "--config",
        "./config.example.toml",
        "server-start",
        "--dry-run",
        "--status-timeout-seconds",
        "15",
        "--log-file",
        "./state/start.log",
    ])
    .unwrap();
    match cli.command {
        Command::ServerStart {
            dry_run,
            status_timeout_seconds,
            log_file,
        } => {
            assert!(dry_run);
            assert_eq!(status_timeout_seconds, 15);
            assert_eq!(log_file, Some("./state/start.log".to_string()));
        }
        other => panic!("unexpected command: {other:?}"),
    }
}

#[test]
fn parses_large_window_override_for_coverage_report() {
    let cli = Cli::try_parse_from(&[
        "suppressor",
        "--config",
        "config.example.toml",
        "coverage-report",
        "--start",
        "2026-04-24T16:00:00Z",
        "--end",
        "2026-04-24T18:30:00Z",
        "--allow-large-window",
    ])
    .unwrap();
    match cli.command {
        Command::CoverageReport {
            allow_large_window, ..
        } => assert!(allow_large_window),
        other => panic!("unexpected command: {other:?}"),
    }
}

#[test]
fn cli_defaults_fill_in_limit_and_timeout() {
    let cli = Cli::try_parse_from(&["suppressor", "last-edits", "--json"]).unwrap();
    match cli.command {
        Command::LastEdits { limit, json } => {
            assert_eq!(limit, 20);
            assert!(json);
        }
        other => panic!("unexpected command: {other:?}"),
    }
    let cli = Cli::try_parse_from(&["suppressor", "server-start"]).unwrap();
    match cli.command {
        Command::ServerStart {
            status_timeout_seconds,
            log_file,
            dry_run,
        } => {
            assert_eq!(status_timeout_seconds, 120);
            assert!(log_file.is_none());
            assert!(!dry_run);
        }
        other => panic!("unexpected command: {other:?}"),
    }
}

#[test]
fn cli_accepts_values_after_equals_sign() {
    let cli = Cli::try_parse_from(&["suppressor", "--config=wiki.toml", "last-edits", "--limit=3"])
        .unwrap();
    assert_eq!(cli.config.as_deref(), Some("wiki.toml"));
    assert_eq!(cli.required_config().unwrap(), "wiki.toml");
    match cli.command {
        Command::LastEdits { limit, .. } => assert_eq!(limit, 3),
        other => panic!("unexpected command: {other:?}"),
    }
}

#[test]
fn cli_refusals_name_their_reason() {
    let kind = |args: &[&str]| Cli::try_parse_from(args).unwrap_err().kind;
    assert_eq!(kind(&["suppressor"]), CliErrorKind::MissingSubcommand);
    assert_eq!(kind(&["suppressor", "fly"]), CliErrorKind::UnknownSubcommand);
    assert_eq!(kind(&["suppressor", "status", "--limit", "3"]), CliErrorKind::UnknownArgument);
    assert_eq!(kind(&["suppressor", "--json", "status"]), CliErrorKind::UnknownArgument);
    assert_eq!(kind(&["suppressor", "last-edits", "--limit"]), CliErrorKind::MissingValue);
    assert_eq!(
        kind(&["suppressor", "coverage-report", "--start", "--dry-run"]),
        CliErrorKind::MissingValue
    );
    assert_eq!(kind(&["suppressor", "last-edits", "--limit", "x7"]), CliErrorKind::InvalidValue);
    assert_eq!(kind(&["suppressor", "hide-revid", "12a"]), CliErrorKind::InvalidValue);
    assert_eq!(
        kind(&["suppressor", "hide-revid", "99999999999999999999"]),
        CliErrorKind::InvalidValue
    );
    assert_eq!(kind(&["suppressor", "status", "--json", "--json"]), CliErrorKind::RepeatedArgument);
    assert_eq!(kind(&["suppressor", "status", "--json=yes"]), CliErrorKind::UnexpectedValue);
    assert_eq!(kind(&["suppressor", "run", "extra"]), CliErrorKind::UnexpectedArgument);
    assert_eq!(kind(&["suppressor", "hide-revid"]), CliErrorKind::MissingRequired);
    assert_eq!(kind(&["suppressor", "coverage-report"]), CliErrorKind::MissingRequired);
    assert_eq!(kind(&["suppressor", "supervisor-run"]), CliErrorKind::MissingRequired);
    assert_eq!(kind(&["suppressor", "--help"]), CliErrorKind::HelpRequested);
    assert_eq!(kind(&["suppressor", "status", "-h"]), CliErrorKind::HelpRequested);
    assert_eq!(kind(&["suppressor", "-V"]), CliErrorKind::VersionRequested);
    let cli = Cli::try_parse_from(&["suppressor", "run"]).unwrap();
    assert_eq!(cli.required_config().unwrap_err().kind, CliErrorKind::MissingConfig);
}
