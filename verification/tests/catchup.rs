use suppressor::catchup::{
    compact_report_text, format_summary_lines, push_unresolved_item, rate_limit_retry_after_seconds,
    sanitize_report_detail, scoped_titles_from_input, validate_window, warning_reason,
    CatchupWindowError,
};
use suppressor::state::{ApiFailureSnapshot, CoverageSummary, UnresolvedExposureItem, WarningSummary};
use suppressor::warnings::{WarningAggregates, WarningObservation};

#[test]
fn formats_summary_without_sensitive_payloads() {
    let summary = CoverageSummary {
        requested_by: "operator-manual".to_string(),
        pages_checked: 1,
        edits_checked: 2,
        hidden_count: 1,
        unresolved_count: 1,
        unresolved_items: vec![UnresolvedExposureItem {
            title: "Sensitive Page".to_string(),
            revid: 42,
            revision_url: Some("https://example.invalid/wiki/Special:Diff/42".to_string()),
            age_seconds: Some(15),
            reason: "report-only-not-hidden".to_string(),
            next_action: "run emergency catch-up without report-only".to_string(),
        }],
        ..CoverageSummary::default()
    };

    let rendered = format_summary_lines(&summary).join("\n");

    assert!(rendered.contains("coverage.unresolved=1"));
    assert!(rendered.contains("revid=42"));
    assert!(!rendered.contains("comment="));
    assert!(!rendered.contains("token="));
}

#[test]
fn unresolved_item_details_are_sanitized_but_stay_actionable() {
    let summary = CoverageSummary {
        unresolved_items: vec![UnresolvedExposureItem {
            title: "Sensitive Page".to_string(),
            revid: 42,
            revision_url: Some("https://example.invalid/wiki/Special:Diff/42".to_string()),
            age_seconds: Some(15),
            reason: "revisiondelete failed token=abc123 cookie=session raw comment".to_string(),
            next_action: "inspect response body: <html>denied</html> and password=secret"
                .to_string(),
        }],
        unresolved_count: 1,
        ..CoverageSummary::default()
    };

    let rendered = format_summary_lines(&summary).join("\n");

    assert!(rendered.contains("title=Sensitive Page"));
    assert!(rendered.contains("revid=42"));
    assert!(rendered.contains("age_seconds=15"));
    assert!(rendered.contains("reason=revisiondelete failed sensitive-details-redacted"));
    assert!(rendered.contains("next_action=inspect response-body-redacted"));
    assert!(!rendered.contains("abc123"));
    assert!(!rendered.contains("session"));
    assert!(!rendered.contains("<html>"));
    assert!(!rendered.contains("password=secret"));
}

#[test]
fn warning_aggregates_coalesce_repeated_root_causes() {
    let mut aggregates = WarningAggregates::new(2);
    for title in ["A", "B", "C"] {
        let _ = aggregates.record(
            ApiFailureSnapshot {
                class: "api-json-error".to_string(),
                api_code: Some("badtimestamp".to_string()),
                http_status: Some(200),
                retryable: false,
                operation: "fetch-revisions".to_string(),
                sample_title: Some(title.to_string()),
                message: "invalid timestamp".to_string(),
                ..ApiFailureSnapshot::default()
            },
            3,
            30,
            1_777_136_700,
        );
    }

    let summaries = aggregates.into_summaries();

    assert_eq!(summaries.len(), 1);
    assert_eq!(summaries[0].count, 3);
    assert_eq!(summaries[0].api_code.as_deref(), Some("badtimestamp"));
    assert_eq!(summaries[0].sample_titles, vec!["A", "B"]);
}

#[test]
fn warning_aggregates_stop_early_for_repeated_rate_limits() {
    let mut aggregates = WarningAggregates::new(2);
    // 2026-04-25T17:05:00Z
    let now: i64 = 1_777_136_700;
    let mut observation = WarningObservation::default();
    for title in ["A", "B", "C"] {
        observation = aggregates.record(
            ApiFailureSnapshot {
                class: "non-json-response".to_string(),
                http_status: Some(429),
                retryable: true,
                retry_after_seconds: Some(45),
                operation: "fetch-revisions".to_string(),
                sample_title: Some(title.to_string()),
                message: "rate limited".to_string(),
                ..ApiFailureSnapshot::default()
            },
            3,
            30,
            now,
        );
    }

    let summaries = aggregates.into_summaries();

    assert!(observation.stop_after);
    assert_eq!(observation.backoff_until, Some(now + 45));
    assert_eq!(summaries[0].retry_after_seconds, Some(45));
    assert!(summaries[0].stopped_early);
}

#[test]
fn unresolved_samples_are_bounded_but_counts_keep_growing() {
    let mut summary = CoverageSummary::default();

    for revid in 1..=4 {
        push_unresolved_item(
            &mut summary,
            2,
            UnresolvedExposureItem {
                title: format!("Page {revid}"),
                revid,
                revision_url: Some(format!("https://be.wikipedia.org/wiki/Special:Diff/{revid}")),
                age_seconds: Some(5),
                reason: "rate-limited".to_string(),
                next_action: "retry later".to_string(),
            },
        );
    }

    assert_eq!(summary.unresolved_count, 4);
    assert_eq!(summary.unresolved_items.len(), 2);
    assert_eq!(summary.unresolved_items[0].revid, 1);
    assert_eq!(summary.unresolved_items[1].revid, 2);
}

#[test]
fn formats_summary_with_backoff_and_stop_reason() {
    let summary = CoverageSummary {
        requested_by: "operator-manual".to_string(),
        stopped_early_reason: Some("rate-limited".to_string()),
        // 2026-04-25T17:06:00Z
        backoff_until: Some(1_777_136_760),
        warning_summaries: vec![WarningSummary {
            class: "non-json-response".to_string(),
            http_status: Some(429),
            retryable: true,
            retry_after_seconds: Some(30),
            operation: "fetch-revisions".to_string(),
            count: 3,
            sample_titles: vec!["A".to_string()],
            message: "rate limited".to_string(),
            stopped_early: true,
            ..WarningSummary::default()
        }],
        ..CoverageSummary::default()
    };

    let rendered = format_summary_lines(&summary).join("\n");

    assert!(rendered.contains("coverage.stopped_early_reason=rate-limited"));
    assert!(rendered.contains("coverage.backoff_until=2026-04-25T17:06:00Z"));
    assert!(rendered.contains("retry_after_seconds=30"));
    assert!(rendered.contains("stopped_early=true"));
}

#[test]
fn title_scoped_catchup_dedups_and_sorts_requested_titles() {
    let titles = scoped_titles_from_input(
        &vec!["Watched A".to_string(), "Watched B".to_string()],
        Some(vec![
            "Title B".to_string(),
            "Title A".to_string(),
            "Title B".to_string(),
        ]),
    );

    assert_eq!(titles, vec!["Title A".to_string(), "Title B".to_string()]);
}

#[test]
fn catchup_without_title_scope_uses_full_watched_set() {
    let titles =
        scoped_titles_from_input(&vec!["Watched B".to_string(), "Watched A".to_string()], None);

    assert_eq!(
        titles,
        vec!["Watched A".to_string(), "Watched B".to_string()]
    );
}

#[test]
fn summary_lines_follow_the_report_layout() {
    let summary = CoverageSummary {
        scope_label: Some("last 24h".to_string()),
        requested_by: "nightly".to_string(),
        candidate_source: Some("recentchanges".to_string()),
        candidate_count: 9,
        watched_candidate_count: 2,
        candidate_chunk_count: 1,
        candidate_discovery_elapsed_ms: Some(12),
        fallback_reason: Some("candidate-limit-reached".to_string()),
        warning_summaries: vec![WarningSummary {
            class: "timeout".to_string(),
            count: 2,
            sample_titles: vec!["A".to_string(), "B".to_string()],
            ..WarningSummary::default()
        }],
        ..CoverageSummary::default()
    };
    let lines = format_summary_lines(&summary);
    assert_eq!(lines[0], "coverage.scope_label=last 24h");
    assert_eq!(lines[1], "coverage.requested_by=nightly");
    assert_eq!(lines[8], "coverage.unresolved=0");
    assert_eq!(lines[9], "coverage.candidate_source=recentchanges");
    assert_eq!(lines[13], "coverage.candidate_discovery_elapsed_ms=12");
    assert_eq!(lines[14], "coverage.fallback_reason=candidate-limit-reached");
    assert_eq!(
        lines[15],
        "coverage.warning_summary class=timeout api_code=none http_status=none retryable=false retry_after_seconds=none count=2 samples=A|B stopped_early=false"
    );
    assert_eq!(lines.len(), 16);
    let plain = format_summary_lines(&CoverageSummary::default());
    assert_eq!(plain[0], "coverage.scope_label=recent window");
    assert_eq!(plain.len(), 9);
}

#[test]
fn report_text_is_compacted_and_cut() {
    assert_eq!(compact_report_text("  a \t b\n\nc  "), "a b c");
    let long = "x".repeat(200);
    assert_eq!(compact_report_text(&long).chars().count(), 180);
    assert_eq!(sanitize_report_detail("Set-Cookie: abc"), "sensitive-details-redacted");
    assert_eq!(sanitize_report_detail("bad CSRF value"), "bad sensitive-details-redacted");
    assert_eq!(sanitize_report_detail("plain   reason"), "plain reason");
}

#[test]
fn rate_limit_wait_comes_from_status_or_code() {
    let limited = ApiFailureSnapshot {
        http_status: Some(429),
        ..ApiFailureSnapshot::default()
    };
    assert_eq!(rate_limit_retry_after_seconds(&limited, 30), Some(30));
    let coded = ApiFailureSnapshot {
        api_code: Some("ratelimited".to_string()),
        retry_after_seconds: Some(7),
        ..ApiFailureSnapshot::default()
    };
    assert_eq!(rate_limit_retry_after_seconds(&coded, 30), Some(7));
    let other = ApiFailureSnapshot {
        http_status: Some(500),
        retry_after_seconds: Some(7),
        ..ApiFailureSnapshot::default()
    };
    assert_eq!(rate_limit_retry_after_seconds(&other, 30), None);
    assert_eq!(warning_reason(&coded), "ratelimited");
    let classed = ApiFailureSnapshot {
        class: "timeout".to_string(),
        ..ApiFailureSnapshot::default()
    };
    assert_eq!(warning_reason(&classed), "timeout");
}

#[test]
fn catchup_windows_are_checked() {
    let start: i64 = 1_777_046_400;
    assert_eq!(
        validate_window(start, start - 1, 3600, false, false),
        Err(CatchupWindowError::EndBeforeStart)
    );
    assert_eq!(
        validate_window(start, start + 7200, 3600, false, false),
        Err(CatchupWindowError::TooLarge {
            seconds: 7200,
            max_seconds: 3600
        })
    );
    assert_eq!(
        validate_window(start, start + 7200, 3600, false, false)
            .unwrap_err()
            .message(),
        "catch-up window 7200s exceeds configured maximum 3600s"
    );
    assert!(validate_window(start, start + 7200, 3600, true, false).is_ok());
    assert!(validate_window(start, start + 7200, 3600, false, true).is_ok());
    assert!(validate_window(start, start + 1800, 3600, false, false).is_ok());
}

#[test]
fn warning_summaries_are_ordered_by_count_then_class() {
    let mut aggregates = WarningAggregates::new(5);
    let failure = |class: &str| ApiFailureSnapshot {
        class: class.to_string(),
        operation: "fetch-revisions".to_string(),
        ..ApiFailureSnapshot::default()
    };
    let now: i64 = 1_777_136_700;
    let _ = aggregates.record(failure("zeta"), 3, 30, now);
    let _ = aggregates.record(failure("beta"), 3, 30, now);
    let _ = aggregates.record(failure("alpha"), 3, 30, now);
    let _ = aggregates.record(failure("zeta"), 3, 30, now);
    let summaries = aggregates.into_summaries();
    let classes: Vec<&str> = summaries.iter().map(|s| s.class.as_str()).collect();
    assert_eq!(classes, vec!["zeta", "alpha", "beta"]);
    assert_eq!(summaries[0].count, 2);
}
