use suppressor::catchup_run::{
    begin_candidate, distinct_candidate_titles, record_candidate_discovery,
    record_discovery_failure, record_dispatch_result, record_title_query_failure,
    record_verification, select_watched_candidates, settle_candidate, start_catchup_summary,
    stop_for_active_backoff, next_catchup_step, CandidateStep, CatchupAction, CatchupEvent,
    CatchupPhase, CatchupRevisionCandidate, CatchupRun, DispatchResult, RevisionLookup,
};
use suppressor::mw_api::{RecentChangeRecord, RecentChangeWindow, RevisionRecord};
use suppressor::state::{ApiFailureSnapshot, CoverageSummary};
use suppressor::warnings::WarningAggregates;

const NOW: i64 = 1_777_464_000;

fn change(title: &str, revid: u64) -> RecentChangeRecord {
    RecentChangeRecord { title: title.to_string(), timestamp: NOW - 60, revid }
}

fn candidate(title: &str, revid: u64) -> CatchupRevisionCandidate {
    CatchupRevisionCandidate {
        title: title.to_string(),
        revid,
        timestamp: NOW - 60,
        user_hidden: false,
        comment_hidden: false,
        hidden_state_verified: false,
    }
}

fn summary() -> CoverageSummary {
    start_catchup_summary(
        &"recent emergency window".to_string(),
        NOW - 1800,
        NOW,
        &"startup".to_string(),
    )
}

#[test]
fn ordinary_catchup_uses_recentchanges_candidates_before_full_scan() {
    let watched = vec!["Foo".to_string(), "Bar baz".to_string()];
    let changes = vec![
        change("Foo", 1),
        change("Other", 2),
        change("Bar_baz", 3),
        change("Foo", 1),
        change("Foo", 4),
    ];
    let selected = select_watched_candidates(&changes, &watched);
    assert_eq!(selected.iter().map(|c| c.revid).collect::<Vec<_>>(), vec![1, 3, 4]);
    assert!(selected.iter().all(|c| !c.hidden_state_verified));
    assert_eq!(distinct_candidate_titles(&selected), 2);

    let mut run = summary();
    let window = RecentChangeWindow { changes, chunk_count: 2, truncated: false };
    assert!(record_candidate_discovery(&mut run, &window, &selected, 15));
    assert_eq!(run.candidate_source.as_deref(), Some("recentchanges"));
    assert_eq!(run.candidate_count, 5);
    assert_eq!(run.watched_candidate_count, 3);
    assert_eq!(run.pages_checked, 2);
    assert_eq!(run.candidate_chunk_count, 2);
}

#[test]
fn truncated_discovery_falls_back_to_full_scan() {
    let mut run = summary();
    let window = RecentChangeWindow { changes: vec![change("Foo", 1)], chunk_count: 5, truncated: true };
    assert!(!record_candidate_discovery(&mut run, &window, &Vec::new(), 9));
    assert_eq!(run.candidate_source.as_deref(), Some("full-scan-fallback"));
    assert_eq!(run.fallback_reason.as_deref(), Some("candidate-limit-reached"));
}

#[test]
fn full_scan_fallback_requires_candidate_failure_reason() {
    let mut run = summary();
    let mut warnings = WarningAggregates::new(5);
    let failure = ApiFailureSnapshot {
        class: "transport".to_string(),
        operation: "recentchanges".to_string(),
        ..ApiFailureSnapshot::default()
    };
    record_discovery_failure(&mut run, &mut warnings, failure, 3, 30, NOW);
    assert_eq!(run.candidate_source.as_deref(), Some("full-scan-fallback"));
    assert_eq!(run.fallback_reason.as_deref(), Some("candidate-source-unavailable"));
    assert_eq!(warnings.entries.len(), 1);
}

#[test]
fn report_only_recentchanges_verifies_already_hidden_candidate() {
    let mut run = summary();
    let mut warnings = WarningAggregates::new(5);
    let mut c = candidate("Foo", 7);
    assert_eq!(
        begin_candidate(&mut run, &c, true, 500, 25, "be.wikipedia.org", NOW),
        CandidateStep::Verify
    );
    assert!(record_verification(
        &mut run,
        &mut warnings,
        &mut c,
        RevisionLookup::Found { timestamp: NOW - 90, user_hidden: true, comment_hidden: true },
        3,
        30,
        25,
        "be.wikipedia.org",
        NOW,
    ));
    assert!(c.hidden_state_verified);
    assert!(!settle_candidate(&mut run, &c, true, 25, "be.wikipedia.org", NOW));
    assert_eq!(run.already_hidden_count, 1);
    assert_eq!(run.edits_checked, 1);
    assert_eq!(run.unresolved_count, 0);
}

#[test]
fn report_only_reports_visible_revisions() {
    let mut run = summary();
    let mut c = candidate("Foo", 8);
    c.hidden_state_verified = true;
    assert_eq!(
        begin_candidate(&mut run, &c, true, 500, 25, "be.wikipedia.org", NOW),
        CandidateStep::Settle
    );
    assert!(!settle_candidate(&mut run, &c, true, 25, "be.wikipedia.org", NOW));
    assert_eq!(run.unresolved_count, 1);
    let item = &run.unresolved_items[0];
    assert_eq!(item.reason, "report-only-not-hidden");
    assert_eq!(item.age_seconds, Some(60));
    assert_eq!(
        item.revision_url.as_deref(),
        Some("https://be.wikipedia.org/wiki/Special:Diff/8")
    );
}

#[test]
fn catchup_counts_already_processed_candidate_as_already_hidden() {
    let mut run = summary();
    let c = candidate("Foo", 9);
    assert_eq!(
        begin_candidate(&mut run, &c, false, 500, 25, "be.wikipedia.org", NOW),
        CandidateStep::Settle
    );
    assert!(settle_candidate(&mut run, &c, false, 25, "be.wikipedia.org", NOW));
    record_dispatch_result(&mut run, &c, DispatchResult::AlreadyHandled, 25, "be.wikipedia.org", NOW);
    assert_eq!(run.already_hidden_count, 1);
    record_dispatch_result(&mut run, &c, DispatchResult::Hidden, 25, "be.wikipedia.org", NOW);
    assert_eq!(run.hidden_count, 1);
    record_dispatch_result(
        &mut run,
        &c,
        DispatchResult::Failed("permissiondenied".to_string()),
        25,
        "be.wikipedia.org",
        NOW,
    );
    assert_eq!(run.failed_count, 1);
    assert_eq!(run.unresolved_items[0].reason, "permissiondenied");
    record_dispatch_result(&mut run, &c, DispatchResult::TimedOut, 25, "be.wikipedia.org", NOW);
    assert_eq!(run.unresolved_items[1].reason, "worker-completion-timeout");
    assert_eq!(run.unresolved_count, 2);
}

#[test]
fn run_stops_at_the_revision_limit() {
    let mut run = summary();
    run.edits_checked = 2;
    let c = candidate("Foo", 10);
    assert_eq!(
        begin_candidate(&mut run, &c, false, 2, 25, "be.wikipedia.org", NOW),
        CandidateStep::Stop
    );
    assert_eq!(run.stopped_early_reason.as_deref(), Some("max-revisions-reached"));
    assert_eq!(run.unresolved_items[0].next_action, "rerun catch-up with a narrower window");
    assert_eq!(run.edits_checked, 2);
}

#[test]
fn rate_limited_queries_stop_the_run() {
    let mut run = summary();
    let mut warnings = WarningAggregates::new(5);
    let limited = ApiFailureSnapshot {
        class: "rate-limit".to_string(),
        http_status: Some(429),
        retry_after_seconds: Some(45),
        operation: "fetch-revisions".to_string(),
        ..ApiFailureSnapshot::default()
    };
    let title = "Foo".to_string();
    assert!(!record_title_query_failure(&mut run, &mut warnings, &title, limited.clone(), 2, 30, 25, NOW));
    assert!(run.stopped_early_reason.is_none());
    assert!(record_title_query_failure(&mut run, &mut warnings, &title, limited, 2, 30, 25, NOW));
    assert_eq!(run.stopped_early_reason.as_deref(), Some("rate-limited"));
    assert_eq!(run.backoff_until, Some(NOW + 45));
    assert_eq!(run.failed_count, 2);
    assert_eq!(run.unresolved_items[0].reason, "revision-query-failed:rate-limit");
    assert_eq!(run.unresolved_items[0].revid, 0);
}

#[test]
fn missing_revision_is_reported_for_manual_check() {
    let mut run = summary();
    let mut warnings = WarningAggregates::new(5);
    let mut c = candidate("Foo", 11);
    assert!(!record_verification(&mut run, &mut warnings, &mut c, RevisionLookup::Missing, 3, 30, 25,
        "be.wikipedia.org", NOW));
    assert_eq!(run.failed_count, 1);
    assert_eq!(run.unresolved_items[0].reason, "revision-query-missing");
}

#[test]
fn default_catchup_reports_active_backoff_without_work() {
    let mut run = summary();
    assert!(stop_for_active_backoff(&mut run, Some(NOW + 30)));
    assert_eq!(run.stopped_early_reason.as_deref(), Some("rate-limit-backoff-active"));
    assert_eq!(run.backoff_until, Some(NOW + 30));
    let mut clear = summary();
    assert!(!stop_for_active_backoff(&mut clear, None));
    assert_eq!(clear.scope_label.as_deref(), Some("recent emergency window"));
    assert_eq!(clear.requested_by, "startup");
}

fn revision(revid: u64, timestamp: i64) -> RevisionRecord {
    RevisionRecord { revid, timestamp, user_hidden: false, comment_hidden: revid == 2 }
}

#[test]
fn catchup_run_uses_discovered_candidates_when_the_window_is_whole() {
    let mut s = summary();
    let mut run = CatchupRun::new(vec!["A".to_string(), "B".to_string()], NOW - 3600, NOW, false);
    assert_eq!(next_catchup_step(&mut run, &mut s, CatchupEvent::Begin), CatchupAction::DiscoverCandidates);
    let found = vec![candidate("B", 7), candidate("B", 8)];
    assert_eq!(next_catchup_step(&mut run, &mut s, CatchupEvent::CandidatesFound(found)), CatchupAction::Process(0));
    assert_eq!(run.queue[0].revid, 7);
    let step = next_catchup_step(&mut run, &mut s, CatchupEvent::CandidateProcessed { go_on: true });
    assert_eq!(step, CatchupAction::Process(1));
    let step = next_catchup_step(&mut run, &mut s, CatchupEvent::CandidateProcessed { go_on: true });
    assert_eq!(step, CatchupAction::Finish);
    assert_eq!(run.phase, CatchupPhase::Done);
    assert_eq!(s.pages_checked, 0);
}

#[test]
fn catchup_run_falls_back_to_scanning_every_title_newest_revision_first() {
    let mut s = summary();
    let start = NOW - 3600;
    let mut run = CatchupRun::new(vec!["A".to_string(), "B".to_string()], start, NOW, false);
    next_catchup_step(&mut run, &mut s, CatchupEvent::Begin);
    assert_eq!(next_catchup_step(&mut run, &mut s, CatchupEvent::CandidatesUnusable), CatchupAction::FetchTitle(0));
    assert_eq!(s.pages_checked, 1);
    let revisions = vec![revision(1, start - 10), revision(2, start + 10), revision(3, NOW - 5)];
    let step = next_catchup_step(&mut run, &mut s, CatchupEvent::TitleRevisions(revisions));
    assert_eq!(step, CatchupAction::Process(0));
    assert_eq!(run.queue.len(), 2);
    assert_eq!(run.queue[0].revid, 3);
    assert_eq!(run.queue[1].revid, 2);
    assert!(run.queue[1].comment_hidden && run.queue[1].hidden_state_verified);
    assert_eq!(run.queue[1].title, "A");
    next_catchup_step(&mut run, &mut s, CatchupEvent::CandidateProcessed { go_on: true });
    let step = next_catchup_step(&mut run, &mut s, CatchupEvent::CandidateProcessed { go_on: true });
    assert_eq!(step, CatchupAction::FetchTitle(1));
    assert_eq!(s.pages_checked, 2);
    let step = next_catchup_step(&mut run, &mut s, CatchupEvent::TitleFailed { stop: false });
    assert_eq!(step, CatchupAction::Finish);
    assert_eq!(s.pages_checked, 2);
}

#[test]
fn catchup_run_stops_when_a_step_says_so() {
    let mut s = summary();
    let mut run = CatchupRun::new(vec!["A".to_string(), "B".to_string()], NOW - 3600, NOW, true);
    assert_eq!(next_catchup_step(&mut run, &mut s, CatchupEvent::Begin), CatchupAction::FetchTitle(0));
    let step = next_catchup_step(&mut run, &mut s, CatchupEvent::TitleFailed { stop: true });
    assert_eq!(step, CatchupAction::Finish);
    assert_eq!(s.pages_checked, 1);
    let step = next_catchup_step(&mut run, &mut s, CatchupEvent::CandidateProcessed { go_on: true });
    assert_eq!(step, CatchupAction::Finish);
}
