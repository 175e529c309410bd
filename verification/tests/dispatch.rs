use suppressor::dispatch::{
    admit_revisions, live_deadline, queued_outcome, record_lane_saturation, record_latest_outcome,
    skipped_outcome, Admission, LIVE_ACTION_DEADLINE_SECONDS,
};
use suppressor::health::{ExecutionLaneKind, RevDelMode, SuppressionOutcomeSnapshot};
use suppressor::locks::KeyLockSet;
use suppressor::outcomes::{LaneLoad, RevDelAction};
use suppressor::processed::ProcessedRevidsState;
use suppressor::runtime::RuntimeStatus;

const NOW: i64 = 1_777_464_000;

#[test]
fn action_dispatcher_skips_processed_revisions() {
    let mut locks = KeyLockSet::new();
    let processed = ProcessedRevidsState { capacity: 10, revids: vec![42] };
    match admit_revisions(&mut locks, &processed, &vec![42]) {
        Admission::Skipped { revid, duplicate } => {
            assert_eq!(revid, 42);
            assert!(!duplicate);
        }
        Admission::Admitted(_) => panic!("a processed revision must be skipped"),
    }
    assert!(!locks.is_locked(42));
    let outcome = skipped_outcome(&"Title".to_string(), 42, RevDelMode::Live, false, None, "be.wikipedia.org");
    assert_eq!(outcome.outcome, "already-hidden");
    assert_eq!(outcome.reason_code.as_deref(), Some("already-processed"));
    assert_eq!(outcome.mode, RevDelMode::Live.label());
}

#[test]
fn dispatch_action_records_duplicate_live_revision_as_skipped() {
    let mut locks = KeyLockSet::new();
    let processed = ProcessedRevidsState { capacity: 10, revids: vec![] };
    let first = admit_revisions(&mut locks, &processed, &vec![7, 8]);
    assert!(matches!(first, Admission::Admitted(ref guards) if guards.len() == 2));
    assert!(locks.is_locked(7) && locks.is_locked(8));
    match admit_revisions(&mut locks, &processed, &vec![9, 8]) {
        Admission::Skipped { revid, duplicate } => {
            assert_eq!(revid, 8);
            assert!(duplicate);
        }
        Admission::Admitted(_) => panic!("a claimed revision must be skipped"),
    }
    assert!(!locks.is_locked(9));
    if let Admission::Admitted(guards) = first {
        for guard in guards {
            locks.release(guard);
        }
    }
    assert!(!locks.is_locked(7));
    let outcome = skipped_outcome(&"Foo".to_string(), 8, RevDelMode::Live, true, Some(NOW), "be.wikipedia.org");
    assert_eq!(outcome.outcome, "skipped");
    assert_eq!(outcome.reason_code.as_deref(), Some("duplicate-queued"));
    assert_eq!(outcome.lane.as_deref(), Some("live"));
}

#[test]
fn a_batch_repeating_a_revision_is_skipped() {
    let mut locks = KeyLockSet::new();
    let processed = ProcessedRevidsState { capacity: 10, revids: vec![] };
    assert!(matches!(
        admit_revisions(&mut locks, &processed, &vec![3, 3]),
        Admission::Skipped { revid: 3, duplicate: true }
    ));
    assert!(!locks.is_locked(3));
}

#[test]
fn dispatch_action_records_live_queue_timestamps_and_current_task() {
    let mut status = RuntimeStatus::default();
    let deadline = live_deadline(ExecutionLaneKind::Live, NOW);
    assert_eq!(deadline, Some(NOW + LIVE_ACTION_DEADLINE_SECONDS));
    assert_eq!(live_deadline(ExecutionLaneKind::Background, NOW), None);
    let outcome = queued_outcome(&"Foo".to_string(), 0, RevDelMode::Live, &None, Some(NOW - 2), NOW, deadline,
        "be.wikipedia.org");
    let live = LaneLoad { queue_depth: 1, queue_capacity: 1, in_flight: 0, concurrency_limit: 1 };
    record_latest_outcome(&mut status, outcome, live, LaneLoad::default(), NOW);
    let latest = status.realtime.latest_outcome.clone().unwrap();
    assert_eq!(status.realtime.queue_depth, 1);
    assert_eq!(status.realtime.last_action_queued_at, latest.queued_at);
    assert_eq!(latest.outcome, "queued");
    assert_eq!(latest.source_label, RevDelMode::Live.source_label());
    assert_eq!(latest.revision_url.as_deref(), Some("https://be.wikipedia.org/wiki/Special:Diff/0"));
    assert_eq!(latest.deadline_at, Some(NOW + 5));
    let task = status.realtime.current_task.clone().unwrap();
    assert_eq!(task.task_kind, "live-hide");
    assert_eq!(task.label, "hiding watched edit Foo");
    assert_eq!(status.realtime.latest_notice.as_deref(), Some("queued revid 0"));
}

#[test]
fn queued_background_hide_keeps_live_failure_visible() {
    let mut status = RuntimeStatus::default();
    status.realtime.latest_outcome = Some(SuppressionOutcomeSnapshot {
        outcome: "failed".to_string(),
        mode: "live".to_string(),
        ..SuppressionOutcomeSnapshot::default()
    });
    let outcome = queued_outcome(&"Bar".to_string(), 5, RevDelMode::Catchup, &Some("startup".to_string()), None,
        NOW, None, "be.wikipedia.org");
    assert_eq!(outcome.reason_code.as_deref(), Some("startup"));
    record_latest_outcome(&mut status, outcome, LaneLoad::default(), LaneLoad::default(), NOW);
    assert_eq!(status.realtime.latest_outcome.unwrap().outcome, "failed");
    assert!(status.realtime.current_task.is_none());
}

#[test]
fn live_lane_saturation_records_degraded_status_without_waiting() {
    let mut status = RuntimeStatus::default();
    let action = RevDelAction {
        title: "Foo".to_string(),
        revids: vec![1],
        mode: RevDelMode::Live,
        lane: ExecutionLaneKind::Live,
        observed_at: None,
        queued_at: NOW,
        submitted_at: None,
        deadline_at: Some(NOW + 5),
    };
    record_lane_saturation(&mut status, ExecutionLaneKind::Live, "live-queue-full", &action, "retrying",
        "be.wikipedia.org", LaneLoad::default(), LaneLoad::default(), NOW);
    assert_eq!(status.realtime.state, "unhealthy");
    assert_eq!(status.realtime.live_lane.latest_saturation_reason.as_deref(), Some("live-queue-full"));
    assert_eq!(status.realtime.live_lane.latest_saturation_at, Some(NOW));
    let issue = status.realtime.latest_actionable_issue.clone().unwrap();
    assert_eq!(issue.source, "live-hide");
    assert_eq!(issue.summary, "live lane could not accept revid 1");
    let outcome = status.realtime.latest_outcome.clone().unwrap();
    assert_eq!(outcome.outcome, "retrying");
    assert_eq!(outcome.reason_code.as_deref(), Some("live-queue-full"));
    assert_eq!(status.realtime.latest_notice.as_deref(), Some("retrying revid 1"));
}

#[test]
fn dispatch_action_records_processed_live_revision_as_already_hidden() {
    let mut locks = KeyLockSet::new();
    let processed = ProcessedRevidsState { capacity: 50_000, revids: vec![88] };
    let mut status = RuntimeStatus::default();
    match admit_revisions(&mut locks, &processed, &vec![88]) {
        Admission::Skipped { revid, duplicate } => {
            assert_eq!(revid, 88);
            assert!(!duplicate);
            let outcome = skipped_outcome(&"Foo".to_string(), revid, RevDelMode::Live, duplicate, Some(NOW), "be.wikipedia.org");
            let idle = LaneLoad { queue_depth: 0, queue_capacity: 100, in_flight: 0, concurrency_limit: 1 };
            record_latest_outcome(&mut status, outcome, idle, idle, NOW);
        }
        Admission::Admitted(_) => panic!("a processed revision is not queued"),
    }
    let outcome = status.realtime.latest_outcome.as_ref().unwrap();
    assert!(!locks.is_locked(88));
    assert_eq!(outcome.outcome, "already-hidden");
    assert_eq!(outcome.reason_code.as_deref(), Some("already-processed"));
    assert_eq!(outcome.mode, RevDelMode::Live.label());
}

#[test]
fn live_dispatch_sets_deadline_and_lane_status() {
    let mut locks = KeyLockSet::new();
    let processed = ProcessedRevidsState { capacity: 50_000, revids: vec![] };
    let mut status = RuntimeStatus::default();
    let admitted = admit_revisions(&mut locks, &processed, &vec![902]);
    assert!(matches!(admitted, Admission::Admitted(_)));
    let lane = ExecutionLaneKind::Live;
    let deadline_at = live_deadline(lane, NOW);
    let outcome = queued_outcome(&"Foo".to_string(), 902, RevDelMode::Live, &None, Some(NOW), NOW, deadline_at, "be.wikipedia.org");
    let live = LaneLoad { queue_depth: 1, queue_capacity: 100, in_flight: 0, concurrency_limit: 1 };
    let background = LaneLoad { queue_depth: 0, queue_capacity: 100, in_flight: 0, concurrency_limit: 1 };
    record_latest_outcome(&mut status, outcome, live, background, NOW);
    let outcome = status.realtime.latest_outcome.as_ref().unwrap();
    assert_eq!(lane, ExecutionLaneKind::Live);
    assert!(deadline_at.is_some());
    assert_eq!(status.realtime.live_lane.queue_capacity, 100);
    assert_eq!(status.realtime.live_lane.queue_depth, 1);
    assert_eq!(status.realtime.background_lane.queue_depth, 0);
    assert_eq!(outcome.lane.as_deref(), Some("live"));
    assert!(outcome.deadline_at.is_some());
}
