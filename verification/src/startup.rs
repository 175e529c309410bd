//! The status a freshly bootstrapped daemon starts from.

use vstd::prelude::*;

use crate::health::{idle_task, RealtimeRuntimeStatus};
use crate::outcomes::{apply_lane_status_to_runtime_status, economy_after_lanes, lane_from, LaneLoad};
use crate::runtime::{ResourceEconomySnapshot, RuntimeStatus};

verus! {

/// Marks the status of a daemon bootstrapped at `now`: starting (or
/// dry-run starting), the realtime thresholds of its configuration, the
/// lanes as measured, the start time, and an idle task.
pub fn apply_bootstrap_status(
    status: &mut RuntimeStatus,
    dry_run: bool,
    stale_threshold_seconds: u64,
    stream_read_timeout_seconds: u64,
    live: LaneLoad,
    background: LaneLoad,
    now: i64,
)
    requires
        live.queue_depth + background.queue_depth <= usize::MAX,
        live.in_flight + background.in_flight <= usize::MAX,
    ensures
        final(status).daemon_state@ == if dry_run { "dry-run-starting"@ } else { "starting"@ },
        final(status).dry_run == dry_run,
        (final(status).last_notice matches Some(n) && n@ == "bootstrap completed"@),
        final(status).last_notice_at == Some(now),
        (final(status).resource_economy matches Some(r) && economy_after_lanes(Some(ResourceEconomySnapshot {
            queue_depth_max_recent: 0,
            latest_measurement_at: Some(now),
            ..ResourceEconomySnapshot::default_spec()
        }), live, background, now, r)),
        ({
            let o = old(status).realtime;
            let f = final(status).realtime;
            &&& f.state@ == "starting"@
            &&& f.last_state_changed_at == Some(now)
            &&& f.stale_threshold_seconds == stale_threshold_seconds
            &&& f.stream_read_timeout_seconds == stream_read_timeout_seconds
            &&& f.queue_depth == live.queue_depth
            &&& f.live_lane == lane_from(live, o.live_lane)
            &&& f.background_lane == lane_from(background, o.background_lane)
            &&& f.daemon_started_at == Some(now)
            &&& (f.current_task matches Some(t) && t.task_kind@ == "idle"@ && t.label@
                == "waiting for watched-page edits"@ && t.started_at == Some(now) && t.progress_done is None
                && t.progress_total is None && t.window_start is None && t.window_end is None
                && t.expected_resume_at is None)
            &&& (f.latest_notice matches Some(n) && n@ == "bootstrap completed"@)
            &&& f == (RealtimeRuntimeStatus {
                state: f.state,
                last_state_changed_at: f.last_state_changed_at,
                stale_threshold_seconds: f.stale_threshold_seconds,
                stream_read_timeout_seconds: f.stream_read_timeout_seconds,
                queue_depth: f.queue_depth,
                live_lane: f.live_lane,
                background_lane: f.background_lane,
                daemon_started_at: f.daemon_started_at,
                current_task: f.current_task,
                latest_notice: f.latest_notice,
                ..o
            })
        }),
        *final(status) == (RuntimeStatus {
            daemon_state: final(status).daemon_state,
            dry_run: final(status).dry_run,
            last_notice: final(status).last_notice,
            last_notice_at: final(status).last_notice_at,
            resource_economy: final(status).resource_economy,
            realtime: final(status).realtime,
            ..*old(status)
        }),
{
    status.daemon_state = if dry_run {
        String::from_str("dry-run-starting")
    } else {
        String::from_str("starting")
    };
    status.dry_run = dry_run;
    status.last_notice = Some(String::from_str("bootstrap completed"));
    status.last_notice_at = Some(now);
    status.resource_economy = Some(ResourceEconomySnapshot {
        queue_depth_max_recent: 0,
        latest_measurement_at: Some(now),
        ..ResourceEconomySnapshot::default()
    });
    status.realtime.state = String::from_str("starting");
    status.realtime.last_state_changed_at = Some(now);
    status.realtime.stale_threshold_seconds = stale_threshold_seconds;
    status.realtime.stream_read_timeout_seconds = stream_read_timeout_seconds;
    apply_lane_status_to_runtime_status(status, live, background, now);
    status.realtime.daemon_started_at = Some(now);
    status.realtime.current_task = Some(idle_task("waiting for watched-page edits", now));
    status.realtime.latest_notice = Some(String::from_str("bootstrap completed"));
}

} // verus!
