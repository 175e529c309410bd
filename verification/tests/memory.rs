use suppressor::memory::{
    parse_cgroup_events, proc_status_kibibytes, read_failure, sample_cgroup_memory,
    sample_process_memory, CgroupReads,
};
use suppressor::panel::{render_progress_bar, render_reconcile_line, status_panel_lines, StatusSnapshot};
use suppressor::runtime::{ReconciliationRuntimeStatus, RuntimeStatus};

fn ok(text: &str) -> Result<String, String> {
    Ok(text.to_string())
}

#[test]
fn memory_snapshot_parses_proc_and_cgroup_v2_fixtures() {
    let process = sample_process_memory(
        ok("Name:\tsuppressor\nVmRSS:\t  14 kB\nVmHWM:\t  20 kB\n"),
        "/tmp/status",
    );
    assert_eq!(process.vm_rss_bytes, Some(14 * 1024));
    assert_eq!(process.vm_hwm_bytes, Some(20 * 1024));
    assert!(process.error.is_none());

    let cgroup = sample_cgroup_memory(
        "/tmp/cgroup",
        &CgroupReads {
            current: ok("17\n"),
            peak: ok("18\n"),
            max: ok("536870912\n"),
            events: ok("low 0\nhigh 1\nmax 2\noom 3\noom_kill 4\noom_group_kill 5\n"),
        },
    );
    assert_eq!(cgroup.current_bytes, Some(17));
    assert_eq!(cgroup.peak_bytes, Some(18));
    assert_eq!(cgroup.max_bytes, Some(536870912));
    assert!(!cgroup.max_is_unlimited);
    assert_eq!(cgroup.events.as_ref().map(|events| events.oom_kill), Some(4));
    assert!(cgroup.error.is_none());
}

#[test]
fn memory_snapshot_accepts_unlimited_cgroup_max() {
    let cgroup = sample_cgroup_memory(
        "/tmp/cgroup",
        &CgroupReads {
            current: ok("0\n"),
            peak: ok("0\n"),
            max: ok("max\n"),
            events: ok("low 0\nhigh 0\nmax 0\noom 0\noom_kill 0\noom_group_kill 0\n"),
        },
    );
    assert_eq!(cgroup.current_bytes, Some(0));
    assert_eq!(cgroup.peak_bytes, Some(0));
    assert_eq!(cgroup.max_bytes, None);
    assert!(cgroup.max_is_unlimited);
}

#[test]
fn memory_snapshot_reports_missing_or_unreadable_telemetry_without_failure() {
    let process = sample_process_memory(ok("VmRSS:\t  14 kB\n"), "/tmp/status");
    assert_eq!(process.vm_rss_bytes, Some(14 * 1024));
    assert_eq!(process.vm_hwm_bytes, None);
    assert_eq!(process.error.as_deref(), Some("missing VmHWM"));

    let gone = Err("No such file or directory (os error 2)".to_string());
    let cgroup = sample_cgroup_memory(
        "/tmp/missing-cgroup",
        &CgroupReads {
            current: gone.clone(),
            peak: gone.clone(),
            max: gone.clone(),
            events: gone,
        },
    );
    assert!(cgroup.current_bytes.is_none());
    assert!(cgroup.events.is_none());
    assert_eq!(
        cgroup.error.as_deref(),
        Some(
            "failed to read /tmp/missing-cgroup/memory.current: No such file or directory (os error 2); \
failed to read /tmp/missing-cgroup/memory.peak: No such file or directory (os error 2); \
failed to read /tmp/missing-cgroup/memory.max: No such file or directory (os error 2); \
failed to read /tmp/missing-cgroup/memory.events: No such file or directory (os error 2)"
        )
    );
}

#[test]
fn unreadable_process_status_names_the_path() {
    let process = sample_process_memory(Err("denied".to_string()), "/proc/self/status");
    assert_eq!(process.error.as_deref(), Some("failed to read /proc/self/status: denied"));
    assert_eq!(read_failure("a", "b"), "failed to read a: b");
}

#[test]
fn proc_status_values_skip_unreadable_lines() {
    assert_eq!(proc_status_kibibytes("VmRSS: x kB\nVmRSS: +7 kB\n", "VmRSS"), Some(7));
    assert_eq!(proc_status_kibibytes("VmRSSX: 5 kB\n", "VmRSS"), None);
    assert_eq!(proc_status_kibibytes("VmRSS:\n", "VmRSS"), None);
}

#[test]
fn cgroup_errors_name_invalid_values_and_missing_events() {
    let cgroup = sample_cgroup_memory(
        "/c",
        &CgroupReads {
            current: ok("abc\n"),
            peak: ok("5"),
            max: ok("-1"),
            events: ok("low 0\nhigh 1\nlow 9\n"),
        },
    );
    assert_eq!(cgroup.current_bytes, None);
    assert_eq!(cgroup.peak_bytes, Some(5));
    assert_eq!(
        cgroup.error.as_deref(),
        Some(
            "invalid memory.current: invalid digit found in string; \
invalid memory.max: invalid digit found in string; \
memory.events missing max, oom, oom_kill, oom_group_kill"
        )
    );
    let events = parse_cgroup_events("low 1\nhigh 2\nmax 3\noom 4\noom_kill 5\noom_group_kill 6\nlow 7").unwrap();
    assert_eq!(events.low, 7);
    assert_eq!(events.oom_group_kill, 6);
}

#[test]
fn progress_bar_fills_in_proportion() {
    assert_eq!(render_progress_bar(0, 0, 16), "[no work]");
    assert_eq!(render_progress_bar(5, 10, 0), "[no work]");
    assert_eq!(render_progress_bar(5, 10, 4), "[##..]");
    assert_eq!(render_progress_bar(20, 10, 4), "[####]");
    assert_eq!(render_progress_bar(usize::MAX, usize::MAX, 2), "[#.]");
}

#[test]
fn reconcile_line_shows_progress_or_result() {
    let active = ReconciliationRuntimeStatus {
        active: true,
        mode: Some("nightly-full".to_string()),
        phase_completed: 4,
        phase_total: 8,
        total_titles: 3,
        ..ReconciliationRuntimeStatus::default()
    };
    assert_eq!(
        render_reconcile_line(&active),
        "Reconciliation: active [nightly-full] 4/8 [########........]"
    );
    let idle = ReconciliationRuntimeStatus {
        last_result: Some("completed".to_string()),
        ..ReconciliationRuntimeStatus::default()
    };
    assert_eq!(render_reconcile_line(&idle), "Reconciliation: idle [last] completed");
    assert_eq!(
        render_reconcile_line(&ReconciliationRuntimeStatus::default()),
        "Reconciliation: idle"
    );
}

#[test]
fn status_panel_lists_daemon_files_and_progress() {
    let snapshot = StatusSnapshot {
        daemon_pid: Some(42),
        daemon_running: false,
        config_path: "/etc/s/config.toml".to_string(),
        env_file: "/etc/s/.env".to_string(),
        pid_file: "/var/s/daemon.pid".to_string(),
        listed_titles: 2,
        watched_titles: 3,
        runtime_status: Some(RuntimeStatus {
            daemon_state: String::new(),
            last_notice: Some("ok".to_string()),
            reconciliation: ReconciliationRuntimeStatus {
                phase: Some("pages".to_string()),
                phase_completed: 1,
                phase_total: 2,
                ..ReconciliationRuntimeStatus::default()
            },
            ..RuntimeStatus::default()
        }),
        status_error: Some("PID file contains a non-positive pid.".to_string()),
        ..StatusSnapshot::default()
    };
    let lines = status_panel_lines(&snapshot);
    assert_eq!(
        lines,
        vec![
            "Daemon: stale pid file (pid 42)",
            "Daemon state: unknown",
            "Managed session: none",
            "Config: /etc/s/config.toml",
            "Env file: /etc/s/.env",
            "PID file: /var/s/daemon.pid",
            "Source page: not cached yet",
            "Listed titles: 2   Watched titles: 3",
            "Processed revisions: 0   Checkpoint pages: 0",
            "Last Event-ID: not recorded yet",
            "Reconciliation: idle",
            "Phase: pages 1/2",
            "Last notice: ok",
            "Status note: PID file contains a non-positive pid.",
        ]
    );
}
