//! The text of the operator console's status panel: the daemon, its
//! files, and the reconciliation progress.

use vstd::prelude::*;

use crate::runtime::ReconciliationRuntimeStatus;
use crate::text::{decimal, push_decimal, push_signed_decimal, push_str, signed_decimal, string_of};
use crate::time::{format_utc_clock, representable_time, utc_clock_text};

verus! {

/// `n` copies of `c`.
pub open spec fn repeated(c: char, n: nat) -> Seq<char> {
    Seq::new(n, |i: int| c)
}

/// `a * b`, or the largest `usize` when that overflows.
pub open spec fn saturating_product(a: usize, b: usize) -> int {
    if a * b > usize::MAX {
        usize::MAX as int
    } else {
        a * b
    }
}

/// How many of `width` cells a progress of `done` out of `total` fills.
pub open spec fn filled_cells(done: usize, total: usize, width: usize) -> int {
    let f = saturating_product(done, width) / (total as int);
    if f > width {
        width as int
    } else {
        f
    }
}

/// A progress bar `width` cells wide: filled cells, then empty ones, in
/// brackets; "[no work]" when there is no work or no width.
pub open spec fn progress_bar(done: usize, total: usize, width: usize) -> Seq<char> {
    if total == 0 || width == 0 {
        "[no work]"@
    } else {
        let f = filled_cells(done, total, width);
        "["@ + repeated('#', f as nat) + repeated('.', (width - f) as nat) + "]"@
    }
}

fn push_repeated(out: &mut Vec<char>, c: char, n: usize)
    ensures
        final(out)@ == old(out)@ + repeated(c, n as nat),
{
    let ghost start = out@;
    let mut i: usize = 0;
    while i < n
        invariant
            i <= n,
            out@ == start + repeated(c, i as nat),
        decreases n - i,
    {
        out.push(c);
        i = i + 1;
        assert(out@ =~= start + repeated(c, i as nat));
    }
}

/// Renders a progress bar.
pub fn render_progress_bar(done: usize, total: usize, width: usize) -> (r: String)
    ensures
        r@ == progress_bar(done, total, width),
{
    if total == 0 || width == 0 {
        return String::from_str("[no work]");
    }
    let product = done.checked_mul(width);
    let scaled: usize = match product {
        Some(p) => p,
        None => usize::MAX,
    };
    let f0 = scaled / total;
    let filled = if f0 > width {
        width
    } else {
        f0
    };
    let mut out: Vec<char> = Vec::new();
    push_str(&mut out, "[");
    push_repeated(&mut out, '#', filled);
    push_repeated(&mut out, '.', width - filled);
    push_str(&mut out, "]");
    assert(out@ =~= progress_bar(done, total, width));
    string_of(&out)
}

/// The text of an optional label, or `fallback`.
pub open spec fn text_or(o: Option<String>, fallback: Seq<char>) -> Seq<char> {
    match o {
        Some(s) => s@,
        None => fallback,
    }
}

/// The larger of two counts.
pub open spec fn larger(a: usize, b: usize) -> usize {
    if a >= b {
        a
    } else {
        b
    }
}

/// The reconciliation line of the panel.
pub open spec fn reconcile_line(s: ReconciliationRuntimeStatus) -> Seq<char> {
    if s.active {
        let total = larger(s.phase_total, s.total_titles);
        "Reconciliation: active ["@ + text_or(s.mode, "unknown"@) + "] "@ + decimal(s.phase_completed as nat)
            + "/"@ + decimal(total as nat) + " "@ + progress_bar(s.phase_completed, total, 16)
    } else {
        match s.last_result {
            Some(r) => "Reconciliation: idle ["@ + text_or(s.mode, "last"@) + "] "@ + r@,
            None => "Reconciliation: idle"@,
        }
    }
}

fn push_opt(out: &mut Vec<char>, o: &Option<String>, fallback: &str)
    ensures
        final(out)@ == old(out)@ + text_or(*o, fallback@),
{
    match o {
        Some(s) => push_str(out, s.as_str()),
        None => push_str(out, fallback),
    }
}

/// Renders the reconciliation line.
pub fn render_reconcile_line(status: &ReconciliationRuntimeStatus) -> (r: String)
    ensures
        r@ == reconcile_line(*status),
{
    let mut out: Vec<char> = Vec::new();
    if status.active {
        let total = if status.phase_total >= status.total_titles {
            status.phase_total
        } else {
            status.total_titles
        };
        push_str(&mut out, "Reconciliation: active [");
        push_opt(&mut out, &status.mode, "unknown");
        push_str(&mut out, "] ");
        push_decimal(&mut out, status.phase_completed as u64);
        push_str(&mut out, "/");
        push_decimal(&mut out, total as u64);
        push_str(&mut out, " ");
        let bar = render_progress_bar(status.phase_completed, total, 16);
        push_str(&mut out, bar.as_str());
    } else {
        match &status.last_result {
            Some(result) => {
                push_str(&mut out, "Reconciliation: idle [");
                push_opt(&mut out, &status.mode, "last");
                push_str(&mut out, "] ");
                push_str(&mut out, result.as_str());
            },
            None => push_str(&mut out, "Reconciliation: idle"),
        }
    }
    assert(out@ =~= reconcile_line(*status));
    string_of(&out)
}

/// What the console read of the daemon's files.
#[derive(Clone, Debug, Default)]
pub struct StatusSnapshot {
    pub daemon_pid: Option<i32>,
    pub daemon_running: bool,
    pub managed_session: Option<String>,
    pub config_path: String,
    pub env_file: String,
    pub pid_file: String,
    pub last_event_id: Option<String>,
    pub source_title: Option<String>,
    pub listed_titles: usize,
    pub watched_titles: usize,
    pub processed_revids: usize,
    pub checkpoint_pages: usize,
    pub runtime_status: Option<crate::runtime::RuntimeStatus>,
    pub status_error: Option<String>,
}

/// The daemon line of the panel.
pub open spec fn daemon_line(s: StatusSnapshot) -> Seq<char> {
    if s.daemon_running {
        "Daemon: running (pid "@ + signed_decimal(match s.daemon_pid {
            Some(p) => p as int,
            None => 0,
        }) + ")"@
    } else {
        match s.daemon_pid {
            Some(p) => "Daemon: stale pid file (pid "@ + signed_decimal(p as int) + ")"@,
            None => "Daemon: not running"@,
        }
    }
}

/// The daemon state the panel shows.
pub open spec fn daemon_state_text(s: StatusSnapshot) -> Seq<char> {
    match s.runtime_status {
        Some(r) => if r.daemon_state@.len() == 0 {
            "unknown"@
        } else {
            r.daemon_state@
        },
        None => if s.daemon_running {
            "running"@
        } else {
            "not running"@
        },
    }
}

/// The lines the runtime status adds to the panel.
pub open spec fn runtime_lines(r: crate::runtime::RuntimeStatus) -> Seq<Seq<char>> {
    let rec = r.reconciliation;
    seq![reconcile_line(rec)] + match rec.phase {
        Some(p) => seq!["Phase: "@ + p@ + " "@ + decimal(rec.phase_completed as nat) + "/"@ + decimal(
            rec.phase_total as nat)],
        None => Seq::empty(),
    } + match rec.current_title {
        Some(t) => seq!["Current title: "@ + t@],
        None => Seq::empty(),
    } + match rec.queued_mode {
        Some(m) => seq!["Queued rerun: "@ + m@],
        None => Seq::empty(),
    } + match r.last_notice {
        Some(n) => seq![match r.last_notice_at {
            Some(t) => "Last notice: "@ + n@ + " ("@ + utc_clock_text(t) + ")"@,
            None => "Last notice: "@ + n@,
        }],
        None => Seq::empty(),
    }
}

/// The lines of the status panel.
pub open spec fn panel_lines(s: StatusSnapshot) -> Seq<Seq<char>> {
    seq![
        daemon_line(s),
        "Daemon state: "@ + daemon_state_text(s),
        "Managed session: "@ + text_or(s.managed_session, "none"@),
        "Config: "@ + s.config_path@,
        "Env file: "@ + s.env_file@,
        "PID file: "@ + s.pid_file@,
        "Source page: "@ + text_or(s.source_title, "not cached yet"@),
        "Listed titles: "@ + decimal(s.listed_titles as nat) + "   Watched titles: "@ + decimal(
            s.watched_titles as nat),
        "Processed revisions: "@ + decimal(s.processed_revids as nat) + "   Checkpoint pages: "@
            + decimal(s.checkpoint_pages as nat),
        "Last Event-ID: "@ + text_or(s.last_event_id, "not recorded yet"@)
    ] + match s.runtime_status {
        Some(r) => runtime_lines(r),
        None => Seq::empty(),
    } + match s.status_error {
        Some(e) => seq!["Status note: "@ + e@],
        None => Seq::empty(),
    }
}

fn line_of(out: &mut Vec<String>, line: Vec<char>)
    ensures
        final(out)@.len() == old(out)@.len() + 1,
        forall|i: int| 0 <= i < old(out)@.len() ==> final(out)@[i] == old(out)@[i],
        final(out)@[old(out)@.len() as int]@ == line@,
{
    out.push(string_of(&line));
}

/// The texts of `lines`.
pub open spec fn line_texts(lines: Seq<String>) -> Seq<Seq<char>> {
    lines.map_values(|s: String| s@)
}

/// Renders the lines of the status panel (the console styles them).
#[verifier::rlimit(60)]
pub fn status_panel_lines(status: &StatusSnapshot) -> (r: Vec<String>)
    requires
        status.runtime_status matches Some(r) ==> (r.last_notice_at matches Some(t) ==> representable_time(t)),
    ensures
        line_texts(r@) == panel_lines(*status),
{
    let mut lines: Vec<String> = Vec::new();
    let ghost mut expect: Seq<Seq<char>> = Seq::empty();

    let mut l: Vec<char> = Vec::new();
    if status.daemon_running {
        push_str(&mut l, "Daemon: running (pid ");
        let pid: i32 = match status.daemon_pid {
            Some(p) => p,
            None => 0,
        };
        push_signed_decimal(&mut l, pid as i64);
        push_str(&mut l, ")");
    } else {
        match status.daemon_pid {
            Some(p) => {
                push_str(&mut l, "Daemon: stale pid file (pid ");
                push_signed_decimal(&mut l, p as i64);
                push_str(&mut l, ")");
            },
            None => push_str(&mut l, "Daemon: not running"),
        }
    }
    assert(l@ =~= daemon_line(*status));
    line_of(&mut lines, l);

    let mut l: Vec<char> = Vec::new();
    push_str(&mut l, "Daemon state: ");
    match &status.runtime_status {
        Some(r) => {
            if r.daemon_state.as_str().unicode_len() == 0 {
                push_str(&mut l, "unknown");
            } else {
                push_str(&mut l, r.daemon_state.as_str());
            }
        },
        None => {
            if status.daemon_running {
                push_str(&mut l, "running");
            } else {
                push_str(&mut l, "not running");
            }
        },
    }
    line_of(&mut lines, l);

    let mut l: Vec<char> = Vec::new();
    push_str(&mut l, "Managed session: ");
    push_opt(&mut l, &status.managed_session, "none");
    line_of(&mut lines, l);

    let mut l: Vec<char> = Vec::new();
    push_str(&mut l, "Config: ");
    push_str(&mut l, status.config_path.as_str());
    line_of(&mut lines, l);

    let mut l: Vec<char> = Vec::new();
    push_str(&mut l, "Env file: ");
    push_str(&mut l, status.env_file.as_str());
    line_of(&mut lines, l);

    let mut l: Vec<char> = Vec::new();
    push_str(&mut l, "PID file: ");
    push_str(&mut l, status.pid_file.as_str());
    line_of(&mut lines, l);

    let mut l: Vec<char> = Vec::new();
    push_str(&mut l, "Source page: ");
    push_opt(&mut l, &status.source_title, "not cached yet");
    line_of(&mut lines, l);

    let mut l: Vec<char> = Vec::new();
    push_str(&mut l, "Listed titles: ");
    push_decimal(&mut l, status.listed_titles as u64);
    push_str(&mut l, "   Watched titles: ");
    push_decimal(&mut l, status.watched_titles as u64);
    line_of(&mut lines, l);

    let mut l: Vec<char> = Vec::new();
    push_str(&mut l, "Processed revisions: ");
    push_decimal(&mut l, status.processed_revids as u64);
    push_str(&mut l, "   Checkpoint pages: ");
    push_decimal(&mut l, status.checkpoint_pages as u64);
    line_of(&mut lines, l);

    let mut l: Vec<char> = Vec::new();
    push_str(&mut l, "Last Event-ID: ");
    push_opt(&mut l, &status.last_event_id, "not recorded yet");
    line_of(&mut lines, l);
    assert(line_texts(lines@) =~= seq![
        daemon_line(*status),
        "Daemon state: "@ + daemon_state_text(*status),
        "Managed session: "@ + text_or(status.managed_session, "none"@),
        "Config: "@ + status.config_path@,
        "Env file: "@ + status.env_file@,
        "PID file: "@ + status.pid_file@,
        "Source page: "@ + text_or(status.source_title, "not cached yet"@),
        "Listed titles: "@ + decimal(status.listed_titles as nat) + "   Watched titles: "@ + decimal(
            status.watched_titles as nat),
        "Processed revisions: "@ + decimal(status.processed_revids as nat) + "   Checkpoint pages: "@
            + decimal(status.checkpoint_pages as nat),
        "Last Event-ID: "@ + text_or(status.last_event_id, "not recorded yet"@)
    ]);
    let ghost head = line_texts(lines@);

    if let Some(r) = &status.runtime_status {
        let rec = &r.reconciliation;
        lines.push(render_reconcile_line(rec));
        if let Some(p) = &rec.phase {
            let mut l: Vec<char> = Vec::new();
            push_str(&mut l, "Phase: ");
            push_str(&mut l, p.as_str());
            push_str(&mut l, " ");
            push_decimal(&mut l, rec.phase_completed as u64);
            push_str(&mut l, "/");
            push_decimal(&mut l, rec.phase_total as u64);
            line_of(&mut lines, l);
        }
        if let Some(t) = &rec.current_title {
            let mut l: Vec<char> = Vec::new();
            push_str(&mut l, "Current title: ");
            push_str(&mut l, t.as_str());
            line_of(&mut lines, l);
        }
        if let Some(m) = &rec.queued_mode {
            let mut l: Vec<char> = Vec::new();
            push_str(&mut l, "Queued rerun: ");
            push_str(&mut l, m.as_str());
            line_of(&mut lines, l);
        }
        if let Some(n) = &r.last_notice {
            let mut l: Vec<char> = Vec::new();
            push_str(&mut l, "Last notice: ");
            push_str(&mut l, n.as_str());
            if let Some(t) = r.last_notice_at {
                push_str(&mut l, " (");
                let clock = format_utc_clock(t);
                push_str(&mut l, clock.as_str());
                push_str(&mut l, ")");
            }
            line_of(&mut lines, l);
        }
        assert(line_texts(lines@) =~= head + runtime_lines(*r));
    }
    let ghost mid = line_texts(lines@);
    if let Some(e) = &status.status_error {
        let mut l: Vec<char> = Vec::new();
        push_str(&mut l, "Status note: ");
        push_str(&mut l, e.as_str());
        line_of(&mut lines, l);
        assert(line_texts(lines@) =~= mid + seq!["Status note: "@ + e@]);
    }
    assert(line_texts(lines@) =~= panel_lines(*status));
    lines
}

} // verus!
