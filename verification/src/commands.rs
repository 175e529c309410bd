//! What the operator commands print and check: auth status, hide receipts,
//! command reports, server-start receipts, PID files and time windows.

use vstd::prelude::*;

use crate::auth::AuthState;
use crate::catchup::{bool_text, format_summary_lines, joined, push_joined, sorted_distinct, strictly_ascending, same_texts, summary_lines};
use crate::config::{path_joined, config_dir, RuntimePaths};
use crate::state::CoverageSummary;
use crate::text::{chars_of, decimal, push_decimal, push_signed_decimal, push_str, signed_decimal, string_of};
use crate::time::{chrono_range, format_rfc3339, parse_rfc3339_seconds, representable_time, rfc3339_instant, rfc3339_text};
use crate::titles::views;
use crate::cli::{all_digits, digits_value, parse_decimal_u64, opt_text};

verus! {

/// How a daemon started by `server-start` is marked.
pub const SERVER_START_LAUNCH_KIND: &'static str = "server-start";

/// The auth status lines: the user, whether it has the bot right, and its
/// rights sorted (each once), comma-separated.
pub open spec fn auth_status_lines(auth: AuthState, sorted_rights: Seq<Seq<char>>) -> Seq<Seq<char>> {
    seq![
        "auth.user="@ + auth.username@,
        "auth.bot="@ + bool_text(auth.holds("bot"@)),
        "auth.rights="@ + joined(sorted_rights, ","@),
    ]
}

/// The lines `check-auth` prints.
pub fn format_auth_status_lines(auth: &AuthState) -> (r: Vec<String>)
    ensures
        exists|sorted: Seq<Seq<char>>|
            strictly_ascending(sorted) && same_texts(sorted, views(auth.rights@)) && views(r@)
                == auth_status_lines(*auth, sorted),
{
    let rights = sorted_distinct(&auth.rights);
    let mut lines: Vec<String> = Vec::new();
    let mut user: Vec<char> = Vec::new();
    push_str(&mut user, "auth.user=");
    push_str(&mut user, auth.username.as_str());
    lines.push(string_of(&user));
    let mut bot: Vec<char> = Vec::new();
    push_str(&mut bot, "auth.bot=");
    let has_bot = auth.has_bot_right();
    if has_bot {
        push_str(&mut bot, "true");
    } else {
        push_str(&mut bot, "false");
    }
    lines.push(string_of(&bot));
    let mut listed: Vec<char> = Vec::new();
    push_str(&mut listed, "auth.rights=");
    push_joined(&mut listed, &rights, ",");
    lines.push(string_of(&listed));
    assert(views(lines@) =~= auth_status_lines(*auth, views(rights@)));
    lines
}

/// The line `hide-revid` prints after hiding a revision.
pub fn format_hide_revid_result(revid: u64) -> (r: String)
    ensures
        r@ == "revdel.ok revid="@ + decimal(revid as nat),
{
    let mut out: Vec<char> = Vec::new();
    push_str(&mut out, "revdel.ok revid=");
    push_decimal(&mut out, revid);
    assert(out@ =~= "revdel.ok revid="@ + decimal(revid as nat));
    string_of(&out)
}

/// The lines of a command report: the run's summary lines.
pub fn render_command_report_lines(summary: &CoverageSummary) -> (r: Vec<String>)
    requires
        summary.backoff_until matches Some(t) ==> representable_time(t),
    ensures
        views(r@) == summary_lines(*summary),
{
    format_summary_lines(summary)
}

/// What the operator should do after a command: wait out a back-off, else
/// rerun without report-only or review the unresolved items.
pub open spec fn next_action_text(summary: CoverageSummary, report_only: bool) -> Option<Seq<char>> {
    if summary.backoff_until is Some {
        Some("wait for backoff to expire and rerun the command"@)
    } else if report_only && summary.unresolved_count > 0 {
        Some("run emergency catch-up without report-only if hiding should proceed"@)
    } else if summary.unresolved_count > 0 {
        Some("review unresolved items and rerun the command if exposure remains"@)
    } else {
        None
    }
}

/// The next action a command report recommends.
pub fn next_action_for_summary(summary: &CoverageSummary, report_only: bool) -> (r: Option<String>)
    ensures
        opt_text(r) == next_action_text(*summary, report_only),
{
    if summary.backoff_until.is_some() {
        return Some(String::from_str("wait for backoff to expire and rerun the command"));
    }
    if report_only && summary.unresolved_count > 0 {
        return Some(
            String::from_str("run emergency catch-up without report-only if hiding should proceed"),
        );
    }
    if summary.unresolved_count > 0 {
        return Some(
            String::from_str("review unresolved items and rerun the command if exposure remains"),
        );
    }
    None
}

/// What `server-start` reports once the daemon runs.
#[derive(Clone, Debug, PartialEq, Eq)]
pub struct ServerStartReceipt {
    pub mode: String,
    pub pid: i32,
    pub config_path: String,
    pub pid_file: String,
    pub runtime_status_file: String,
    pub log_path: String,
}

/// The receipt lines: mode and PID, the paths, and the launch kind; no
/// credentials.
pub open spec fn receipt_lines(r: ServerStartReceipt) -> Seq<Seq<char>> {
    seq![
        "server-start.ok mode="@ + r.mode@ + " pid="@ + signed_decimal(r.pid as int),
        "config="@ + r.config_path@,
        "pid_file="@ + r.pid_file@,
        "runtime_status="@ + r.runtime_status_file@,
        "log="@ + r.log_path@,
        "launch_path="@ + SERVER_START_LAUNCH_KIND@,
    ]
}

fn prefixed(label: &str, value: &str) -> (r: String)
    ensures
        r@ == label@ + value@,
{
    let mut out: Vec<char> = Vec::new();
    push_str(&mut out, label);
    push_str(&mut out, value);
    assert(out@ =~= label@ + value@);
    string_of(&out)
}

/// The lines `server-start` prints.
pub fn format_server_start_receipt_lines(receipt: &ServerStartReceipt) -> (r: Vec<String>)
    ensures
        views(r@) == receipt_lines(*receipt),
{
    let mut first: Vec<char> = Vec::new();
    push_str(&mut first, "server-start.ok mode=");
    push_str(&mut first, receipt.mode.as_str());
    push_str(&mut first, " pid=");
    push_signed_decimal(&mut first, receipt.pid as i64);
    let mut lines: Vec<String> = Vec::new();
    lines.push(string_of(&first));
    lines.push(prefixed("config=", receipt.config_path.as_str()));
    lines.push(prefixed("pid_file=", receipt.pid_file.as_str()));
    lines.push(prefixed("runtime_status=", receipt.runtime_status_file.as_str()));
    lines.push(prefixed("log=", receipt.log_path.as_str()));
    lines.push(prefixed("launch_path=", SERVER_START_LAUNCH_KIND));
    assert(views(lines@) =~= receipt_lines(*receipt));
    lines
}

/// Where a started daemon logs: an absolute `--log-file` as given, a
/// relative one beside the configuration file, else `daemon.log` in the
/// state directory.
pub open spec fn server_start_log_path(
    config_path: Seq<char>,
    state_dir: Seq<char>,
    log_file: Option<Seq<char>>,
) -> Seq<char> {
    match log_file {
        Some(p) => if p.len() > 0 && p[0] == '/' {
            p
        } else {
            path_joined(config_dir(config_path), p)
        },
        None => path_joined(state_dir, "daemon.log"@),
    }
}

/// The log file of a daemon started by `server-start`.
pub fn resolve_server_start_log_path(
    config_path: &str,
    paths: &RuntimePaths,
    log_file: Option<String>,
) -> (r: String)
    ensures
        r@ == server_start_log_path(config_path@, paths.state_dir@, opt_text(log_file)),
{
    match log_file {
        Some(p) => crate::config::AppConfig::resolve_path(config_path, p.as_str()),
        None => crate::config::join_path(paths.state_dir.as_str(), "daemon.log"),
    }
}

/// Why a PID file was refused.
#[derive(Clone, Copy, Debug, PartialEq, Eq)]
pub enum PidFileError {
    /// The file does not hold a number.
    NotANumber,
    /// The file holds zero or a negative number.
    NonPositive(i32),
}

/// The number an `i32` text writes, as `i32::from_str` reads it: an optional
/// sign, then decimal digits.
pub open spec fn signed_text_value(t: Seq<char>) -> Option<int> {
    if t.len() > 0 && t[0] == '-' {
        let d = t.drop_first();
        if d.len() > 0 && all_digits(d) {
            Some(-(digits_value(d) as int))
        } else {
            None
        }
    } else {
        let d = if t.len() > 0 && t[0] == '+' {
            t.drop_first()
        } else {
            t
        };
        if d.len() > 0 && all_digits(d) {
            Some(digits_value(d) as int)
        } else {
            None
        }
    }
}

/// What a PID file's text says: a positive PID, or why not.
pub open spec fn pid_from_text(t: Seq<char>) -> Result<i32, PidFileError> {
    match signed_text_value(t) {
        Some(n) => if n < i32::MIN || n > i32::MAX {
            Err(PidFileError::NotANumber)
        } else if n <= 0 {
            Err(PidFileError::NonPositive(n as i32))
        } else {
            Ok(n as i32)
        },
        None => Err(PidFileError::NotANumber),
    }
}

/// Reads the PID a PID file holds.
pub fn read_positive_pid(text: &str) -> (r: Result<i32, PidFileError>)
    ensures
        r == pid_from_text(text@),
{
    let t = chars_of(text);
    let negative = t.len() > 0 && t[0] == '-';
    let digits = if t.len() > 0 && (t[0] == '-' || t[0] == '+') {
        crate::text::copy_range(&t, 1, t.len())
    } else {
        crate::text::copy_range(&t, 0, t.len())
    };
    assert(t@.len() > 0 && (t@[0] == '-' || t@[0] == '+') ==> digits@ =~= t@.drop_first());
    assert(!(t@.len() > 0 && (t@[0] == '-' || t@[0] == '+')) ==> digits@ =~= t@);
    match parse_decimal_u64(&digits) {
        None => {
            proof {
                if digits@.len() > 0 && all_digits(digits@) {
                    assert(digits_value(digits@) > u64::MAX);
                }
            }
            Err(PidFileError::NotANumber)
        },
        Some(n) => {
            if negative {
                if n > 2147483648 {
                    Err(PidFileError::NotANumber)
                } else if n == 2147483648 {
                    Err(PidFileError::NonPositive(i32::MIN))
                } else {
                    Err(PidFileError::NonPositive(-(n as i32)))
                }
            } else if n > 2147483647 {
                Err(PidFileError::NotANumber)
            } else if n == 0 {
                Err(PidFileError::NonPositive(0))
            } else {
                Ok(n as i32)
            }
        },
    }
}

/// Why a command's time window was refused.
#[derive(Clone, Debug, PartialEq, Eq)]
pub enum WindowBoundsError {
    /// The window ends before it starts.
    Inverted { start: i64, end: i64 },
    /// The window is longer than allowed without an override.
    TooLarge { seconds: i64, max_seconds: i64 },
}

/// Checks a command's time window before any API work: it must not end
/// before it starts, and it may exceed the maximum only with the override
/// or in report-only mode.
pub fn validate_window_bounds(
    start: i64,
    end: i64,
    max_window_seconds: i64,
    allow_large_window: bool,
    report_only: bool,
) -> (r: Result<(), WindowBoundsError>)
    requires
        representable_time(start),
        representable_time(end),
    ensures
        end < start ==> r == Err::<(), WindowBoundsError>(WindowBoundsError::Inverted { start, end }),
        start <= end && end - start > max_window_seconds && !allow_large_window && !report_only
            ==> r == Err::<(), WindowBoundsError>(
            WindowBoundsError::TooLarge { seconds: (end - start) as i64, max_seconds: max_window_seconds },
        ),
        start <= end && (end - start <= max_window_seconds || allow_large_window || report_only)
            ==> r is Ok,
{
    if end < start {
        return Err(WindowBoundsError::Inverted { start, end });
    }
    let seconds = end - start;
    if seconds > max_window_seconds && !allow_large_window && !report_only {
        return Err(WindowBoundsError::TooLarge { seconds, max_seconds: max_window_seconds });
    }
    Ok(())
}

/// Reads an RFC 3339 timestamp given to a command (to whole seconds);
/// `None` when it is not one, such as a time without a zone.
pub fn parse_rfc3339_utc(value: &str) -> (r: Option<i64>)
    ensures
        r == rfc3339_instant(value@),
        r matches Some(t) ==> chrono_range(t),
{
    parse_rfc3339_seconds(value)
}

impl PidFileError {
    /// The message of the refusal for the PID file at `path`.
    pub open spec fn text(self, path: Seq<char>) -> Seq<char> {
        match self {
            PidFileError::NotANumber => "invalid PID file "@ + path,
            PidFileError::NonPositive(p) => "invalid non-positive PID "@ + signed_decimal(p as int)
                + " in "@ + path,
        }
    }

    /// The message shown for the refusal.
    pub fn message(&self, path: &str) -> (r: String)
        ensures
            r@ == self.text(path@),
    {
        let mut out: Vec<char> = Vec::new();
        match *self {
            PidFileError::NotANumber => {
                push_str(&mut out, "invalid PID file ");
                push_str(&mut out, path);
            },
            PidFileError::NonPositive(p) => {
                push_str(&mut out, "invalid non-positive PID ");
                push_signed_decimal(&mut out, p as i64);
                push_str(&mut out, " in ");
                push_str(&mut out, path);
            },
        }
        assert(out@ =~= self.text(path@));
        string_of(&out)
    }
}

impl WindowBoundsError {
    /// The message of the refusal for the command `command_name`.
    pub open spec fn text(self, command_name: Seq<char>) -> Seq<char> {
        match self {
            WindowBoundsError::Inverted { start, end } => command_name
                + " requires start <= end; got start="@ + rfc3339_text(start) + " end="@
                + rfc3339_text(end),
            WindowBoundsError::TooLarge { seconds, max_seconds } => command_name + " window "@
                + signed_decimal(seconds as int) + "s exceeds configured max "@ + signed_decimal(
                max_seconds as int,
            ) + "s; rerun with --allow-large-window or use --report-only"@,
        }
    }

    /// The message shown for the refusal.
    pub fn message(&self, command_name: &str) -> (r: String)
        requires
            *self matches WindowBoundsError::Inverted { start, end } ==> representable_time(start)
                && representable_time(end),
        ensures
            r@ == self.text(command_name@),
    {
        let mut out: Vec<char> = Vec::new();
        push_str(&mut out, command_name);
        match *self {
            WindowBoundsError::Inverted { start, end } => {
                push_str(&mut out, " requires start <= end; got start=");
                let s = format_rfc3339(start);
                push_str(&mut out, s.as_str());
                push_str(&mut out, " end=");
                let e = format_rfc3339(end);
                push_str(&mut out, e.as_str());
            },
            WindowBoundsError::TooLarge { seconds, max_seconds } => {
                push_str(&mut out, " window ");
                push_signed_decimal(&mut out, seconds);
                push_str(&mut out, "s exceeds configured max ");
                push_signed_decimal(&mut out, max_seconds);
                push_str(&mut out, "s; rerun with --allow-large-window or use --report-only");
            },
        }
        assert(out@ =~= self.text(command_name@));
        string_of(&out)
    }
}


/// Where the detached daemon recorded it was launched from.
#[derive(Clone, Debug, PartialEq, Eq)]
pub struct LaunchEvidence {
    pub kind: String,
    pub pid: i32,
    pub started_at: Option<i64>,
}

/// What the daemon's runtime status file says of its start.
#[derive(Clone, Debug, PartialEq, Eq)]
pub struct StatusEvidence {
    /// The summary of a compatibility notice that blocks the start.
    pub blocking_notice: Option<String>,
    pub launch_path: Option<LaunchEvidence>,
    pub dry_run: bool,
    pub daemon_state: String,
}

/// What reading the PID file gave.
#[derive(Clone, Debug, PartialEq, Eq)]
pub enum PidRead {
    Missing,
    Invalid(String),
    Pid(i32),
}

/// What reading the runtime status file gave.
#[derive(Clone, Debug, PartialEq, Eq)]
pub enum StatusRead {
    Missing,
    Unreadable(String),
    Read(StatusEvidence),
}

/// How far the start of a detached daemon has got.
#[derive(Clone, Debug, PartialEq, Eq)]
pub enum ServerStartProbe {
    Ready(ServerStartReceipt),
    Pending(String),
    Failed(String),
}

/// The files a start is checked against.
#[derive(Clone, Debug, PartialEq, Eq)]
pub struct StartPaths {
    pub config_path: String,
    pub pid_file: String,
    pub runtime_status_file: String,
    pub log_path: String,
}

/// A probe as text: 0 ready, 1 pending, 2 failed, with its reason.
pub open spec fn probe_text(p: ServerStartProbe) -> (int, Seq<char>) {
    match p {
        ServerStartProbe::Ready(_) => (0, Seq::empty()),
        ServerStartProbe::Pending(r) => (1, r@),
        ServerStartProbe::Failed(r) => (2, r@),
    }
}

/// The verdict on a start: the PID file must name the child, the child
/// must run, and the status file must show the launch of this start (not
/// older than `spawned_at`), the asked dry-run mode and the running state.
pub open spec fn start_verdict(
    pid: PidRead,
    child_pid: i32,
    running: bool,
    status: StatusRead,
    dry_run: bool,
    spawned_at: i64,
    paths: StartPaths,
) -> (int, Seq<char>) {
    match pid {
        PidRead::Missing => (1, "pid file not written yet"@),
        PidRead::Invalid(e) => (2, e@),
        PidRead::Pid(p) => if p != child_pid {
            (2, "pid file "@ + paths.pid_file@ + " contains "@ + signed_decimal(p as int) + ", expected detached child "@
                + signed_decimal(child_pid as int))
        } else if !running {
            (1, "PID "@ + signed_decimal(p as int) + " is not running yet"@)
        } else {
            match status {
                StatusRead::Missing => (1, "runtime_status.json not written yet"@),
                StatusRead::Unreadable(e) => (1, "runtime_status.json is not readable yet: "@ + e@),
                StatusRead::Read(s) => match s.blocking_notice {
                    Some(summary) => (2, "blocking compatibility notice: "@ + summary@),
                    None => match s.launch_path {
                        None => (1, "runtime status has no launch_path yet"@),
                        Some(l) => if l.kind@ != SERVER_START_LAUNCH_KIND@ {
                            (1, "runtime launch_path="@ + l.kind@ + " is not server-start yet"@)
                        } else if l.pid != child_pid {
                            (2, "runtime launch_path pid "@ + signed_decimal(l.pid as int)
                                + " does not match detached child "@ + signed_decimal(child_pid as int))
                        } else if !(l.started_at matches Some(t) && t >= spawned_at) {
                            (1, "runtime launch_path is stale"@)
                        } else if s.dry_run != dry_run {
                            (2, "runtime dry_run="@ + bool_text(s.dry_run) + " does not match requested dry_run="@
                                + bool_text(dry_run))
                        } else {
                            let expected = if dry_run { "dry-run-running"@ } else { "running"@ };
                            if s.daemon_state@ != expected {
                                (1, "daemon_state="@ + s.daemon_state@ + " waiting for "@ + expected)
                            } else {
                                (0, Seq::empty())
                            }
                        },
                    },
                },
            }
        },
    }
}

/// Checks how far the start of a detached daemon with PID `child_pid`
/// has got (see `start_verdict`); once ready, the receipt names the mode,
/// the PID and the files.
pub fn probe_server_start(
    pid: PidRead,
    child_pid: i32,
    running: bool,
    status: StatusRead,
    dry_run: bool,
    spawned_at: i64,
    paths: StartPaths,
) -> (r: ServerStartProbe)
    ensures
        probe_text(r) == start_verdict(pid, child_pid, running, status, dry_run, spawned_at, paths),
        r matches ServerStartProbe::Ready(receipt) ==> receipt == (ServerStartReceipt {
            mode: receipt.mode,
            pid: child_pid,
            config_path: paths.config_path,
            pid_file: paths.pid_file,
            runtime_status_file: paths.runtime_status_file,
            log_path: paths.log_path,
        }) && receipt.mode@ == if dry_run { "dry-run"@ } else { "live"@ },
{
    let p = match pid {
        PidRead::Missing => return ServerStartProbe::Pending(String::from_str("pid file not written yet")),
        PidRead::Invalid(e) => return ServerStartProbe::Failed(e),
        PidRead::Pid(p) => p,
    };
    if p != child_pid {
        let mut out: Vec<char> = Vec::new();
        push_str(&mut out, "pid file ");
        push_str(&mut out, paths.pid_file.as_str());
        push_str(&mut out, " contains ");
        push_signed_decimal(&mut out, p as i64);
        push_str(&mut out, ", expected detached child ");
        push_signed_decimal(&mut out, child_pid as i64);
        return ServerStartProbe::Failed(string_of(&out));
    }
    if !running {
        let mut out: Vec<char> = Vec::new();
        push_str(&mut out, "PID ");
        push_signed_decimal(&mut out, p as i64);
        push_str(&mut out, " is not running yet");
        return ServerStartProbe::Pending(string_of(&out));
    }
    let s = match status {
        StatusRead::Missing => return ServerStartProbe::Pending(String::from_str("runtime_status.json not written yet")),
        StatusRead::Unreadable(e) => return ServerStartProbe::Pending(prefixed("runtime_status.json is not readable yet: ",
            e.as_str())),
        StatusRead::Read(s) => s,
    };
    if let Some(summary) = &s.blocking_notice {
        return ServerStartProbe::Failed(prefixed("blocking compatibility notice: ", summary.as_str()));
    }
    let l = match &s.launch_path {
        None => return ServerStartProbe::Pending(String::from_str("runtime status has no launch_path yet")),
        Some(l) => l,
    };
    if !crate::text::str_eq(l.kind.as_str(), SERVER_START_LAUNCH_KIND) {
        let mut out: Vec<char> = Vec::new();
        push_str(&mut out, "runtime launch_path=");
        push_str(&mut out, l.kind.as_str());
        push_str(&mut out, " is not server-start yet");
        return ServerStartProbe::Pending(string_of(&out));
    }
    if l.pid != child_pid {
        let mut out: Vec<char> = Vec::new();
        push_str(&mut out, "runtime launch_path pid ");
        push_signed_decimal(&mut out, l.pid as i64);
        push_str(&mut out, " does not match detached child ");
        push_signed_decimal(&mut out, child_pid as i64);
        return ServerStartProbe::Failed(string_of(&out));
    }
    let fresh = match l.started_at {
        Some(t) => t >= spawned_at,
        None => false,
    };
    if !fresh {
        return ServerStartProbe::Pending(String::from_str("runtime launch_path is stale"));
    }
    if s.dry_run != dry_run {
        let mut out: Vec<char> = Vec::new();
        push_str(&mut out, "runtime dry_run=");
        push_str(&mut out, if s.dry_run { "true" } else { "false" });
        push_str(&mut out, " does not match requested dry_run=");
        push_str(&mut out, if dry_run { "true" } else { "false" });
        return ServerStartProbe::Failed(string_of(&out));
    }
    let expected = if dry_run { "dry-run-running" } else { "running" };
    if !crate::text::str_eq(s.daemon_state.as_str(), expected) {
        let mut out: Vec<char> = Vec::new();
        push_str(&mut out, "daemon_state=");
        push_str(&mut out, s.daemon_state.as_str());
        push_str(&mut out, " waiting for ");
        push_str(&mut out, expected);
        return ServerStartProbe::Pending(string_of(&out));
    }
    ServerStartProbe::Ready(ServerStartReceipt {
        mode: String::from_str(if dry_run { "dry-run" } else { "live" }),
        pid: p,
        config_path: paths.config_path,
        pid_file: paths.pid_file,
        runtime_status_file: paths.runtime_status_file,
        log_path: paths.log_path,
    })
}

} // verus!
