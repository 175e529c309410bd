//! Command-line arguments: the program name, the global options `--config`
//! and `--verbose` (accepted before or after the subcommand), one subcommand
//! and that subcommand's own options.
//!
//! An option that takes a value reads it from the same token after `=`
//! (`--limit=7`) or from the next token (`--limit 7`); the next token is not a
//! value when it starts with `-` and is longer than one character. Each option
//! may be given once.

use vstd::prelude::*;

use crate::text::{chars_eq, chars_of, copy_range, find_chars, occurs_at, string_of, str_eq};
use crate::titles::first_index_of;

verus! {

/// The subcommands, by the name they are given on the command line.
#[derive(Clone, Copy, Debug, PartialEq, Eq, Structural)]
pub enum SubcommandKind {
    Run,
    Status,
    Health,
    LastEdits,
    Perf,
    CheckAuth,
    ReloadCache,
    CatchUpNow,
    DryRun,
    HideRevid,
    SmokeTest,
    EmergencyCatchup,
    CoverageReport,
    CoverageLast24h,
    ServerStart,
    SupervisorRun,
    NightlySweepNow,
    PrintEffectiveConfig,
}

/// The long options (and `-h`, `-V`).
#[derive(Clone, Copy, Debug, PartialEq, Eq, Structural)]
pub enum OptionKind {
    Config,
    Verbose,
    Json,
    Limit,
    Page,
    Start,
    End,
    AllowLargeWindow,
    DryRun,
    ReportOnly,
    StatusTimeoutSeconds,
    LogFile,
    Help,
    Version,
}

/// Why the arguments were refused.
#[derive(Clone, Copy, Debug, PartialEq, Eq, Structural)]
pub enum CliErrorKind {
    /// No subcommand was given.
    MissingSubcommand,
    /// A word in the subcommand's place names none.
    UnknownSubcommand,
    /// An option that does not exist, or that the subcommand does not take.
    UnknownArgument,
    /// An option that needs a value was given none.
    MissingValue,
    /// A value that the option cannot hold (not a number, or empty path).
    InvalidValue,
    /// An option given twice.
    RepeatedArgument,
    /// A value given with `=` to an option that takes none.
    UnexpectedValue,
    /// A word after the subcommand that nothing expects.
    UnexpectedArgument,
    /// A subcommand's required argument is absent.
    MissingRequired,
    /// `--help`, `-h` or `help` was asked for.
    HelpRequested,
    /// `--version` or `-V` was asked for.
    VersionRequested,
    /// A command that needs `--config` was run without it.
    MissingConfig,
}

/// A refused command line: the reason and the argument it concerns.
#[derive(Clone, Debug)]
pub struct CliError {
    pub kind: CliErrorKind,
    pub argument: String,
}

/// The subcommand with its options, defaults filled in.
#[allow(inconsistent_fields)]
#[derive(Debug)]
pub enum Command {
    Run,
    Status { json: bool },
    Health { json: bool },
    LastEdits { limit: usize, json: bool },
    Perf { json: bool },
    CheckAuth,
    ReloadCache,
    CatchUpNow,
    DryRun,
    HideRevid { id: u64 },
    SmokeTest { page: Option<String> },
    EmergencyCatchup {
        start: Option<String>,
        end: Option<String>,
        allow_large_window: bool,
        dry_run: bool,
        report_only: bool,
    },
    CoverageReport {
        start: String,
        end: Option<String>,
        allow_large_window: bool,
        dry_run: bool,
        report_only: bool,
    },
    CoverageLast24h { dry_run: bool, report_only: bool },
    ServerStart { dry_run: bool, status_timeout_seconds: u64, log_file: Option<String> },
    SupervisorRun { dry_run: bool, log_file: String },
    NightlySweepNow,
    PrintEffectiveConfig,
}

/// A parsed command line.
#[derive(Debug)]
pub struct Cli {
    pub config: Option<String>,
    pub verbose: bool,
    pub command: Command,
}

/// Where a value sits in the argument list: the token and the offset in it
/// at which the value starts.
pub type Slot = (usize, usize);

/// What has been read of the arguments so far.
#[derive(Clone, Copy, Debug)]
pub struct ArgScan {
    pub sub: Option<SubcommandKind>,
    pub config: Option<Slot>,
    pub verbose: bool,
    pub json: bool,
    pub limit: Option<usize>,
    pub id: Option<u64>,
    pub page: Option<Slot>,
    pub start: Option<Slot>,
    pub end: Option<Slot>,
    pub allow_large_window: bool,
    pub dry_run: bool,
    pub report_only: bool,
    pub status_timeout: Option<u64>,
    pub log_file: Option<Slot>,
}

/// A refusal in the model: the reason and the text of the argument.
pub type CliFault = (CliErrorKind, Seq<char>);

/// The default of `last-edits --limit`.
pub const DEFAULT_LAST_EDITS_LIMIT: usize = 20;

/// The default of `server-start --status-timeout-seconds`.
pub const DEFAULT_STATUS_TIMEOUT_SECONDS: u64 = 120;

/// The texts of the arguments.
pub open spec fn token_views(args: Seq<&str>) -> Seq<Seq<char>> {
    Seq::new(args.len(), |i: int| args[i]@)
}

/// The subcommand a word names.
pub open spec fn subcommand_named(t: Seq<char>) -> Option<SubcommandKind> {
    if t == "run"@ {
        Some(SubcommandKind::Run)
    } else if t == "status"@ {
        Some(SubcommandKind::Status)
    } else if t == "health"@ {
        Some(SubcommandKind::Health)
    } else if t == "last-edits"@ {
        Some(SubcommandKind::LastEdits)
    } else if t == "perf"@ {
        Some(SubcommandKind::Perf)
    } else if t == "check-auth"@ {
        Some(SubcommandKind::CheckAuth)
    } else if t == "reload-cache"@ {
        Some(SubcommandKind::ReloadCache)
    } else if t == "catch-up-now"@ {
        Some(SubcommandKind::CatchUpNow)
    } else if t == "dry-run"@ {
        Some(SubcommandKind::DryRun)
    } else if t == "hide-revid"@ {
        Some(SubcommandKind::HideRevid)
    } else if t == "smoke-test"@ {
        Some(SubcommandKind::SmokeTest)
    } else if t == "emergency-catchup"@ {
        Some(SubcommandKind::EmergencyCatchup)
    } else if t == "coverage-report"@ {
        Some(SubcommandKind::CoverageReport)
    } else if t == "coverage-last-24h"@ {
        Some(SubcommandKind::CoverageLast24h)
    } else if t == "server-start"@ {
        Some(SubcommandKind::ServerStart)
    } else if t == "supervisor-run"@ {
        Some(SubcommandKind::SupervisorRun)
    } else if t == "nightly-sweep-now"@ {
        Some(SubcommandKind::NightlySweepNow)
    } else if t == "print-effective-config"@ {
        Some(SubcommandKind::PrintEffectiveConfig)
    } else {
        None
    }
}

/// The option a long name (with its leading dashes) names.
pub open spec fn option_named(name: Seq<char>) -> Option<OptionKind> {
    if name == "--config"@ {
        Some(OptionKind::Config)
    } else if name == "--verbose"@ {
        Some(OptionKind::Verbose)
    } else if name == "--json"@ {
        Some(OptionKind::Json)
    } else if name == "--limit"@ {
        Some(OptionKind::Limit)
    } else if name == "--page"@ {
        Some(OptionKind::Page)
    } else if name == "--start"@ {
        Some(OptionKind::Start)
    } else if name == "--end"@ {
        Some(OptionKind::End)
    } else if name == "--allow-large-window"@ {
        Some(OptionKind::AllowLargeWindow)
    } else if name == "--dry-run"@ {
        Some(OptionKind::DryRun)
    } else if name == "--report-only"@ {
        Some(OptionKind::ReportOnly)
    } else if name == "--status-timeout-seconds"@ {
        Some(OptionKind::StatusTimeoutSeconds)
    } else if name == "--log-file"@ {
        Some(OptionKind::LogFile)
    } else if name == "--help"@ {
        Some(OptionKind::Help)
    } else if name == "--version"@ {
        Some(OptionKind::Version)
    } else {
        None
    }
}

/// Whether the option is taken where `sub` is the subcommand read so far:
/// `--config`, `--verbose` and `--help` everywhere, `--version` before any
/// subcommand, the others after the subcommands that have them.
pub open spec fn accepts(sub: Option<SubcommandKind>, k: OptionKind) -> bool {
    match k {
        OptionKind::Config | OptionKind::Verbose | OptionKind::Help => true,
        OptionKind::Version => sub is None,
        OptionKind::Json => match sub {
            Some(SubcommandKind::Status) | Some(SubcommandKind::Health) | Some(
                SubcommandKind::LastEdits,
            ) | Some(SubcommandKind::Perf) => true,
            _ => false,
        },
        OptionKind::Limit => sub == Some(SubcommandKind::LastEdits),
        OptionKind::Page => sub == Some(SubcommandKind::SmokeTest),
        OptionKind::Start | OptionKind::End | OptionKind::AllowLargeWindow => match sub {
            Some(SubcommandKind::EmergencyCatchup) | Some(SubcommandKind::CoverageReport) => true,
            _ => false,
        },
        OptionKind::ReportOnly => match sub {
            Some(SubcommandKind::EmergencyCatchup) | Some(SubcommandKind::CoverageReport) | Some(
                SubcommandKind::CoverageLast24h,
            ) => true,
            _ => false,
        },
        OptionKind::DryRun => match sub {
            Some(SubcommandKind::EmergencyCatchup) | Some(SubcommandKind::CoverageReport) | Some(
                SubcommandKind::CoverageLast24h,
            ) | Some(SubcommandKind::ServerStart) | Some(SubcommandKind::SupervisorRun) => true,
            _ => false,
        },
        OptionKind::StatusTimeoutSeconds => sub == Some(SubcommandKind::ServerStart),
        OptionKind::LogFile => match sub {
            Some(SubcommandKind::ServerStart) | Some(SubcommandKind::SupervisorRun) => true,
            _ => false,
        },
    }
}

/// Whether the option reads a value.
pub open spec fn takes_value(k: OptionKind) -> bool {
    match k {
        OptionKind::Config | OptionKind::Limit | OptionKind::Page | OptionKind::Start
        | OptionKind::End | OptionKind::StatusTimeoutSeconds | OptionKind::LogFile => true,
        _ => false,
    }
}

/// Whether the option has been given already.
pub open spec fn already_given(st: ArgScan, k: OptionKind) -> bool {
    match k {
        OptionKind::Config => st.config is Some,
        OptionKind::Verbose => st.verbose,
        OptionKind::Json => st.json,
        OptionKind::Limit => st.limit is Some,
        OptionKind::Page => st.page is Some,
        OptionKind::Start => st.start is Some,
        OptionKind::End => st.end is Some,
        OptionKind::AllowLargeWindow => st.allow_large_window,
        OptionKind::DryRun => st.dry_run,
        OptionKind::ReportOnly => st.report_only,
        OptionKind::StatusTimeoutSeconds => st.status_timeout is Some,
        OptionKind::LogFile => st.log_file is Some,
        OptionKind::Help | OptionKind::Version => false,
    }
}

/// Whether every character is an ASCII digit.
pub open spec fn all_digits(s: Seq<char>) -> bool {
    forall|i: int| 0 <= i < s.len() ==> '0' <= #[trigger] s[i] <= '9'
}

/// The number written by a string of decimal digits.
pub open spec fn digits_value(s: Seq<char>) -> nat
    decreases s.len(),
{
    if s.len() == 0 {
        0
    } else {
        digits_value(s.drop_last()) * 10 + ((s.last() as int) - ('0' as int)) as nat
    }
}

/// The number a value gives: one or more decimal digits and nothing else.
pub open spec fn decimal_value(s: Seq<char>) -> Option<nat> {
    if s.len() > 0 && all_digits(s) {
        Some(digits_value(s))
    } else {
        None
    }
}

/// The state after a flag (an option without value).
pub open spec fn with_flag(st: ArgScan, k: OptionKind) -> ArgScan {
    match k {
        OptionKind::Verbose => ArgScan { verbose: true, ..st },
        OptionKind::Json => ArgScan { json: true, ..st },
        OptionKind::AllowLargeWindow => ArgScan { allow_large_window: true, ..st },
        OptionKind::DryRun => ArgScan { dry_run: true, ..st },
        OptionKind::ReportOnly => ArgScan { report_only: true, ..st },
        _ => st,
    }
}

/// The state after an option with a value found at `slot` with text `text`;
/// `name` is the option as written.
pub open spec fn with_value(
    st: ArgScan,
    k: OptionKind,
    name: Seq<char>,
    slot: Slot,
    text: Seq<char>,
) -> Result<ArgScan, CliFault> {
    match k {
        OptionKind::Config => if text.len() == 0 {
            Err((CliErrorKind::InvalidValue, name))
        } else {
            Ok(ArgScan { config: Some(slot), ..st })
        },
        OptionKind::LogFile => if text.len() == 0 {
            Err((CliErrorKind::InvalidValue, name))
        } else {
            Ok(ArgScan { log_file: Some(slot), ..st })
        },
        OptionKind::Page => Ok(ArgScan { page: Some(slot), ..st }),
        OptionKind::Start => Ok(ArgScan { start: Some(slot), ..st }),
        OptionKind::End => Ok(ArgScan { end: Some(slot), ..st }),
        OptionKind::Limit => match decimal_value(text) {
            Some(n) => if n <= usize::MAX {
                Ok(ArgScan { limit: Some(n as usize), ..st })
            } else {
                Err((CliErrorKind::InvalidValue, name))
            },
            None => Err((CliErrorKind::InvalidValue, name)),
        },
        OptionKind::StatusTimeoutSeconds => match decimal_value(text) {
            Some(n) => if n <= u64::MAX {
                Ok(ArgScan { status_timeout: Some(n as u64), ..st })
            } else {
                Err((CliErrorKind::InvalidValue, name))
            },
            None => Err((CliErrorKind::InvalidValue, name)),
        },
        _ => Ok(st),
    }
}

/// Whether a token can be an option's value.
pub open spec fn is_value_token(t: Seq<char>) -> bool {
    !(t.len() >= 2 && t[0] == '-')
}

/// Whether a token is a long option.
pub open spec fn is_long_option(t: Seq<char>) -> bool {
    t.len() >= 2 && t[0] == '-' && t[1] == '-'
}

/// Whether a token is a short option.
pub open spec fn is_short_option(t: Seq<char>) -> bool {
    t.len() >= 2 && t[0] == '-' && t[1] != '-'
}

/// Reading the long option at token `i`: the new state and the index of
/// the next unread token.
pub open spec fn long_step(tokens: Seq<Seq<char>>, i: int, st: ArgScan) -> Result<
    (ArgScan, int),
    CliFault,
> {
    let t = tokens[i];
    let eq = first_index_of(t, '=');
    let name = match eq {
        Some(e) => t.take(e),
        None => t,
    };
    match option_named(name) {
        None => Err((CliErrorKind::UnknownArgument, name)),
        Some(k) => if !accepts(st.sub, k) {
            Err((CliErrorKind::UnknownArgument, name))
        } else if k == OptionKind::Help {
            Err((CliErrorKind::HelpRequested, name))
        } else if k == OptionKind::Version {
            Err((CliErrorKind::VersionRequested, name))
        } else if already_given(st, k) {
            Err((CliErrorKind::RepeatedArgument, name))
        } else if takes_value(k) {
            match eq {
                Some(e) => match with_value(st, k, name, (i as usize, (e + 1) as usize), t.skip(e + 1)) {
                    Ok(s) => Ok((s, i + 1)),
                    Err(f) => Err(f),
                },
                None => if i + 1 < tokens.len() && is_value_token(tokens[i + 1]) {
                    match with_value(st, k, name, ((i + 1) as usize, 0usize), tokens[i + 1]) {
                        Ok(s) => Ok((s, i + 2)),
                        Err(f) => Err(f),
                    }
                } else {
                    Err((CliErrorKind::MissingValue, name))
                },
            }
        } else {
            match eq {
                Some(_) => Err((CliErrorKind::UnexpectedValue, name)),
                None => Ok((with_flag(st, k), i + 1)),
            }
        },
    }
}

/// Reading the short option at token `i`.
pub open spec fn short_step(t: Seq<char>, st: ArgScan) -> CliFault {
    if t == "-h"@ {
        (CliErrorKind::HelpRequested, t)
    } else if t == "-V"@ && st.sub is None {
        (CliErrorKind::VersionRequested, t)
    } else {
        (CliErrorKind::UnknownArgument, t)
    }
}

/// Reading the word at token `i` (not an option).
pub open spec fn positional_step(t: Seq<char>, i: int, st: ArgScan) -> Result<
    (ArgScan, int),
    CliFault,
> {
    match st.sub {
        None => match subcommand_named(t) {
            Some(s) => Ok((ArgScan { sub: Some(s), ..st }, i + 1)),
            None => if t == "help"@ {
                Err((CliErrorKind::HelpRequested, t))
            } else {
                Err((CliErrorKind::UnknownSubcommand, t))
            },
        },
        Some(sub) => if sub == SubcommandKind::HideRevid && st.id is None {
            match decimal_value(t) {
                Some(n) => if n <= u64::MAX {
                    Ok((ArgScan { id: Some(n as u64), ..st }, i + 1))
                } else {
                    Err((CliErrorKind::InvalidValue, t))
                },
                None => Err((CliErrorKind::InvalidValue, t)),
            }
        } else {
            Err((CliErrorKind::UnexpectedArgument, t))
        },
    }
}

/// Reading the token at index `i`.
pub open spec fn scan_step(tokens: Seq<Seq<char>>, i: int, st: ArgScan) -> Result<
    (ArgScan, int),
    CliFault,
> {
    let t = tokens[i];
    if is_long_option(t) {
        long_step(tokens, i, st)
    } else if is_short_option(t) {
        Err(short_step(t, st))
    } else {
        positional_step(t, i, st)
    }
}

/// Reading the tokens from index `i` on.
pub open spec fn scan(tokens: Seq<Seq<char>>, i: int, st: ArgScan) -> Result<ArgScan, CliFault>
    decreases tokens.len() - i,
{
    if i < 0 || i >= tokens.len() {
        Ok(st)
    } else {
        match scan_step(tokens, i, st) {
            Err(f) => Err(f),
            Ok((s, j)) => if i < j {
                scan(tokens, j, s)
            } else {
                Ok(s)
            },
        }
    }
}

/// Nothing read yet.
pub open spec fn initial_scan() -> ArgScan {
    ArgScan {
        sub: None,
        config: None,
        verbose: false,
        json: false,
        limit: None,
        id: None,
        page: None,
        start: None,
        end: None,
        allow_large_window: false,
        dry_run: false,
        report_only: false,
        status_timeout: None,
        log_file: None,
    }
}

/// The outcome of parsing the whole argument list (its first token is the
/// program's name): the state read, or the refusal.
pub open spec fn parse_outcome(tokens: Seq<Seq<char>>) -> Result<ArgScan, CliFault> {
    match scan(tokens, 1, initial_scan()) {
        Err(f) => Err(f),
        Ok(st) => match st.sub {
            None => Err((CliErrorKind::MissingSubcommand, Seq::empty())),
            Some(sub) => if sub == SubcommandKind::HideRevid && st.id is None {
                Err((CliErrorKind::MissingRequired, "<ID>"@))
            } else if sub == SubcommandKind::CoverageReport && st.start is None {
                Err((CliErrorKind::MissingRequired, "--start"@))
            } else if sub == SubcommandKind::SupervisorRun && st.log_file is None {
                Err((CliErrorKind::MissingRequired, "--log-file"@))
            } else {
                Ok(st)
            },
        },
    }
}

/// The text of a value at `slot`.
pub open spec fn slot_text(tokens: Seq<Seq<char>>, slot: Option<Slot>) -> Option<Seq<char>> {
    match slot {
        Some((a, b)) => Some(tokens[a as int].skip(b as int)),
        None => None,
    }
}

/// The view of an optional string.
pub open spec fn opt_text(o: Option<String>) -> Option<Seq<char>> {
    match o {
        Some(s) => Some(s@),
        None => None,
    }
}

/// Whether a slot lies inside the argument list.
pub open spec fn slot_ok(tokens: Seq<Seq<char>>, slot: Option<Slot>) -> bool {
    slot matches Some((a, b)) ==> a < tokens.len() && b <= tokens[a as int].len()
}

/// Whether all slots of a state lie inside the argument list.
pub open spec fn scan_ok(tokens: Seq<Seq<char>>, st: ArgScan) -> bool {
    &&& slot_ok(tokens, st.config)
    &&& slot_ok(tokens, st.page)
    &&& slot_ok(tokens, st.start)
    &&& slot_ok(tokens, st.end)
    &&& slot_ok(tokens, st.log_file)
}

impl Command {
    /// Whether this is the command that the state `st` read from `tokens`
    /// describes, defaults filled in.
    pub open spec fn describes(&self, st: ArgScan, tokens: Seq<Seq<char>>) -> bool {
        match *self {
            Command::Run => st.sub == Some(SubcommandKind::Run),
            Command::Status { json } => st.sub == Some(SubcommandKind::Status) && json == st.json,
            Command::Health { json } => st.sub == Some(SubcommandKind::Health) && json == st.json,
            Command::LastEdits { limit, json } => {
                &&& st.sub == Some(SubcommandKind::LastEdits)
                &&& limit == (match st.limit {
                    Some(n) => n,
                    None => DEFAULT_LAST_EDITS_LIMIT,
                })
                &&& json == st.json
            },
            Command::Perf { json } => st.sub == Some(SubcommandKind::Perf) && json == st.json,
            Command::CheckAuth => st.sub == Some(SubcommandKind::CheckAuth),
            Command::ReloadCache => st.sub == Some(SubcommandKind::ReloadCache),
            Command::CatchUpNow => st.sub == Some(SubcommandKind::CatchUpNow),
            Command::DryRun => st.sub == Some(SubcommandKind::DryRun),
            Command::HideRevid { id } => st.sub == Some(SubcommandKind::HideRevid) && st.id
                == Some(id),
            Command::SmokeTest { page } => st.sub == Some(SubcommandKind::SmokeTest) && opt_text(
                page,
            ) == slot_text(tokens, st.page),
            Command::EmergencyCatchup { start, end, allow_large_window, dry_run, report_only } => {
                &&& st.sub == Some(SubcommandKind::EmergencyCatchup)
                &&& opt_text(start) == slot_text(tokens, st.start)
                &&& opt_text(end) == slot_text(tokens, st.end)
                &&& allow_large_window == st.allow_large_window
                &&& dry_run == st.dry_run
                &&& report_only == st.report_only
            },
            Command::CoverageReport { start, end, allow_large_window, dry_run, report_only } => {
                &&& st.sub == Some(SubcommandKind::CoverageReport)
                &&& Some(start@) == slot_text(tokens, st.start)
                &&& opt_text(end) == slot_text(tokens, st.end)
                &&& allow_large_window == st.allow_large_window
                &&& dry_run == st.dry_run
                &&& report_only == st.report_only
            },
            Command::CoverageLast24h { dry_run, report_only } => {
                &&& st.sub == Some(SubcommandKind::CoverageLast24h)
                &&& dry_run == st.dry_run
                &&& report_only == st.report_only
            },
            Command::ServerStart { dry_run, status_timeout_seconds, log_file } => {
                &&& st.sub == Some(SubcommandKind::ServerStart)
                &&& dry_run == st.dry_run
                &&& status_timeout_seconds == (match st.status_timeout {
                    Some(n) => n,
                    None => DEFAULT_STATUS_TIMEOUT_SECONDS,
                })
                &&& opt_text(log_file) == slot_text(tokens, st.log_file)
            },
            Command::SupervisorRun { dry_run, log_file } => {
                &&& st.sub == Some(SubcommandKind::SupervisorRun)
                &&& dry_run == st.dry_run
                &&& Some(log_file@) == slot_text(tokens, st.log_file)
            },
            Command::NightlySweepNow => st.sub == Some(SubcommandKind::NightlySweepNow),
            Command::PrintEffectiveConfig => st.sub == Some(SubcommandKind::PrintEffectiveConfig),
        }
    }
}

fn fault(kind: CliErrorKind, argument: &Vec<char>) -> (r: CliError)
    ensures
        r.kind == kind,
        r.argument@ == argument@,
{
    CliError { kind, argument: string_of(argument) }
}

fn fault_str(kind: CliErrorKind, argument: &str) -> (r: CliError)
    ensures
        r.kind == kind,
        r.argument@ == argument@,
{
    let v = chars_of(argument);
    fault(kind, &v)
}

/// Whether `v` holds exactly the characters of `s`.
fn is_text(v: &Vec<char>, s: &str) -> (r: bool)
    ensures
        r == (v@ == s@),
{
    let w = chars_of(s);
    chars_eq(v, &w)
}

fn subcommand_of(t: &Vec<char>) -> (r: Option<SubcommandKind>)
    ensures
        r == subcommand_named(t@),
{
    if is_text(t, "run") {
        Some(SubcommandKind::Run)
    } else if is_text(t, "status") {
        Some(SubcommandKind::Status)
    } else if is_text(t, "health") {
        Some(SubcommandKind::Health)
    } else if is_text(t, "last-edits") {
        Some(SubcommandKind::LastEdits)
    } else if is_text(t, "perf") {
        Some(SubcommandKind::Perf)
    } else if is_text(t, "check-auth") {
        Some(SubcommandKind::CheckAuth)
    } else if is_text(t, "reload-cache") {
        Some(SubcommandKind::ReloadCache)
    } else if is_text(t, "catch-up-now") {
        Some(SubcommandKind::CatchUpNow)
    } else if is_text(t, "dry-run") {
        Some(SubcommandKind::DryRun)
    } else if is_text(t, "hide-revid") {
        Some(SubcommandKind::HideRevid)
    } else if is_text(t, "smoke-test") {
        Some(SubcommandKind::SmokeTest)
    } else if is_text(t, "emergency-catchup") {
        Some(SubcommandKind::EmergencyCatchup)
    } else if is_text(t, "coverage-report") {
        Some(SubcommandKind::CoverageReport)
    } else if is_text(t, "coverage-last-24h") {
        Some(SubcommandKind::CoverageLast24h)
    } else if is_text(t, "server-start") {
        Some(SubcommandKind::ServerStart)
    } else if is_text(t, "supervisor-run") {
        Some(SubcommandKind::SupervisorRun)
    } else if is_text(t, "nightly-sweep-now") {
        Some(SubcommandKind::NightlySweepNow)
    } else if is_text(t, "print-effective-config") {
        Some(SubcommandKind::PrintEffectiveConfig)
    } else {
        None
    }
}

fn option_of(name: &Vec<char>) -> (r: Option<OptionKind>)
    ensures
        r == option_named(name@),
{
    if is_text(name, "--config") {
        Some(OptionKind::Config)
    } else if is_text(name, "--verbose") {
        Some(OptionKind::Verbose)
    } else if is_text(name, "--json") {
        Some(OptionKind::Json)
    } else if is_text(name, "--limit") {
        Some(OptionKind::Limit)
    } else if is_text(name, "--page") {
        Some(OptionKind::Page)
    } else if is_text(name, "--start") {
        Some(OptionKind::Start)
    } else if is_text(name, "--end") {
        Some(OptionKind::End)
    } else if is_text(name, "--allow-large-window") {
        Some(OptionKind::AllowLargeWindow)
    } else if is_text(name, "--dry-run") {
        Some(OptionKind::DryRun)
    } else if is_text(name, "--report-only") {
        Some(OptionKind::ReportOnly)
    } else if is_text(name, "--status-timeout-seconds") {
        Some(OptionKind::StatusTimeoutSeconds)
    } else if is_text(name, "--log-file") {
        Some(OptionKind::LogFile)
    } else if is_text(name, "--help") {
        Some(OptionKind::Help)
    } else if is_text(name, "--version") {
        Some(OptionKind::Version)
    } else {
        None
    }
}

fn accepts_exec(sub: Option<SubcommandKind>, k: OptionKind) -> (r: bool)
    ensures
        r == accepts(sub, k),
{
    match k {
        OptionKind::Config | OptionKind::Verbose | OptionKind::Help => true,
        OptionKind::Version => sub.is_none(),
        OptionKind::Json => match sub {
            Some(SubcommandKind::Status) | Some(SubcommandKind::Health) | Some(
                SubcommandKind::LastEdits,
            ) | Some(SubcommandKind::Perf) => true,
            _ => false,
        },
        OptionKind::Limit => match sub {
            Some(SubcommandKind::LastEdits) => true,
            _ => false,
        },
        OptionKind::Page => match sub {
            Some(SubcommandKind::SmokeTest) => true,
            _ => false,
        },
        OptionKind::Start | OptionKind::End | OptionKind::AllowLargeWindow => match sub {
            Some(SubcommandKind::EmergencyCatchup) | Some(SubcommandKind::CoverageReport) => true,
            _ => false,
        },
        OptionKind::ReportOnly => match sub {
            Some(SubcommandKind::EmergencyCatchup) | Some(SubcommandKind::CoverageReport) | Some(
                SubcommandKind::CoverageLast24h,
            ) => true,
            _ => false,
        },
        OptionKind::DryRun => match sub {
            Some(SubcommandKind::EmergencyCatchup) | Some(SubcommandKind::CoverageReport) | Some(
                SubcommandKind::CoverageLast24h,
            ) | Some(SubcommandKind::ServerStart) | Some(SubcommandKind::SupervisorRun) => true,
            _ => false,
        },
        OptionKind::StatusTimeoutSeconds => match sub {
            Some(SubcommandKind::ServerStart) => true,
            _ => false,
        },
        OptionKind::LogFile => match sub {
            Some(SubcommandKind::ServerStart) | Some(SubcommandKind::SupervisorRun) => true,
            _ => false,
        },
    }
}

fn takes_value_exec(k: OptionKind) -> (r: bool)
    ensures
        r == takes_value(k),
{
    match k {
        OptionKind::Config | OptionKind::Limit | OptionKind::Page | OptionKind::Start
        | OptionKind::End | OptionKind::StatusTimeoutSeconds | OptionKind::LogFile => true,
        _ => false,
    }
}

fn already_given_exec(st: &ArgScan, k: OptionKind) -> (r: bool)
    ensures
        r == already_given(*st, k),
{
    match k {
        OptionKind::Config => st.config.is_some(),
        OptionKind::Verbose => st.verbose,
        OptionKind::Json => st.json,
        OptionKind::Limit => st.limit.is_some(),
        OptionKind::Page => st.page.is_some(),
        OptionKind::Start => st.start.is_some(),
        OptionKind::End => st.end.is_some(),
        OptionKind::AllowLargeWindow => st.allow_large_window,
        OptionKind::DryRun => st.dry_run,
        OptionKind::ReportOnly => st.report_only,
        OptionKind::StatusTimeoutSeconds => st.status_timeout.is_some(),
        OptionKind::LogFile => st.log_file.is_some(),
        OptionKind::Help | OptionKind::Version => false,
    }
}

proof fn lemma_digits_value_grows(s: Seq<char>, i: int, j: int)
    requires
        0 <= i <= j <= s.len(),
        all_digits(s),
    ensures
        digits_value(s.take(i)) <= digits_value(s.take(j)),
    decreases j - i,
{
    if i < j {
        lemma_digits_value_grows(s, i, j - 1);
        assert(s.take(j).drop_last() =~= s.take(j - 1));
        assert(s.take(j).last() == s[j - 1]);
        assert('0' <= s[j - 1] <= '9');
    }
}

/// Reads a string of decimal digits as a `u64`; `None` when it is empty,
/// holds anything but digits, or exceeds `u64::MAX`.
pub fn parse_decimal_u64(v: &Vec<char>) -> (r: Option<u64>)
    ensures
        r == (match decimal_value(v@) {
            Some(n) => if n <= u64::MAX {
                Some(n as u64)
            } else {
                None::<u64>
            },
            None => None,
        }),
{
    if v.len() == 0 {
        return None;
    }
    let mut acc: u64 = 0;
    let mut i: usize = 0;
    while i < v.len()
        invariant
            i <= v.len(),
            forall|j: int| 0 <= j < i ==> '0' <= #[trigger] v@[j] <= '9',
            acc == digits_value(v@.take(i as int)),
        decreases v.len() - i,
    {
        let c = v[i];
        if !('0' <= c && c <= '9') {
            assert(!all_digits(v@));
            return None;
        }
        let d: u64 = (c as u32 - '0' as u32) as u64;
        assert(v@.take(i + 1).drop_last() =~= v@.take(i as int));
        assert(v@.take(i + 1).last() == c);
        if acc > (u64::MAX - d) / 10 {
            proof {
                assert(digits_value(v@.take(i + 1)) == acc * 10 + d);
                assert(acc * 10 + d > u64::MAX) by (nonlinear_arith)
                    requires
                        acc > (u64::MAX - d) / 10,
                        d <= 9,
                ;
                if all_digits(v@) {
                    lemma_digits_value_grows(v@, i + 1, v@.len() as int);
                    assert(v@.take(v@.len() as int) =~= v@);
                }
            }
            return None;
        }
        assert(acc * 10 + d <= u64::MAX) by (nonlinear_arith)
            requires
                acc <= (u64::MAX - d) / 10,
                d <= 9,
        ;
        acc = acc * 10 + d;
        i = i + 1;
    }
    assert(v@.take(v.len() as int) =~= v@);
    assert(all_digits(v@));
    Some(acc)
}

/// Whether an exec result is the model's result.
pub open spec fn same_outcome<T>(r: Result<T, CliError>, s: Result<T, CliFault>) -> bool {
    match r {
        Ok(x) => s == Ok::<T, CliFault>(x),
        Err(e) => s == Err::<T, CliFault>((e.kind, e.argument@)),
    }
}

/// Whether an exec step result is the model's step result.
pub open spec fn same_step(
    r: Result<(ArgScan, usize), CliError>,
    s: Result<(ArgScan, int), CliFault>,
) -> bool {
    match r {
        Ok((a, j)) => s == Ok::<(ArgScan, int), CliFault>((a, j as int)),
        Err(e) => s == Err::<(ArgScan, int), CliFault>((e.kind, e.argument@)),
    }
}

fn flag_of(st: ArgScan, k: OptionKind) -> (r: ArgScan)
    ensures
        r == with_flag(st, k),
{
    match k {
        OptionKind::Verbose => ArgScan { verbose: true, ..st },
        OptionKind::Json => ArgScan { json: true, ..st },
        OptionKind::AllowLargeWindow => ArgScan { allow_large_window: true, ..st },
        OptionKind::DryRun => ArgScan { dry_run: true, ..st },
        OptionKind::ReportOnly => ArgScan { report_only: true, ..st },
        _ => st,
    }
}

fn value_of(st: ArgScan, k: OptionKind, name: &Vec<char>, slot: Slot, text: &Vec<char>) -> (r:
    Result<ArgScan, CliError>)
    ensures
        same_outcome(r, with_value(st, k, name@, slot, text@)),
{
    match k {
        OptionKind::Config => if text.len() == 0 {
            Err(fault(CliErrorKind::InvalidValue, name))
        } else {
            Ok(ArgScan { config: Some(slot), ..st })
        },
        OptionKind::LogFile => if text.len() == 0 {
            Err(fault(CliErrorKind::InvalidValue, name))
        } else {
            Ok(ArgScan { log_file: Some(slot), ..st })
        },
        OptionKind::Page => Ok(ArgScan { page: Some(slot), ..st }),
        OptionKind::Start => Ok(ArgScan { start: Some(slot), ..st }),
        OptionKind::End => Ok(ArgScan { end: Some(slot), ..st }),
        OptionKind::Limit => match parse_decimal_u64(text) {
            Some(n) => if n <= usize::MAX as u64 {
                Ok(ArgScan { limit: Some(n as usize), ..st })
            } else {
                Err(fault(CliErrorKind::InvalidValue, name))
            },
            None => Err(fault(CliErrorKind::InvalidValue, name)),
        },
        OptionKind::StatusTimeoutSeconds => match parse_decimal_u64(text) {
            Some(n) => Ok(ArgScan { status_timeout: Some(n), ..st }),
            None => Err(fault(CliErrorKind::InvalidValue, name)),
        },
        _ => Ok(st),
    }
}

fn long_step_exec(args: &[&str], i: usize, t: &Vec<char>, st: ArgScan) -> (r: Result<
    (ArgScan, usize),
    CliError,
>)
    requires
        i < args.len(),
        t@ == token_views(args@)[i as int],
        is_long_option(t@),
        scan_ok(token_views(args@), st),
    ensures
        same_step(r, long_step(token_views(args@), i as int, st)),
        r matches Ok((s, j)) ==> i < j <= args.len() && scan_ok(token_views(args@), s),
{
    let ghost tokens = token_views(args@);
    let eqv = vec!['='];
    assert(eqv@ == seq!['=']);
    let found = find_chars(t, &eqv);
    assert(found matches Some(e) ==> first_index_of(t@, '=') == Some(e as int));
    assert(found is None ==> first_index_of(t@, '=') is None);
    let name = match found {
        Some(e) => {
            assert(occurs_at(t@, eqv@, e as int));
            copy_range(t, 0, e)
        },
        None => copy_range(t, 0, t.len()),
    };
    assert(found is None ==> name@ =~= t@);
    assert(found matches Some(e) ==> name@ =~= t@.take(e as int));
    let k = match option_of(&name) {
        None => {
            return Err(fault(CliErrorKind::UnknownArgument, &name));
        },
        Some(k) => k,
    };
    if !accepts_exec(st.sub, k) {
        return Err(fault(CliErrorKind::UnknownArgument, &name));
    }
    match k {
        OptionKind::Help => {
            return Err(fault(CliErrorKind::HelpRequested, &name));
        },
        OptionKind::Version => {
            return Err(fault(CliErrorKind::VersionRequested, &name));
        },
        _ => {},
    }
    if already_given_exec(&st, k) {
        return Err(fault(CliErrorKind::RepeatedArgument, &name));
    }
    if takes_value_exec(k) {
        match found {
            Some(e) => {
                assert(occurs_at(t@, eqv@, e as int));
                let text = copy_range(t, e + 1, t.len());
                assert(text@ =~= t@.skip(e + 1));
                match value_of(st, k, &name, (i, e + 1), &text) {
                    Ok(s) => Ok((s, i + 1)),
                    Err(x) => Err(x),
                }
            },
            None => {
                if i + 1 < args.len() {
                    let next = chars_of(args[i + 1]);
                    assert(next@ == tokens[i + 1]);
                    if !(next.len() >= 2 && next[0] == '-') {
                        match value_of(st, k, &name, (i + 1, 0), &next) {
                            Ok(s) => {
                                assert(tokens[i + 1].skip(0) =~= tokens[i + 1]);
                                Ok((s, i + 2))
                            },
                            Err(x) => Err(x),
                        }
                    } else {
                        Err(fault(CliErrorKind::MissingValue, &name))
                    }
                } else {
                    Err(fault(CliErrorKind::MissingValue, &name))
                }
            },
        }
    } else {
        match found {
            Some(_) => Err(fault(CliErrorKind::UnexpectedValue, &name)),
            None => Ok((flag_of(st, k), i + 1)),
        }
    }
}

fn positional_step_exec(t: &Vec<char>, i: usize, st: ArgScan) -> (r: Result<
    (ArgScan, usize),
    CliError,
>)
    requires
        i < usize::MAX,
    ensures
        same_step(r, positional_step(t@, i as int, st)),
        r matches Ok((s, j)) ==> j == i + 1 && s.config == st.config && s.page == st.page
            && s.start == st.start && s.end == st.end && s.log_file == st.log_file,
{
    match st.sub {
        None => match subcommand_of(t) {
            Some(s) => Ok((ArgScan { sub: Some(s), ..st }, i + 1)),
            None => if is_text(t, "help") {
                Err(fault(CliErrorKind::HelpRequested, t))
            } else {
                Err(fault(CliErrorKind::UnknownSubcommand, t))
            },
        },
        Some(sub) => {
            let hide = match sub {
                SubcommandKind::HideRevid => true,
                _ => false,
            };
            if hide && st.id.is_none() {
                match parse_decimal_u64(t) {
                    Some(n) => Ok((ArgScan { id: Some(n), ..st }, i + 1)),
                    None => Err(fault(CliErrorKind::InvalidValue, t)),
                }
            } else {
                Err(fault(CliErrorKind::UnexpectedArgument, t))
            }
        },
    }
}

fn short_step_exec(t: &Vec<char>, st: ArgScan) -> (r: CliError)
    ensures
        short_step(t@, st) == (r.kind, r.argument@),
{
    if is_text(t, "-h") {
        fault(CliErrorKind::HelpRequested, t)
    } else if is_text(t, "-V") && st.sub.is_none() {
        fault(CliErrorKind::VersionRequested, t)
    } else {
        fault(CliErrorKind::UnknownArgument, t)
    }
}

fn scan_step_exec(args: &[&str], i: usize, st: ArgScan) -> (r: Result<(ArgScan, usize), CliError>)
    requires
        i < args.len(),
        scan_ok(token_views(args@), st),
    ensures
        same_step(r, scan_step(token_views(args@), i as int, st)),
        r matches Ok((s, j)) ==> i < j <= args.len() && scan_ok(token_views(args@), s),
{
    let t = chars_of(args[i]);
    if t.len() >= 2 && t[0] == '-' && t[1] == '-' {
        long_step_exec(args, i, &t, st)
    } else if t.len() >= 2 && t[0] == '-' {
        Err(short_step_exec(&t, st))
    } else {
        positional_step_exec(&t, i, st)
    }
}

fn initial_state() -> (r: ArgScan)
    ensures
        r == initial_scan(),
{
    ArgScan {
        sub: None,
        config: None,
        verbose: false,
        json: false,
        limit: None,
        id: None,
        page: None,
        start: None,
        end: None,
        allow_large_window: false,
        dry_run: false,
        report_only: false,
        status_timeout: None,
        log_file: None,
    }
}

fn slot_string(args: &[&str], slot: Option<Slot>) -> (r: Option<String>)
    requires
        slot_ok(token_views(args@), slot),
    ensures
        opt_text(r) == slot_text(token_views(args@), slot),
{
    match slot {
        Some((a, b)) => {
            let t = chars_of(args[a]);
            let v = copy_range(&t, b, t.len());
            assert(v@ =~= token_views(args@)[a as int].skip(b as int));
            Some(string_of(&v))
        },
        None => None,
    }
}

fn command_from(args: &[&str], st: ArgScan, sub: SubcommandKind) -> (r: Result<Command, CliError>)
    requires
        scan_ok(token_views(args@), st),
        st.sub == Some(sub),
    ensures
        match r {
            Ok(c) => c.describes(st, token_views(args@)) && (sub == SubcommandKind::HideRevid
                ==> st.id is Some) && (sub == SubcommandKind::CoverageReport ==> st.start is Some)
                && (sub == SubcommandKind::SupervisorRun ==> st.log_file is Some),
            Err(e) => {
                ||| sub == SubcommandKind::HideRevid && st.id is None && e.kind
                    == CliErrorKind::MissingRequired && e.argument@ == "<ID>"@
                ||| sub == SubcommandKind::CoverageReport && st.start is None && e.kind
                    == CliErrorKind::MissingRequired && e.argument@ == "--start"@
                ||| sub == SubcommandKind::SupervisorRun && st.log_file is None && e.kind
                    == CliErrorKind::MissingRequired && e.argument@ == "--log-file"@
            },
        },
{
    match sub {
        SubcommandKind::Run => Ok(Command::Run),
        SubcommandKind::Status => Ok(Command::Status { json: st.json }),
        SubcommandKind::Health => Ok(Command::Health { json: st.json }),
        SubcommandKind::LastEdits => Ok(
            Command::LastEdits {
                limit: match st.limit {
                    Some(n) => n,
                    None => DEFAULT_LAST_EDITS_LIMIT,
                },
                json: st.json,
            },
        ),
        SubcommandKind::Perf => Ok(Command::Perf { json: st.json }),
        SubcommandKind::CheckAuth => Ok(Command::CheckAuth),
        SubcommandKind::ReloadCache => Ok(Command::ReloadCache),
        SubcommandKind::CatchUpNow => Ok(Command::CatchUpNow),
        SubcommandKind::DryRun => Ok(Command::DryRun),
        SubcommandKind::HideRevid => match st.id {
            Some(id) => Ok(Command::HideRevid { id }),
            None => Err(fault_str(CliErrorKind::MissingRequired, "<ID>")),
        },
        SubcommandKind::SmokeTest => Ok(Command::SmokeTest { page: slot_string(args, st.page) }),
        SubcommandKind::EmergencyCatchup => Ok(
            Command::EmergencyCatchup {
                start: slot_string(args, st.start),
                end: slot_string(args, st.end),
                allow_large_window: st.allow_large_window,
                dry_run: st.dry_run,
                report_only: st.report_only,
            },
        ),
        SubcommandKind::CoverageReport => match slot_string(args, st.start) {
            Some(start) => Ok(
                Command::CoverageReport {
                    start,
                    end: slot_string(args, st.end),
                    allow_large_window: st.allow_large_window,
                    dry_run: st.dry_run,
                    report_only: st.report_only,
                },
            ),
            None => Err(fault_str(CliErrorKind::MissingRequired, "--start")),
        },
        SubcommandKind::CoverageLast24h => Ok(
            Command::CoverageLast24h { dry_run: st.dry_run, report_only: st.report_only },
        ),
        SubcommandKind::ServerStart => Ok(
            Command::ServerStart {
                dry_run: st.dry_run,
                status_timeout_seconds: match st.status_timeout {
                    Some(n) => n,
                    None => DEFAULT_STATUS_TIMEOUT_SECONDS,
                },
                log_file: slot_string(args, st.log_file),
            },
        ),
        SubcommandKind::SupervisorRun => match slot_string(args, st.log_file) {
            Some(log_file) => Ok(Command::SupervisorRun { dry_run: st.dry_run, log_file }),
            None => Err(fault_str(CliErrorKind::MissingRequired, "--log-file")),
        },
        SubcommandKind::NightlySweepNow => Ok(Command::NightlySweepNow),
        SubcommandKind::PrintEffectiveConfig => Ok(Command::PrintEffectiveConfig),
    }
}

impl Cli {
    /// Parses an argument list whose first element is the program's name.
    /// Succeeds exactly when the model accepts the list, and then holds what
    /// the model read; otherwise the error is the model's refusal.
    pub fn try_parse_from(args: &[&str]) -> (r: Result<Cli, CliError>)
        ensures
            match r {
                Ok(cli) => match parse_outcome(token_views(args@)) {
                    Ok(st) => {
                        &&& cli.verbose == st.verbose
                        &&& opt_text(cli.config) == slot_text(token_views(args@), st.config)
                        &&& cli.command.describes(st, token_views(args@))
                    },
                    Err(_) => false,
                },
                Err(e) => parse_outcome(token_views(args@)) == Err::<ArgScan, CliFault>(
                    (e.kind, e.argument@),
                ),
            },
    {
        let ghost tokens = token_views(args@);
        let mut st = initial_state();
        let mut i: usize = 1;
        while i < args.len()
            invariant
                i >= 1,
                tokens == token_views(args@),
                scan(tokens, 1, initial_scan()) == scan(tokens, i as int, st),
                scan_ok(tokens, st),
            decreases args.len() - i,
        {
            match scan_step_exec(args, i, st) {
                Ok((s, j)) => {
                    st = s;
                    i = j;
                },
                Err(e) => {
                    return Err(e);
                },
            }
        }
        assert(scan(tokens, i as int, st) == Ok::<ArgScan, CliFault>(st));
        let sub = match st.sub {
            Some(sub) => sub,
            None => {
                return Err(CliError { kind: CliErrorKind::MissingSubcommand, argument: String::new() });
            },
        };
        let command = match command_from(args, st, sub) {
            Ok(c) => c,
            Err(e) => {
                return Err(e);
            },
        };
        Ok(Cli { config: slot_string(args, st.config), verbose: st.verbose, command })
    }

    /// The configuration file named by `--config`; refused when none was given.
    pub fn required_config(&self) -> (r: Result<String, CliError>)
        ensures
            match r {
                Ok(path) => opt_text(self.config) == Some(path@),
                Err(e) => self.config is None && e.kind == CliErrorKind::MissingConfig
                    && e.argument@ == "--config"@,
            },
    {
        match &self.config {
            Some(path) => Ok(path.clone()),
            None => Err(fault_str(CliErrorKind::MissingConfig, "--config")),
        }
    }
}

} // verus!
