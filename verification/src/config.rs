//! The daemon's configuration: its sections, the checks a loaded file must
//! pass, where its paths lead, and the credentials it reads from the
//! environment or a `.env` file.

use vstd::prelude::*;

use crate::cli::opt_text;
use crate::text::{
    chars_of, copy_range, find_chars, first_occurrence, occurs_at, push_all, push_decimal,
    push_str, str_eq, string_of, trim, trim_chars, decimal,
};
use crate::titles::{first_index_of, lines_chars, lines_of};

verus! {

#[derive(Clone, Debug)]
pub struct WikiConfig {
    pub api_url: String,
    pub stream_url: String,
    pub wiki_code: String,
    pub server_name: String,
    pub user_agent: String,
}

#[derive(Clone, Debug)]
pub struct AuthConfig {
    pub username_env: String,
    pub password_env: String,
}

#[derive(Clone, Debug)]
pub struct SuppressionListConfig {
    pub title: String,
    pub cache_file: String,
    pub metadata_recheck_seconds: u64,
    pub request_pages: Vec<String>,
}

#[derive(Clone, Debug)]
pub struct MatchingConfig {
    pub drop_canary: bool,
    pub exact_title_match: bool,
}

#[derive(Clone, Debug)]
pub struct RevDelConfig {
    pub hide: Vec<String>,
    pub suppress: bool,
    pub reason: String,
}

#[derive(Clone, Debug)]
pub struct QueueConfig {
    pub capacity: usize,
}

#[derive(Clone, Debug)]
pub struct StateConfig {
    pub dir: String,
    pub last_event_id_file: String,
    pub processed_revids_file: String,
    pub nightly_sweep_progress_file: String,
    pub runtime_status_file: String,
    pub pid_file: String,
}

#[derive(Clone, Debug)]
pub struct RetryConfig {
    pub stream_backoff_initial_ms: u64,
    pub stream_backoff_max_ms: u64,
    pub api_max_retries: u32,
    pub since_recovery_seconds: i64,
}

#[derive(Clone, Debug)]
pub struct RealtimeConfig {
    pub stale_threshold_seconds: u64,
    pub stream_read_timeout_seconds: u64,
    pub freshness_probe_seconds: u64,
}

#[derive(Clone, Debug)]
pub struct CatchupConfig {
    pub default_window_seconds: i64,
    pub max_window_seconds: i64,
    pub max_revisions_per_run: usize,
    pub warning_sample_limit: usize,
    pub source_refresh_title_scope_limit: usize,
    pub rate_limit_backoff_default_seconds: u64,
    pub rate_limit_stop_after_failures: usize,
    pub unresolved_sample_limit: usize,
}

#[derive(Clone, Debug)]
pub struct NightlySweepConfig {
    pub enabled: bool,
    pub timezone: String,
    pub start_time: String,
    pub randomized_window_minutes: u64,
    pub page_concurrency: usize,
    pub batch_sleep_ms: u64,
}

#[derive(Clone, Debug)]
pub struct DaytimeVerificationConfig {
    pub enabled: bool,
    pub min_delay_seconds: u64,
    pub max_delay_seconds: u64,
    pub window_hours: u64,
}

#[derive(Clone, Debug)]
pub struct LoggingConfig {
    pub level: String,
    pub format: String,
}

#[derive(Clone, Debug)]
pub struct MetricsConfig {
    pub enabled: bool,
    pub bind: String,
}

/// The whole configuration file.
#[derive(Clone, Debug)]
pub struct AppConfig {
    pub wiki: WikiConfig,
    pub auth: AuthConfig,
    pub suppression_list: SuppressionListConfig,
    pub matching: MatchingConfig,
    pub revdel: RevDelConfig,
    pub queue: QueueConfig,
    pub state: StateConfig,
    pub retry: RetryConfig,
    pub realtime: RealtimeConfig,
    pub catchup: CatchupConfig,
    pub nightly_sweep: NightlySweepConfig,
    pub daytime_verification: DaytimeVerificationConfig,
    pub logging: LoggingConfig,
    pub metrics: MetricsConfig,
}

/// The first check a configuration fails.
#[derive(Clone, Copy, Debug, PartialEq, Eq)]
pub enum ConfigError {
    QueueCapacityZero,
    DaytimeDelaysInverted,
    DaytimeWindowZero,
    StaleThresholdZero,
    StreamReadTimeoutZero,
    DefaultWindowNotPositive,
    MaxWindowBelowDefault,
    MaxRevisionsZero,
    WarningSampleLimitZero,
    TitleScopeLimitZero,
    BackoffDefaultZero,
    StopAfterFailuresZero,
    UnresolvedSampleLimitZero,
}

/// The default request pages of the suppression list.
pub fn default_request_pages() -> (r: Vec<String>)
    ensures
        r@.len() == 1,
        r@[0]@ == "Вікіпедыя:Запыты да схавальнікаў"@,
{
    let mut pages: Vec<String> = Vec::new();
    pages.push(String::from_str("Вікіпедыя:Запыты да схавальнікаў"));
    pages
}

/// The default number of sample titles per warning.
pub fn default_warning_sample_limit() -> (r: usize)
    ensures
        r == 5,
{
    5
}

/// The default cap on titles a source refresh scopes a catch-up to.
pub fn default_source_refresh_title_scope_limit() -> (r: usize)
    ensures
        r == 250,
{
    250
}

/// The default rate-limit back-off.
pub fn default_rate_limit_backoff_default_seconds() -> (r: u64)
    ensures
        r == 30,
{
    30
}

/// The default number of rate-limited failures that stop a run.
pub fn default_rate_limit_stop_after_failures() -> (r: usize)
    ensures
        r == 3,
{
    3
}

/// The default number of unresolved revisions a report lists.
pub fn default_unresolved_sample_limit() -> (r: usize)
    ensures
        r == 25,
{
    25
}

/// The default daytime verification window.
pub fn default_daytime_window_hours() -> (r: u64)
    ensures
        r == 24,
{
    24
}

/// The first check that `c` fails, in the order the checks are made.
pub open spec fn config_problem(c: AppConfig) -> Option<ConfigError> {
    if c.queue.capacity == 0 {
        Some(ConfigError::QueueCapacityZero)
    } else if c.daytime_verification.min_delay_seconds > c.daytime_verification.max_delay_seconds {
        Some(ConfigError::DaytimeDelaysInverted)
    } else if c.daytime_verification.window_hours == 0 {
        Some(ConfigError::DaytimeWindowZero)
    } else if c.realtime.stale_threshold_seconds == 0 {
        Some(ConfigError::StaleThresholdZero)
    } else if c.realtime.stream_read_timeout_seconds == 0 {
        Some(ConfigError::StreamReadTimeoutZero)
    } else if c.catchup.default_window_seconds <= 0 {
        Some(ConfigError::DefaultWindowNotPositive)
    } else if c.catchup.max_window_seconds < c.catchup.default_window_seconds {
        Some(ConfigError::MaxWindowBelowDefault)
    } else if c.catchup.max_revisions_per_run == 0 {
        Some(ConfigError::MaxRevisionsZero)
    } else if c.catchup.warning_sample_limit == 0 {
        Some(ConfigError::WarningSampleLimitZero)
    } else if c.catchup.source_refresh_title_scope_limit == 0 {
        Some(ConfigError::TitleScopeLimitZero)
    } else if c.catchup.rate_limit_backoff_default_seconds == 0 {
        Some(ConfigError::BackoffDefaultZero)
    } else if c.catchup.rate_limit_stop_after_failures == 0 {
        Some(ConfigError::StopAfterFailuresZero)
    } else if c.catchup.unresolved_sample_limit == 0 {
        Some(ConfigError::UnresolvedSampleLimitZero)
    } else {
        None
    }
}

impl ConfigError {
    /// The message of the refusal.
    pub open spec fn text(self) -> Seq<char> {
        match self {
            ConfigError::QueueCapacityZero => "queue.capacity must be greater than zero"@,
            ConfigError::DaytimeDelaysInverted => "daytime_verification min_delay_seconds must be <= max_delay_seconds"@,
            ConfigError::DaytimeWindowZero => "daytime_verification.window_hours must be greater than zero"@,
            ConfigError::StaleThresholdZero => "realtime.stale_threshold_seconds must be greater than zero"@,
            ConfigError::StreamReadTimeoutZero => "realtime.stream_read_timeout_seconds must be greater than zero"@,
            ConfigError::DefaultWindowNotPositive => "catchup.default_window_seconds must be greater than zero"@,
            ConfigError::MaxWindowBelowDefault => "catchup.max_window_seconds must be >= catchup.default_window_seconds"@,
            ConfigError::MaxRevisionsZero => "catchup.max_revisions_per_run must be greater than zero"@,
            ConfigError::WarningSampleLimitZero => "catchup.warning_sample_limit must be greater than zero"@,
            ConfigError::TitleScopeLimitZero => "catchup.source_refresh_title_scope_limit must be greater than zero"@,
            ConfigError::BackoffDefaultZero => "catchup.rate_limit_backoff_default_seconds must be greater than zero"@,
            ConfigError::StopAfterFailuresZero => "catchup.rate_limit_stop_after_failures must be greater than zero"@,
            ConfigError::UnresolvedSampleLimitZero => "catchup.unresolved_sample_limit must be greater than zero"@,
        }
    }

    /// The message shown for the refusal.
    pub fn message(&self) -> (r: &'static str)
        ensures
            r@ == self.text(),
    {
        match self {
            ConfigError::QueueCapacityZero => "queue.capacity must be greater than zero",
            ConfigError::DaytimeDelaysInverted => "daytime_verification min_delay_seconds must be <= max_delay_seconds",
            ConfigError::DaytimeWindowZero => "daytime_verification.window_hours must be greater than zero",
            ConfigError::StaleThresholdZero => "realtime.stale_threshold_seconds must be greater than zero",
            ConfigError::StreamReadTimeoutZero => "realtime.stream_read_timeout_seconds must be greater than zero",
            ConfigError::DefaultWindowNotPositive => "catchup.default_window_seconds must be greater than zero",
            ConfigError::MaxWindowBelowDefault => "catchup.max_window_seconds must be >= catchup.default_window_seconds",
            ConfigError::MaxRevisionsZero => "catchup.max_revisions_per_run must be greater than zero",
            ConfigError::WarningSampleLimitZero => "catchup.warning_sample_limit must be greater than zero",
            ConfigError::TitleScopeLimitZero => "catchup.source_refresh_title_scope_limit must be greater than zero",
            ConfigError::BackoffDefaultZero => "catchup.rate_limit_backoff_default_seconds must be greater than zero",
            ConfigError::StopAfterFailuresZero => "catchup.rate_limit_stop_after_failures must be greater than zero",
            ConfigError::UnresolvedSampleLimitZero => "catchup.unresolved_sample_limit must be greater than zero",
        }
    }
}

/// What `Path::parent` gives for the path `p` (absent for a root or an
/// empty path).
pub uninterp spec fn path_parent(p: Seq<char>) -> Option<Seq<char>>;

/// What `Path::join` gives for `base` and `rel`.
pub uninterp spec fn path_joined(base: Seq<char>, rel: Seq<char>) -> Seq<char>;

/// The parent directory of a path, with `std::path::Path::parent`.
#[verifier::external_body]
fn parent_path(p: &str) -> (r: Option<String>)
    ensures
        opt_text(r) == path_parent(p@),
{
    std::path::Path::new(p).parent().map(|q| q.to_string_lossy().into_owned())
}

/// `rel` joined onto `base`, with `std::path::Path::join`; as its
/// documentation says, an absolute `rel` replaces `base`. How a relative
/// `rel` is joined is named by `path_joined`, not stated.
#[verifier::external_body]
pub(crate) fn join_path(base: &str, rel: &str) -> (r: String)
    ensures
        r@ == path_joined(base@, rel@),
        rel@.len() > 0 && rel@[0] == '/' ==> r@ == rel@,
{
    std::path::Path::new(base).join(rel).to_string_lossy().into_owned()
}

/// Whether a path is absolute: on Unix, this library's platform, when it
/// starts with `/` (as `std::path::Path::is_absolute` decides there).
fn is_absolute_path(p: &str) -> (r: bool)
    ensures
        r == (p@.len() > 0 && p@[0] == '/'),
{
    let v = chars_of(p);
    v.len() > 0 && v[0] == '/'
}

/// The directory of the configuration file (`.` when it has none).
pub open spec fn config_dir(config_path: Seq<char>) -> Seq<char> {
    match path_parent(config_path) {
        Some(p) => p,
        None => "."@,
    }
}

/// A configured path: kept when absolute, else taken relative to the
/// directory of the configuration file.
pub open spec fn resolved_path(config_path: Seq<char>, value: Seq<char>) -> Seq<char> {
    if value.len() > 0 && value[0] == '/' {
        value
    } else {
        path_joined(config_dir(config_path), value)
    }
}

fn config_dir_of(config_path: &str) -> (r: String)
    ensures
        r@ == config_dir(config_path@),
{
    match parent_path(config_path) {
        Some(p) => p,
        None => String::from_str("."),
    }
}

impl AppConfig {
    /// Checks a loaded configuration; refuses it with the first check it fails.
    pub fn validate(&self) -> (r: Result<(), ConfigError>)
        ensures
            r == match config_problem(*self) {
                Some(e) => Err::<(), ConfigError>(e),
                None => Ok(()),
            },
    {
        if self.queue.capacity == 0 {
            return Err(ConfigError::QueueCapacityZero);
        }
        if self.daytime_verification.min_delay_seconds > self.daytime_verification.max_delay_seconds {
            return Err(ConfigError::DaytimeDelaysInverted);
        }
        if self.daytime_verification.window_hours == 0 {
            return Err(ConfigError::DaytimeWindowZero);
        }
        if self.realtime.stale_threshold_seconds == 0 {
            return Err(ConfigError::StaleThresholdZero);
        }
        if self.realtime.stream_read_timeout_seconds == 0 {
            return Err(ConfigError::StreamReadTimeoutZero);
        }
        if self.catchup.default_window_seconds <= 0 {
            return Err(ConfigError::DefaultWindowNotPositive);
        }
        if self.catchup.max_window_seconds < self.catchup.default_window_seconds {
            return Err(ConfigError::MaxWindowBelowDefault);
        }
        if self.catchup.max_revisions_per_run == 0 {
            return Err(ConfigError::MaxRevisionsZero);
        }
        if self.catchup.warning_sample_limit == 0 {
            return Err(ConfigError::WarningSampleLimitZero);
        }
        if self.catchup.source_refresh_title_scope_limit == 0 {
            return Err(ConfigError::TitleScopeLimitZero);
        }
        if self.catchup.rate_limit_backoff_default_seconds == 0 {
            return Err(ConfigError::BackoffDefaultZero);
        }
        if self.catchup.rate_limit_stop_after_failures == 0 {
            return Err(ConfigError::StopAfterFailuresZero);
        }
        if self.catchup.unresolved_sample_limit == 0 {
            return Err(ConfigError::UnresolvedSampleLimitZero);
        }
        Ok(())
    }

    /// A configured path, resolved against the configuration file's directory.
    pub fn resolve_path(config_path: &str, value: &str) -> (r: String)
        ensures
            r@ == resolved_path(config_path@, value@),
    {
        if is_absolute_path(value) {
            String::from_str(value)
        } else {
            let base = config_dir_of(config_path);
            join_path(base.as_str(), value)
        }
    }

    /// The state directory.
    pub fn state_dir(&self, config_path: &str) -> (r: String)
        ensures
            r@ == resolved_path(config_path@, self.state.dir@),
    {
        Self::resolve_path(config_path, self.state.dir.as_str())
    }
}

/// Every path the daemon uses, resolved once.
#[derive(Clone, Debug, PartialEq, Eq)]
pub struct RuntimePaths {
    pub config_path: String,
    pub state_dir: String,
    pub env_file: String,
    pub cache_file: String,
    pub last_event_id_file: String,
    pub processed_revids_file: String,
    pub nightly_sweep_progress_file: String,
    pub runtime_status_file: String,
    pub pid_file: String,
}

/// The `.env` file: the one named by the environment when it names one,
/// else `.env` beside the configuration file.
pub open spec fn env_file_path(config_path: Seq<char>, named: Option<Seq<char>>) -> Seq<char> {
    match named {
        Some(p) => p,
        None => path_joined(config_dir(config_path), ".env"@),
    }
}

/// The `.env` file to read; `named` is the value of `BEWIKI_ENV_FILE`
/// when that variable is set.
pub fn resolve_env_file(config_path: &str, named: Option<String>) -> (r: String)
    ensures
        r@ == env_file_path(config_path@, opt_text(named)),
{
    match named {
        Some(p) => p,
        None => {
            let base = config_dir_of(config_path);
            join_path(base.as_str(), ".env")
        },
    }
}

impl RuntimePaths {
    /// Resolves every path of `config` against the configuration file;
    /// `env_file_named` is the value of `BEWIKI_ENV_FILE` when it is set.
    pub fn resolve(config_path: &str, config: &AppConfig, env_file_named: Option<String>) -> (r:
        Self)
        ensures
            r.config_path@ == config_path@,
            r.state_dir@ == resolved_path(config_path@, config.state.dir@),
            r.env_file@ == env_file_path(config_path@, opt_text(env_file_named)),
            r.cache_file@ == resolved_path(config_path@, config.suppression_list.cache_file@),
            r.last_event_id_file@ == resolved_path(config_path@, config.state.last_event_id_file@),
            r.processed_revids_file@ == resolved_path(
                config_path@,
                config.state.processed_revids_file@,
            ),
            r.nightly_sweep_progress_file@ == resolved_path(
                config_path@,
                config.state.nightly_sweep_progress_file@,
            ),
            r.runtime_status_file@ == resolved_path(config_path@, config.state.runtime_status_file@),
            r.pid_file@ == resolved_path(config_path@, config.state.pid_file@),
    {
        RuntimePaths {
            config_path: String::from_str(config_path),
            state_dir: config.state_dir(config_path),
            env_file: resolve_env_file(config_path, env_file_named),
            cache_file: AppConfig::resolve_path(config_path, config.suppression_list.cache_file.as_str()),
            last_event_id_file: AppConfig::resolve_path(
                config_path,
                config.state.last_event_id_file.as_str(),
            ),
            processed_revids_file: AppConfig::resolve_path(
                config_path,
                config.state.processed_revids_file.as_str(),
            ),
            nightly_sweep_progress_file: AppConfig::resolve_path(
                config_path,
                config.state.nightly_sweep_progress_file.as_str(),
            ),
            runtime_status_file: AppConfig::resolve_path(
                config_path,
                config.state.runtime_status_file.as_str(),
            ),
            pid_file: AppConfig::resolve_path(config_path, config.state.pid_file.as_str()),
        }
    }

    /// Where the last command report is kept: `command_report.json` in the
    /// state directory.
    pub fn command_report_file(&self) -> (r: String)
        ensures
            r@ == path_joined(self.state_dir@, "command_report.json"@),
    {
        join_path(self.state_dir.as_str(), "command_report.json")
    }
}

/// The log filter used when the environment sets none.
pub fn default_log_filter(verbose: bool) -> (r: &'static str)
    ensures
        verbose ==> r@ == "warn,suppressor=debug,hyper=warn,hyper_util=warn,h2=warn,reqwest=info"@,
        !verbose ==> r@ == "warn,suppressor=info,hyper=warn,hyper_util=warn,h2=warn,reqwest=warn"@,
{
    if verbose {
        "warn,suppressor=debug,hyper=warn,hyper_util=warn,h2=warn,reqwest=info"
    } else {
        "warn,suppressor=info,hyper=warn,hyper_util=warn,h2=warn,reqwest=warn"
    }
}

/// The credentials and endpoints the daemon runs with.
#[derive(Clone, Debug)]
pub struct EnvConfig {
    pub api_url: String,
    pub stream_url: String,
    pub bot_username: String,
    pub bot_password: String,
    pub user_agent: String,
    pub env_file: String,
}

/// Why the environment could not be loaded.
#[derive(Clone, Debug, PartialEq, Eq)]
pub enum EnvError {
    /// A line of the `.env` file is neither blank, a comment nor `KEY=value`
    /// (lines count from 1).
    InvalidLine { line: usize },
    /// Credentials named by the configuration are set nowhere.
    MissingAuth { names: Vec<String> },
}

/// A key and its value, as texts.
pub open spec fn pair_views(v: Seq<(String, String)>) -> Seq<(Seq<char>, Seq<char>)> {
    v.map_values(|p: (String, String)| (p.0@, p.1@))
}

/// One line of a `.env` file: `None` when it is skipped (blank or a `#`
/// comment), `Some(None)` when it is invalid (no `=`), else the key and the
/// value (trimmed; a value wholly in single or double quotes is taken
/// between them, untrimmed).
pub open spec fn env_line(raw: Seq<char>) -> Option<Option<(Seq<char>, Seq<char>)>> {
    let line = trim(raw);
    if line.len() == 0 || line[0] == '#' {
        None
    } else {
        match first_index_of(line, '=') {
            None => Some(None),
            Some(e) => {
                let key = trim(line.take(e));
                let value = line.skip(e + 1);
                let parsed = if value.len() >= 2 && ((value[0] == '"' && value.last() == '"') || (
                value[0] == '\'' && value.last() == '\'')) {
                    value.subrange(1, value.len() - 1)
                } else {
                    trim(value)
                };
                Some(Some((key, parsed)))
            },
        }
    }
}

/// The entries of the lines, or the number of the first invalid line.
pub open spec fn env_entries(lines: Seq<Seq<char>>) -> Result<Seq<(Seq<char>, Seq<char>)>, nat>
    decreases lines.len(),
{
    if lines.len() == 0 {
        Ok(Seq::empty())
    } else {
        match env_entries(lines.drop_last()) {
            Err(n) => Err(n),
            Ok(es) => match env_line(lines.last()) {
                None => Ok(es),
                Some(None) => Err(lines.len()),
                Some(Some(kv)) => Ok(es.push(kv)),
            },
        }
    }
}

/// The value of the first entry named `name`.
pub open spec fn lookup(pairs: Seq<(Seq<char>, Seq<char>)>, name: Seq<char>) -> Option<Seq<char>>
    decreases pairs.len(),
{
    if pairs.len() == 0 {
        None
    } else {
        match lookup(pairs.drop_last(), name) {
            Some(v) => Some(v),
            None => if pairs.last().0 == name {
                Some(pairs.last().1)
            } else {
                None
            },
        }
    }
}

/// A setting: from the process environment first, else from the `.env` file.
pub open spec fn env_value(
    process: Seq<(Seq<char>, Seq<char>)>,
    file: Seq<(Seq<char>, Seq<char>)>,
    name: Seq<char>,
) -> Option<Seq<char>> {
    match lookup(process, name) {
        Some(v) => Some(v),
        None => lookup(file, name),
    }
}

/// The value, or `default` when absent.
pub open spec fn value_or(v: Option<Seq<char>>, default: Seq<char>) -> Seq<char> {
    match v {
        Some(x) => x,
        None => default,
    }
}

fn parse_env_line(raw: &Vec<char>) -> (r: Option<Option<(String, String)>>)
    ensures
        match r {
            None => env_line(raw@) is None,
            Some(None) => env_line(raw@) == Some(None::<(Seq<char>, Seq<char>)>),
            Some(Some((k, v))) => env_line(raw@) == Some(Some((k@, v@))),
        },
{
    let line = trim_chars(raw);
    if line.len() == 0 || line[0] == '#' {
        return None;
    }
    let eq = vec!['='];
    assert(eq@ == seq!['=']);
    match find_chars(&line, &eq) {
        None => {
            assert(first_index_of(line@, '=') is None);
            Some(None)
        },
        Some(e) => {
            assert(first_index_of(line@, '=') == Some(e as int));
            assert(occurs_at(line@, eq@, e as int));
            let head = copy_range(&line, 0, e);
            assert(head@ =~= line@.take(e as int));
            let key = trim_chars(&head);
            let value = copy_range(&line, e + 1, line.len());
            assert(value@ =~= line@.skip(e + 1));
            let n = value.len();
            let quoted = n >= 2 && ((value[0] == '"' && value[n - 1] == '"') || (value[0] == '\''
                && value[n - 1] == '\''));
            let parsed = if quoted {
                let inner = copy_range(&value, 1, n - 1);
                inner
            } else {
                trim_chars(&value)
            };
            Some(Some((string_of(&key), string_of(&parsed))))
        },
    }
}

/// Reads the entries of a `.env` file; refused at its first invalid line.
pub fn parse_env_file(text: &str) -> (r: Result<Vec<(String, String)>, EnvError>)
    ensures
        match r {
            Ok(pairs) => env_entries(lines_of(text@)) == Ok::<Seq<(Seq<char>, Seq<char>)>, nat>(
                pair_views(pairs@),
            ),
            Err(EnvError::InvalidLine { line }) => env_entries(lines_of(text@)) == Err::<
                Seq<(Seq<char>, Seq<char>)>,
                nat,
            >(line as nat),
            Err(EnvError::MissingAuth { .. }) => false,
        },
{
    let chars = chars_of(text);
    let lines = lines_chars(&chars);
    let ghost all = lines@.map_values(|l: Vec<char>| l@);
    let mut values: Vec<(String, String)> = Vec::new();
    assert(all.take(0) =~= Seq::<Seq<char>>::empty());
    assert(pair_views(values@) =~= Seq::<(Seq<char>, Seq<char>)>::empty());
    let mut i: usize = 0;
    while i < lines.len()
        invariant
            i <= lines.len(),
            all == lines@.map_values(|l: Vec<char>| l@),
            all == lines_of(text@),
            env_entries(all.take(i as int)) == Ok::<Seq<(Seq<char>, Seq<char>)>, nat>(
                pair_views(values@),
            ),
        decreases lines.len() - i,
    {
        assert(all.take(i + 1).drop_last() =~= all.take(i as int));
        assert(all.take(i + 1).last() == lines@[i as int]@);
        match parse_env_line(&lines[i]) {
            None => {},
            Some(None) => {
                proof {
                    lemma_env_entries_err_prefix(all, i + 1);
                }
                return Err(EnvError::InvalidLine { line: i + 1 });
            },
            Some(Some(kv)) => {
                let ghost before = pair_views(values@);
                values.push(kv);
                assert(pair_views(values@) =~= before.push((kv.0@, kv.1@)));
            },
        }
        i = i + 1;
    }
    assert(all.take(lines.len() as int) =~= all);
    Ok(values)
}

proof fn lemma_env_entries_err_prefix(lines: Seq<Seq<char>>, k: int)
    requires
        0 <= k <= lines.len(),
        env_entries(lines.take(k)) is Err,
    ensures
        env_entries(lines) == env_entries(lines.take(k)),
    decreases lines.len() - k,
{
    if k < lines.len() {
        assert(lines.take(k + 1).drop_last() =~= lines.take(k));
        lemma_env_entries_err_prefix(lines, k + 1);
    } else {
        assert(lines.take(k) =~= lines);
    }
}

fn lookup_exec(pairs: &Vec<(String, String)>, name: &str) -> (r: Option<String>)
    ensures
        opt_text(r) == lookup(pair_views(pairs@), name@),
{
    let mut i: usize = 0;
    while i < pairs.len()
        invariant
            i <= pairs.len(),
            lookup(pair_views(pairs@).take(i as int), name@) is None,
        decreases pairs.len() - i,
    {
        let ghost t = pair_views(pairs@).take(i + 1);
        assert(t.drop_last() =~= pair_views(pairs@).take(i as int));
        if str_eq(pairs[i].0.as_str(), name) {
            proof {
                lemma_lookup_prefix(pair_views(pairs@), name@, i + 1);
            }
            return Some(pairs[i].1.clone());
        }
        i = i + 1;
    }
    assert(pair_views(pairs@).take(pairs.len() as int) =~= pair_views(pairs@));
    None
}

proof fn lemma_lookup_prefix(pairs: Seq<(Seq<char>, Seq<char>)>, name: Seq<char>, k: int)
    requires
        0 <= k <= pairs.len(),
        lookup(pairs.take(k), name) is Some,
    ensures
        lookup(pairs, name) == lookup(pairs.take(k), name),
    decreases pairs.len() - k,
{
    if k < pairs.len() {
        assert(pairs.take(k + 1).drop_last() =~= pairs.take(k));
        lemma_lookup_prefix(pairs, name, k + 1);
    } else {
        assert(pairs.take(k) =~= pairs);
    }
}

/// A setting for `name`: the process environment's value first, else the
/// `.env` file's.
pub fn resolve_env_value(
    name: &str,
    process_env: &Vec<(String, String)>,
    file_values: &Vec<(String, String)>,
) -> (r: Option<String>)
    ensures
        opt_text(r) == env_value(pair_views(process_env@), pair_views(file_values@), name@),
{
    match lookup_exec(process_env, name) {
        Some(v) => Some(v),
        None => lookup_exec(file_values, name),
    }
}

/// The names of the credentials that are set nowhere, username first.
pub open spec fn missing_auth(
    config: AppConfig,
    process: Seq<(Seq<char>, Seq<char>)>,
    file: Seq<(Seq<char>, Seq<char>)>,
) -> Seq<Seq<char>> {
    (if env_value(process, file, config.auth.username_env@) is None {
        seq![config.auth.username_env@]
    } else {
        Seq::empty()
    }) + (if env_value(process, file, config.auth.password_env@) is None {
        seq![config.auth.password_env@]
    } else {
        Seq::empty()
    })
}

/// Loads the environment the daemon runs with. `env_text` is the content of
/// the `.env` file at `env_file` (`None` when there is no such file) and
/// `process_env` the variables of the process. The endpoints and the user
/// agent fall back to the configuration; both credentials are required.
pub fn load_env(
    config: &AppConfig,
    env_file: String,
    env_text: Option<&str>,
    process_env: &Vec<(String, String)>,
) -> (r: Result<EnvConfig, EnvError>)
    ensures
        ({
            let file = match env_text {
                Some(t) => env_entries(lines_of(t@)),
                None => Ok(Seq::empty()),
            };
            let pe = pair_views(process_env@);
            match r {
                Ok(env) => match file {
                    Ok(fv) => {
                        &&& missing_auth(*config, pe, fv).len() == 0
                        &&& env.api_url@ == value_or(env_value(pe, fv, "BEWIKI_API_URL"@), config.wiki.api_url@)
                        &&& env.stream_url@ == value_or(
                            env_value(pe, fv, "BEWIKI_STREAM_URL"@),
                            config.wiki.stream_url@,
                        )
                        &&& Some(env.bot_username@) == env_value(pe, fv, config.auth.username_env@)
                        &&& Some(env.bot_password@) == env_value(pe, fv, config.auth.password_env@)
                        &&& env.user_agent@ == value_or(
                            env_value(pe, fv, "BEWIKI_USER_AGENT"@),
                            config.wiki.user_agent@,
                        )
                        &&& env.env_file == env_file
                    },
                    Err(_) => false,
                },
                Err(EnvError::InvalidLine { line }) => file == Err::<
                    Seq<(Seq<char>, Seq<char>)>,
                    nat,
                >(line as nat),
                Err(EnvError::MissingAuth { names }) => match file {
                    Ok(fv) => views_of(names@) == missing_auth(*config, pe, fv) && names@.len() > 0,
                    Err(_) => false,
                },
            }
        }),
{
    let file_values = match env_text {
        Some(t) => match parse_env_file(t) {
            Ok(v) => v,
            Err(e) => {
                return Err(e);
            },
        },
        None => {
            let v: Vec<(String, String)> = Vec::new();
            assert(pair_views(v@) =~= Seq::<(Seq<char>, Seq<char>)>::empty());
            v
        },
    };
    let mut missing: Vec<String> = Vec::new();
    let api_url = match resolve_env_value("BEWIKI_API_URL", process_env, &file_values) {
        Some(v) => v,
        None => config.wiki.api_url.clone(),
    };
    let stream_url = match resolve_env_value("BEWIKI_STREAM_URL", process_env, &file_values) {
        Some(v) => v,
        None => config.wiki.stream_url.clone(),
    };
    let bot_username = match resolve_env_value(
        config.auth.username_env.as_str(),
        process_env,
        &file_values,
    ) {
        Some(v) => v,
        None => {
            missing.push(config.auth.username_env.clone());
            String::new()
        },
    };
    let bot_password = match resolve_env_value(
        config.auth.password_env.as_str(),
        process_env,
        &file_values,
    ) {
        Some(v) => v,
        None => {
            missing.push(config.auth.password_env.clone());
            String::new()
        },
    };
    let user_agent = match resolve_env_value("BEWIKI_USER_AGENT", process_env, &file_values) {
        Some(v) => v,
        None => config.wiki.user_agent.clone(),
    };
    assert(views_of(missing@) =~= missing_auth(
        *config,
        pair_views(process_env@),
        pair_views(file_values@),
    ));
    if missing.len() > 0 {
        return Err(EnvError::MissingAuth { names: missing });
    }
    Ok(EnvConfig { api_url, stream_url, bot_username, bot_password, user_agent, env_file })
}

/// The texts of a list of strings.
pub open spec fn views_of(v: Seq<String>) -> Seq<Seq<char>> {
    v.map_values(|s: String| s@)
}

impl EnvError {
    /// The message of the refusal; `env_file` names the `.env` file read.
    pub open spec fn text(&self, env_file: Seq<char>) -> Seq<char> {
        match self {
            EnvError::InvalidLine { line } => "Invalid .env line "@ + decimal(*line as nat) + " in "@
                + env_file,
            EnvError::MissingAuth { names } => "Missing required auth env values (from process env or .env): "@
                + crate::catchup::joined(views_of(names@), ", "@),
        }
    }

    /// The message shown for the refusal.
    pub fn message(&self, env_file: &str) -> (r: String)
        ensures
            r@ == self.text(env_file@),
    {
        let mut out: Vec<char> = Vec::new();
        match self {
            EnvError::InvalidLine { line } => {
                push_str(&mut out, "Invalid .env line ");
                push_decimal(&mut out, *line as u64);
                push_str(&mut out, " in ");
                push_str(&mut out, env_file);
            },
            EnvError::MissingAuth { names } => {
                push_str(&mut out, "Missing required auth env values (from process env or .env): ");
                crate::catchup::push_joined(&mut out, names, ", ");
                assert(crate::titles::views(names@) =~= views_of(names@));
            },
        }
        assert(out@ =~= self.text(env_file@));
        string_of(&out)
    }
}


/// The environment as the effective configuration shows it: everything but
/// the bot password, which reads "REDACTED".
#[derive(Clone, Debug, PartialEq, Eq)]
pub struct RedactedEnv {
    pub api_url: String,
    pub stream_url: String,
    pub bot_username: String,
    pub bot_password: &'static str,
    pub user_agent: String,
}

/// The environment with its password redacted.
pub fn redacted_env(env: &EnvConfig) -> (r: RedactedEnv)
    ensures
        r.api_url == env.api_url,
        r.stream_url == env.stream_url,
        r.bot_username == env.bot_username,
        r.bot_password@ == "REDACTED"@,
        r.user_agent == env.user_agent,
{
    RedactedEnv {
        api_url: env.api_url.clone(),
        stream_url: env.stream_url.clone(),
        bot_username: env.bot_username.clone(),
        bot_password: "REDACTED",
        user_agent: env.user_agent.clone(),
    }
}

} // verus!
