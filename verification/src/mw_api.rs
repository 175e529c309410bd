//! What the library makes of MediaWiki API failures: their classes, whether
//! they are worth retrying, how long to wait, and the texts they leave in
//! reports. The HTTP client itself is the application's.

use vstd::prelude::*;

use crate::catchup::compact_text;
use crate::config::RetryConfig;
use crate::state::ApiFailureSnapshot;
use crate::text::{
    chars_of, contains_chars, contains_seq, decimal, push_decimal, push_str, str_eq, string_of,
    trim, trim_chars,
};
use crate::time::{
    format_utc_seconds, parse_rfc2822_seconds, parse_rfc3339_seconds, representable_time,
    rfc2822_instant, rfc3339_instant, utc_seconds_text,
};
use crate::cli::{decimal_value, parse_decimal_u64};

verus! {

/// One change the recent-changes list reports.
#[derive(Clone, Debug, PartialEq, Eq)]
pub struct RecentChangeRecord {
    pub title: String,
    pub timestamp: i64,
    pub revid: u64,
}

/// The latest change the recent-changes list reports.
#[derive(Clone, Debug, PartialEq, Eq)]
pub struct RecentChangeProbe {
    pub title: Option<String>,
    pub timestamp: i64,
    pub revid: Option<u64>,
}

/// One revision of a page, with whether its user and its comment are hidden.
#[derive(Clone, Copy, Debug, PartialEq, Eq)]
pub struct RevisionRecord {
    pub revid: u64,
    pub timestamp: i64,
    pub user_hidden: bool,
    pub comment_hidden: bool,
}

/// The changes of a window, read in chunks; `truncated` when the window
/// held more than the run may read.
#[derive(Clone, Debug, Default, PartialEq, Eq)]
pub struct RecentChangeWindow {
    pub changes: Vec<RecentChangeRecord>,
    pub chunk_count: usize,
    pub truncated: bool,
}

/// An error reported by the API in a JSON `error` object.
#[derive(Clone, Debug)]
pub struct ApiError {
    pub code: String,
    pub info: String,
    pub http_status: Option<u16>,
    pub content_type: Option<String>,
    pub retry_after_seconds: Option<u64>,
}

/// A response the client could not use (not JSON, or an HTTP error status).
#[derive(Clone, Debug)]
pub struct ApiTransportError {
    pub class: String,
    pub info: String,
    pub http_status: Option<u16>,
    pub content_type: Option<String>,
    pub retry_after_seconds: Option<u64>,
    pub retryable: bool,
}

/// What the HTTP client reported about a request that failed before any
/// usable response.
#[derive(Clone, Debug)]
pub struct HttpFailure {
    pub timeout: bool,
    pub connect: bool,
    pub status: Option<u16>,
    pub message: String,
}

/// The kind of a failed API call.
#[derive(Clone, Debug)]
pub enum ClientErrorKind {
    Api(ApiError),
    Transport(ApiTransportError),
    Http(HttpFailure),
    Other,
}

/// A failed API call: its kind and the full text of its error chain.
#[derive(Clone, Debug)]
pub struct ClientError {
    pub kind: ClientErrorKind,
    pub rendered: String,
}

/// The user information the API returns for the session.
#[derive(Clone, Debug)]
pub struct ApiUserInfo {
    pub name: String,
    pub rights: Vec<String>,
}

/// The page showing one revision's diff.
pub open spec fn revision_url_text(server_name: Seq<char>, revid: u64) -> Seq<char> {
    "https://"@ + server_name + "/wiki/Special:Diff/"@ + decimal(revid as nat)
}

/// The link to one revision's diff on the wiki.
pub fn revision_url(server_name: &str, revid: u64) -> (r: String)
    ensures
        r@ == revision_url_text(server_name@, revid),
{
    let mut out: Vec<char> = Vec::new();
    push_str(&mut out, "https://");
    push_str(&mut out, server_name);
    push_str(&mut out, "/wiki/Special:Diff/");
    push_decimal(&mut out, revid);
    assert(out@ =~= revision_url_text(server_name@, revid));
    string_of(&out)
}

/// An instant as the API writes it: UTC, whole seconds.
pub fn mediawiki_timestamp(t: i64) -> (r: String)
    requires
        representable_time(t),
    ensures
        r@ == utc_seconds_text(t),
{
    format_utc_seconds(t)
}

/// Reads an RFC 3339 timestamp (to whole seconds); `None` when it is not one.
pub fn parse_timestamp(value: &str) -> (r: Option<i64>)
    ensures
        r == rfc3339_instant(value@),
{
    parse_rfc3339_seconds(value)
}

/// The class of an API error code.
pub open spec fn api_code_class(code: Seq<char>) -> Seq<char> {
    if code == "badtoken"@ || code == "notloggedin"@ || code == "assertuserfailed"@ {
        "auth-session"@
    } else if code == "permissiondenied"@ || code == "cantdelete"@ {
        "permission"@
    } else {
        "api-json-error"@
    }
}

/// The classes of API error codes: a lost or rejected login (`badtoken`,
/// `notloggedin`, `assertuserfailed`) is a session failure, a refused
/// deletion (`permissiondenied`, `cantdelete`) a permission failure, and
/// any other code a plain API error; only `maxlag`, `ratelimited` and
/// `readonly` are worth retrying (never a session or permission failure);
/// a classified failure of a lost login is a session failure.
pub proof fn api_codes_are_classified(code: Seq<char>)
    ensures
        code == "badtoken"@ ==> api_code_class(code) == "auth-session"@,
        code == "notloggedin"@ ==> api_code_class(code) == "auth-session"@,
        code == "assertuserfailed"@ ==> api_code_class(code) == "auth-session"@,
        code == "permissiondenied"@ ==> api_code_class(code) == "permission"@,
        code == "cantdelete"@ ==> api_code_class(code) == "permission"@,
        code != "badtoken"@ && code != "notloggedin"@ && code != "assertuserfailed"@ && code != "permissiondenied"@
            && code != "cantdelete"@ ==> api_code_class(code) == "api-json-error"@,
        code_retryable(code) <==> (code == "maxlag"@ || code == "ratelimited"@ || code == "readonly"@),
        api_code_class(code) != "api-json-error"@ ==> !code_retryable(code),
        forall|r: ApiFailureSnapshot, error: ClientError, operation: Seq<char>, title: Option<Seq<char>>, revid: Option<u64>, now: i64|
            #[trigger] failure_snapshot_matches(r, error, operation, title, revid, now) ==> (error.kind matches ClientErrorKind::Api(e)
                ==> ((e.code@ == "badtoken"@ || e.code@ == "notloggedin"@ || e.code@ == "assertuserfailed"@) ==> r.class@
                == "auth-session"@)),
{
    reveal_strlit("badtoken");
    reveal_strlit("notloggedin");
    reveal_strlit("assertuserfailed");
    reveal_strlit("permissiondenied");
    reveal_strlit("cantdelete");
    assert("badtoken"@[0] == 'b' && "notloggedin"@[0] == 'n' && "assertuserfailed"@[0] == 'a');
    assert("permissiondenied"@[0] == 'p' && "cantdelete"@[0] == 'c');
    reveal_strlit("maxlag");
    reveal_strlit("ratelimited");
    reveal_strlit("readonly");
    reveal_strlit("auth-session");
    reveal_strlit("permission");
    reveal_strlit("api-json-error");
    assert("maxlag"@[0] == 'm' && "ratelimited"@[0] == 'r' && "readonly"@[0] == 'r');
    assert("ratelimited"@[1] == 'a' && "readonly"@[1] == 'e');
    assert("auth-session"@[1] == 'u' && "permission"@[0] == 'p' && "api-json-error"@[1] == 'p');
}

/// The class of an API error code.
pub fn api_error_class(code: &str) -> (r: &'static str)
    ensures
        r@ == api_code_class(code@),
{
    if str_eq(code, "badtoken") || str_eq(code, "notloggedin") || str_eq(code, "assertuserfailed") {
        "auth-session"
    } else if str_eq(code, "permissiondenied") || str_eq(code, "cantdelete") {
        "permission"
    } else {
        "api-json-error"
    }
}

/// The class of an error known only by its text.
pub open spec fn rendered_class(rendered: Seq<char>) -> Seq<char> {
    if contains_seq(rendered, "Failed to decode JSON response"@) {
        "decode-error"@
    } else if contains_seq(rendered, "Permission failure"@) || contains_seq(
        rendered,
        "Authenticated session lacks"@,
    ) {
        "permission"@
    } else if contains_seq(rendered, "re-login failed"@) || contains_seq(
        rendered,
        "CSRF refresh failed"@,
    ) {
        "auth-session"@
    } else {
        "unknown"@
    }
}

fn text_contains(hay: &str, needle: &str) -> (r: bool)
    ensures
        r == contains_seq(hay@, needle@),
{
    let h = chars_of(hay);
    let n = chars_of(needle);
    contains_chars(&h, &n)
}

/// The class of an error known only by its text.
pub fn rendered_error_class(rendered: &str) -> (r: &'static str)
    ensures
        r@ == rendered_class(rendered@),
{
    if text_contains(rendered, "Failed to decode JSON response") {
        "decode-error"
    } else if text_contains(rendered, "Permission failure") || text_contains(
        rendered,
        "Authenticated session lacks",
    ) {
        "permission"
    } else if text_contains(rendered, "re-login failed") || text_contains(
        rendered,
        "CSRF refresh failed",
    ) {
        "auth-session"
    } else {
        "unknown"
    }
}

/// Whether an API error code is worth retrying.
pub open spec fn code_retryable(code: Seq<char>) -> bool {
    code == "maxlag"@ || code == "ratelimited"@ || code == "readonly"@
}

/// Whether an API error code is worth retrying.
pub fn api_code_retryable(code: &str) -> (r: bool)
    ensures
        r == code_retryable(code@),
{
    str_eq(code, "maxlag") || str_eq(code, "ratelimited") || str_eq(code, "readonly")
}

/// An error message as failure records keep it: words joined by single
/// spaces, at most 180 characters.
pub fn safe_error_message(value: &str) -> (r: String)
    ensures
        r@ == compact_text(value@),
{
    crate::catchup::compact_report_text(value)
}

/// Whether an HTTP status is worth retrying (a server error or 429).
pub open spec fn status_retryable(status: Option<u16>) -> bool {
    match status {
        Some(s) => (500 <= s && s <= 599) || s == 429,
        None => false,
    }
}

/// What a failed call leaves for reports and health, made at `now`.
pub open spec fn failure_snapshot_matches(
    r: ApiFailureSnapshot,
    error: ClientError,
    operation: Seq<char>,
    sample_title: Option<Seq<char>>,
    sample_revid: Option<u64>,
    now: i64,
) -> bool {
    &&& r.operation@ == operation
    &&& (match r.sample_title {
        Some(t) => Some(t@),
        None => None,
    }) == sample_title
    &&& r.sample_revid == sample_revid
    &&& r.occurred_at == Some(now)
    &&& match error.kind {
        ClientErrorKind::Api(e) => {
            &&& r.class@ == api_code_class(e.code@)
            &&& r.api_code matches Some(c) && c@ == e.code@
            &&& r.http_status == e.http_status
            &&& r.content_type == e.content_type
            &&& r.retryable == code_retryable(e.code@)
            &&& r.retry_after_seconds == e.retry_after_seconds
            &&& r.message@ == compact_text(e.info@)
        },
        ClientErrorKind::Transport(e) => {
            &&& r.class@ == e.class@
            &&& r.api_code is None
            &&& r.http_status == e.http_status
            &&& r.content_type == e.content_type
            &&& r.retryable == e.retryable
            &&& r.retry_after_seconds == e.retry_after_seconds
            &&& r.message@ == compact_text(e.info@)
        },
        ClientErrorKind::Http(h) => {
            &&& r.class@ == (if h.timeout {
                "timeout"@
            } else {
                "network"@
            })
            &&& r.api_code is None
            &&& r.http_status == h.status
            &&& r.content_type is None
            &&& r.retryable == (h.timeout || h.connect || status_retryable(h.status))
            &&& r.retry_after_seconds is None
            &&& r.message@ == compact_text(h.message@)
        },
        ClientErrorKind::Other => {
            &&& r.class@ == rendered_class(error.rendered@)
            &&& r.api_code is None
            &&& r.http_status is None
            &&& r.content_type is None
            &&& r.retryable == !(rendered_class(error.rendered@) == "auth-session"@
                || rendered_class(error.rendered@) == "permission"@)
            &&& r.retry_after_seconds is None
            &&& r.message@ == compact_text(error.rendered@)
        },
    }
}

fn opt_owned(o: Option<&str>) -> (r: Option<String>)
    ensures
        (match r {
            Some(t) => Some(t@),
            None => None,
        }) == (match o {
            Some(s) => Some(s@),
            None => None,
        }),
{
    match o {
        Some(s) => Some(String::from_str(s)),
        None => None,
    }
}

/// Classifies a failed call `operation` (on a title or revision, when one
/// is known) at `now`.
pub fn classify_api_failure(
    error: &ClientError,
    operation: &str,
    sample_title: Option<&str>,
    sample_revid: Option<u64>,
    now: i64,
) -> (r: ApiFailureSnapshot)
    ensures
        failure_snapshot_matches(
            r,
            *error,
            operation@,
            match sample_title {
                Some(s) => Some(s@),
                None => None,
            },
            sample_revid,
            now,
        ),
{
    let operation_text = String::from_str(operation);
    let title = opt_owned(sample_title);
    match &error.kind {
        ClientErrorKind::Api(e) => ApiFailureSnapshot {
            class: String::from_str(api_error_class(e.code.as_str())),
            api_code: Some(e.code.clone()),
            http_status: e.http_status,
            content_type: crate::text::copy_opt_string(&e.content_type),
            retryable: api_code_retryable(e.code.as_str()),
            retry_after_seconds: e.retry_after_seconds,
            operation: operation_text,
            sample_title: title,
            sample_revid,
            message: safe_error_message(e.info.as_str()),
            occurred_at: Some(now),
        },
        ClientErrorKind::Transport(e) => ApiFailureSnapshot {
            class: e.class.clone(),
            api_code: None,
            http_status: e.http_status,
            content_type: crate::text::copy_opt_string(&e.content_type),
            retryable: e.retryable,
            retry_after_seconds: e.retry_after_seconds,
            operation: operation_text,
            sample_title: title,
            sample_revid,
            message: safe_error_message(e.info.as_str()),
            occurred_at: Some(now),
        },
        ClientErrorKind::Http(h) => {
            let status_retry = match h.status {
                Some(s) => (500 <= s && s <= 599) || s == 429,
                None => false,
            };
            ApiFailureSnapshot {
                class: String::from_str(
                    if h.timeout {
                        "timeout"
                    } else {
                        "network"
                    },
                ),
                api_code: None,
                http_status: h.status,
                content_type: None,
                retryable: h.timeout || h.connect || status_retry,
                retry_after_seconds: None,
                operation: operation_text,
                sample_title: title,
                sample_revid,
                message: safe_error_message(h.message.as_str()),
                occurred_at: Some(now),
            }
        },
        ClientErrorKind::Other => {
            let class = rendered_error_class(error.rendered.as_str());
            let blocked = str_eq(class, "auth-session") || str_eq(class, "permission");
            ApiFailureSnapshot {
                class: String::from_str(class),
                api_code: None,
                http_status: None,
                content_type: None,
                retryable: !blocked,
                retry_after_seconds: None,
                operation: operation_text,
                sample_title: title,
                sample_revid,
                message: safe_error_message(error.rendered.as_str()),
                occurred_at: Some(now),
            }
        },
    }
}

/// Whether a failure ends the session's right to act: an API code of a
/// denied or lost session, or a text naming such a failure.
pub open spec fn fatal_auth_or_permission(error: ClientError) -> bool {
    match error.kind {
        ClientErrorKind::Api(e) => e.code@ == "permissiondenied"@ || e.code@ == "cantdelete"@
            || e.code@ == "notloggedin"@ || e.code@ == "assertuserfailed"@ || e.code@
            == "badtoken"@,
        _ => {
            ||| contains_seq(error.rendered@, "Permission failure during revisiondelete"@)
            ||| contains_seq(error.rendered@, "re-login failed"@)
            ||| contains_seq(error.rendered@, "CSRF refresh failed"@)
            ||| contains_seq(error.rendered@, "Authenticated session lacks"@)
        },
    }
}

/// Whether a failure means the session may not act (auth or permission).
pub fn is_fatal_auth_or_permission_error(error: &ClientError) -> (r: bool)
    ensures
        r == fatal_auth_or_permission(*error),
{
    match &error.kind {
        ClientErrorKind::Api(e) => {
            let c = e.code.as_str();
            str_eq(c, "permissiondenied") || str_eq(c, "cantdelete") || str_eq(c, "notloggedin")
                || str_eq(c, "assertuserfailed") || str_eq(c, "badtoken")
        },
        _ => {
            let rendered = error.rendered.as_str();
            text_contains(rendered, "Permission failure during revisiondelete") || text_contains(
                rendered,
                "re-login failed",
            ) || text_contains(rendered, "CSRF refresh failed") || text_contains(
                rendered,
                "Authenticated session lacks",
            )
        },
    }
}

/// Whether a failed call may succeed if repeated.
pub open spec fn transient(error: ClientError) -> bool {
    match error.kind {
        ClientErrorKind::Api(e) => code_retryable(e.code@),
        ClientErrorKind::Transport(e) => e.retryable,
        ClientErrorKind::Http(h) => h.timeout || h.connect || status_retryable(h.status),
        ClientErrorKind::Other => false,
    }
}

/// Whether a failed call may succeed if repeated.
pub fn is_transient(error: &ClientError) -> (r: bool)
    ensures
        r == transient(*error),
{
    match &error.kind {
        ClientErrorKind::Api(e) => api_code_retryable(e.code.as_str()),
        ClientErrorKind::Transport(e) => e.retryable,
        ClientErrorKind::Http(h) => {
            let status_retry = match h.status {
                Some(s) => (500 <= s && s <= 599) || s == 429,
                None => false,
            };
            h.timeout || h.connect || status_retry
        },
        ClientErrorKind::Other => false,
    }
}

/// `2^e`, saturating at `u64::MAX`.
pub open spec fn saturating_pow2(e: nat) -> nat
    decreases e,
{
    if e == 0 {
        1
    } else {
        let p = saturating_pow2((e - 1) as nat) * 2;
        if p > u64::MAX {
            u64::MAX as nat
        } else {
            p
        }
    }
}

/// How long to wait before retry number `attempts`: the server's
/// retry-after when it gave one, else `2^(attempts-1)` seconds.
pub open spec fn retry_delay(error: ClientError, attempts: u32) -> nat {
    let given = match error.kind {
        ClientErrorKind::Api(e) => e.retry_after_seconds,
        ClientErrorKind::Transport(e) => e.retry_after_seconds,
        _ => None,
    };
    match given {
        Some(s) => s as nat,
        None => saturating_pow2(
            if attempts >= 1 {
                (attempts - 1) as nat
            } else {
                0
            },
        ),
    }
}

/// The delay before the next retry of a failed call.
pub fn retry_delay_seconds(error: &ClientError, attempts: u32) -> (r: u64)
    ensures
        r == retry_delay(*error, attempts),
{
    match &error.kind {
        ClientErrorKind::Api(e) => {
            if let Some(s) = e.retry_after_seconds {
                return s;
            }
        },
        ClientErrorKind::Transport(e) => {
            if let Some(s) = e.retry_after_seconds {
                return s;
            }
        },
        _ => {},
    }
    let e: u32 = if attempts >= 1 {
        attempts - 1
    } else {
        0
    };
    saturating_pow2_exec(e)
}

fn saturating_pow2_exec(e: u32) -> (r: u64)
    ensures
        r == saturating_pow2(e as nat),
{
    let mut acc: u64 = 1;
    let mut i: u32 = 0;
    while i < e
        invariant
            i <= e,
            acc == saturating_pow2(i as nat),
        decreases e - i,
    {
        acc = if acc > u64::MAX / 2 {
            u64::MAX
        } else {
            acc * 2
        };
        i = i + 1;
    }
    acc
}

/// The retry settings of a client made without a configuration.
pub fn default_client_retry() -> (r: RetryConfig)
    ensures
        r.stream_backoff_initial_ms == 1000,
        r.stream_backoff_max_ms == 10000,
        r.api_max_retries == 0,
        r.since_recovery_seconds == 0,
{
    RetryConfig {
        stream_backoff_initial_ms: 1000,
        stream_backoff_max_ms: 10000,
        api_max_retries: 0,
        since_recovery_seconds: 0,
    }
}

/// What a `Retry-After` header asks for at `now`: a number of seconds, or
/// the seconds until an RFC 2822 date (none when it has passed).
pub open spec fn retry_after_value(raw: Seq<char>, now: i64) -> Option<u64> {
    let t = trim(raw);
    let date = match rfc2822_instant(t) {
        Some(at) => Some(
            if at - now > 0 {
                (at - now) as u64
            } else {
                0u64
            },
        ),
        None => None,
    };
    match unsigned_value(t) {
        Some(n) => if n <= u64::MAX {
            Some(n as u64)
        } else {
            date
        },
        None => date,
    }
}

/// The number a text writes as `u64::from_str` reads it: decimal digits,
/// optionally after one `+`.
pub open spec fn unsigned_value(t: Seq<char>) -> Option<nat> {
    if t.len() > 0 && t[0] == '+' {
        decimal_value(t.drop_first())
    } else {
        decimal_value(t)
    }
}

/// Reads a `u64` as `u64::from_str` does (digits, optionally after `+`);
/// `None` when the text is not one or the number is too large.
pub fn parse_u64_text(t: &Vec<char>) -> (r: Option<u64>)
    ensures
        r == match unsigned_value(t@) {
            Some(n) => if n <= u64::MAX {
                Some(n as u64)
            } else {
                None::<u64>
            },
            None => None,
        },
{
    if t.len() > 0 && t[0] == '+' {
        let rest = crate::text::copy_range(t, 1, t.len());
        assert(rest@ =~= t@.drop_first());
        parse_decimal_u64(&rest)
    } else {
        parse_decimal_u64(t)
    }
}

/// Reads a `Retry-After` header value at `now`.
pub fn parse_retry_after_seconds(raw: &str, now: i64) -> (r: Option<u64>)
    requires
        representable_time(now),
    ensures
        r == retry_after_value(raw@, now),
{
    let chars = chars_of(raw);
    let t = trim_chars(&chars);
    if let Some(n) = parse_u64_text(&t) {
        return Some(n);
    }
    let text = string_of(&t);
    match parse_rfc2822_seconds(text.as_str()) {
        Some(at) => Some(
            if at - now > 0 {
                (at - now) as u64
            } else {
                0
            },
        ),
        None => None,
    }
}

impl ApiError {
    /// The error as `code: info`.
    pub fn message(&self) -> (r: String)
        ensures
            r@ == self.code@ + ": "@ + self.info@,
    {
        let mut out: Vec<char> = Vec::new();
        push_str(&mut out, self.code.as_str());
        push_str(&mut out, ": ");
        push_str(&mut out, self.info.as_str());
        assert(out@ =~= self.code@ + ": "@ + self.info@);
        string_of(&out)
    }
}

impl ApiTransportError {
    /// The error as `class: info`.
    pub fn message(&self) -> (r: String)
        ensures
            r@ == self.class@ + ": "@ + self.info@,
    {
        let mut out: Vec<char> = Vec::new();
        push_str(&mut out, self.class.as_str());
        push_str(&mut out, ": ");
        push_str(&mut out, self.info.as_str());
        assert(out@ =~= self.class@ + ": "@ + self.info@);
        string_of(&out)
    }
}


/// How long to wait before retrying a failed API call, after `attempts`
/// failures, when at most `max_retries` retries are allowed: only
/// transient failures are retried.
pub fn api_retry_delay(error: &ClientError, attempts: u32, max_retries: u32) -> (r: Option<u64>)
    ensures
        r == if attempts <= max_retries && transient(*error) {
            Some(retry_delay(*error, attempts) as u64)
        } else {
            None::<u64>
        },
{
    if attempts <= max_retries && is_transient(error) {
        Some(retry_delay_seconds(error, attempts))
    } else {
        None
    }
}

/// What reading a response body as JSON gave: the decoder's complaint, or
/// whether the value holds an `error` object and, if so, its `code` and
/// `info` strings.
#[derive(Clone, Debug)]
pub enum ResponseBody {
    Undecodable { decode_error: String },
    Decoded { has_error: bool, error_code: Option<String>, error_info: Option<String> },
}

/// An HTTP status the client retries: a server error or 429.
pub open spec fn retryable_status(status: u16) -> bool {
    (500 <= status && status <= 599) || status == 429
}

/// The failure a response reports, if any: a body that is not JSON (a
/// decode error when the content type says JSON), an API `error` object
/// (missing fields read as "unknown"), or an HTTP status outside 2xx
/// (`status_text` is the status as the client prints it).
pub open spec fn response_failure(
    status: u16,
    status_text: Seq<char>,
    content_type: Option<String>,
    retry_after_seconds: Option<u64>,
    body: ResponseBody,
) -> Option<(Seq<char>, Seq<char>, bool, bool)> {
    match body {
        ResponseBody::Undecodable { decode_error } => Some((
            if content_type matches Some(c) && contains_seq(c@.map_values(|ch: char| crate::text::ascii_lower(ch)), "json"@) {
                "decode-error"@
            } else {
                "non-json-response"@
            },
            "Failed to decode JSON response: "@ + decode_error@,
            retryable_status(status),
            false,
        )),
        ResponseBody::Decoded { has_error, error_code, error_info } => if has_error {
            Some((
                match error_code { Some(c) => c@, None => "unknown"@ },
                match error_info { Some(i) => i@, None => "unknown"@ },
                false,
                true,
            ))
        } else if !(200 <= status && status <= 299) {
            Some(("http-status"@, "API request failed with HTTP status "@ + status_text, retryable_status(status), false))
        } else {
            None
        },
    }
}

/// The kind of failure a response carries, if any (see `response_failure`):
/// its class or code, its message, whether it is retryable, and whether it
/// came from the API itself.
pub fn classify_response(
    status: u16,
    status_text: &str,
    content_type: Option<String>,
    retry_after_seconds: Option<u64>,
    body: ResponseBody,
) -> (r: Option<ClientErrorKind>)
    ensures
        match (r, response_failure(status, status_text@, content_type, retry_after_seconds, body)) {
            (None, None) => true,
            (Some(ClientErrorKind::Api(e)), Some((code, info, _, true))) => {
                &&& e.code@ == code && e.info@ == info
                &&& e.http_status == Some(status) && e.content_type == content_type
                &&& e.retry_after_seconds == retry_after_seconds
            },
            (Some(ClientErrorKind::Transport(e)), Some((class, info, retryable, false))) => {
                &&& e.class@ == class && e.info@ == info && e.retryable == retryable
                &&& e.http_status == Some(status) && e.content_type == content_type
                &&& e.retry_after_seconds == retry_after_seconds
            },
            _ => false,
        },
{
    let retryable = (500 <= status && status <= 599) || status == 429;
    match body {
        ResponseBody::Undecodable { decode_error } => {
            let json = match &content_type {
                Some(c) => {
                    let lower = crate::text::ascii_lower_chars(&chars_of(c.as_str()));
                    contains_chars(&lower, &chars_of("json"))
                },
                None => false,
            };
            let mut info: Vec<char> = Vec::new();
            push_str(&mut info, "Failed to decode JSON response: ");
            push_str(&mut info, decode_error.as_str());
            Some(ClientErrorKind::Transport(ApiTransportError {
                class: if json {
                    String::from_str("decode-error")
                } else {
                    String::from_str("non-json-response")
                },
                info: string_of(&info),
                http_status: Some(status),
                content_type,
                retry_after_seconds,
                retryable,
            }))
        },
        ResponseBody::Decoded { has_error, error_code, error_info } => {
            if has_error {
                Some(ClientErrorKind::Api(ApiError {
                    code: match error_code {
                        Some(c) => c,
                        None => String::from_str("unknown"),
                    },
                    info: match error_info {
                        Some(i) => i,
                        None => String::from_str("unknown"),
                    },
                    http_status: Some(status),
                    content_type,
                    retry_after_seconds,
                }))
            } else if !(200 <= status && status <= 299) {
                let mut info: Vec<char> = Vec::new();
                push_str(&mut info, "API request failed with HTTP status ");
                push_str(&mut info, status_text);
                Some(ClientErrorKind::Transport(ApiTransportError {
                    class: String::from_str("http-status"),
                    info: string_of(&info),
                    http_status: Some(status),
                    content_type,
                    retry_after_seconds,
                    retryable,
                }))
            } else {
                None
            }
        },
    }
}

/// The `since` a stream opened at `now` asks for: only when it does not
/// resume from an event id and a look-back is given, `since_seconds` before
/// `now`.
pub fn stream_since(last_event_id: Option<&str>, since_seconds: Option<i64>, now: i64) -> (r: Option<String>)
    requires
        representable_time(now),
        since_seconds matches Some(s) ==> -8_000_000_000_000 <= now - s <= 8_000_000_000_000,
    ensures
        r matches Some(t) ==> (last_event_id is None && (since_seconds matches Some(s) && t@ == utc_seconds_text(
            (now - s) as i64))),
        r is None ==> last_event_id is Some || since_seconds is None,
{
    match (last_event_id, since_seconds) {
        (None, Some(seconds)) => Some(mediawiki_timestamp(now - seconds)),
        _ => None,
    }
}

/// The revision ids of a hide, joined with `|`.
pub open spec fn joined_revids_text(ids: Seq<u64>) -> Seq<char>
    decreases ids.len(),
{
    if ids.len() == 0 {
        Seq::empty()
    } else if ids.len() == 1 {
        decimal(ids[0] as nat)
    } else {
        joined_revids_text(ids.drop_last()) + "|"@ + decimal(ids.last() as nat)
    }
}

/// The `ids` parameter of a hide: the revision ids joined with `|`.
pub fn joined_revids(ids: &Vec<u64>) -> (r: String)
    ensures
        r@ == joined_revids_text(ids@),
{
    let mut out: Vec<char> = Vec::new();
    let mut i: usize = 0;
    while i < ids.len()
        invariant
            i <= ids.len(),
            out@ == joined_revids_text(ids@.subrange(0, i as int)),
        decreases ids.len() - i,
    {
        proof {
            let s = ids@.subrange(0, i + 1);
            assert(s.drop_last() =~= ids@.subrange(0, i as int));
        }
        if i > 0 {
            push_str(&mut out, "|");
        }
        push_decimal(&mut out, ids[i]);
        i = i + 1;
    }
    assert(ids@.subrange(0, ids@.len() as int) =~= ids@);
    string_of(&out)
}

/// Where the retries of one hide stand.
#[derive(Clone, Copy, Debug, Default, PartialEq, Eq)]
pub struct RevDelRetryState {
    pub attempts: u32,
    pub refreshed_token: bool,
    pub relogged_in: bool,
}

/// What to do after a hide request failed.
#[derive(Clone, Debug, PartialEq, Eq)]
pub enum RevDelRetryStep {
    /// Fetch a fresh CSRF token and try again.
    RefreshToken,
    /// Log in again and try again.
    Relogin,
    /// Give up: the account may not hide this; the message to add.
    PermissionFailure { context: String },
    /// Wait and try again.
    RetryAfter { delay_seconds: u64 },
    /// Give up with the error as it is.
    Fail,
}

/// A session failure: the token or the login is gone.
pub open spec fn session_code(code: Seq<char>) -> bool {
    code == "badtoken"@ || code == "notloggedin"@ || code == "assertuserfailed"@
}

/// The step after a failed hide request: a bad token is refreshed once,
/// then a lost session is logged in again once; a permission refusal and
/// any other session failure give up; transient failures are retried with
/// a doubling wait while `max_retries` allows; the rest give up.
pub open spec fn revdel_retry_step(state: RevDelRetryState, error: ClientError, max_retries: u32) -> (RevDelRetryState, Option<RevDelRetryStep>, Option<Seq<char>>) {
    let attempts = (state.attempts + 1) as u32;
    let next = RevDelRetryState { attempts, ..state };
    match error.kind {
        ClientErrorKind::Api(e) if e.code@ == "badtoken"@ && !state.refreshed_token => (RevDelRetryState {
            refreshed_token: true,
            ..next
        }, Some(RevDelRetryStep::RefreshToken), None),
        ClientErrorKind::Api(e) if session_code(e.code@) && !state.relogged_in => (RevDelRetryState {
            relogged_in: true,
            ..next
        }, Some(RevDelRetryStep::Relogin), None),
        ClientErrorKind::Api(e) if e.code@ == "permissiondenied"@ || e.code@ == "cantdelete"@ => (next, None, Some(
            "Permission failure during revisiondelete: "@ + e.info@)),
        ClientErrorKind::Api(e) if session_code(e.code@) => (next, Some(RevDelRetryStep::Fail), None),
        _ => if attempts <= max_retries && transient(error) {
            (next, Some(RevDelRetryStep::RetryAfter { delay_seconds: saturating_pow2((attempts - 1) as nat) as u64 }), None)
        } else {
            (next, Some(RevDelRetryStep::Fail), None)
        },
    }
}

/// Counts a failed hide request and says what to do next (see
/// `revdel_retry_step`).
pub fn next_revdel_step(state: &mut RevDelRetryState, error: &ClientError, max_retries: u32) -> (r: RevDelRetryStep)
    requires
        old(state).attempts < u32::MAX,
    ensures
        ({
            let (next, step, permission) = revdel_retry_step(*old(state), *error, max_retries);
            &&& *final(state) == next
            &&& match permission {
                Some(m) => r matches RevDelRetryStep::PermissionFailure { context } && context@ == m,
                None => step == Some(r),
            }
        }),
{
    state.attempts = state.attempts + 1;
    if let ClientErrorKind::Api(e) = &error.kind {
        let code = e.code.as_str();
        let session = str_eq(code, "badtoken") || str_eq(code, "notloggedin") || str_eq(code, "assertuserfailed");
        if str_eq(code, "badtoken") && !state.refreshed_token {
            state.refreshed_token = true;
            return RevDelRetryStep::RefreshToken;
        }
        if session && !state.relogged_in {
            state.relogged_in = true;
            return RevDelRetryStep::Relogin;
        }
        if str_eq(code, "permissiondenied") || str_eq(code, "cantdelete") {
            let mut m: Vec<char> = Vec::new();
            push_str(&mut m, "Permission failure during revisiondelete: ");
            push_str(&mut m, e.info.as_str());
            return RevDelRetryStep::PermissionFailure { context: string_of(&m) };
        }
        if session {
            return RevDelRetryStep::Fail;
        }
    }
    if state.attempts <= max_retries && is_transient(error) {
        RevDelRetryStep::RetryAfter { delay_seconds: saturating_pow2_exec(state.attempts - 1) }
    } else {
        RevDelRetryStep::Fail
    }
}


/// A revision as an API response lists it: the fields the client reads.
#[derive(Clone, Debug, Default, PartialEq, Eq)]
pub struct RawRevision {
    pub revid: Option<u64>,
    pub timestamp: Option<String>,
    pub user_hidden: bool,
    pub comment_hidden: bool,
}

/// The complaint about a timestamp that is not RFC 3339.
pub open spec fn invalid_timestamp_text(value: Seq<char>) -> Seq<char> {
    "Invalid RFC3339 timestamp "@ + value
}

/// The revision a listed revision is: none without an id or a timestamp, an
/// error when the timestamp does not read.
pub open spec fn revision_of(raw: RawRevision) -> Result<Option<RevisionRecord>, Seq<char>> {
    match (raw.revid, raw.timestamp) {
        (Some(revid), Some(ts)) => match rfc3339_instant(ts@) {
            Some(t) => Ok(Some(RevisionRecord {
                revid,
                timestamp: t,
                user_hidden: raw.user_hidden,
                comment_hidden: raw.comment_hidden,
            })),
            None => Err(invalid_timestamp_text(ts@)),
        },
        _ => Ok(None),
    }
}

fn invalid_timestamp(value: &str) -> (r: String)
    ensures
        r@ == invalid_timestamp_text(value@),
{
    let mut out: Vec<char> = Vec::new();
    push_str(&mut out, "Invalid RFC3339 timestamp ");
    push_str(&mut out, value);
    string_of(&out)
}

/// Reads one listed revision.
pub fn revision_record_from_raw(raw: &RawRevision) -> (r: Result<Option<RevisionRecord>, String>)
    ensures
        match (r, revision_of(*raw)) {
            (Ok(a), Ok(b)) => a == b,
            (Err(e), Err(f)) => e@ == f,
            _ => false,
        },
{
    match (raw.revid, &raw.timestamp) {
        (Some(revid), Some(ts)) => match parse_timestamp(ts.as_str()) {
            Some(t) => Ok(
                Some(
                    RevisionRecord {
                        revid,
                        timestamp: t,
                        user_hidden: raw.user_hidden,
                        comment_hidden: raw.comment_hidden,
                    },
                ),
            ),
            None => Err(invalid_timestamp(ts.as_str())),
        },
        _ => Ok(None),
    }
}

/// The revisions a list of listed revisions gives, in order, skipping
/// those without an id or a timestamp; the first unreadable timestamp is
/// an error.
pub open spec fn revisions_of(raws: Seq<RawRevision>) -> Result<Seq<RevisionRecord>, Seq<char>>
    decreases raws.len(),
{
    if raws.len() == 0 {
        Ok(Seq::empty())
    } else {
        match revisions_of(raws.drop_last()) {
            Err(e) => Err(e),
            Ok(prev) => match revision_of(raws.last()) {
                Err(e) => Err(e),
                Ok(None) => Ok(prev),
                Ok(Some(r)) => Ok(prev.push(r)),
            },
        }
    }
}

/// Reads a list of listed revisions (see `revisions_of`).
pub fn revisions_from_raw(raws: &Vec<RawRevision>) -> (r: Result<Vec<RevisionRecord>, String>)
    ensures
        match (r, revisions_of(raws@)) {
            (Ok(a), Ok(b)) => a@ == b,
            (Err(e), Err(f)) => e@ == f,
            _ => false,
        },
{
    let mut out: Vec<RevisionRecord> = Vec::new();
    let mut i: usize = 0;
    while i < raws.len()
        invariant
            i <= raws.len(),
            revisions_of(raws@.subrange(0, i as int)) == Ok::<Seq<RevisionRecord>, Seq<char>>(out@),
        decreases raws.len() - i,
    {
        proof {
            let s = raws@.subrange(0, i + 1);
            assert(s.drop_last() =~= raws@.subrange(0, i as int));
            assert(s.last() == raws@[i as int]);
        }
        match revision_record_from_raw(&raws[i]) {
            Err(e) => {
                proof {
                    lemma_revisions_error_sticks(raws@, i + 1);
                }
                return Err(e);
            },
            Ok(None) => {},
            Ok(Some(rec)) => out.push(rec),
        }
        i = i + 1;
    }
    assert(raws@.subrange(0, raws@.len() as int) =~= raws@);
    Ok(out)
}

proof fn lemma_revisions_error_sticks(raws: Seq<RawRevision>, k: int)
    requires
        0 <= k <= raws.len(),
        revisions_of(raws.subrange(0, k)) is Err,
    ensures
        revisions_of(raws) == revisions_of(raws.subrange(0, k)),
    decreases raws.len() - k,
{
    if k < raws.len() {
        let s = raws.subrange(0, k + 1);
        assert(s.drop_last() =~= raws.subrange(0, k));
        lemma_revisions_error_sticks(raws, k + 1);
    } else {
        assert(raws.subrange(0, k) =~= raws);
    }
}

/// The revisions of `revisions` from `start` to `end`, both included.
pub open spec fn in_window(revisions: Seq<RevisionRecord>, start: i64, end: i64) -> Seq<RevisionRecord> {
    revisions.filter(|r: RevisionRecord| start <= r.timestamp <= end)
}

/// Keeps the revisions from `start` to `end`, both included, in order.
pub fn revisions_in_window(revisions: &Vec<RevisionRecord>, start: i64, end: i64) -> (r: Vec<RevisionRecord>)
    ensures
        r@ == in_window(revisions@, start, end),
{
    let mut out: Vec<RevisionRecord> = Vec::new();
    let mut i: usize = 0;
    while i < revisions.len()
        invariant
            i <= revisions.len(),
            out@ == in_window(revisions@.subrange(0, i as int), start, end),
        decreases revisions.len() - i,
    {
        proof {
            let s = revisions@.subrange(0, i + 1);
            assert(s.drop_last() =~= revisions@.subrange(0, i as int));
            reveal(Seq::filter);
        }
        let r = revisions[i];
        if start <= r.timestamp && r.timestamp <= end {
            out.push(r);
        }
        i = i + 1;
    }
    assert(revisions@.subrange(0, revisions@.len() as int) =~= revisions@);
    out
}

/// The revision numbered `revid` among listed revisions, read in order;
/// an unreadable timestamp met before it is an error.
pub open spec fn revision_found(raws: Seq<RawRevision>, revid: u64) -> Result<Option<RevisionRecord>, Seq<char>>
    decreases raws.len(),
{
    if raws.len() == 0 {
        Ok(None)
    } else {
        match revision_of(raws.first()) {
            Err(e) => Err(e),
            Ok(Some(r)) => if r.revid == revid {
                Ok(Some(r))
            } else {
                revision_found(raws.drop_first(), revid)
            },
            Ok(None) => revision_found(raws.drop_first(), revid),
        }
    }
}

/// Looks for revision `revid` among the revisions of a response's pages
/// (see `revision_found`).
pub fn find_revision(raws: &Vec<RawRevision>, revid: u64) -> (r: Result<Option<RevisionRecord>, String>)
    ensures
        match (r, revision_found(raws@, revid)) {
            (Ok(a), Ok(b)) => a == b,
            (Err(e), Err(f)) => e@ == f,
            _ => false,
        },
{
    let mut i: usize = 0;
    assert(raws@.subrange(0, raws@.len() as int) =~= raws@);
    while i < raws.len()
        invariant
            i <= raws.len(),
            revision_found(raws@.subrange(i as int, raws@.len() as int), revid) == revision_found(raws@, revid),
        decreases raws.len() - i,
    {
        proof {
            let s = raws@.subrange(i as int, raws@.len() as int);
            assert(s.first() == raws@[i as int]);
            assert(s.drop_first() =~= raws@.subrange(i + 1, raws@.len() as int));
        }
        match revision_record_from_raw(&raws[i]) {
            Err(e) => return Err(e),
            Ok(Some(rec)) => if rec.revid == revid {
                return Ok(Some(rec));
            },
            Ok(None) => {},
        }
        i = i + 1;
    }
    assert(raws@.subrange(raws@.len() as int, raws@.len() as int) =~= Seq::<RawRevision>::empty());
    Ok(None)
}

/// A change as the recent-changes list reports it.
#[derive(Clone, Debug, Default, PartialEq, Eq)]
pub struct RawRecentChange {
    pub title: Option<String>,
    pub timestamp: Option<String>,
    pub revid: Option<u64>,
}

/// Reading the changes of one chunk after `read`, keeping at most `limit`:
/// the changes read and whether the limit cut the chunk short; changes
/// without a title, timestamp or id are skipped; an unreadable timestamp
/// is an error.
pub open spec fn chunk_read(read: Seq<RecentChangeRecord>, items: Seq<RawRecentChange>, limit: usize) -> Result<(Seq<RecentChangeRecord>, bool), Seq<char>>
    decreases items.len(),
{
    if items.len() == 0 {
        Ok((read, false))
    } else {
        match chunk_read(read, items.drop_last(), limit) {
            Err(e) => Err(e),
            Ok((acc, true)) => Ok((acc, true)),
            Ok((acc, false)) => if acc.len() >= limit {
                Ok((acc, true))
            } else {
                let c = items.last();
                match (c.title, c.timestamp, c.revid) {
                    (Some(title), Some(ts), Some(revid)) => match rfc3339_instant(ts@) {
                        Some(t) => Ok((acc.push(RecentChangeRecord { title, timestamp: t, revid }), false)),
                        None => Err(invalid_timestamp_text(ts@)),
                    },
                    _ => Ok((acc, false)),
                }
            },
        }
    }
}

impl RecentChangeWindow {
    /// Takes in one chunk of a window read: counts it, reads its changes
    /// (see `chunk_read`) and says whether to read the next chunk; the read
    /// stops when the limit cut the chunk or there is no next chunk, and
    /// the window is truncated when the limit cut it or more chunks remain.
    pub fn absorb_chunk(&mut self, items: &Vec<RawRecentChange>, has_more: bool, limit: usize) -> (r: Result<
        bool,
        String,
    >)
        requires
            old(self).chunk_count < usize::MAX,
        ensures
            final(self).chunk_count == old(self).chunk_count + 1,
            match (r, chunk_read(old(self).changes@, items@, limit)) {
                (Ok(more), Ok((read, cut))) => {
                    &&& final(self).changes@ == read
                    &&& more == (!cut && has_more)
                    &&& final(self).truncated == if !cut && has_more {
                        old(self).truncated
                    } else {
                        cut || has_more
                    }
                },
                (Err(e), Err(f)) => e@ == f,
                _ => false,
            },
    {
        self.chunk_count = self.chunk_count + 1;
        let ghost start = self.changes@;
        let mut cut = false;
        let mut i: usize = 0;
        while i < items.len()
            invariant
                i <= items.len(),
                chunk_read(start, items@.subrange(0, i as int), limit) == Ok::<(Seq<RecentChangeRecord>, bool), Seq<char>>((self.changes@, cut)),
                cut ==> self.changes@.len() >= limit,
                self.chunk_count == old(self).chunk_count + 1,
                self.truncated == old(self).truncated,
                start == old(self).changes@,
            decreases items.len() - i,
        {
            proof {
                let s = items@.subrange(0, i + 1);
                assert(s.drop_last() =~= items@.subrange(0, i as int));
                assert(s.last() == items@[i as int]);
            }
            if cut {
                i = i + 1;
                continue;
            }
            if self.changes.len() >= limit {
                cut = true;
                i = i + 1;
                continue;
            }
            let c = &items[i];
            match (&c.title, &c.timestamp, c.revid) {
                (Some(title), Some(ts), Some(revid)) => match parse_timestamp(ts.as_str()) {
                    Some(t) => {
                        self.changes.push(RecentChangeRecord { title: title.clone(), timestamp: t, revid });
                    },
                    None => {
                        proof {
                            assert(chunk_read(start, items@.subrange(0, i + 1), limit) == Err::<(Seq<RecentChangeRecord>, bool), Seq<char>>(invalid_timestamp_text(ts@)));
                            lemma_chunk_error_sticks(start, items@, i + 1, limit);
                        }
                        return Err(invalid_timestamp(ts.as_str()));
                    },
                },
                _ => {},
            }
            i = i + 1;
        }
        assert(items@.subrange(0, items@.len() as int) =~= items@);
        if cut || !has_more {
            self.truncated = cut || has_more;
            Ok(false)
        } else {
            Ok(true)
        }
    }
}

proof fn lemma_chunk_error_sticks(read: Seq<RecentChangeRecord>, items: Seq<RawRecentChange>, k: int, limit: usize)
    requires
        0 <= k <= items.len(),
        chunk_read(read, items.subrange(0, k), limit) is Err,
    ensures
        chunk_read(read, items, limit) == chunk_read(read, items.subrange(0, k), limit),
    decreases items.len() - k,
{
    if k < items.len() {
        let s = items.subrange(0, k + 1);
        assert(s.drop_last() =~= items.subrange(0, k));
        lemma_chunk_error_sticks(read, items, k + 1, limit);
    } else {
        assert(items.subrange(0, k) =~= items);
    }
}


/// The first revision of a page as a query lists it.
#[derive(Clone, Debug, Default, PartialEq, Eq)]
pub struct RawPageRevision {
    pub revid: Option<u64>,
    pub timestamp: Option<String>,
    pub content: Option<String>,
}

/// The first page of a query response: its id and its first revision.
#[derive(Clone, Debug, Default, PartialEq, Eq)]
pub struct RawPage {
    pub pageid: Option<u64>,
    pub first_revision: Option<RawPageRevision>,
}

/// The instant a listed revision carries: none without a timestamp, an
/// error when it does not read.
pub open spec fn optional_instant(ts: Option<String>) -> Result<Option<i64>, Seq<char>> {
    match ts {
        None => Ok(None),
        Some(v) => match rfc3339_instant(v@) {
            Some(t) => Ok(Some(t)),
            None => Err(invalid_timestamp_text(v@)),
        },
    }
}

fn read_optional_instant(ts: &Option<String>) -> (r: Result<Option<i64>, String>)
    ensures
        match (r, optional_instant(*ts)) {
            (Ok(a), Ok(b)) => a == b,
            (Err(e), Err(f)) => e@ == f,
            _ => false,
        },
{
    match ts {
        None => Ok(None),
        Some(v) => match parse_timestamp(v.as_str()) {
            Some(t) => Ok(Some(t)),
            None => Err(invalid_timestamp(v.as_str())),
        },
    }
}

/// The metadata of the first page of a response: an error when the
/// response has no page or the latest revision's timestamp does not read.
pub open spec fn page_metadata_of(page: Option<RawPage>) -> Result<crate::cache::PageMetadata, Seq<char>> {
    match page {
        None => Err("Missing page data in API response"@),
        Some(p) => {
            let (revid, ts) = match p.first_revision {
                Some(r) => (r.revid, r.timestamp),
                None => (None, None),
            };
            match optional_instant(ts) {
                Err(e) => Err(e),
                Ok(t) => Ok(crate::cache::PageMetadata { pageid: p.pageid, lastrevid: revid, timestamp: t }),
            }
        },
    }
}

/// Reads a page's metadata (see `page_metadata_of`).
pub fn page_metadata_from(page: &Option<RawPage>) -> (r: Result<crate::cache::PageMetadata, String>)
    ensures
        match (r, page_metadata_of(*page)) {
            (Ok(a), Ok(b)) => a == b,
            (Err(e), Err(f)) => e@ == f,
            _ => false,
        },
{
    match page {
        None => Err(String::from_str("Missing page data in API response")),
        Some(p) => {
            let (revid, ts) = match &p.first_revision {
                Some(r) => (r.revid, r.timestamp.clone()),
                None => (None, None),
            };
            match read_optional_instant(&ts) {
                Err(e) => Err(e),
                Ok(t) => Ok(crate::cache::PageMetadata { pageid: p.pageid, lastrevid: revid, timestamp: t }),
            }
        },
    }
}

/// The text and metadata of the first page of a response: errors when the
/// response has no page, the page no revision, the revision no text, or a
/// timestamp that does not read.
pub open spec fn page_content_of(page: Option<RawPage>) -> Result<(crate::cache::PageMetadata, Seq<char>), Seq<char>> {
    match page {
        None => Err("Missing page data in API response"@),
        Some(p) => match p.first_revision {
            None => Err("Missing page content revision"@),
            Some(r) => match r.content {
                None => Err("Missing revision content"@),
                Some(c) => match optional_instant(r.timestamp) {
                    Err(e) => Err(e),
                    Ok(t) => Ok((crate::cache::PageMetadata { pageid: p.pageid, lastrevid: r.revid, timestamp: t }, c@)),
                },
            },
        },
    }
}

/// Reads a page's text and metadata (see `page_content_of`).
pub fn page_content_from(page: &Option<RawPage>) -> (r: Result<crate::cache::PageContent, String>)
    ensures
        match (r, page_content_of(*page)) {
            (Ok(a), Ok((m, c))) => a.metadata == m && a.content@ == c,
            (Err(e), Err(f)) => e@ == f,
            _ => false,
        },
{
    match page {
        None => Err(String::from_str("Missing page data in API response")),
        Some(p) => match &p.first_revision {
            None => Err(String::from_str("Missing page content revision")),
            Some(r) => match &r.content {
                None => Err(String::from_str("Missing revision content")),
                Some(c) => match read_optional_instant(&r.timestamp) {
                    Err(e) => Err(e),
                    Ok(t) => Ok(crate::cache::PageContent {
                        metadata: crate::cache::PageMetadata { pageid: p.pageid, lastrevid: r.revid, timestamp: t },
                        content: c.clone(),
                    }),
                },
            },
        },
    }
}

/// The session's user as the API describes it: an error without a name.
pub fn user_info_from(name: Option<String>, rights: Vec<String>) -> (r: Result<ApiUserInfo, String>)
    ensures
        match name {
            Some(n) => r matches Ok(u) && u.name == n && u.rights == rights,
            None => r matches Err(e) && e@ == "Missing authenticated username"@,
        },
{
    match name {
        Some(n) => Ok(ApiUserInfo { name: n, rights }),
        None => Err(String::from_str("Missing authenticated username")),
    }
}


/// The probe the latest listed change gives: none without a change or
/// without a timestamp; an error when the timestamp does not read.
pub open spec fn probe_of(first: Option<RawRecentChange>) -> Result<Option<RecentChangeProbe>, Seq<char>> {
    match first {
        None => Ok(None),
        Some(c) => match c.timestamp {
            None => Ok(None),
            Some(ts) => match rfc3339_instant(ts@) {
                Some(t) => Ok(Some(RecentChangeProbe { title: c.title, timestamp: t, revid: c.revid })),
                None => Err(invalid_timestamp_text(ts@)),
            },
        },
    }
}

/// Reads the latest listed change (see `probe_of`).
pub fn probe_from(first: Option<RawRecentChange>) -> (r: Result<Option<RecentChangeProbe>, String>)
    ensures
        match (r, probe_of(first)) {
            (Ok(a), Ok(b)) => a == b,
            (Err(e), Err(f)) => e@ == f,
            _ => false,
        },
{
    match first {
        None => Ok(None),
        Some(c) => match c.timestamp {
            None => Ok(None),
            Some(ts) => match parse_timestamp(ts.as_str()) {
                Some(t) => Ok(Some(RecentChangeProbe { title: c.title, timestamp: t, revid: c.revid })),
                None => Err(invalid_timestamp(ts.as_str())),
            },
        },
    }
}


/// A hide's token is refreshed at most once and its session logged in
/// again at most once: once a step has done either, no later step does it
/// again; and every step counts one more attempt.
pub proof fn revdel_recovery_happens_once(state: RevDelRetryState, error: ClientError, max_retries: u32)
    requires
        state.attempts < u32::MAX,
    ensures
        ({
            let (next, step, _) = revdel_retry_step(state, error, max_retries);
            &&& state.refreshed_token ==> step != Some(RevDelRetryStep::RefreshToken)
            &&& state.relogged_in ==> step != Some(RevDelRetryStep::Relogin)
            &&& next.refreshed_token == (state.refreshed_token || step == Some(RevDelRetryStep::RefreshToken))
            &&& next.relogged_in == (state.relogged_in || step == Some(RevDelRetryStep::Relogin))
            &&& next.attempts == state.attempts + 1
        }),
{
}


/// Reading a window's chunks never holds more changes than the limit
/// (when it started within it), and never drops or reorders what was
/// already read: the changes read before stay first.
pub proof fn window_read_stays_within_limit(read: Seq<RecentChangeRecord>, items: Seq<RawRecentChange>, limit: usize)
    requires
        read.len() <= limit,
    ensures
        chunk_read(read, items, limit) matches Ok((r, _)) ==> read.len() <= r.len() <= limit && r.subrange(0,
            read.len() as int) == read,
    decreases items.len(),
{
    if items.len() > 0 {
        window_read_stays_within_limit(read, items.drop_last(), limit);
        if let Ok((acc, cut)) = chunk_read(read, items.drop_last(), limit) {
            if !cut && acc.len() < limit {
                let c = items.last();
                if let (Some(title), Some(ts), Some(revid)) = (c.title, c.timestamp, c.revid) {
                    if let Some(t) = rfc3339_instant(ts@) {
                        let pushed = acc.push(RecentChangeRecord { title, timestamp: t, revid });
                        assert(pushed.subrange(0, read.len() as int) =~= acc.subrange(0, read.len() as int));
                    }
                }
            }
        }
    }
}

} // verus!
