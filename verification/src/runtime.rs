//! The runtime status the daemon publishes, and how each event moves it:
//! stream and poll signals, recoveries, hides and reconciliation passes.
//! Every transition takes the instant it happens at.

use vstd::prelude::*;

use crate::health::{
    latest_recovery_summary_is_degraded, recovery_degraded, recovery_notice, render_recovery_notice,
    ActionableIssueSnapshot, RealtimeRuntimeStatus,
};
use crate::reconcile::ReconcileMode;
use crate::state::{ApiFailureSnapshot, CoverageSummary};
use crate::text::{decimal, push_decimal, push_str, str_eq, string_of, chars_of, starts_with_chars};
use crate::time::{format_utc_clock, representable_time, utc_clock_text};

verus! {

/// What the reconciliation loop reports of itself.
#[derive(Clone, Debug, Default, PartialEq, Eq)]
pub struct ReconciliationRuntimeStatus {
    pub active: bool,
    pub mode: Option<String>,
    pub phase: Option<String>,
    pub queued_mode: Option<String>,
    pub total_titles: usize,
    pub completed_titles: usize,
    pub phase_total: usize,
    pub phase_completed: usize,
    pub current_title: Option<String>,
    pub last_started_at: Option<i64>,
    pub last_completed_at: Option<i64>,
    pub last_result: Option<String>,
    pub stopped_early_reason: Option<String>,
    pub backoff_until: Option<i64>,
}

/// Recent peaks of queue and API load.
#[derive(Clone, Copy, Debug, PartialEq, Eq)]
pub struct ResourceEconomySnapshot {
    pub queue_depth_max_recent: usize,
    pub live_queue_depth_max_recent: usize,
    pub background_queue_depth_max_recent: usize,
    pub api_concurrency_max_recent: usize,
    pub coalesced_warning_count_recent: usize,
    pub latest_measurement_at: Option<i64>,
}

impl ResourceEconomySnapshot {
    /// No peaks recorded yet.
    pub open spec fn default_spec() -> Self {
        ResourceEconomySnapshot {
            queue_depth_max_recent: 0,
            live_queue_depth_max_recent: 0,
            background_queue_depth_max_recent: 0,
            api_concurrency_max_recent: 0,
            coalesced_warning_count_recent: 0,
            latest_measurement_at: None,
        }
    }
}

impl Default for ResourceEconomySnapshot {
    fn default() -> (r: Self)
        ensures
            r == Self::default_spec(),
    {
        ResourceEconomySnapshot {
            queue_depth_max_recent: 0,
            live_queue_depth_max_recent: 0,
            background_queue_depth_max_recent: 0,
            api_concurrency_max_recent: 0,
            coalesced_warning_count_recent: 0,
            latest_measurement_at: None,
        }
    }
}

/// The status file the daemon keeps.
#[derive(Clone, Debug, Default, PartialEq, Eq)]
pub struct RuntimeStatus {
    pub daemon_state: String,
    pub dry_run: bool,
    pub last_notice: Option<String>,
    pub last_notice_at: Option<i64>,
    pub reconciliation: ReconciliationRuntimeStatus,
    pub realtime: RealtimeRuntimeStatus,
    pub resource_economy: Option<ResourceEconomySnapshot>,
}

/// An issue as text: source, severity, summary, next action, and when it
/// was detected.
pub open spec fn issue_text(i: ActionableIssueSnapshot) -> (Seq<char>, Seq<char>, Seq<char>, Seq<char>, Option<i64>) {
    (i.source@, i.severity@, i.summary@, i.next_action@, i.detected_at)
}

/// The issue text of an optional issue.
pub open spec fn opt_issue_text(o: Option<ActionableIssueSnapshot>) -> Option<(Seq<char>, Seq<char>, Seq<char>, Seq<char>, Option<i64>)> {
    match o {
        Some(i) => Some(issue_text(i)),
        None => None,
    }
}

pub(crate) fn make_issue(source: &str, severity: &str, summary: String, next_action: String, at: i64) -> (r:
    ActionableIssueSnapshot)
    ensures
        issue_text(r) == (source@, severity@, summary@, next_action@, Some(at)),
{
    ActionableIssueSnapshot {
        source: String::from_str(source),
        severity: String::from_str(severity),
        summary,
        next_action,
        detected_at: Some(at),
    }
}

/// The texts of `sources`.
pub open spec fn texts(sources: Seq<&str>) -> Seq<Seq<char>> {
    sources.map_values(|s: &str| s@)
}

/// Clears the latest actionable issue when its source is one of `sources`.
pub fn clear_actionable_issue_if_source(status: &mut RealtimeRuntimeStatus, sources: &[&str])
    ensures
        (old(status).latest_actionable_issue matches Some(i) && texts(sources@).contains(i.source@))
            ==> *final(status) == (RealtimeRuntimeStatus {
            latest_actionable_issue: None,
            ..*old(status)
        }),
        !(old(status).latest_actionable_issue matches Some(i) && texts(sources@).contains(i.source@))
            ==> *final(status) == *old(status),
{
    let hit = match &status.latest_actionable_issue {
        Some(issue) => {
            let mut found = false;
            let mut k: usize = 0;
            while k < sources.len()
                invariant
                    k <= sources@.len(),
                    found <==> exists|i: int| 0 <= i < k && (#[trigger] sources@[i])@ == issue.source@,
                decreases sources@.len() - k,
            {
                if str_eq(sources[k], issue.source.as_str()) {
                    found = true;
                }
                k = k + 1;
            }
            proof {
                if found {
                    let i = choose|i: int| 0 <= i < k && (#[trigger] sources@[i])@ == issue.source@;
                    assert(texts(sources@)[i] == issue.source@);
                }
                if texts(sources@).contains(issue.source@) {
                    let j = choose|j: int| 0 <= j < texts(sources@).len() && texts(sources@)[j] == issue.source@;
                    assert(sources@[j]@ == issue.source@);
                }
            }
            found
        },
        None => false,
    };
    if hit {
        status.latest_actionable_issue = None;
    }
}

/// The issue a blocked hide in `mode` raises.
pub open spec fn blocked_issue(mode: Seq<char>, revid: u64, at: i64) -> (Seq<char>, Seq<char>, Seq<char>, Seq<char>, Option<i64>) {
    let n = decimal(revid as nat);
    if mode == "live"@ {
        ("live-hide"@, "error"@, "cannot hide revid "@ + n + " because protection is blocked"@,
        "run check-auth and verify wiki-side rights immediately"@, Some(at))
    } else if mode == "catchup"@ {
        ("recovery"@, "error"@, "recovery hide blocked for revid "@ + n,
        "check auth and wiki-side rights, then rerun recovery"@, Some(at))
    } else if mode == "coverage"@ {
        ("coverage"@, "error"@, "coverage hide blocked for revid "@ + n,
        "check auth and wiki-side rights before rerunning coverage"@, Some(at))
    } else if mode == "reconciliation"@ {
        ("reconciliation"@, "error"@, "reconciliation hide blocked for revid "@ + n,
        "check auth and wiki-side rights before rerunning scheduled verification"@, Some(at))
    } else if mode == "manual"@ {
        ("manual"@, "error"@, "manual hide blocked for revid "@ + n,
        "check auth and wiki-side rights before retrying the operator action"@, Some(at))
    } else {
        ("live-hide"@, "error"@, "cannot hide revid "@ + n + " because protection is blocked"@,
        "check auth and wiki-side rights immediately"@, Some(at))
    }
}

fn text_then_decimal(prefix: &str, n: u64, suffix: &str) -> (r: String)
    ensures
        r@ == prefix@ + decimal(n as nat) + suffix@,
{
    let mut out: Vec<char> = Vec::new();
    push_str(&mut out, prefix);
    push_decimal(&mut out, n);
    push_str(&mut out, suffix);
    assert(out@ =~= prefix@ + decimal(n as nat) + suffix@);
    string_of(&out)
}

/// The issue a blocked hide of `revid` in `mode` raises.
pub fn blocked_actionable_issue_for_mode(mode: &str, revid: u64, detected_at: i64) -> (r:
    ActionableIssueSnapshot)
    ensures
        issue_text(r) == blocked_issue(mode@, revid, detected_at),
{
    proof {
        reveal_strlit("");
    }
    if str_eq(mode, "live") {
        make_issue("live-hide", "error", text_then_decimal("cannot hide revid ", revid, " because protection is blocked"),
            String::from_str("run check-auth and verify wiki-side rights immediately"), detected_at)
    } else if str_eq(mode, "catchup") {
        make_issue("recovery", "error", text_then_decimal("recovery hide blocked for revid ", revid, ""),
            String::from_str("check auth and wiki-side rights, then rerun recovery"), detected_at)
    } else if str_eq(mode, "coverage") {
        make_issue("coverage", "error", text_then_decimal("coverage hide blocked for revid ", revid, ""),
            String::from_str("check auth and wiki-side rights before rerunning coverage"), detected_at)
    } else if str_eq(mode, "reconciliation") {
        make_issue("reconciliation", "error", text_then_decimal("reconciliation hide blocked for revid ", revid, ""),
            String::from_str("check auth and wiki-side rights before rerunning scheduled verification"), detected_at)
    } else if str_eq(mode, "manual") {
        make_issue("manual", "error", text_then_decimal("manual hide blocked for revid ", revid, ""),
            String::from_str("check auth and wiki-side rights before retrying the operator action"), detected_at)
    } else {
        make_issue("live-hide", "error", text_then_decimal("cannot hide revid ", revid, " because protection is blocked"),
            String::from_str("check auth and wiki-side rights immediately"), detected_at)
    }
}

/// The issue a failed scheduled verification raises.
pub open spec fn verification_failure_issue(mode: ReconcileMode, result: Seq<char>, at: i64) -> (Seq<char>, Seq<char>, Seq<char>, Seq<char>, Option<i64>) {
    match mode {
        ReconcileMode::CurrentDay => ("last-24h-verification"@, "error"@,
            "Last 24 hours verification "@ + result,
            "inspect the latest verification log or rerun Last 24 hours verification"@, Some(at)),
        ReconcileMode::Full => ("full-watched-set-recheck"@, "error"@,
            "full watched-set recheck "@ + result,
            "inspect the latest recheck log or rerun the full watched-set recheck"@, Some(at)),
    }
}

pub(crate) fn joined_text(prefix: &str, rest: &str) -> (r: String)
    ensures
        r@ == prefix@ + rest@,
{
    let mut out: Vec<char> = Vec::new();
    push_str(&mut out, prefix);
    push_str(&mut out, rest);
    string_of(&out)
}

/// The issue a failed scheduled verification in `mode` raises.
pub fn verification_failure_issue_for_mode(mode: ReconcileMode, result: &str, detected_at: i64) -> (r:
    ActionableIssueSnapshot)
    ensures
        issue_text(r) == verification_failure_issue(mode, result@, detected_at),
{
    match mode {
        ReconcileMode::CurrentDay => make_issue("last-24h-verification", "error",
            joined_text("Last 24 hours verification ", result),
            String::from_str("inspect the latest verification log or rerun Last 24 hours verification"),
            detected_at),
        ReconcileMode::Full => make_issue("full-watched-set-recheck", "error",
            joined_text("full watched-set recheck ", result),
            String::from_str("inspect the latest recheck log or rerun the full watched-set recheck"),
            detected_at),
    }
}

/// The issue a reconciliation pass that stopped early raises.
pub open spec fn stopped_early_issue(mode: ReconcileMode, reason: Seq<char>, at: i64, backoff_until: Option<i64>) -> (Seq<char>, Seq<char>, Seq<char>, Seq<char>, Option<i64>) {
    let (source, label) = match mode {
        ReconcileMode::CurrentDay => ("last-24h-verification"@, "Last 24 hours verification"@),
        ReconcileMode::Full => ("full-watched-set-recheck"@, "Full watched-set recheck"@),
    };
    let next_action = if reason == "auth-session"@ {
        "re-authenticate the daemon session and rerun scheduled verification"@
    } else if reason == "permission-blocked"@ {
        "verify bot rights or page-level revisiondelete permissions before rerunning scheduled verification"@
    } else {
        match backoff_until {
            Some(u) => "wait until "@ + utc_clock_text(u) + " and rerun scheduled verification"@,
            None => "inspect background verification failures and rerun scheduled verification"@,
        }
    };
    (source, "warning"@, label + " stopped early: "@ + reason, next_action, Some(at))
}

/// The issue a reconciliation pass in `mode` that stopped early for
/// `reason` raises.
pub fn reconciliation_stopped_early_issue(
    mode: ReconcileMode,
    reason: &str,
    detected_at: i64,
    backoff_until: Option<i64>,
) -> (r: ActionableIssueSnapshot)
    requires
        backoff_until matches Some(u) ==> representable_time(u),
    ensures
        issue_text(r) == stopped_early_issue(mode, reason@, detected_at, backoff_until),
{
    let next_action = if str_eq(reason, "auth-session") {
        String::from_str("re-authenticate the daemon session and rerun scheduled verification")
    } else if str_eq(reason, "permission-blocked") {
        String::from_str(
            "verify bot rights or page-level revisiondelete permissions before rerunning scheduled verification",
        )
    } else {
        match backoff_until {
            Some(u) => {
                let mut out: Vec<char> = Vec::new();
                push_str(&mut out, "wait until ");
                let clock = format_utc_clock(u);
                push_str(&mut out, clock.as_str());
                push_str(&mut out, " and rerun scheduled verification");
                string_of(&out)
            },
            None => String::from_str("inspect background verification failures and rerun scheduled verification"),
        }
    };
    let (source, label) = match mode {
        ReconcileMode::CurrentDay => ("last-24h-verification", "Last 24 hours verification"),
        ReconcileMode::Full => ("full-watched-set-recheck", "Full watched-set recheck"),
    };
    let mut summary: Vec<char> = Vec::new();
    push_str(&mut summary, label);
    push_str(&mut summary, " stopped early: ");
    push_str(&mut summary, reason);
    make_issue(source, "warning", string_of(&summary), next_action, detected_at)
}

/// `a >= b` as `Option` orders them: nothing before any instant.
pub open spec fn opt_time_ge(a: Option<i64>, b: Option<i64>) -> bool {
    match (a, b) {
        (_, None) => true,
        (None, Some(_)) => false,
        (Some(x), Some(y)) => x >= y,
    }
}

/// The issue a failed scheduled verification leaves; of a failed daytime
/// verification and a failed nightly recheck, the later one (the nightly one
/// when they tie).
pub open spec fn scheduled_failure_issue(s: RealtimeRuntimeStatus, at: i64) -> Option<(Seq<char>, Seq<char>, Seq<char>, Seq<char>, Option<i64>)> {
    let daytime = match s.last_daytime_verification_result {
        Some(r) => "failed:"@.is_prefix_of(r@),
        None => false,
    };
    let nightly = match s.last_nightly_full_recheck_result {
        Some(r) => "failed:"@.is_prefix_of(r@),
        None => false,
    };
    let day_issue = verification_failure_issue(ReconcileMode::CurrentDay, s.last_daytime_verification_result->0@, at);
    let night_issue = verification_failure_issue(ReconcileMode::Full, s.last_nightly_full_recheck_result->0@, at);
    if daytime && nightly {
        if opt_time_ge(s.last_nightly_full_recheck_at, s.last_daytime_verification_at) {
            Some(night_issue)
        } else {
            Some(day_issue)
        }
    } else if daytime {
        Some(day_issue)
    } else if nightly {
        Some(night_issue)
    } else {
        None
    }
}

fn failed_result(o: &Option<String>) -> (r: bool)
    ensures
        r == (o matches Some(t) && "failed:"@.is_prefix_of(t@)),
{
    match o {
        Some(t) => {
            let chars = chars_of(t.as_str());
            let prefix = chars_of("failed:");
            starts_with_chars(&chars, &prefix)
        },
        None => false,
    }
}

/// The issue a failed scheduled verification leaves, if any.
pub fn scheduled_verification_failure_issue(status: &RealtimeRuntimeStatus, detected_at: i64) -> (r:
    Option<ActionableIssueSnapshot>)
    ensures
        opt_issue_text(r) == scheduled_failure_issue(*status, detected_at),
{
    let daytime = failed_result(&status.last_daytime_verification_result);
    let nightly = failed_result(&status.last_nightly_full_recheck_result);
    let nightly_later = match (status.last_nightly_full_recheck_at, status.last_daytime_verification_at) {
        (_, None) => true,
        (None, Some(_)) => false,
        (Some(x), Some(y)) => x >= y,
    };
    if daytime && (!nightly || !nightly_later) {
        let result = match &status.last_daytime_verification_result {
            Some(t) => t.as_str(),
            None => "",
        };
        Some(verification_failure_issue_for_mode(ReconcileMode::CurrentDay, result, detected_at))
    } else if nightly {
        let result = match &status.last_nightly_full_recheck_result {
            Some(t) => t.as_str(),
            None => "",
        };
        Some(verification_failure_issue_for_mode(ReconcileMode::Full, result, detected_at))
    } else {
        None
    }
}

/// The recovery summary, if any, renders: its back-off lies in the range
/// the clock format takes.
pub open spec fn summary_renderable(s: RealtimeRuntimeStatus) -> bool {
    s.latest_recovery_summary matches Some(sum) ==> (sum.backoff_until matches Some(t)
        ==> representable_time(t))
}

/// The instants of `s` that transitions read or render lie in the range
/// the clock format takes.
pub open spec fn status_times_ok(s: RealtimeRuntimeStatus) -> bool {
    &&& s.backoff_until matches Some(u) ==> representable_time(u)
    &&& s.shared_backoff matches Some(b) ==> (b.backoff_until matches Some(u) ==> representable_time(u))
    &&& summary_renderable(s)
    &&& s.last_freshness_probe_at matches Some(t) ==> representable_time(t)
    &&& s.last_event_observed_at matches Some(t) ==> representable_time(t)
}

/// The issue the standing trouble of `s` raises again after something
/// cleared it: a blocked or failed live hide first, then an incomplete
/// recovery, then a failed scheduled verification; `None` when nothing
/// stands (the issue then stays as it is).
pub open spec fn restored_issue(s: RealtimeRuntimeStatus, at: i64) -> Option<(Seq<char>, Seq<char>, Seq<char>, Seq<char>, Option<i64>)> {
    let fallback = if recovery_degraded(s) {
        Some(("recovery"@, "error"@, recovery_notice(s.latest_recovery_summary->0),
        "review the recovery window and rerun catch-up if needed"@, Some(at)))
    } else {
        scheduled_failure_issue(s, at)
    };
    match s.latest_outcome {
        Some(o) => if o.mode@ == "live"@ && o.outcome@ == "blocked"@ {
            Some(("live-hide"@, "error"@, "cannot hide revid "@ + decimal(o.revid as nat)
                + " because protection is blocked"@, "check auth and wiki-side rights immediately"@,
            Some(at)))
        } else if o.mode@ == "live"@ && (o.outcome@ == "failed"@ || o.outcome@ == "retrying"@
            || o.outcome@ == "throttled"@ || o.outcome@ == "unresolved"@) {
            Some(("live-hide"@, "error"@, "live hide failed for revid "@ + decimal(o.revid as nat),
            "watch the recovery window and confirm a later successful hide"@, Some(at)))
        } else {
            fallback
        },
        None => fallback,
    }
}

/// Raises again the issue of the trouble that still stands, if any.
pub fn restore_persistent_issue(status: &mut RuntimeStatus, detected_at: i64)
    requires
        summary_renderable(old(status).realtime),
    ensures
        restored_issue(old(status).realtime, detected_at) is None ==> *final(status) == *old(status),
        restored_issue(old(status).realtime, detected_at) is Some ==> {
            &&& final(status).realtime == (RealtimeRuntimeStatus {
                latest_actionable_issue: final(status).realtime.latest_actionable_issue,
                ..old(status).realtime
            })
            &&& *final(status) == (RuntimeStatus { realtime: final(status).realtime, ..*old(status) })
            &&& opt_issue_text(final(status).realtime.latest_actionable_issue) == restored_issue(
                old(status).realtime,
                detected_at,
            )
        },
{
    let mut issue: Option<ActionableIssueSnapshot> = None;
    let mut live_done = false;
    match &status.realtime.latest_outcome {
        Some(o) => {
            let live = str_eq(o.mode.as_str(), "live");
            let out = o.outcome.as_str();
            if live && str_eq(out, "blocked") {
                issue = Some(make_issue("live-hide", "error",
                    text_then_decimal("cannot hide revid ", o.revid, " because protection is blocked"),
                    String::from_str("check auth and wiki-side rights immediately"), detected_at));
                live_done = true;
            } else if live && (str_eq(out, "failed") || str_eq(out, "retrying") || str_eq(out, "throttled")
                || str_eq(out, "unresolved")) {
                proof {
                    reveal_strlit("");
                }
                issue = Some(make_issue("live-hide", "error",
                    text_then_decimal("live hide failed for revid ", o.revid, ""),
                    String::from_str("watch the recovery window and confirm a later successful hide"),
                    detected_at));
                live_done = true;
            }
        },
        None => {},
    }
    if !live_done {
        if latest_recovery_summary_is_degraded(&status.realtime) {
            match &status.realtime.latest_recovery_summary {
                Some(summary) => {
                    issue = Some(make_issue("recovery", "error", render_recovery_notice(summary),
                        String::from_str("review the recovery window and rerun catch-up if needed"),
                        detected_at));
                },
                None => {},
            }
        } else {
            issue = scheduled_verification_failure_issue(&status.realtime, detected_at);
        }
    }
    if issue.is_some() {
        status.realtime.latest_actionable_issue = issue;
    }
}

} // verus!
