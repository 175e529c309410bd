//! The decisions of a catch-up run, one candidate revision at a time: when
//! the run stops, which revisions need their hidden state checked, which are
//! already safe, which are only reported, and how each outcome is counted.
//! The run itself (API calls, dispatching hides) happens elsewhere and hands
//! each result back.

use vstd::prelude::*;

use crate::catchup::{failure_reason, push_unresolved_item, warning_reason};
use crate::mw_api::{
    in_window, revision_url, revision_url_text, revisions_in_window, RecentChangeRecord, RecentChangeWindow,
    RevisionRecord,
};
use crate::state::{ApiFailureSnapshot, CoverageSummary, UnresolvedExposureItem};
use crate::text::{copy_string, has_text, push_str, string_of};
use crate::time::representable_time;
use crate::titles::{normalize_title, normalized_title};
use crate::warnings::{recorded_failure, resume_after_record, stops_after_record, WarningAggregates};

verus! {

/// One revision a catch-up run looks at.
#[derive(Clone, Debug)]
pub struct CatchupRevisionCandidate {
    pub title: String,
    pub revid: u64,
    pub timestamp: i64,
    pub user_hidden: bool,
    pub comment_hidden: bool,
    pub hidden_state_verified: bool,
}

/// What the run does next with a candidate.
#[derive(Clone, Copy, Debug, PartialEq, Eq)]
pub enum CandidateStep {
    /// The run stops here.
    Stop,
    /// The candidate's hidden state must be read first.
    Verify,
    /// The candidate can be settled now.
    Settle,
}

/// An unresolved revision reported for `candidate`: its title, revision,
/// link, age at `now`, and what to do.
pub open spec fn item_for(
    i: UnresolvedExposureItem,
    c: CatchupRevisionCandidate,
    server_name: Seq<char>,
    now: i64,
    reason: Seq<char>,
    next_action: Seq<char>,
) -> bool {
    &&& i.title == c.title
    &&& i.revid == c.revid
    &&& (i.revision_url matches Some(u) && u@ == revision_url_text(server_name, c.revid))
    &&& i.age_seconds == Some((now - c.timestamp) as i64)
    &&& i.reason@ == reason
    &&& i.next_action@ == next_action
}

/// `new` is `old` with one more unresolved revision, sampled while fewer
/// than `limit` are kept; the sampled one satisfies `shown`.
pub open spec fn one_more_unresolved(old: CoverageSummary, new: CoverageSummary, limit: usize) -> bool {
    &&& new.unresolved_count == old.unresolved_count + 1
    &&& if old.unresolved_items@.len() < limit {
        &&& new.unresolved_items@.len() == old.unresolved_items@.len() + 1
        &&& new.unresolved_items@.take(old.unresolved_items@.len() as int) == old.unresolved_items@
    } else {
        new.unresolved_items@ == old.unresolved_items@
    }
}

/// The last sampled unresolved revision, when one was sampled.
pub open spec fn last_sampled(old: CoverageSummary, new: CoverageSummary, limit: usize) -> Option<UnresolvedExposureItem> {
    if old.unresolved_items@.len() < limit {
        Some(new.unresolved_items@.last())
    } else {
        None
    }
}

/// A candidate's instants can be subtracted.
pub open spec fn candidate_time_ok(c: CatchupRevisionCandidate, now: i64) -> bool {
    representable_time(c.timestamp) && representable_time(now)
}

fn report_candidate(
    summary: &mut CoverageSummary,
    candidate: &CatchupRevisionCandidate,
    sample_limit: usize,
    server_name: &str,
    now: i64,
    reason: String,
    next_action: &str,
)
    requires
        candidate_time_ok(*candidate, now),
        old(summary).unresolved_count < usize::MAX,
    ensures
        one_more_unresolved(*old(summary), *final(summary), sample_limit),
        last_sampled(*old(summary), *final(summary), sample_limit) matches Some(i) ==> item_for(i,
            *candidate, server_name@, now, reason@, next_action@),
        *final(summary) == (CoverageSummary {
            unresolved_count: final(summary).unresolved_count,
            unresolved_items: final(summary).unresolved_items,
            ..*old(summary)
        }),
{
    let item = UnresolvedExposureItem {
        title: candidate.title.clone(),
        revid: candidate.revid,
        revision_url: Some(revision_url(server_name, candidate.revid)),
        age_seconds: Some(now - candidate.timestamp),
        reason,
        next_action: String::from_str(next_action),
    };
    let ghost before = summary.unresolved_items@;
    push_unresolved_item(summary, sample_limit, item);
    assert(summary.unresolved_items@.len() > before.len() ==> summary.unresolved_items@.take(
        before.len() as int,
    ) =~= before);
}

/// Starts on a candidate: the run stops once it checked
/// `max_revisions_per_run` revisions (reporting this one); otherwise the
/// revision is counted, and in a report-only run a revision whose hidden
/// state was not read and may be visible is read first.
pub fn begin_candidate(
    summary: &mut CoverageSummary,
    candidate: &CatchupRevisionCandidate,
    report_only: bool,
    max_revisions_per_run: usize,
    sample_limit: usize,
    server_name: &str,
    now: i64,
) -> (r: CandidateStep)
    requires
        candidate_time_ok(*candidate, now),
        old(summary).unresolved_count < usize::MAX,
        old(summary).edits_checked < usize::MAX,
    ensures
        old(summary).edits_checked >= max_revisions_per_run ==> {
            &&& r == CandidateStep::Stop
            &&& (final(summary).stopped_early_reason matches Some(s) && s@ == "max-revisions-reached"@)
            &&& one_more_unresolved(*old(summary), *final(summary), sample_limit)
            &&& last_sampled(*old(summary), *final(summary), sample_limit) matches Some(i) ==> item_for(i,
                *candidate, server_name@, now, "max-revisions-reached"@,
                "rerun catch-up with a narrower window"@)
            &&& *final(summary) == (CoverageSummary {
                stopped_early_reason: final(summary).stopped_early_reason,
                unresolved_count: final(summary).unresolved_count,
                unresolved_items: final(summary).unresolved_items,
                ..*old(summary)
            })
        },
        old(summary).edits_checked < max_revisions_per_run ==> {
            &&& r == if report_only && !candidate.hidden_state_verified && (!candidate.user_hidden
                || !candidate.comment_hidden) {
                CandidateStep::Verify
            } else {
                CandidateStep::Settle
            }
            &&& *final(summary) == (CoverageSummary {
                edits_checked: (old(summary).edits_checked + 1) as usize,
                ..*old(summary)
            })
        },
{
    if summary.edits_checked >= max_revisions_per_run {
        summary.stopped_early_reason = Some(String::from_str("max-revisions-reached"));
        report_candidate(summary, candidate, sample_limit, server_name, now,
            String::from_str("max-revisions-reached"), "rerun catch-up with a narrower window");
        return CandidateStep::Stop;
    }
    summary.edits_checked = summary.edits_checked + 1;
    if report_only && !candidate.hidden_state_verified && (!candidate.user_hidden || !candidate.comment_hidden) {
        CandidateStep::Verify
    } else {
        CandidateStep::Settle
    }
}

/// Settles a candidate: a revision with user and comment hidden counts as
/// already hidden; in a report-only run any other is reported; otherwise
/// it must be hidden (the result is `true`).
pub fn settle_candidate(
    summary: &mut CoverageSummary,
    candidate: &CatchupRevisionCandidate,
    report_only: bool,
    sample_limit: usize,
    server_name: &str,
    now: i64,
) -> (dispatch: bool)
    requires
        candidate_time_ok(*candidate, now),
        old(summary).unresolved_count < usize::MAX,
        old(summary).already_hidden_count < usize::MAX,
    ensures
        dispatch == (!(candidate.user_hidden && candidate.comment_hidden) && !report_only),
        (candidate.user_hidden && candidate.comment_hidden) ==> *final(summary) == (CoverageSummary {
            already_hidden_count: (old(summary).already_hidden_count + 1) as usize,
            ..*old(summary)
        }),
        (!(candidate.user_hidden && candidate.comment_hidden) && report_only) ==> {
            &&& one_more_unresolved(*old(summary), *final(summary), sample_limit)
            &&& last_sampled(*old(summary), *final(summary), sample_limit) matches Some(i) ==> item_for(i,
                *candidate, server_name@, now, "report-only-not-hidden"@,
                "run emergency catch-up without report-only"@)
            &&& *final(summary) == (CoverageSummary {
                unresolved_count: final(summary).unresolved_count,
                unresolved_items: final(summary).unresolved_items,
                ..*old(summary)
            })
        },
        dispatch ==> *final(summary) == *old(summary),
{
    if candidate.user_hidden && candidate.comment_hidden {
        summary.already_hidden_count = summary.already_hidden_count + 1;
        return false;
    }
    if report_only {
        report_candidate(summary, candidate, sample_limit, server_name, now,
            String::from_str("report-only-not-hidden"), "run emergency catch-up without report-only");
        return false;
    }
    true
}

/// How a dispatched hide came back.
#[derive(Clone, Debug)]
pub enum DispatchResult {
    Hidden,
    AlreadyHandled,
    Failed(String),
    TimedOut,
}

/// Counts a dispatched hide: hidden, already handled, failed (reported with
/// its reason) or timed out (reported).
pub fn record_dispatch_result(
    summary: &mut CoverageSummary,
    candidate: &CatchupRevisionCandidate,
    result: DispatchResult,
    sample_limit: usize,
    server_name: &str,
    now: i64,
)
    requires
        candidate_time_ok(*candidate, now),
        old(summary).unresolved_count < usize::MAX,
        old(summary).hidden_count < usize::MAX,
        old(summary).already_hidden_count < usize::MAX,
        old(summary).failed_count < usize::MAX,
    ensures
        match result {
            DispatchResult::Hidden => *final(summary) == (CoverageSummary {
                hidden_count: (old(summary).hidden_count + 1) as usize,
                ..*old(summary)
            }),
            DispatchResult::AlreadyHandled => *final(summary) == (CoverageSummary {
                already_hidden_count: (old(summary).already_hidden_count + 1) as usize,
                ..*old(summary)
            }),
            DispatchResult::Failed(reason) => {
                &&& final(summary).failed_count == old(summary).failed_count + 1
                &&& one_more_unresolved(*old(summary), *final(summary), sample_limit)
                &&& last_sampled(*old(summary), *final(summary), sample_limit) matches Some(i) ==> item_for(i,
                    *candidate, server_name@, now, reason@, "review auth/API state and rerun catch-up"@)
                &&& *final(summary) == (CoverageSummary {
                    failed_count: final(summary).failed_count,
                    unresolved_count: final(summary).unresolved_count,
                    unresolved_items: final(summary).unresolved_items,
                    ..*old(summary)
                })
            },
            DispatchResult::TimedOut => {
                &&& one_more_unresolved(*old(summary), *final(summary), sample_limit)
                &&& last_sampled(*old(summary), *final(summary), sample_limit) matches Some(i) ==> item_for(i,
                    *candidate, server_name@, now, "worker-completion-timeout"@,
                    "check worker status and rerun catch-up"@)
                &&& *final(summary) == (CoverageSummary {
                    unresolved_count: final(summary).unresolved_count,
                    unresolved_items: final(summary).unresolved_items,
                    ..*old(summary)
                })
            },
        },
{
    match result {
        DispatchResult::Hidden => {
            summary.hidden_count = summary.hidden_count + 1;
        },
        DispatchResult::AlreadyHandled => {
            summary.already_hidden_count = summary.already_hidden_count + 1;
        },
        DispatchResult::Failed(reason) => {
            summary.failed_count = summary.failed_count + 1;
            report_candidate(summary, candidate, sample_limit, server_name, now, reason,
                "review auth/API state and rerun catch-up");
        },
        DispatchResult::TimedOut => {
            report_candidate(summary, candidate, sample_limit, server_name, now,
                String::from_str("worker-completion-timeout"), "check worker status and rerun catch-up");
        },
    }
}

/// What reading a revision's hidden state gave.
#[derive(Clone, Debug)]
pub enum RevisionLookup {
    Found { timestamp: i64, user_hidden: bool, comment_hidden: bool },
    Missing,
    Failed(ApiFailureSnapshot),
}

/// The reason a failed revision query is reported under.
pub open spec fn query_failure_reason(failure: ApiFailureSnapshot) -> Seq<char> {
    "revision-query-failed:"@ + failure_reason(failure)
}

fn query_failure_text(failure: &ApiFailureSnapshot) -> (r: String)
    ensures
        r@ == query_failure_reason(*failure),
{
    let reason = warning_reason(failure);
    let mut out: Vec<char> = Vec::new();
    push_str(&mut out, "revision-query-failed:");
    push_str(&mut out, reason.as_str());
    string_of(&out)
}

/// Records what reading a candidate's hidden state gave: a found revision
/// updates the candidate (the result is `true`: settle it); a missing one
/// is reported as failed; a failed query is recorded among the warnings,
/// reported, and stops the run once its root cause is rate-limited often
/// enough.
pub fn record_verification(
    summary: &mut CoverageSummary,
    warnings: &mut WarningAggregates,
    candidate: &mut CatchupRevisionCandidate,
    lookup: RevisionLookup,
    stop_after_failures: usize,
    default_backoff_seconds: u64,
    sample_limit: usize,
    server_name: &str,
    now: i64,
) -> (proceed: bool)
    requires
        candidate_time_ok(*old(candidate), now),
        old(summary).unresolved_count < usize::MAX,
        old(summary).failed_count < usize::MAX,
        old(warnings).wf(),
        lookup matches RevisionLookup::Failed(f) ==> old(warnings).can_record(f, stop_after_failures,
            default_backoff_seconds, now),
    ensures
        final(warnings).wf(),
        final(warnings).sample_limit == old(warnings).sample_limit,
        match lookup {
            RevisionLookup::Found { timestamp, user_hidden, comment_hidden } => {
                &&& proceed
                &&& *final(candidate) == (CatchupRevisionCandidate {
                    timestamp,
                    user_hidden,
                    comment_hidden,
                    hidden_state_verified: true,
                    ..*old(candidate)
                })
                &&& *final(summary) == *old(summary)
                &&& *final(warnings) == *old(warnings)
            },
            RevisionLookup::Missing => {
                &&& !proceed
                &&& *final(candidate) == *old(candidate)
                &&& final(summary).failed_count == old(summary).failed_count + 1
                &&& one_more_unresolved(*old(summary), *final(summary), sample_limit)
                &&& last_sampled(*old(summary), *final(summary), sample_limit) matches Some(i) ==> item_for(i,
                    *old(candidate), server_name@, now, "revision-query-missing"@,
                    "rerun coverage; if the revision was deleted, verify manually"@)
                &&& *final(summary) == (CoverageSummary {
                    failed_count: final(summary).failed_count,
                    unresolved_count: final(summary).unresolved_count,
                    unresolved_items: final(summary).unresolved_items,
                    ..*old(summary)
                })
                &&& *final(warnings) == *old(warnings)
            },
            RevisionLookup::Failed(f) => {
                &&& !proceed
                &&& *final(candidate) == *old(candidate)
                &&& final(summary).failed_count == old(summary).failed_count + 1
                &&& one_more_unresolved(*old(summary), *final(summary), sample_limit)
                &&& last_sampled(*old(summary), *final(summary), sample_limit) matches Some(i) ==> item_for(i,
                    *old(candidate), server_name@, now, query_failure_reason(f),
                    "check API/network and rerun coverage"@)
                &&& recorded_failure(*old(warnings), *final(warnings), f, stop_after_failures,
                    default_backoff_seconds)
                &&& if stops_after_record(*old(warnings), *final(warnings), f, stop_after_failures) {
                    &&& (final(summary).stopped_early_reason matches Some(s) && s@ == "rate-limited"@)
                    &&& final(summary).backoff_until == Some(resume_after_record(*old(warnings),
                        *final(warnings), f, now))
                } else {
                    &&& final(summary).stopped_early_reason == old(summary).stopped_early_reason
                    &&& final(summary).backoff_until == old(summary).backoff_until
                }
                &&& *final(summary) == (CoverageSummary {
                    failed_count: final(summary).failed_count,
                    unresolved_count: final(summary).unresolved_count,
                    unresolved_items: final(summary).unresolved_items,
                    stopped_early_reason: final(summary).stopped_early_reason,
                    backoff_until: final(summary).backoff_until,
                    ..*old(summary)
                })
            },
        },
{
    match lookup {
        RevisionLookup::Found { timestamp, user_hidden, comment_hidden } => {
            candidate.timestamp = timestamp;
            candidate.user_hidden = user_hidden;
            candidate.comment_hidden = comment_hidden;
            candidate.hidden_state_verified = true;
            true
        },
        RevisionLookup::Missing => {
            summary.failed_count = summary.failed_count + 1;
            report_candidate(summary, candidate, sample_limit, server_name, now,
                String::from_str("revision-query-missing"),
                "rerun coverage; if the revision was deleted, verify manually");
            false
        },
        RevisionLookup::Failed(failure) => {
            let reason = query_failure_text(&failure);
            let observation = warnings.record(failure, stop_after_failures, default_backoff_seconds, now);
            summary.failed_count = summary.failed_count + 1;
            report_candidate(summary, candidate, sample_limit, server_name, now, reason,
                "check API/network and rerun coverage");
            if observation.stop_after {
                summary.stopped_early_reason = Some(String::from_str("rate-limited"));
                summary.backoff_until = observation.backoff_until;
            }
            false
        },
    }
}

/// Whether some change of `s` has revision `revid`.
pub open spec fn has_revid(s: Seq<RecentChangeRecord>, revid: u64) -> bool {
    exists|j: int| 0 <= j < s.len() && s[j].revid == revid
}

/// The changes of `changes` a run checks: those of watched pages (by
/// normalized title), each revision once, first seen first.
pub open spec fn watched_changes(changes: Seq<RecentChangeRecord>, watched: Seq<String>) -> Seq<RecentChangeRecord>
    decreases changes.len(),
{
    if changes.len() == 0 {
        Seq::empty()
    } else {
        let prev = watched_changes(changes.drop_last(), watched);
        let c = changes.last();
        if has_text(watched, normalized_title(c.title@)) && !has_revid(prev, c.revid) {
            prev.push(c)
        } else {
            prev
        }
    }
}

/// The candidate a watched change gives: its hidden state not yet read.
pub open spec fn candidate_of(c: RecentChangeRecord, k: CatchupRevisionCandidate) -> bool {
    &&& k.title == c.title
    &&& k.revid == c.revid
    &&& k.timestamp == c.timestamp
    &&& !k.user_hidden && !k.comment_hidden && !k.hidden_state_verified
}

/// The number of distinct titles among `s`.
pub open spec fn distinct_titles(s: Seq<CatchupRevisionCandidate>) -> nat
    decreases s.len(),
{
    if s.len() == 0 {
        0
    } else {
        let prev = s.drop_last();
        distinct_titles(prev) + if exists|j: int| 0 <= j < prev.len() && prev[j].title@ == s.last().title@ {
            0nat
        } else {
            1nat
        }
    }
}

/// The candidates a run checks among `changes`: changes of watched pages,
/// each revision once.
pub fn select_watched_candidates(changes: &Vec<RecentChangeRecord>, watched: &Vec<String>) -> (r: Vec<
    CatchupRevisionCandidate,
>)
    ensures
        r@.len() == watched_changes(changes@, watched@).len(),
        forall|i: int| 0 <= i < r@.len() ==> candidate_of(watched_changes(changes@, watched@)[i], #[trigger] r@[i]),
{
    let mut out: Vec<CatchupRevisionCandidate> = Vec::new();
    let ghost mut picked: Seq<RecentChangeRecord> = Seq::empty();
    let mut i: usize = 0;
    while i < changes.len()
        invariant
            i <= changes@.len(),
            picked == watched_changes(changes@.take(i as int), watched@),
            out@.len() == picked.len(),
            forall|k: int| 0 <= k < out@.len() ==> candidate_of(picked[k], #[trigger] out@[k]),
        decreases changes@.len() - i,
    {
        let c = &changes[i];
        proof {
            assert(changes@.take(i as int + 1).drop_last() =~= changes@.take(i as int));
            assert(changes@.take(i as int + 1).last() == changes@[i as int]);
        }
        let normalized = normalize_title(c.title.as_str());
        let is_watched = crate::text::vec_has_str(watched, normalized.as_str());
        let mut seen = false;
        let mut k: usize = 0;
        while k < out.len()
            invariant
                k <= out@.len(),
                out@.len() == picked.len(),
                forall|q: int| 0 <= q < out@.len() ==> candidate_of(picked[q], #[trigger] out@[q]),
                seen <==> exists|j: int| 0 <= j < k && picked[j].revid == c.revid,
            decreases out@.len() - k,
        {
            if out[k].revid == c.revid {
                seen = true;
            }
            k = k + 1;
        }
        if is_watched && !seen {
            out.push(CatchupRevisionCandidate {
                title: c.title.clone(),
                revid: c.revid,
                timestamp: c.timestamp,
                user_hidden: false,
                comment_hidden: false,
                hidden_state_verified: false,
            });
            proof {
                picked = picked.push(*c);
            }
        }
        i = i + 1;
    }
    assert(changes@.take(changes@.len() as int) =~= changes@);
    out
}

/// The number of distinct titles among the candidates.
pub fn distinct_candidate_titles(candidates: &Vec<CatchupRevisionCandidate>) -> (r: usize)
    ensures
        r == distinct_titles(candidates@),
{
    let mut count: usize = 0;
    let mut i: usize = 0;
    while i < candidates.len()
        invariant
            i <= candidates@.len(),
            count == distinct_titles(candidates@.take(i as int)),
            count <= i,
        decreases candidates@.len() - i,
    {
        let mut repeat = false;
        let mut k: usize = 0;
        while k < i
            invariant
                k <= i < candidates@.len(),
                repeat <==> exists|j: int| 0 <= j < k && candidates@[j].title@ == candidates@[i as int].title@,
            decreases i - k,
        {
            if crate::text::str_eq(candidates[k].title.as_str(), candidates[i].title.as_str()) {
                repeat = true;
            }
            k = k + 1;
        }
        proof {
            let t = candidates@.take(i as int + 1);
            assert(t.drop_last() =~= candidates@.take(i as int));
            assert(t.last() == candidates@[i as int]);
            if repeat {
                let j = choose|j: int| 0 <= j < i && candidates@[j].title@ == candidates@[i as int].title@;
                assert(t.drop_last()[j] == candidates@[j]);
            }
            assert(repeat <==> exists|j: int| 0 <= j < t.drop_last().len() && t.drop_last()[j].title@ == t.last().title@);
        }
        if !repeat {
            count = count + 1;
        }
        i = i + 1;
    }
    assert(candidates@.take(candidates@.len() as int) =~= candidates@);
    count
}

/// Records a failed query of a title's revisions: the title is reported
/// (no revision yet), the failure counted among the warnings, and the run
/// stops (the result is `true`) once its root cause is rate-limited often
/// enough.
pub fn record_title_query_failure(
    summary: &mut CoverageSummary,
    warnings: &mut WarningAggregates,
    title: &String,
    failure: ApiFailureSnapshot,
    stop_after_failures: usize,
    default_backoff_seconds: u64,
    sample_limit: usize,
    now: i64,
) -> (stop: bool)
    requires
        old(summary).unresolved_count < usize::MAX,
        old(summary).failed_count < usize::MAX,
        old(warnings).wf(),
        old(warnings).can_record(failure, stop_after_failures, default_backoff_seconds, now),
    ensures
        final(warnings).wf(),
        recorded_failure(*old(warnings), *final(warnings), failure, stop_after_failures, default_backoff_seconds),
        stop == stops_after_record(*old(warnings), *final(warnings), failure, stop_after_failures),
        final(summary).failed_count == old(summary).failed_count + 1,
        one_more_unresolved(*old(summary), *final(summary), sample_limit),
        last_sampled(*old(summary), *final(summary), sample_limit) matches Some(i) ==> {
            &&& i.title == *title && i.revid == 0 && i.revision_url is None && i.age_seconds is None
            &&& i.reason@ == query_failure_reason(failure)
            &&& i.next_action@ == "check API/network and rerun catch-up"@
        },
        if stop {
            &&& (final(summary).stopped_early_reason matches Some(s) && s@ == "rate-limited"@)
            &&& final(summary).backoff_until == Some(resume_after_record(*old(warnings), *final(warnings),
                failure, now))
        } else {
            &&& final(summary).stopped_early_reason == old(summary).stopped_early_reason
            &&& final(summary).backoff_until == old(summary).backoff_until
        },
        *final(summary) == (CoverageSummary {
            failed_count: final(summary).failed_count,
            unresolved_count: final(summary).unresolved_count,
            unresolved_items: final(summary).unresolved_items,
            stopped_early_reason: final(summary).stopped_early_reason,
            backoff_until: final(summary).backoff_until,
            ..*old(summary)
        }),
{
    let reason = query_failure_text(&failure);
    let observation = warnings.record(failure, stop_after_failures, default_backoff_seconds, now);
    summary.failed_count = summary.failed_count + 1;
    let item = UnresolvedExposureItem {
        title: title.clone(),
        revid: 0,
        revision_url: None,
        age_seconds: None,
        reason,
        next_action: String::from_str("check API/network and rerun catch-up"),
    };
    let ghost before = summary.unresolved_items@;
    push_unresolved_item(summary, sample_limit, item);
    assert(summary.unresolved_items@.len() > before.len() ==> summary.unresolved_items@.take(
        before.len() as int,
    ) =~= before);
    if observation.stop_after {
        summary.stopped_early_reason = Some(String::from_str("rate-limited"));
        summary.backoff_until = observation.backoff_until;
    }
    observation.stop_after
}

/// The summary a catch-up run over `[start, end]` starts from.
pub fn start_catchup_summary(scope_label: &String, start: i64, end: i64, trigger: &String) -> (r: CoverageSummary)
    ensures
        r == (CoverageSummary {
            scope_label: Some(*scope_label),
            started_at: Some(start),
            ended_at: Some(end),
            requested_by: *trigger,
            ..r
        }),
        r.pages_checked == 0 && r.edits_checked == 0 && r.hidden_count == 0,
        r.already_hidden_count == 0 && r.skipped_count == 0 && r.failed_count == 0,
        r.unresolved_count == 0 && r.unresolved_items@.len() == 0 && r.warning_summaries@.len() == 0,
        r.candidate_source is None && r.candidate_count == 0 && r.watched_candidate_count == 0,
        r.candidate_chunk_count == 0 && r.candidate_discovery_elapsed_ms is None,
        r.fallback_reason is None && r.stopped_early_reason is None && r.backoff_until is None,
{
    CoverageSummary {
        scope_label: Some(scope_label.clone()),
        started_at: Some(start),
        ended_at: Some(end),
        requested_by: trigger.clone(),
        pages_checked: 0,
        edits_checked: 0,
        hidden_count: 0,
        already_hidden_count: 0,
        skipped_count: 0,
        failed_count: 0,
        unresolved_count: 0,
        unresolved_items: Vec::new(),
        warning_summaries: Vec::new(),
        candidate_source: None,
        candidate_count: 0,
        watched_candidate_count: 0,
        candidate_chunk_count: 0,
        candidate_discovery_elapsed_ms: None,
        fallback_reason: None,
        stopped_early_reason: None,
        backoff_until: None,
    }
}

/// A run that starts while a back-off is in force stops at once, waiting
/// for it (the result is `true`).
pub fn stop_for_active_backoff(summary: &mut CoverageSummary, backoff: Option<i64>) -> (stopped: bool)
    ensures
        stopped == backoff is Some,
        match backoff {
            Some(u) => {
                &&& (final(summary).stopped_early_reason matches Some(s) && s@ == "rate-limit-backoff-active"@)
                &&& *final(summary) == (CoverageSummary {
                    stopped_early_reason: final(summary).stopped_early_reason,
                    backoff_until: Some(u),
                    ..*old(summary)
                })
            },
            None => *final(summary) == *old(summary),
        },
{
    match backoff {
        Some(u) => {
            summary.stopped_early_reason = Some(String::from_str("rate-limit-backoff-active"));
            summary.backoff_until = Some(u);
            true
        },
        None => false,
    }
}

/// Records what candidate discovery over the recent-changes list found: a
/// complete list makes the run check its watched candidates (the result is
/// `true`); a truncated one falls back to a full scan.
pub fn record_candidate_discovery(
    summary: &mut CoverageSummary,
    window: &RecentChangeWindow,
    candidates: &Vec<CatchupRevisionCandidate>,
    elapsed_ms: u64,
) -> (candidate_first: bool)
    ensures
        candidate_first == !window.truncated,
        final(summary).candidate_count == window.changes@.len(),
        final(summary).watched_candidate_count == candidates@.len(),
        final(summary).candidate_chunk_count == window.chunk_count,
        final(summary).candidate_discovery_elapsed_ms == Some(elapsed_ms),
        !window.truncated ==> {
            &&& (final(summary).candidate_source matches Some(s) && s@ == "recentchanges"@)
            &&& final(summary).pages_checked == distinct_titles(candidates@)
            &&& final(summary).fallback_reason == old(summary).fallback_reason
        },
        window.truncated ==> {
            &&& (final(summary).candidate_source matches Some(s) && s@ == "full-scan-fallback"@)
            &&& (final(summary).fallback_reason matches Some(s) && s@ == "candidate-limit-reached"@)
            &&& final(summary).pages_checked == old(summary).pages_checked
        },
        *final(summary) == (CoverageSummary {
            candidate_source: final(summary).candidate_source,
            candidate_count: final(summary).candidate_count,
            watched_candidate_count: final(summary).watched_candidate_count,
            candidate_chunk_count: final(summary).candidate_chunk_count,
            candidate_discovery_elapsed_ms: final(summary).candidate_discovery_elapsed_ms,
            pages_checked: final(summary).pages_checked,
            fallback_reason: final(summary).fallback_reason,
            ..*old(summary)
        }),
{
    summary.candidate_count = window.changes.len();
    summary.watched_candidate_count = candidates.len();
    summary.candidate_chunk_count = window.chunk_count;
    summary.candidate_discovery_elapsed_ms = Some(elapsed_ms);
    if !window.truncated {
        summary.candidate_source = Some(String::from_str("recentchanges"));
        summary.pages_checked = distinct_candidate_titles(candidates);
        true
    } else {
        summary.candidate_source = Some(String::from_str("full-scan-fallback"));
        summary.fallback_reason = Some(String::from_str("candidate-limit-reached"));
        false
    }
}

/// Records that candidate discovery failed: the failure is counted among
/// the warnings and the run falls back to a full scan.
pub fn record_discovery_failure(
    summary: &mut CoverageSummary,
    warnings: &mut WarningAggregates,
    failure: ApiFailureSnapshot,
    stop_after_failures: usize,
    default_backoff_seconds: u64,
    now: i64,
)
    requires
        old(warnings).wf(),
        old(warnings).can_record(failure, stop_after_failures, default_backoff_seconds, now),
    ensures
        final(warnings).wf(),
        recorded_failure(*old(warnings), *final(warnings), failure, stop_after_failures, default_backoff_seconds),
        final(summary).candidate_source matches Some(s) && s@ == "full-scan-fallback"@,
        final(summary).fallback_reason matches Some(s) && s@ == "candidate-source-unavailable"@,
        *final(summary) == (CoverageSummary {
            candidate_source: final(summary).candidate_source,
            fallback_reason: final(summary).fallback_reason,
            ..*old(summary)
        }),
{
    let _ = warnings.record(failure, stop_after_failures, default_backoff_seconds, now);
    summary.candidate_source = Some(String::from_str("full-scan-fallback"));
    summary.fallback_reason = Some(String::from_str("candidate-source-unavailable"));
}


/// Where a catch-up run stands: about to begin, reading the window's
/// changes, working through the changed watched revisions, scanning the
/// watched titles one by one, or finished.
#[derive(Clone, Copy, Debug, PartialEq, Eq, Structural)]
pub enum CatchupPhase {
    Starting,
    Discovering,
    Candidates,
    Titles,
    Done,
}

/// The course of a catch-up run over the window `start..=end`: the titles a
/// scan goes through, how far it got, and the revisions waiting to be
/// looked at.
#[derive(Debug)]
pub struct CatchupRun {
    pub phase: CatchupPhase,
    pub start: i64,
    pub end: i64,
    pub title_scoped: bool,
    pub titles: Vec<String>,
    pub next_title: usize,
    pub queue: Vec<CatchupRevisionCandidate>,
    pub next_candidate: usize,
}

/// What the run was told since its last step.
#[derive(Debug)]
pub enum CatchupEvent {
    /// No back-off holds the run back.
    Begin,
    /// The window's changes were read whole; these are the watched ones.
    CandidatesFound(Vec<CatchupRevisionCandidate>),
    /// The window's changes could not be read, or not whole.
    CandidatesUnusable,
    /// The revisions of the title being scanned.
    TitleRevisions(Vec<RevisionRecord>),
    /// The revisions of the title being scanned could not be read;
    /// `stop` when that failure ends the run.
    TitleFailed { stop: bool },
    /// The last candidate was handled; `go_on` unless that ended the run.
    CandidateProcessed { go_on: bool },
}

/// What the run asks for next.
#[derive(Clone, Copy, Debug, PartialEq, Eq)]
pub enum CatchupAction {
    /// Read the window's changes.
    DiscoverCandidates,
    /// Read the revisions of `titles[i]`.
    FetchTitle(usize),
    /// Handle `queue[i]`.
    Process(usize),
    /// The run is over.
    Finish,
}

impl CatchupRun {
    /// The positions stay within the titles and the queue.
    pub open spec fn wf(&self) -> bool {
        &&& self.next_title <= self.titles.len()
        &&& self.next_candidate <= self.queue.len()
    }

    /// A run over `start..=end`; `title_scoped` runs scan `titles` without
    /// reading the window's changes first.
    pub fn new(titles: Vec<String>, start: i64, end: i64, title_scoped: bool) -> (r: Self)
        ensures
            r.wf(),
            r.phase == CatchupPhase::Starting,
            r.start == start && r.end == end && r.title_scoped == title_scoped,
            r.titles@ == titles@,
            r.next_title == 0,
            r.queue@.len() == 0,
            r.next_candidate == 0,
    {
        CatchupRun {
            phase: CatchupPhase::Starting,
            start,
            end,
            title_scoped,
            titles,
            next_title: 0,
            queue: Vec::new(),
            next_candidate: 0,
        }
    }
}

/// The candidates a scan of `title` looks at: its revisions inside the
/// window, newest first, each with its hidden state as read.
pub open spec fn title_queue(
    title: Seq<char>,
    revisions: Seq<RevisionRecord>,
    start: i64,
    end: i64,
    queue: Seq<CatchupRevisionCandidate>,
) -> bool {
    let w = in_window(revisions, start, end);
    &&& queue.len() == w.len()
    &&& forall|i: int|
        #![trigger queue[i]]
        0 <= i < queue.len() ==> {
            let r = w[w.len() - 1 - i];
            &&& queue[i].title@ == title
            &&& queue[i].revid == r.revid
            &&& queue[i].timestamp == r.timestamp
            &&& queue[i].user_hidden == r.user_hidden
            &&& queue[i].comment_hidden == r.comment_hidden
            &&& queue[i].hidden_state_verified
        }
}

/// The run `new` is `old` finished (with nothing left to look at).
pub open spec fn finished(old: CatchupRun, new: CatchupRun) -> bool {
    &&& new.phase == CatchupPhase::Done
    &&& new.titles@ == old.titles@ && new.next_title == old.next_title
}

/// The run moves on to the next title, or finishes when none is left.
pub open spec fn advance_title(old: CatchupRun, new: CatchupRun, action: CatchupAction, counted: bool) -> bool {
    if old.next_title < old.titles.len() {
        &&& counted
        &&& action == CatchupAction::FetchTitle(old.next_title)
        &&& new.phase == CatchupPhase::Titles
        &&& new.titles@ == old.titles@ && new.next_title == old.next_title + 1
        &&& new.queue@.len() == 0 && new.next_candidate == 0
    } else {
        &&& !counted
        &&& action == CatchupAction::Finish
        &&& finished(old, new)
    }
}

/// The run hands out its next queued candidate; once the queue is worked
/// through, a scan moves to the next title and any other run finishes.
pub open spec fn advance_queue(old: CatchupRun, new: CatchupRun, action: CatchupAction, counted: bool) -> bool {
    if old.next_candidate < old.queue.len() {
        &&& !counted
        &&& action == CatchupAction::Process(old.next_candidate)
        &&& new.phase == old.phase
        &&& new.titles@ == old.titles@ && new.next_title == old.next_title
        &&& new.queue@ == old.queue@ && new.next_candidate == old.next_candidate + 1
    } else if old.phase == CatchupPhase::Titles {
        advance_title(old, new, action, counted)
    } else {
        &&& !counted
        &&& action == CatchupAction::Finish
        &&& finished(old, new)
    }
}

/// One step of a catch-up run: from `old`, told `event`, to `new`, asking
/// for `action`; `counted` when the step starts on one more page.
pub open spec fn catchup_step(
    old: CatchupRun,
    event: CatchupEvent,
    new: CatchupRun,
    action: CatchupAction,
    counted: bool,
) -> bool {
    &&& new.start == old.start && new.end == old.end && new.title_scoped == old.title_scoped
    &&& match (old.phase, event) {
        (CatchupPhase::Starting, CatchupEvent::Begin) => if old.title_scoped {
            advance_title(old, new, action, counted)
        } else {
            &&& !counted
            &&& action == CatchupAction::DiscoverCandidates
            &&& new.phase == CatchupPhase::Discovering
            &&& new.titles@ == old.titles@ && new.next_title == old.next_title
            &&& new.queue@ == old.queue@ && new.next_candidate == old.next_candidate
        },
        (CatchupPhase::Discovering, CatchupEvent::CandidatesFound(found)) => {
            let mid = CatchupRun { phase: CatchupPhase::Candidates, queue: found, next_candidate: 0, ..old };
            advance_queue(mid, new, action, counted)
        },
        (CatchupPhase::Discovering, CatchupEvent::CandidatesUnusable) => advance_title(old, new, action, counted),
        (CatchupPhase::Titles, CatchupEvent::TitleRevisions(revisions)) => if old.next_title == 0 {
            !counted && action == CatchupAction::Finish && finished(old, new)
        } else {
            exists|queue: Seq<CatchupRevisionCandidate>|
                #![trigger title_queue(old.titles@[old.next_title - 1]@, revisions@, old.start, old.end, queue)]
                title_queue(old.titles@[old.next_title - 1]@, revisions@, old.start, old.end, queue) && (
                queue.len() == 0 ==> advance_title(old, new, action, counted)) && (queue.len() > 0 ==> {
                    &&& !counted
                    &&& action == CatchupAction::Process(0)
                    &&& new.phase == CatchupPhase::Titles
                    &&& new.titles@ == old.titles@ && new.next_title == old.next_title
                    &&& new.queue@ == queue && new.next_candidate == 1
                })
        },
        (CatchupPhase::Titles, CatchupEvent::TitleFailed { stop }) => if stop {
            !counted && action == CatchupAction::Finish && finished(old, new)
        } else {
            advance_title(old, new, action, counted)
        },
        (_, CatchupEvent::CandidateProcessed { go_on }) => if go_on && (old.phase == CatchupPhase::Candidates
            || old.phase == CatchupPhase::Titles) {
            advance_queue(old, new, action, counted)
        } else {
            !counted && action == CatchupAction::Finish && finished(old, new)
        },
        _ => !counted && action == CatchupAction::Finish && finished(old, new),
    }
}

/// The page count once one more page was started on (it stops at the
/// largest count it can hold).
pub open spec fn one_more_page(pages: usize) -> usize {
    if pages < usize::MAX {
        (pages + 1) as usize
    } else {
        pages
    }
}

/// The summary `new` is `old`, with one more page counted when `counted`.
pub open spec fn pages_counted(old: CoverageSummary, new: CoverageSummary, counted: bool) -> bool {
    new == (CoverageSummary {
        pages_checked: if counted {
            one_more_page(old.pages_checked)
        } else {
            old.pages_checked
        },
        ..old
    })
}

impl CatchupRun {
    fn finish(&mut self) -> (r: (CatchupAction, bool))
        ensures
            r == (CatchupAction::Finish, false),
            finished(*old(self), *final(self)),
            final(self).queue@ == old(self).queue@ && final(self).next_candidate == old(self).next_candidate,
            final(self).start == old(self).start && final(self).end == old(self).end,
            final(self).title_scoped == old(self).title_scoped,
    {
        self.phase = CatchupPhase::Done;
        (CatchupAction::Finish, false)
    }

    fn next_title(&mut self, summary: &mut CoverageSummary) -> (r: (CatchupAction, bool))
        requires
            old(self).wf(),
        ensures
            final(self).wf(),
            advance_title(*old(self), *final(self), r.0, r.1),
            pages_counted(*old(summary), *final(summary), r.1),
            final(self).start == old(self).start && final(self).end == old(self).end,
            final(self).title_scoped == old(self).title_scoped,
    {
        if self.next_title < self.titles.len() {
            let i = self.next_title;
            self.phase = CatchupPhase::Titles;
            self.next_title = i + 1;
            self.queue = Vec::new();
            self.next_candidate = 0;
            if summary.pages_checked < usize::MAX {
                summary.pages_checked = summary.pages_checked + 1;
            }
            (CatchupAction::FetchTitle(i), true)
        } else {
            self.finish()
        }
    }

    fn next_in_queue(&mut self, summary: &mut CoverageSummary) -> (r: (CatchupAction, bool))
        requires
            old(self).wf(),
        ensures
            final(self).wf(),
            advance_queue(*old(self), *final(self), r.0, r.1),
            pages_counted(*old(summary), *final(summary), r.1),
            final(self).start == old(self).start && final(self).end == old(self).end,
            final(self).title_scoped == old(self).title_scoped,
    {
        if self.next_candidate < self.queue.len() {
            let i = self.next_candidate;
            self.next_candidate = i + 1;
            (CatchupAction::Process(i), false)
        } else if self.phase == CatchupPhase::Titles {
            self.next_title(summary)
        } else {
            self.finish()
        }
    }
}

/// The candidates a scan of `title` looks at (see `title_queue`).
pub fn title_candidates(title: &String, revisions: &Vec<RevisionRecord>, start: i64, end: i64) -> (r: Vec<
    CatchupRevisionCandidate,
>)
    ensures
        title_queue(title@, revisions@, start, end, r@),
{
    let w = revisions_in_window(revisions, start, end);
    let mut out: Vec<CatchupRevisionCandidate> = Vec::new();
    let mut k: usize = w.len();
    while k > 0
        invariant
            k <= w.len(),
            w@ == in_window(revisions@, start, end),
            out@.len() == w.len() - k,
            forall|i: int|
                #![trigger out@[i]]
                0 <= i < out@.len() ==> {
                    let r = w@[w.len() - 1 - i];
                    &&& out@[i].title@ == title@
                    &&& out@[i].revid == r.revid
                    &&& out@[i].timestamp == r.timestamp
                    &&& out@[i].user_hidden == r.user_hidden
                    &&& out@[i].comment_hidden == r.comment_hidden
                    &&& out@[i].hidden_state_verified
                },
        decreases k,
    {
        k = k - 1;
        let r = w[k];
        out.push(CatchupRevisionCandidate {
            title: copy_string(title),
            revid: r.revid,
            timestamp: r.timestamp,
            user_hidden: r.user_hidden,
            comment_hidden: r.comment_hidden,
            hidden_state_verified: true,
        });
    }
    out
}

/// Takes one step of a catch-up run (see `catchup_step`): the run's course
/// moves on, the summary counts the page a scan starts on, and the action
/// says what the run needs next.
pub fn next_catchup_step(run: &mut CatchupRun, summary: &mut CoverageSummary, event: CatchupEvent) -> (r:
    CatchupAction)
    requires
        old(run).wf(),
    ensures
        final(run).wf(),
        exists|counted: bool|
            #![trigger pages_counted(*old(summary), *final(summary), counted)]
            catchup_step(*old(run), event, *final(run), r, counted) && pages_counted(
                *old(summary),
                *final(summary),
                counted,
            ),
{
    let ghost before = *run;
    let ghost told = event;
    let (action, counted) = match (run.phase, event) {
        (CatchupPhase::Starting, CatchupEvent::Begin) => if run.title_scoped {
            let r = run.next_title(summary);
            assert(catchup_step(before, told, *run, r.0, r.1));
            r
        } else {
            run.phase = CatchupPhase::Discovering;
            assert(catchup_step(before, told, *run, CatchupAction::DiscoverCandidates, false));
            (CatchupAction::DiscoverCandidates, false)
        },
        (CatchupPhase::Discovering, CatchupEvent::CandidatesFound(found)) => {
            run.phase = CatchupPhase::Candidates;
            run.queue = found;
            run.next_candidate = 0;
            let ghost mid = *run;
            let r = run.next_in_queue(summary);
            assert(mid == CatchupRun { phase: CatchupPhase::Candidates, queue: mid.queue, next_candidate: 0, ..before });
            assert(catchup_step(before, told, *run, r.0, r.1));
            r
        },
        (CatchupPhase::Discovering, CatchupEvent::CandidatesUnusable) => {
            let r = run.next_title(summary);
            assert(catchup_step(before, told, *run, r.0, r.1));
            r
        },
        (CatchupPhase::Titles, CatchupEvent::TitleRevisions(revisions)) => {
            if run.next_title == 0 {
                let r = run.finish();
                assert(catchup_step(before, told, *run, r.0, r.1));
                r
            } else {
                let queue = title_candidates(&run.titles[run.next_title - 1], &revisions, run.start, run.end);
                let ghost q = queue@;
                run.queue = queue;
                run.next_candidate = 0;
                let r = run.next_in_queue(summary);
                assert(title_queue(before.titles@[before.next_title - 1]@, revisions@, before.start, before.end, q));
                assert(catchup_step(before, told, *run, r.0, r.1));
                r
            }
        },
        (CatchupPhase::Titles, CatchupEvent::TitleFailed { stop }) => {
            let r = if stop {
                run.finish()
            } else {
                run.next_title(summary)
            };
            assert(catchup_step(before, told, *run, r.0, r.1));
            r
        },
        (phase, CatchupEvent::CandidateProcessed { go_on }) => {
            let r = if go_on && (phase == CatchupPhase::Candidates || phase == CatchupPhase::Titles) {
                run.next_in_queue(summary)
            } else {
                run.finish()
            };
            assert(catchup_step(before, told, *run, r.0, r.1));
            r
        },
        _ => {
            let r = run.finish();
            assert(catchup_step(before, told, *run, r.0, r.1));
            r
        },
    };
    assert(catchup_step(before, told, *run, action, counted));
    assert(pages_counted(*old(summary), *summary, counted));
    action
}

} // verus!
