//! The background worker's decisions: what its tasks are called, what a
//! source reload records, which revisions a history sweep or a
//! recent-changes window hides and in what order, and what a failed hide
//! comes to.

use vstd::prelude::*;

use crate::cache::{
    CacheRefreshMode, SourceRefreshCatchupPlan, SourceRefreshFollowup, SourceRefreshTriggerKind,
};
use crate::catchup_run::RevisionLookup;
use crate::daemon_backlog::{is_terminal_hide_failure, terminal_hide_failure, HideTarget};
use crate::cache::RuntimeCache;
use crate::mw_api::{RecentChangeRecord, RevisionRecord};
use crate::titles::{normalize_title, normalized_title, views};
use crate::state::{ApiFailureSnapshot, SourceListRefresh};
use crate::text::{push_str, string_of};

verus! {

/// Work the background worker runs, one task at a time.
#[derive(Clone, Debug)]
pub enum BackgroundTask {
    SourceRefresh {
        title: String,
        trigger_revid: Option<u64>,
        trigger_kind: SourceRefreshTriggerKind,
        refresh_mode: CacheRefreshMode,
    },
    HistorySweep { title: String, processed_revids: Vec<u64> },
    RecentWindow { start: i64, end: i64, source_label: String, processed_revids: Vec<u64> },
}

/// The label a task runs under.
pub open spec fn task_label_text(task: BackgroundTask) -> Seq<char> {
    match task {
        BackgroundTask::SourceRefresh { title, .. } => "source refresh: "@ + title@,
        BackgroundTask::HistorySweep { title, .. } => "history sweep: "@ + title@,
        BackgroundTask::RecentWindow { source_label, .. } => source_label@ + ": recentchanges window"@,
    }
}

/// The label a task runs under.
pub fn task_label(task: &BackgroundTask) -> (r: String)
    ensures
        r@ == task_label_text(*task),
{
    let mut out: Vec<char> = Vec::new();
    match task {
        BackgroundTask::SourceRefresh { title, .. } => {
            push_str(&mut out, "source refresh: ");
            push_str(&mut out, title.as_str());
        },
        BackgroundTask::HistorySweep { title, .. } => {
            push_str(&mut out, "history sweep: ");
            push_str(&mut out, title.as_str());
        },
        BackgroundTask::RecentWindow { source_label, .. } => {
            push_str(&mut out, source_label.as_str());
            push_str(&mut out, ": recentchanges window");
        },
    }
    string_of(&out)
}

/// What a finished source reload hands back to the daemon.
#[derive(Clone, Debug)]
pub struct SourceRefreshCompletion {
    pub refresh: SourceListRefresh,
    pub added_titles: Vec<String>,
    pub run_recent_window: bool,
}

/// The record of a source reload triggered by `title` that ran from
/// `started_at` to `completed_at`, moved the source revision from
/// `old_source_revid` to `new_source_revid`, and calls for `plan`.
pub open spec fn refresh_completion_is(
    c: SourceRefreshCompletion,
    title: String,
    trigger_revid: Option<u64>,
    old_source_revid: Option<u64>,
    new_source_revid: Option<u64>,
    plan: SourceRefreshCatchupPlan,
    refreshed: bool,
    started_at: i64,
    completed_at: i64,
) -> bool {
    let requested = !(plan.followup is NoFollowup);
    let r = c.refresh;
    &&& r.trigger_title == title
    &&& r.trigger_revid == trigger_revid
    &&& r.started_at == Some(started_at)
    &&& r.completed_at == Some(completed_at)
    &&& r.old_source_revid == old_source_revid
    &&& r.new_source_revid == new_source_revid
    &&& r.new_titles_count == plan.new_titles_count
    &&& r.removed_titles_count == plan.removed_titles_count
    &&& r.redirects_reused == plan.redirects_reused
    &&& r.catchup_triggered == requested
    &&& match plan.followup {
        SourceRefreshFollowup::NoFollowup => r.catchup_title_scope is None,
        SourceRefreshFollowup::TitleScoped { scope_label, .. } => (r.catchup_title_scope matches Some(s)
            && s@ == scope_label@),
        SourceRefreshFollowup::RecentWindow { scope_label } => (r.catchup_title_scope matches Some(s) && s@
            == scope_label@),
    }
    &&& r.outcome@ == if requested {
        "catchup-started"@
    } else if refreshed {
        "refreshed"@
    } else {
        "unchanged"@
    }
    &&& r.deferred_until is None
    &&& r.error is None
    &&& c.added_titles@ == match plan.followup {
        SourceRefreshFollowup::TitleScoped { titles, .. } => titles@,
        _ => Seq::empty(),
    }
    &&& c.run_recent_window == (plan.followup is RecentWindow)
}

/// What a successful source reload records and hands back: the titles a
/// title-scoped catch-up covers, or that a recent-changes window follows.
pub fn refresh_completion(
    title: String,
    trigger_revid: Option<u64>,
    old_source_revid: Option<u64>,
    new_source_revid: Option<u64>,
    plan: SourceRefreshCatchupPlan,
    refreshed: bool,
    started_at: i64,
    completed_at: i64,
) -> (r: SourceRefreshCompletion)
    ensures
        refresh_completion_is(r, title, trigger_revid, old_source_revid, new_source_revid, plan, refreshed,
            started_at, completed_at),
{
    let requested = plan.catchup_requested();
    let scope = match plan.catchup_scope_label() {
        Some(s) => Some(String::from_str(s)),
        None => None,
    };
    let outcome = if requested {
        String::from_str("catchup-started")
    } else if refreshed {
        String::from_str("refreshed")
    } else {
        String::from_str("unchanged")
    };
    let refresh = SourceListRefresh {
        trigger_title: title,
        trigger_revid,
        started_at: Some(started_at),
        completed_at: Some(completed_at),
        old_source_revid,
        new_source_revid,
        redirects_reused: plan.redirects_reused,
        catchup_title_scope: scope,
        outcome,
        new_titles_count: plan.new_titles_count,
        removed_titles_count: plan.removed_titles_count,
        catchup_triggered: requested,
        deferred_until: None,
        error: None,
    };
    let run_recent_window = match &plan.followup {
        SourceRefreshFollowup::RecentWindow { .. } => true,
        _ => false,
    };
    let added_titles = match plan.followup {
        SourceRefreshFollowup::TitleScoped { titles, .. } => titles,
        _ => Vec::new(),
    };
    SourceRefreshCompletion { refresh, added_titles, run_recent_window }
}

/// What a failed source reload records: the source revision unchanged and
/// the failure.
pub fn refresh_failure(
    title: String,
    trigger_revid: Option<u64>,
    source_revid: Option<u64>,
    failure: ApiFailureSnapshot,
    started_at: i64,
    completed_at: i64,
) -> (r: SourceRefreshCompletion)
    ensures
        r.refresh == (SourceListRefresh {
            trigger_title: title,
            trigger_revid,
            started_at: Some(started_at),
            completed_at: Some(completed_at),
            old_source_revid: source_revid,
            new_source_revid: source_revid,
            outcome: r.refresh.outcome,
            error: Some(failure),
            redirects_reused: false,
            catchup_title_scope: None,
            new_titles_count: 0,
            removed_titles_count: 0,
            catchup_triggered: false,
            deferred_until: None,
        }),
        r.refresh.outcome@ == "refresh-failed"@,
        r.added_titles@.len() == 0,
        !r.run_recent_window,
{
    SourceRefreshCompletion {
        refresh: SourceListRefresh {
            trigger_title: title,
            trigger_revid,
            started_at: Some(started_at),
            completed_at: Some(completed_at),
            old_source_revid: source_revid,
            new_source_revid: source_revid,
            outcome: String::from_str("refresh-failed"),
            error: Some(failure),
            redirects_reused: false,
            catchup_title_scope: None,
            new_titles_count: 0,
            removed_titles_count: 0,
            catchup_triggered: false,
            deferred_until: None,
        },
        added_titles: Vec::new(),
        run_recent_window: false,
    }
}


/// Whether `revid` is among `revids`.
pub fn has_revid(revids: &Vec<u64>, revid: u64) -> (r: bool)
    ensures
        r == revids@.contains(revid),
{
    let mut i: usize = 0;
    while i < revids.len()
        invariant
            i <= revids.len(),
            forall|k: int| 0 <= k < i ==> revids@[k] != revid,
        decreases revids.len() - i,
    {
        if revids[i] == revid {
            assert(revids@[i as int] == revid);
            return true;
        }
        i = i + 1;
    }
    false
}

/// The revisions of a history sweep, newest first, that are not yet
/// processed and whose `hidden` state (user and comment both hidden) is as
/// asked.
pub open spec fn swept(revisions: Seq<RevisionRecord>, processed: Seq<u64>, hidden: bool) -> Seq<RevisionRecord>
    decreases revisions.len(),
{
    if revisions.len() == 0 {
        Seq::empty()
    } else {
        let r = revisions.last();
        let head = if !processed.contains(r.revid) && (r.user_hidden && r.comment_hidden) == hidden {
            seq![r]
        } else {
            Seq::empty()
        };
        head + swept(revisions.drop_last(), processed, hidden)
    }
}

/// `targets` name, in order, the revisions `revisions` of page `title`
/// under `label`.
pub open spec fn targets_of(targets: Seq<HideTarget>, title: Seq<char>, revisions: Seq<RevisionRecord>, label: Seq<char>) -> bool {
    &&& targets.len() == revisions.len()
    &&& forall|k: int| 0 <= k < targets.len() ==> {
        &&& (#[trigger] targets[k]).title@ == title
        &&& targets[k].revid == revisions[k].revid
        &&& targets[k].observed_at == Some(revisions[k].timestamp)
        &&& targets[k].source_label@ == label
    }
}

/// What a history sweep of a page does: the revisions already hidden are
/// reported as such, the others hidden, newest first, skipping those
/// already processed.
#[derive(Clone, Debug)]
pub struct HistorySweepPlan {
    pub already_hidden: Vec<HideTarget>,
    pub to_hide: Vec<HideTarget>,
}

fn history_target(title: &String, r: RevisionRecord) -> (t: HideTarget)
    ensures
        t.title@ == title@,
        t.revid == r.revid,
        t.observed_at == Some(r.timestamp),
        t.source_label@ == "source-list-history"@,
{
    HideTarget {
        title: title.clone(),
        revid: r.revid,
        observed_at: Some(r.timestamp),
        source_label: String::from_str("source-list-history"),
    }
}

/// Plans the history sweep of page `title` over its `revisions` (oldest
/// first), skipping the revisions in `processed`.
pub fn history_sweep_plan(title: &String, revisions: &Vec<RevisionRecord>, processed: &Vec<u64>) -> (r:
    HistorySweepPlan)
    ensures
        targets_of(r.already_hidden@, title@, swept(revisions@, processed@, true), "source-list-history"@),
        targets_of(r.to_hide@, title@, swept(revisions@, processed@, false), "source-list-history"@),
{
    let mut already_hidden: Vec<HideTarget> = Vec::new();
    let mut to_hide: Vec<HideTarget> = Vec::new();
    let ghost mut done_hidden: Seq<RevisionRecord> = Seq::empty();
    let ghost mut done_open: Seq<RevisionRecord> = Seq::empty();
    let mut i: usize = revisions.len();
    proof {
        assert(revisions@.subrange(0, i as int) =~= revisions@);
        assert(Seq::<RevisionRecord>::empty() + swept(revisions@, processed@, true) =~= swept(revisions@,
            processed@, true));
        assert(Seq::<RevisionRecord>::empty() + swept(revisions@, processed@, false) =~= swept(revisions@,
            processed@, false));
    }
    while i > 0
        invariant
            i <= revisions.len(),
            done_hidden + swept(revisions@.subrange(0, i as int), processed@, true) == swept(revisions@, processed@,
                true),
            done_open + swept(revisions@.subrange(0, i as int), processed@, false) == swept(revisions@, processed@,
                false),
            targets_of(already_hidden@, title@, done_hidden, "source-list-history"@),
            targets_of(to_hide@, title@, done_open, "source-list-history"@),
        decreases i,
    {
        let r = revisions[i - 1];
        let ghost s = revisions@.subrange(0, i as int);
        proof {
            assert(s.drop_last() =~= revisions@.subrange(0, i - 1));
            assert(s.last() == r);
        }
        let skip = has_revid(processed, r.revid);
        if !skip && r.user_hidden && r.comment_hidden {
            already_hidden.push(history_target(title, r));
            proof {
                assert(swept(s, processed@, true) == seq![r] + swept(revisions@.subrange(0, i - 1), processed@,
                    true));
                assert(done_hidden.push(r) + swept(revisions@.subrange(0, i - 1), processed@, true) =~= done_hidden
                    + swept(s, processed@, true));
                assert(swept(s, processed@, false) =~= swept(revisions@.subrange(0, i - 1), processed@, false));
                done_hidden = done_hidden.push(r);
            }
        } else if !skip {
            to_hide.push(history_target(title, r));
            proof {
                assert(swept(s, processed@, false) == seq![r] + swept(revisions@.subrange(0, i - 1), processed@,
                    false));
                assert(done_open.push(r) + swept(revisions@.subrange(0, i - 1), processed@, false) =~= done_open
                    + swept(s, processed@, false));
                assert(swept(s, processed@, true) =~= swept(revisions@.subrange(0, i - 1), processed@, true));
                done_open = done_open.push(r);
            }
        } else {
            proof {
                assert(swept(s, processed@, true) =~= swept(revisions@.subrange(0, i - 1), processed@, true));
                assert(swept(s, processed@, false) =~= swept(revisions@.subrange(0, i - 1), processed@, false));
            }
        }
        i = i - 1;
    }
    proof {
        assert(swept(revisions@.subrange(0, 0), processed@, true) =~= Seq::<RevisionRecord>::empty());
        assert(swept(revisions@.subrange(0, 0), processed@, false) =~= Seq::<RevisionRecord>::empty());
        assert(done_hidden + Seq::<RevisionRecord>::empty() =~= done_hidden);
        assert(done_open + Seq::<RevisionRecord>::empty() =~= done_open);
    }
    HistorySweepPlan { already_hidden, to_hide }
}

/// A hide that failed for good but whose revision turned out to be hidden
/// after all: the failure is terminal and reading the revision found its
/// user and comment hidden.
pub open spec fn settled_after_failure_spec(failure: ApiFailureSnapshot, lookup: RevisionLookup) -> bool {
    terminal_hide_failure(failure) && (lookup matches RevisionLookup::Found { user_hidden, comment_hidden, .. }
        && user_hidden && comment_hidden)
}

/// Whether a failed background hide counts as done
/// ("already-hidden-after-terminal-failure") rather than failed.
pub fn settled_after_failure(failure: &ApiFailureSnapshot, lookup: &RevisionLookup) -> (r: bool)
    ensures
        r == settled_after_failure_spec(*failure, *lookup),
{
    is_terminal_hide_failure(failure) && match lookup {
        RevisionLookup::Found { user_hidden, comment_hidden, .. } => *user_hidden && *comment_hidden,
        _ => false,
    }
}

/// The failure a recent-changes window that hit the revision limit reports
/// at `now`.
pub fn window_limit_failure(now: i64) -> (r: ApiFailureSnapshot)
    ensures
        r.class@ == "recentchanges-limit"@,
        r.retryable,
        r.operation@ == "recent-window"@,
        r.message@ == "recentchanges window hit the configured revision limit"@,
        r.occurred_at == Some(now),
        r.api_code is None && r.http_status is None && r.content_type is None,
        r.retry_after_seconds is None && r.sample_title is None && r.sample_revid is None,
{
    ApiFailureSnapshot {
        class: String::from_str("recentchanges-limit"),
        api_code: None,
        http_status: None,
        content_type: None,
        retryable: true,
        retry_after_seconds: None,
        operation: String::from_str("recent-window"),
        sample_title: None,
        sample_revid: None,
        message: String::from_str("recentchanges window hit the configured revision limit"),
        occurred_at: Some(now),
    }
}


/// Changes come in the order of their instant, then their revision.
pub open spec fn change_le(a: RecentChangeRecord, b: RecentChangeRecord) -> bool {
    a.timestamp < b.timestamp || (a.timestamp == b.timestamp && a.revid <= b.revid)
}

/// A change of the window the background worker hides: not yet processed,
/// on a watched page.
pub open spec fn window_keeps(c: RecentChangeRecord, processed: Seq<u64>, watched: Seq<Seq<char>>) -> bool {
    !processed.contains(c.revid) && watched.contains(normalized_title(c.title@))
}

/// `order` lists, each once and in change order, the positions of the
/// changes the window keeps.
pub open spec fn window_order(changes: Seq<RecentChangeRecord>, processed: Seq<u64>, watched: Seq<Seq<char>>, order: Seq<usize>) -> bool {
    &&& order.no_duplicates()
    &&& forall|k: int| 0 <= k < order.len() ==> #[trigger] order[k] < changes.len() && window_keeps(
        changes[order[k] as int], processed, watched)
    &&& forall|i: int| 0 <= i < changes.len() && window_keeps(#[trigger] changes[i], processed, watched)
        ==> order.contains(i as usize)
    &&& forall|a: int, b: int| 0 <= a < b < order.len() ==> change_le(changes[#[trigger] order[a] as int],
        changes[#[trigger] order[b] as int])
}

fn change_le_exec(a: &RecentChangeRecord, b: &RecentChangeRecord) -> (r: bool)
    ensures
        r == change_le(*a, *b),
{
    a.timestamp < b.timestamp || (a.timestamp == b.timestamp && a.revid <= b.revid)
}

/// The positions of the changes of a window that the worker hides, in
/// change order: not processed, on a page `cache` watches.
pub fn recent_window_order(changes: &Vec<RecentChangeRecord>, processed: &Vec<u64>, cache: &RuntimeCache) -> (r: Vec<
    usize,
>)
    ensures
        window_order(changes@, processed@, views(cache.snapshot.watched_titles_normalized@), r@),
{
    let ghost watched = views(cache.snapshot.watched_titles_normalized@);
    let mut order: Vec<usize> = Vec::new();
    let mut i: usize = 0;
    while i < changes.len()
        invariant
            i <= changes.len(),
            watched == views(cache.snapshot.watched_titles_normalized@),
            order@.no_duplicates(),
            forall|k: int| 0 <= k < order@.len() ==> #[trigger] order@[k] < i && window_keeps(
                changes@[order@[k] as int], processed@, watched),
            forall|j: int| 0 <= j < i && window_keeps(#[trigger] changes@[j], processed@, watched)
                ==> order@.contains(j as usize),
            forall|a: int, b: int| 0 <= a < b < order@.len() ==> change_le(changes@[#[trigger] order@[a] as int],
                changes@[#[trigger] order@[b] as int]),
        decreases changes.len() - i,
    {
        let c = &changes[i];
        let keep = !has_revid(processed, c.revid) && cache.is_watched(normalize_title(c.title.as_str()).as_str());
        if keep {
            let mut p: usize = 0;
            while p < order.len() && change_le_exec(&changes[order[p]], c)
                invariant
                    p <= order@.len(),
                    forall|k: int| 0 <= k < order@.len() ==> #[trigger] order@[k] < i,
                    i < changes.len(),
                    *c == changes@[i as int],
                    forall|k: int| 0 <= k < p ==> change_le(changes@[#[trigger] order@[k] as int], changes@[i as int]),
                decreases order@.len() - p,
            {
                p = p + 1;
            }
            let ghost before = order@;
            proof {
                before.insert_ensures(p as int, i);
                assert forall|k: int| p <= k < before.len() implies !change_le(changes@[#[trigger] before[k] as int],
                    changes@[i as int]) by {
                    if k > p {
                        assert(change_le(changes@[before[p as int] as int], changes@[before[k] as int]));
                    }
                }
            }
            order.insert(p, i);
            proof {
                let after = order@;
                assert forall|k: int| 0 <= k < after.len() implies #[trigger] after[k] < i + 1 && window_keeps(
                    changes@[after[k] as int], processed@, watched) by {
                    if k < p {
                        assert(after[k] == before[k]);
                    } else if k > p {
                        assert(after[k] == before[k - 1]);
                    }
                }
                assert forall|x: int, y: int| 0 <= x < y < after.len() implies after[x] != after[y] by {
                    if x < p && y > p {
                        assert(after[y] == before[y - 1]);
                    } else if x > p {
                        assert(after[x] == before[x - 1]);
                        assert(after[y] == before[y - 1]);
                    } else if y < p {
                    } else if x == p {
                        assert(after[y] == before[y - 1]);
                    } else {
                        assert(y == p);
                    }
                }
                assert forall|j: int| 0 <= j < i + 1 && window_keeps(#[trigger] changes@[j], processed@, watched)
                    implies after.contains(j as usize) by {
                    if j == i {
                        assert(after[p as int] == i);
                    } else {
                        let k = choose|k: int| 0 <= k < before.len() && before[k] == j as usize;
                        if k < p {
                            assert(after[k] == before[k]);
                        } else {
                            assert(after[k + 1] == before[k]);
                        }
                    }
                }
                assert forall|a: int, b: int| 0 <= a < b < after.len() implies change_le(
                    changes@[#[trigger] after[a] as int], changes@[#[trigger] after[b] as int]) by {
                    if b < p {
                    } else if a < p && b == p {
                    } else if a < p && b > p {
                        assert(after[b] == before[b - 1]);
                        if b - 1 > a {
                            assert(change_le(changes@[before[a] as int], changes@[before[b - 1] as int]));
                        }
                        if p < before.len() {
                            assert(!change_le(changes@[before[p as int] as int], changes@[i as int]));
                        }
                    } else if a == p {
                        assert(after[b] == before[b - 1]);
                        assert(!change_le(changes@[before[b - 1] as int], changes@[i as int]));
                    } else {
                        assert(after[a] == before[a - 1]);
                        assert(after[b] == before[b - 1]);
                        assert(change_le(changes@[before[a - 1] as int], changes@[before[b - 1] as int]));
                    }
                }
            }
        }
        i = i + 1;
    }
    order
}


/// `targets` name the changes at `order`, in that order, under `label`.
pub open spec fn window_targets_are(targets: Seq<HideTarget>, changes: Seq<RecentChangeRecord>, order: Seq<usize>, label: Seq<char>) -> bool {
    &&& targets.len() == order.len()
    &&& forall|k: int| 0 <= k < targets.len() ==> {
        let c = changes[order[k] as int];
        &&& (#[trigger] targets[k]).title@ == c.title@
        &&& targets[k].revid == c.revid
        &&& targets[k].observed_at == Some(c.timestamp)
        &&& targets[k].source_label@ == label
    }
}

/// The revisions a recent-changes window has the worker hide, under
/// `source_label`: those not yet processed, on watched pages, in change
/// order.
pub fn recent_window_targets(
    changes: &Vec<RecentChangeRecord>,
    processed: &Vec<u64>,
    cache: &RuntimeCache,
    source_label: &str,
) -> (r: Vec<HideTarget>)
    ensures
        exists|order: Seq<usize>| #[trigger] window_order(changes@, processed@, views(
            cache.snapshot.watched_titles_normalized@), order) && window_targets_are(r@, changes@, order,
            source_label@),
{
    let order = recent_window_order(changes, processed, cache);
    let mut targets: Vec<HideTarget> = Vec::new();
    let mut k: usize = 0;
    while k < order.len()
        invariant
            k <= order@.len(),
            window_order(changes@, processed@, views(cache.snapshot.watched_titles_normalized@), order@),
            window_targets_are(targets@, changes@, order@.subrange(0, k as int), source_label@),
        decreases order@.len() - k,
    {
        let c = &changes[order[k]];
        targets.push(HideTarget {
            title: c.title.clone(),
            revid: c.revid,
            observed_at: Some(c.timestamp),
            source_label: String::from_str(source_label),
        });
        k = k + 1;
        proof {
            assert forall|j: int| 0 <= j < targets@.len() implies {
                let c = changes@[order@.subrange(0, k as int)[j] as int];
                &&& (#[trigger] targets@[j]).title@ == c.title@
                &&& targets@[j].revid == c.revid
                &&& targets@[j].observed_at == Some(c.timestamp)
                &&& targets@[j].source_label@ == source_label@
            } by {
                assert(order@.subrange(0, k as int)[j] == order@[j]);
                if j < k - 1 {
                    assert(order@.subrange(0, k - 1)[j] == order@[j]);
                }
            }
        }
    }
    assert(order@.subrange(0, order@.len() as int) =~= order@);
    targets
}


/// Whether some page of `pages` is, once normalised, the page `title`.
pub open spec fn names_page(pages: Seq<String>, title: Seq<char>) -> bool {
    exists|i: int| 0 <= i < pages.len() && normalized_title(pages[i]@) == normalized_title(title)
}

/// The reload an edit of page `title` calls for: an edit of the source
/// page reloads the watched-page list, an edit of a request page too (as a
/// request); other edits call for none.
pub open spec fn refresh_trigger_of(source_title_normalized: Seq<char>, request_pages: Seq<String>, title: Seq<char>) -> Option<SourceRefreshTriggerKind> {
    if normalized_title(title) == source_title_normalized {
        Some(SourceRefreshTriggerKind::SuppressionList)
    } else if names_page(request_pages, title) {
        Some(SourceRefreshTriggerKind::RequestPage)
    } else {
        None
    }
}

/// The reload an edit of page `title` calls for (see `refresh_trigger_of`).
pub fn refresh_trigger(cache: &RuntimeCache, request_pages: &Vec<String>, title: &str) -> (r: Option<
    SourceRefreshTriggerKind,
>)
    ensures
        r == refresh_trigger_of(cache.source_title_normalized@, request_pages@, title@),
{
    let normalized = normalize_title(title);
    if crate::text::str_eq(normalized.as_str(), cache.source_title_normalized.as_str()) {
        return Some(SourceRefreshTriggerKind::SuppressionList);
    }
    let mut i: usize = 0;
    while i < request_pages.len()
        invariant
            i <= request_pages.len(),
            normalized@ == normalized_title(title@),
            normalized_title(title@) != cache.source_title_normalized@,
            forall|k: int| 0 <= k < i ==> normalized_title(request_pages@[k]@) != normalized_title(title@),
        decreases request_pages.len() - i,
    {
        let page = normalize_title(request_pages[i].as_str());
        if crate::text::str_eq(page.as_str(), normalized.as_str()) {
            assert(names_page(request_pages@, title@)) by {
                assert(normalized_title(request_pages@[i as int]@) == normalized_title(title@));
            }
            return Some(SourceRefreshTriggerKind::RequestPage);
        }
        i = i + 1;
    }
    assert(!names_page(request_pages@, title@));
    None
}

} // verus!
