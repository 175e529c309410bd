//! Coalescing of repeated API failures during a run: one summary per root
//! cause (class, API code, HTTP status, operation), with a count, a few
//! sample titles, and an early stop once rate limits repeat.

use vstd::prelude::*;

use crate::catchup::{rate_limit_retry_after_seconds, rate_limit_wait};
use crate::order::{chars_lt, lemma_text_lt_irreflexive, lemma_text_lt_total, lemma_text_lt_transitive, text_lt};
use crate::state::{ApiFailureSnapshot, WarningSummary};
use crate::text::{chars_eq, chars_of, decimal, has_text, push_decimal, push_str, vec_has_str};
use crate::time::representable_time;
use crate::titles::views;

verus! {

broadcast use vstd::seq_lib::group_to_multiset_ensures;

/// What one recorded failure means for the run.
#[derive(Clone, Copy, Debug, Default, PartialEq, Eq)]
pub struct WarningObservation {
    /// The run should stop: this root cause is rate-limited and has failed
    /// often enough.
    pub stop_after: bool,
    /// When work may resume, when the run stops.
    pub backoff_until: Option<i64>,
}

/// The failures recorded so far, one summary per root cause.
#[derive(Debug)]
pub struct WarningAggregates {
    /// The most sample titles a summary keeps.
    pub sample_limit: usize,
    /// The summaries, in the order their root causes first failed.
    pub entries: Vec<WarningSummary>,
}

/// The root cause a summary stands for: class, API code, HTTP status and
/// operation, joined by `|` (absent parts empty).
pub open spec fn root_cause_key(
    class: Seq<char>,
    api_code: Option<String>,
    http_status: Option<u16>,
    operation: Seq<char>,
) -> Seq<char> {
    class + "|"@ + (match api_code {
        Some(c) => c@,
        None => Seq::empty(),
    }) + "|"@ + (match http_status {
        Some(v) => decimal(v as nat),
        None => Seq::empty(),
    }) + "|"@ + operation
}

/// The root cause of a summary.
pub open spec fn summary_key(w: WarningSummary) -> Seq<char> {
    root_cause_key(w.class@, w.api_code, w.http_status, w.operation@)
}

/// The root cause of a failure.
pub open spec fn failure_key(s: ApiFailureSnapshot) -> Seq<char> {
    root_cause_key(s.class@, s.api_code, s.http_status, s.operation@)
}

/// Whether no two summaries share a root cause.
pub open spec fn distinct_keys(entries: Seq<WarningSummary>) -> bool {
    forall|i: int, j: int|
        0 <= i < entries.len() && 0 <= j < entries.len() && i != j ==> summary_key(entries[i])
            != summary_key(entries[j])
}

/// The position of the summary for `key`.
pub open spec fn key_index(entries: Seq<WarningSummary>, key: Seq<char>) -> Option<int> {
    if exists|i: int| 0 <= i < entries.len() && summary_key(entries[i]) == key {
        Some(choose|i: int| 0 <= i < entries.len() && summary_key(entries[i]) == key)
    } else {
        None
    }
}

/// The larger of two waits, the one present when only one is.
pub open spec fn merged_wait(current: Option<u64>, latest: Option<u64>) -> Option<u64> {
    match (current, latest) {
        (Some(c), Some(l)) => Some(
            if c >= l {
                c
            } else {
                l
            },
        ),
        (None, Some(l)) => Some(l),
        (c, None) => c,
    }
}

/// Whether a root cause with this count and wait stops the run.
pub open spec fn stops_run(count: int, wait: Option<u64>, stop_after_failures: usize) -> bool {
    wait is Some && count >= (if stop_after_failures >= 1 {
        stop_after_failures as int
    } else {
        1
    })
}

/// The sample titles after a failure on `title`: kept while fewer than
/// `limit`, each once.
pub open spec fn samples_after(samples: Seq<String>, title: Option<String>, limit: usize) -> Seq<
    Seq<char>,
> {
    match title {
        Some(t) => if samples.len() < limit && !has_text(samples, t@) {
            views(samples).push(t@)
        } else {
            views(samples)
        },
        None => views(samples),
    }
}

/// Whether a root cause with this count and wait marks an early stop, under
/// the stop rule (`None`: runs never stop early).
pub open spec fn stops_under(count: int, wait: Option<u64>, stop_rule: Option<usize>) -> bool {
    match stop_rule {
        Some(n) => stops_run(count, wait, n),
        None => false,
    }
}

/// `after` is `before` with one more failure (on `title`, with wait `wait`)
/// recorded.
pub open spec fn counted_again(
    before: WarningSummary,
    after: WarningSummary,
    title: Option<String>,
    wait: Option<u64>,
    limit: usize,
    stop_rule: Option<usize>,
) -> bool {
    &&& after.class == before.class
    &&& after.api_code == before.api_code
    &&& after.http_status == before.http_status
    &&& after.content_type == before.content_type
    &&& after.retryable == before.retryable
    &&& after.operation == before.operation
    &&& after.message == before.message
    &&& after.count == before.count + 1
    &&& after.retry_after_seconds == merged_wait(before.retry_after_seconds, wait)
    &&& views(after.sample_titles@) == samples_after(before.sample_titles@, title, limit)
    &&& after.stopped_early == (before.stopped_early || stops_under(
        after.count as int,
        after.retry_after_seconds,
        stop_rule,
    ))
}

/// `after` is the first summary of the failure `s`.
pub open spec fn counted_first(
    after: WarningSummary,
    s: ApiFailureSnapshot,
    wait: Option<u64>,
    limit: usize,
    stop_rule: Option<usize>,
) -> bool {
    &&& after.class == s.class
    &&& after.api_code == s.api_code
    &&& after.http_status == s.http_status
    &&& after.content_type == s.content_type
    &&& after.retryable == s.retryable
    &&& after.operation == s.operation
    &&& after.message == s.message
    &&& after.count == 1
    &&& after.retry_after_seconds == wait
    &&& views(after.sample_titles@) == samples_after(Seq::empty(), s.sample_title, limit)
    &&& after.stopped_early == stops_under(1, wait, stop_rule)
}

/// `new` is `old` with `snapshot` recorded: its root cause's summary counted
/// again in place, or a new summary appended for it.
pub open spec fn recorded_failure(
    old: WarningAggregates,
    new: WarningAggregates,
    snapshot: ApiFailureSnapshot,
    stop_after_failures: usize,
    default_backoff_seconds: u64,
) -> bool {
    match key_index(old.entries@, failure_key(snapshot)) {
        Some(p) => {
            &&& new.entries@.len() == old.entries@.len()
            &&& forall|i: int|
                0 <= i < old.entries@.len() && i != p ==> new.entries@[i]
                    == old.entries@[i]
            &&& counted_again(
                old.entries@[p],
                new.entries@[p],
                snapshot.sample_title,
                rate_limit_wait(snapshot, default_backoff_seconds),
                old.sample_limit,
                Some(stop_after_failures),
            )
        },
        None => {
            &&& new.entries@.len() == old.entries@.len() + 1
            &&& forall|i: int|
                0 <= i < old.entries@.len() ==> new.entries@[i]
                    == old.entries@[i]
            &&& counted_first(
                new.entries@[old.entries@.len() as int],
                snapshot,
                rate_limit_wait(snapshot, default_backoff_seconds),
                old.sample_limit,
                Some(stop_after_failures),
            )
        },
    }
}

/// Whether recording `snapshot` over `old` giving `new` stops the run.
pub open spec fn stops_after_record(
    old: WarningAggregates,
    new: WarningAggregates,
    snapshot: ApiFailureSnapshot,
    stop_after_failures: usize,
) -> bool {
    let e = touched_entry(old.entries@, new.entries@, failure_key(snapshot));
    stops_run(e.count as int, e.retry_after_seconds, stop_after_failures)
}

/// When work may resume after recording `snapshot` at `now` stopped the run.
pub open spec fn resume_after_record(
    old: WarningAggregates,
    new: WarningAggregates,
    snapshot: ApiFailureSnapshot,
    now: i64,
) -> i64 {
    let e = touched_entry(old.entries@, new.entries@, failure_key(snapshot));
    (now + e.retry_after_seconds.unwrap()) as i64
}

impl WarningAggregates {
    /// Well-formed: one summary per root cause.
    pub open spec fn wf(&self) -> bool {
        distinct_keys(self.entries@)
    }

    /// The count and wait that the root cause of `s` will have once `s` is
    /// recorded.
    pub open spec fn next_count_and_wait(&self, s: ApiFailureSnapshot, default_backoff_seconds: u64) -> (int, Option<u64>) {
        let wait = rate_limit_wait(s, default_backoff_seconds);
        match key_index(self.entries@, failure_key(s)) {
            Some(p) => (
                self.entries@[p].count + 1,
                merged_wait(self.entries@[p].retry_after_seconds, wait),
            ),
            None => (1, wait),
        }
    }

    /// Recording `s` at `now` stays within the counters and the instants the
    /// library can hold.
    pub open spec fn can_record(
        &self,
        s: ApiFailureSnapshot,
        stop_after_failures: usize,
        default_backoff_seconds: u64,
        now: i64,
    ) -> bool {
        let (count, wait) = self.next_count_and_wait(s, default_backoff_seconds);
        &&& representable_time(now)
        &&& count <= usize::MAX
        &&& stops_run(count, wait, stop_after_failures) ==> representable_time(
            (now + wait.unwrap()) as i64,
        ) && now + wait.unwrap() <= i64::MAX
    }

    /// No failures yet; each summary keeps at most `sample_limit` titles.
    pub fn new(sample_limit: usize) -> (r: Self)
        ensures
            r.wf(),
            r.sample_limit == sample_limit,
            r.entries@.len() == 0,
    {
        WarningAggregates { sample_limit, entries: Vec::new() }
    }

    /// Records one failure: its root cause's summary is counted again (or
    /// created), its sample title kept while there is room, its rate-limit
    /// wait merged (the longer wins); the run stops once a rate-limited root
    /// cause has failed `stop_after_failures` times (at least once), until
    /// `now` plus the wait.
    pub fn record(
        &mut self,
        snapshot: ApiFailureSnapshot,
        stop_after_failures: usize,
        default_backoff_seconds: u64,
        now: i64,
    ) -> (r: WarningObservation)
        requires
            old(self).wf(),
            old(self).can_record(snapshot, stop_after_failures, default_backoff_seconds, now),
        ensures
            final(self).wf(),
            final(self).sample_limit == old(self).sample_limit,
            recorded_failure(*old(self), *final(self), snapshot, stop_after_failures, default_backoff_seconds),
            r.stop_after == stops_after_record(*old(self), *final(self), snapshot, stop_after_failures),
            r.backoff_until == if r.stop_after {
                Some(resume_after_record(*old(self), *final(self), snapshot, now))
            } else {
                None
            },
    {
        let wait = rate_limit_retry_after_seconds(&snapshot, default_backoff_seconds);
        let limit = self.sample_limit;
        let (count, merged) = record_failure(&mut self.entries, limit, snapshot, wait, Some(stop_after_failures));
        let threshold: usize = if stop_after_failures >= 1 {
            stop_after_failures
        } else {
            1
        };
        let stop_after = merged.is_some() && count >= threshold;
        let backoff_until = if stop_after {
            match merged {
                Some(w) => Some(now + w as i64),
                None => None,
            }
        } else {
            None
        };
        WarningObservation { stop_after, backoff_until }
    }
}


/// Records one failure of `snapshot` (with wait `wait`) in `entries`: its
/// root cause's summary is counted again, or a first summary appended.
/// Returns the touched summary's count and wait.
pub fn record_failure(
    entries: &mut Vec<WarningSummary>,
    limit: usize,
    snapshot: ApiFailureSnapshot,
    wait: Option<u64>,
    stop_rule: Option<usize>,
) -> (r: (usize, Option<u64>))
    requires
        distinct_keys(old(entries)@),
        match key_index(old(entries)@, failure_key(snapshot)) {
            Some(p) => old(entries)@[p].count < usize::MAX,
            None => true,
        },
    ensures
        distinct_keys(final(entries)@),
        match key_index(old(entries)@, failure_key(snapshot)) {
            Some(p) => {
                &&& final(entries)@.len() == old(entries)@.len()
                &&& forall|i: int|
                    0 <= i < old(entries)@.len() && i != p ==> final(entries)@[i] == old(entries)@[i]
                &&& counted_again(
                    old(entries)@[p],
                    final(entries)@[p],
                    snapshot.sample_title,
                    wait,
                    limit,
                    stop_rule,
                )
            },
            None => {
                &&& final(entries)@.len() == old(entries)@.len() + 1
                &&& forall|i: int| 0 <= i < old(entries)@.len() ==> final(entries)@[i] == old(entries)@[i]
                &&& counted_first(
                    final(entries)@[old(entries)@.len() as int],
                    snapshot,
                    wait,
                    limit,
                    stop_rule,
                )
            },
        },
        ({
            let e = touched_entry(old(entries)@, final(entries)@, failure_key(snapshot));
            r.0 == e.count && r.1 == e.retry_after_seconds
        }),
{
        let key = key_chars(&snapshot.class, &snapshot.api_code, snapshot.http_status, &snapshot.operation);
        let found = find_key(entries, &key);
        let ghost old_entries = entries@;
        let ghost s = snapshot;
        let ApiFailureSnapshot {
            class,
            api_code,
            http_status,
            content_type,
            retryable,
            operation,
            sample_title,
            message,
            ..
        } = snapshot;
        let (count, merged) = match found {
            Some(p) => {
                let e = entries.remove(p);
                let e2 = count_again(e, sample_title, wait, limit, stop_rule);
                let c = e2.count;
                let m = e2.retry_after_seconds;
                entries.insert(p, e2);
                proof {
                    assert(entries@ =~= old_entries.update(p as int, entries@[p as int]));
                    assert forall|i: int, j: int|
                        0 <= i < entries@.len() && 0 <= j < entries@.len() && i != j
                        implies summary_key(entries@[i]) != summary_key(entries@[j]) by {
                        assert(summary_key(entries@[p as int]) == summary_key(old_entries[p as int]));
                        if i != p as int && j != p as int {
                            assert(entries@[i] == old_entries[i]);
                            assert(entries@[j] == old_entries[j]);
                        } else if i == p as int {
                            assert(entries@[j] == old_entries[j]);
                        } else {
                            assert(entries@[i] == old_entries[i]);
                        }
                    }
                }
                (c, m)
            },
            None => {
                let fresh = WarningSummary {
                    class,
                    api_code,
                    http_status,
                    content_type,
                    retryable,
                    retry_after_seconds: wait,
                    operation,
                    count: 0,
                    sample_titles: Vec::new(),
                    message,
                    stopped_early: false,
                };
                let e2 = count_again(fresh, sample_title, wait, limit, stop_rule);
                let c = e2.count;
                let m = e2.retry_after_seconds;
                entries.push(e2);
                proof {
                    let n = old_entries.len() as int;
                    assert(summary_key(entries@[n]) == failure_key(s));
                    assert(views(Seq::<String>::empty()) =~= Seq::<Seq<char>>::empty());
                    assert forall|i: int, j: int|
                        0 <= i < entries@.len() && 0 <= j < entries@.len() && i != j
                        implies summary_key(entries@[i]) != summary_key(entries@[j]) by {
                        if i < n && j < n {
                            assert(entries@[i] == old_entries[i]);
                            assert(entries@[j] == old_entries[j]);
                        } else if i == n {
                            assert(entries@[j] == old_entries[j]);
                        } else {
                            assert(entries@[i] == old_entries[i]);
                        }
                    }
                }
                (c, m)
            },
        };
        (count, merged)
}

/// The summary that recording a failure with root cause `key` touched:
/// the existing one, else the one appended.
pub open spec fn touched_entry(old_entries: Seq<WarningSummary>, new_entries: Seq<WarningSummary>, key: Seq<char>) -> WarningSummary {
    match key_index(old_entries, key) {
        Some(p) => new_entries[p],
        None => new_entries[old_entries.len() as int],
    }
}

/// The root-cause key of the given parts.
fn key_chars(
    class: &String,
    api_code: &Option<String>,
    http_status: Option<u16>,
    operation: &String,
) -> (r: Vec<char>)
    ensures
        r@ == root_cause_key(class@, *api_code, http_status, operation@),
{
    let mut out: Vec<char> = Vec::new();
    push_str(&mut out, class.as_str());
    push_str(&mut out, "|");
    match api_code {
        Some(c) => push_str(&mut out, c.as_str()),
        None => {},
    }
    push_str(&mut out, "|");
    match http_status {
        Some(v) => push_decimal(&mut out, v as u64),
        None => {},
    }
    push_str(&mut out, "|");
    push_str(&mut out, operation.as_str());
    assert(out@ =~= root_cause_key(class@, *api_code, http_status, operation@));
    out
}

/// Where the summary for `key` is.
fn find_key(entries: &Vec<WarningSummary>, key: &Vec<char>) -> (r: Option<usize>)
    requires
        distinct_keys(entries@),
    ensures
        match r {
            Some(p) => p < entries@.len() && key_index(entries@, key@) == Some(p as int),
            None => key_index(entries@, key@) is None,
        },
{
    let mut i: usize = 0;
    while i < entries.len()
        invariant
            i <= entries.len(),
            forall|j: int| 0 <= j < i ==> summary_key(#[trigger] entries@[j]) != key@,
            distinct_keys(entries@),
        decreases entries.len() - i,
    {
        let e = &entries[i];
        let k = key_chars(&e.class, &e.api_code, e.http_status, &e.operation);
        if chars_eq(&k, key) {
            proof {
                assert(summary_key(entries@[i as int]) == key@);
                assert(exists|c: int| 0 <= c < entries@.len() && summary_key(entries@[c]) == key@);
                let c = choose|c: int| 0 <= c < entries@.len() && summary_key(entries@[c]) == key@;
                if c != i as int {
                    assert(summary_key(entries@[c]) != summary_key(entries@[i as int]));
                }
            }
            return Some(i);
        }
        i = i + 1;
    }
    None
}

/// The summary with one more failure recorded.
fn count_again(
    e: WarningSummary,
    title: Option<String>,
    wait: Option<u64>,
    limit: usize,
    stop_rule: Option<usize>,
) -> (r: WarningSummary)
    requires
        e.count < usize::MAX,
    ensures
        counted_again(e, r, title, wait, limit, stop_rule),
{
    let ghost before = e;
    let WarningSummary {
        class,
        api_code,
        http_status,
        content_type,
        retryable,
        retry_after_seconds,
        operation,
        count,
        mut sample_titles,
        message,
        stopped_early,
    } = e;
    let new_count = count + 1;
    let merged = match (retry_after_seconds, wait) {
        (Some(c), Some(l)) => Some(
            if c >= l {
                c
            } else {
                l
            },
        ),
        (None, Some(l)) => Some(l),
        (c, None) => c,
    };
    match title {
        Some(t) => {
            if sample_titles.len() < limit && !vec_has_str(&sample_titles, t.as_str()) {
                let ghost prev = sample_titles@;
                sample_titles.push(t);
                assert(views(sample_titles@) =~= views(prev).push(sample_titles@.last()@));
            }
        },
        None => {},
    }
    let stop = match stop_rule {
        Some(n) => {
            let threshold: usize = if n >= 1 {
                n
            } else {
                1
            };
            merged.is_some() && new_count >= threshold
        },
        None => false,
    };
    WarningSummary {
        class,
        api_code,
        http_status,
        content_type,
        retryable,
        retry_after_seconds: merged,
        operation,
        count: new_count,
        sample_titles,
        message,
        stopped_early: stopped_early || stop,
    }
}

/// The order of the report: more failures first, then by class, then by
/// operation, then by root cause.
pub open spec fn warning_before(a: WarningSummary, b: WarningSummary) -> bool {
    ||| a.count > b.count
    ||| a.count == b.count && text_lt(a.class@, b.class@)
    ||| a.count == b.count && a.class@ == b.class@ && text_lt(a.operation@, b.operation@)
    ||| a.count == b.count && a.class@ == b.class@ && a.operation@ == b.operation@ && text_lt(
        summary_key(a),
        summary_key(b),
    )
}

/// No summary comes before itself.
pub proof fn lemma_warning_before_irreflexive(a: WarningSummary)
    ensures
        !warning_before(a, a),
{
    lemma_text_lt_irreflexive(a.class@);
    lemma_text_lt_irreflexive(a.operation@);
    lemma_text_lt_irreflexive(summary_key(a));
}

/// The report order is transitive.
pub proof fn lemma_warning_before_transitive(a: WarningSummary, b: WarningSummary, c: WarningSummary)
    requires
        warning_before(a, b),
        warning_before(b, c),
    ensures
        warning_before(a, c),
{
    if a.count == b.count && b.count == c.count {
        if text_lt(a.class@, b.class@) && text_lt(b.class@, c.class@) {
            lemma_text_lt_transitive(a.class@, b.class@, c.class@);
        }
        if a.class@ == b.class@ && b.class@ == c.class@ {
            if text_lt(a.operation@, b.operation@) && text_lt(b.operation@, c.operation@) {
                lemma_text_lt_transitive(a.operation@, b.operation@, c.operation@);
            }
            if a.operation@ == b.operation@ && b.operation@ == c.operation@ && text_lt(
                summary_key(a),
                summary_key(b),
            ) && text_lt(summary_key(b), summary_key(c)) {
                lemma_text_lt_transitive(summary_key(a), summary_key(b), summary_key(c));
            }
        }
    }
}

/// Of two summaries with different root causes, one comes first.
pub proof fn lemma_warning_before_total(a: WarningSummary, b: WarningSummary)
    requires
        summary_key(a) != summary_key(b),
    ensures
        warning_before(a, b) || warning_before(b, a),
{
    lemma_text_lt_total(a.class@, b.class@);
    lemma_text_lt_total(a.operation@, b.operation@);
    lemma_text_lt_total(summary_key(a), summary_key(b));
}

fn text_lt_exec(a: &String, b: &String) -> (r: bool)
    ensures
        r == text_lt(a@, b@),
{
    let x = chars_of(a.as_str());
    let y = chars_of(b.as_str());
    chars_lt(&x, &y)
}

fn text_eq_exec(a: &String, b: &String) -> (r: bool)
    ensures
        r == (a@ == b@),
{
    let x = chars_of(a.as_str());
    let y = chars_of(b.as_str());
    chars_eq(&x, &y)
}

/// Whether `a` comes before `b` in the report.
pub fn warning_comes_before(a: &WarningSummary, b: &WarningSummary) -> (r: bool)
    ensures
        r == warning_before(*a, *b),
{
    proof {
        lemma_text_lt_irreflexive(a.class@);
        lemma_text_lt_irreflexive(a.operation@);
    }
    if a.count != b.count {
        return a.count > b.count;
    }
    if !text_eq_exec(&a.class, &b.class) {
        return text_lt_exec(&a.class, &b.class);
    }
    if !text_eq_exec(&a.operation, &b.operation) {
        return text_lt_exec(&a.operation, &b.operation);
    }
    let ka = key_chars(&a.class, &a.api_code, a.http_status, &a.operation);
    let kb = key_chars(&b.class, &b.api_code, b.http_status, &b.operation);
    chars_lt(&ka, &kb)
}

impl WarningAggregates {
    /// The summaries in report order: more failures first, then by class,
    /// operation and root cause.
    pub fn into_summaries(self) -> (r: Vec<WarningSummary>)
        requires
            self.wf(),
        ensures
            r@.to_multiset() == self.entries@.to_multiset(),
            forall|i: int, j: int| 0 <= i < j < r@.len() ==> warning_before(r@[i], r@[j]),
    {
        in_report_order(self.entries)
    }
}

/// Summaries with distinct root causes, put in report order.
pub fn in_report_order(entries: Vec<WarningSummary>) -> (r: Vec<WarningSummary>)
    requires
        distinct_keys(entries@),
    ensures
        r@.to_multiset() == entries@.to_multiset(),
        forall|i: int, j: int| 0 <= i < j < r@.len() ==> warning_before(r@[i], r@[j]),
{
    {
        let ghost all = entries@;
        let mut work = entries;
        let mut out: Vec<WarningSummary> = Vec::new();
        while work.len() > 0
            invariant
                forall|i: int, j: int| 0 <= i < j < out@.len() ==> warning_before(out@[i], out@[j]),
                forall|i: int, j: int|
                    0 <= i < out@.len() && 0 <= j < work@.len() ==> warning_before(out@[i], work@[j]),
                out@.to_multiset().add(work@.to_multiset()) == all.to_multiset(),
                distinct_keys(work@),
            decreases work.len(),
        {
            let mut m: usize = 0;
            let mut k: usize = 1;
            while k < work.len()
                invariant
                    0 < work.len(),
                    m < work.len(),
                    1 <= k <= work.len(),
                    m < k,
                    distinct_keys(work@),
                    forall|j: int| 0 <= j < k && j != m ==> warning_before(work@[m as int], work@[j]),
                decreases work.len() - k,
            {
                if warning_comes_before(&work[k], &work[m]) {
                    proof {
                        assert forall|j: int| 0 <= j < k + 1 && j != k implies warning_before(
                            work@[k as int],
                            work@[j],
                        ) by {
                            if j != m as int {
                                lemma_warning_before_transitive(work@[k as int], work@[m as int], work@[j]);
                            }
                        }
                    }
                    m = k;
                } else {
                    proof {
                        assert(summary_key(work@[k as int]) != summary_key(work@[m as int]));
                        lemma_warning_before_total(work@[k as int], work@[m as int]);
                    }
                }
                k = k + 1;
            }
            let ghost old_out = out@;
            let ghost old_work = work@;
            let x = work.remove(m);
            out.push(x);
            proof {
                assert(old_work.remove(m as int).to_multiset() == old_work.to_multiset().remove(x));
                assert(out@.to_multiset() == old_out.to_multiset().insert(x));
                assert(old_work.to_multiset().count(x) > 0) by {
                    assert(old_work.contains(x));
                }
                assert(out@.to_multiset().add(work@.to_multiset()) =~= old_out.to_multiset().add(
                    old_work.to_multiset(),
                ));
                assert forall|i: int, j: int| 0 <= i < out@.len() && 0 <= j < work@.len() implies warning_before(
                    out@[i],
                    work@[j],
                ) by {
                    let jj = if j < m { j } else { j + 1 };
                    assert(work@[j] == old_work[jj]);
                    if i < old_out.len() {
                        assert(out@[i] == old_out[i]);
                    } else {
                        assert(out@[i] == old_work[m as int]);
                    }
                }
                assert forall|i: int, j: int| 0 <= i < j < out@.len() implies warning_before(out@[i], out@[j]) by {
                    if j < old_out.len() {
                        assert(out@[i] == old_out[i]);
                        assert(out@[j] == old_out[j]);
                    } else {
                        assert(out@[j] == old_work[m as int]);
                        assert(out@[i] == old_out[i]);
                    }
                }
                assert forall|i: int, j: int|
                    0 <= i < work@.len() && 0 <= j < work@.len() && i != j implies summary_key(work@[i])
                        != summary_key(work@[j]) by {
                    let ii = if i < m { i } else { i + 1 };
                    let jj = if j < m { j } else { j + 1 };
                    assert(work@[i] == old_work[ii]);
                    assert(work@[j] == old_work[jj]);
                }
            }
        }
        proof {
            assert(work@.to_multiset().len() == 0);
            assert(out@.to_multiset() =~= all.to_multiset());
        }
        out
    }
}

} // verus!
