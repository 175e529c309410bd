//! Catch-up runs: which titles a run covers, how its window is checked, how
//! its failures are coalesced, and the report it prints.

use vstd::prelude::*;

use crate::order::{chars_lt, lemma_text_lt_irreflexive, lemma_text_lt_total, lemma_text_lt_transitive, text_lt};
use crate::state::{ApiFailureSnapshot, CoverageSummary, UnresolvedExposureItem, WarningSummary};
use crate::text::{
    ascii_lower, ascii_lower_chars, chars_of, collapse_whitespace, collapse_whitespace_chars,
    contains_chars, contains_seq, copy_range, find_chars, first_occurrence, occurs_at, push_all,
    push_decimal, push_signed_decimal, push_str, decimal, signed_decimal, str_eq, string_of, trim, trim_chars,
};
use crate::time::{format_utc_seconds, representable_time, utc_seconds_text};
use crate::titles::views;

verus! {

/// The most characters a report shows of one free-text value.
pub const REPORT_TEXT_LIMIT: usize = 180;

/// A value as reports show it: its words joined by single spaces, cut to
/// the first 180 characters.
pub open spec fn compact_text(s: Seq<char>) -> Seq<char> {
    let c = collapse_whitespace(s);
    if c.len() <= REPORT_TEXT_LIMIT {
        c
    } else {
        c.take(REPORT_TEXT_LIMIT as int)
    }
}

fn compact_chars(value: &str) -> (r: Vec<char>)
    ensures
        r@ == compact_text(value@),
{
    let v = chars_of(value);
    let c = collapse_whitespace_chars(&v);
    if c.len() <= REPORT_TEXT_LIMIT {
        c
    } else {
        let r = copy_range(&c, 0, REPORT_TEXT_LIMIT);
        assert(r@ =~= c@.take(REPORT_TEXT_LIMIT as int));
        r
    }
}

/// A free-text value compacted for a report line.
pub fn compact_report_text(value: &str) -> (r: String)
    ensures
        r@ == compact_text(value@),
{
    let c = compact_chars(value);
    string_of(&c)
}

/// Markers after which a detail may carry a payload or a credential, in the
/// order they are tried.
pub open spec fn report_markers() -> Seq<&'static str> {
    seq![
        "response body",
        "response-body",
        "set-cookie",
        "cookie=",
        "cookie:",
        "token=",
        "token:",
        "password=",
        "password:",
        "authorization:",
        "csrf",
    ]
}

/// Among the first `n` markers, the earliest position at which one occurs in
/// `hay`, with that marker's index (the first marker wins a tie).
pub open spec fn earliest_marker(hay: Seq<char>, markers: Seq<&str>, n: int) -> Option<(int, int)>
    decreases n,
{
    if n <= 0 {
        None
    } else {
        let rest = earliest_marker(hay, markers, n - 1);
        match first_occurrence(hay, markers[n - 1]@) {
            None => rest,
            Some(p) => match rest {
                None => Some((p, n - 1)),
                Some((q, k)) => if p < q {
                    Some((p, n - 1))
                } else {
                    rest
                },
            },
        }
    }
}

/// A detail as reports show it: compacted, and cut before the earliest
/// marker (found case-insensitively), with what was cut replaced by a
/// placeholder naming a response body or other sensitive details.
pub open spec fn sanitized_detail(value: Seq<char>) -> Seq<char> {
    let compact = compact_text(value);
    let lower = compact.map_values(|c: char| ascii_lower(c));
    match earliest_marker(lower, report_markers(), report_markers().len() as int) {
        None => compact,
        Some((i, k)) => {
            let prefix = trim(compact.take(i));
            let suffix = if contains_seq(report_markers()[k]@, "body"@) {
                "response-body-redacted"@
            } else {
                "sensitive-details-redacted"@
            };
            if prefix.len() == 0 {
                suffix
            } else {
                prefix + seq![' '] + suffix
            }
        },
    }
}

/// A detail (a reason or a next action) made safe for a report.
pub fn sanitize_report_detail(value: &str) -> (r: String)
    ensures
        r@ == sanitized_detail(value@),
{
    let compact = compact_chars(value);
    let lower = ascii_lower_chars(&compact);
    let markers: Vec<&str> = vec![
        "response body",
        "response-body",
        "set-cookie",
        "cookie=",
        "cookie:",
        "token=",
        "token:",
        "password=",
        "password:",
        "authorization:",
        "csrf",
    ];
    assert(markers@ == report_markers());
    let mut best: Option<(usize, usize)> = None;
    let mut k: usize = 0;
    while k < markers.len()
        invariant
            k <= markers.len(),
            markers@ == report_markers(),
            lower@ == compact@.map_values(|c: char| ascii_lower(c)),
            match best {
                Some((p, m)) => earliest_marker(lower@, markers@, k as int) == Some(
                    (p as int, m as int),
                ) && m < k && occurs_at(lower@, markers@[m as int]@, p as int),
                None => earliest_marker(lower@, markers@, k as int) is None,
            },
        decreases markers.len() - k,
    {
        let needle = chars_of(markers[k]);
        match find_chars(&lower, &needle) {
            None => {},
            Some(p) => match best {
                None => {
                    best = Some((p, k));
                },
                Some((q, m)) => {
                    if p < q {
                        best = Some((p, k));
                    }
                },
            },
        }
        k = k + 1;
    }
    match best {
        None => string_of(&compact),
        Some((i, m)) => {
            assert(lower@.len() == compact@.len());
            let head = copy_range(&compact, 0, i);
            assert(head@ =~= compact@.take(i as int));
            let prefix = trim_chars(&head);
            let marker = chars_of(markers[m]);
            let body = chars_of("body");
            let mut out: Vec<char> = Vec::new();
            if prefix.len() > 0 {
                push_all(&mut out, &prefix);
                out.push(' ');
            }
            if contains_chars(&marker, &body) {
                push_str(&mut out, "response-body-redacted");
            } else {
                push_str(&mut out, "sensitive-details-redacted");
            }
            proof {
                if prefix.len() > 0 {
                    let suffix = if contains_seq(report_markers()[m as int]@, "body"@) {
                        "response-body-redacted"@
                    } else {
                        "sensitive-details-redacted"@
                    };
                    assert(out@ =~= prefix@ + seq![' '] + suffix);
                } else {
                    assert(out@ =~= Seq::<char>::empty() + out@);
                }
            }
            string_of(&out)
        },
    }
}

/// What a failure is reported as: its API code, else its class.
pub open spec fn failure_reason(s: ApiFailureSnapshot) -> Seq<char> {
    match s.api_code {
        Some(code) => code@,
        None => s.class@,
    }
}

/// The reason a failure is reported under.
pub fn warning_reason(snapshot: &ApiFailureSnapshot) -> (r: String)
    ensures
        r@ == failure_reason(*snapshot),
{
    match &snapshot.api_code {
        Some(code) => code.clone(),
        None => snapshot.class.clone(),
    }
}

/// Records an unresolved revision: the count always grows, the sample list
/// only while it is shorter than `sample_limit`.
pub fn push_unresolved_item(
    summary: &mut CoverageSummary,
    sample_limit: usize,
    item: UnresolvedExposureItem,
)
    requires
        old(summary).unresolved_count < usize::MAX,
    ensures
        final(summary).unresolved_count == old(summary).unresolved_count + 1,
        final(summary).unresolved_items@ == if old(summary).unresolved_items.len() < sample_limit {
            old(summary).unresolved_items@.push(item)
        } else {
            old(summary).unresolved_items@
        },
        *final(summary) == (CoverageSummary {
            unresolved_count: final(summary).unresolved_count,
            unresolved_items: final(summary).unresolved_items,
            ..*old(summary)
        }),
{
    summary.unresolved_count = summary.unresolved_count + 1;
    if summary.unresolved_items.len() < sample_limit {
        summary.unresolved_items.push(item);
    }
}

/// The wait a failure asks for when it is a rate limit (HTTP 429 or the API
/// code `ratelimited`): its own retry-after, else the default.
pub open spec fn rate_limit_wait(s: ApiFailureSnapshot, default_backoff_seconds: u64) -> Option<u64> {
    if s.http_status == Some(429u16) || (s.api_code matches Some(code) && code@ == "ratelimited"@) {
        match s.retry_after_seconds {
            Some(r) => Some(r),
            None => Some(default_backoff_seconds),
        }
    } else {
        None
    }
}

/// The wait a rate-limited failure asks for; `None` for other failures.
pub fn rate_limit_retry_after_seconds(
    snapshot: &ApiFailureSnapshot,
    default_backoff_seconds: u64,
) -> (r: Option<u64>)
    ensures
        r == rate_limit_wait(*snapshot, default_backoff_seconds),
{
    let limited = match snapshot.http_status {
        Some(status) => status == 429,
        None => false,
    };
    let ratelimited_code = match &snapshot.api_code {
        Some(code) => str_eq(code.as_str(), "ratelimited"),
        None => false,
    };
    if limited || ratelimited_code {
        match snapshot.retry_after_seconds {
            Some(r) => Some(r),
            None => Some(default_backoff_seconds),
        }
    } else {
        None
    }
}

/// Why a catch-up window is refused.
#[derive(Clone, Copy, Debug, PartialEq, Eq)]
pub enum CatchupWindowError {
    /// The window ends before it starts.
    EndBeforeStart,
    /// The window is longer than the configured maximum.
    TooLarge { seconds: i64, max_seconds: i64 },
}

impl CatchupWindowError {
    /// The text of the refusal.
    pub open spec fn text(self) -> Seq<char> {
        match self {
            CatchupWindowError::EndBeforeStart => "catch-up window end must be >= start"@,
            CatchupWindowError::TooLarge { seconds, max_seconds } => "catch-up window "@
                + signed_decimal(seconds as int) + "s exceeds configured maximum "@
                + signed_decimal(max_seconds as int) + "s"@,
        }
    }

    /// The message shown for the refusal.
    pub fn message(&self) -> (r: String)
        ensures
            r@ == self.text(),
    {
        let mut out: Vec<char> = Vec::new();
        match *self {
            CatchupWindowError::EndBeforeStart => {
                push_str(&mut out, "catch-up window end must be >= start");
                assert(out@ =~= self.text());
            },
            CatchupWindowError::TooLarge { seconds, max_seconds } => {
                push_str(&mut out, "catch-up window ");
                push_signed_decimal(&mut out, seconds);
                push_str(&mut out, "s exceeds configured maximum ");
                push_signed_decimal(&mut out, max_seconds);
                push_str(&mut out, "s");
                assert(out@ =~= self.text());
            },
        }
        string_of(&out)
    }
}

/// Checks a catch-up window: it must not end before it starts, and it may
/// exceed `max_window_seconds` only when a large window is allowed or the run
/// only reports.
pub fn validate_window(
    start: i64,
    end: i64,
    max_window_seconds: i64,
    allow_large_window: bool,
    report_only: bool,
) -> (r: Result<(), CatchupWindowError>)
    requires
        representable_time(start),
        representable_time(end),
    ensures
        end < start ==> r == Err::<(), CatchupWindowError>(CatchupWindowError::EndBeforeStart),
        start <= end && end - start > max_window_seconds && !allow_large_window && !report_only
            ==> r == Err::<(), CatchupWindowError>(
            CatchupWindowError::TooLarge {
                seconds: (end - start) as i64,
                max_seconds: max_window_seconds,
            },
        ),
        start <= end && (end - start <= max_window_seconds || allow_large_window || report_only)
            ==> r is Ok,
{
    if end < start {
        return Err(CatchupWindowError::EndBeforeStart);
    }
    let seconds = end - start;
    if seconds > max_window_seconds && !allow_large_window && !report_only {
        return Err(CatchupWindowError::TooLarge { seconds, max_seconds: max_window_seconds });
    }
    Ok(())
}

/// Whether the texts are in strictly ascending order.
pub open spec fn strictly_ascending(s: Seq<Seq<char>>) -> bool {
    forall|i: int, j: int| 0 <= i < j < s.len() ==> text_lt(s[i], s[j])
}

/// Whether two lists of texts hold the same texts (ignoring repeats).
pub open spec fn same_texts(a: Seq<Seq<char>>, b: Seq<Seq<char>>) -> bool {
    forall|x: Seq<char>| a.contains(x) <==> b.contains(x)
}

/// A text is in a list with one more text iff it was in the list or is
/// the one added.
pub proof fn lemma_push_contains(s: Seq<Seq<char>>, t: Seq<char>, x: Seq<char>)
    ensures
        s.push(t).contains(x) <==> (s.contains(x) || x == t),
{
    if s.push(t).contains(x) {
        let i = choose|i: int| 0 <= i < s.len() + 1 && s.push(t)[i] == x;
        if i < s.len() {
            assert(s[i] == x);
        }
    }
    if s.contains(x) {
        let i = choose|i: int| 0 <= i < s.len() && s[i] == x;
        assert(s.push(t)[i] == x);
    }
    if x == t {
        assert(s.push(t)[s.len() as int] == x);
    }
}

/// Whether `a` comes strictly before `b`.
pub fn str_lt(a: &str, b: &str) -> (r: bool)
    ensures
        r == text_lt(a@, b@),
{
    let x = chars_of(a);
    let y = chars_of(b);
    chars_lt(&x, &y)
}

/// The distinct texts of `input`, in ascending order.
pub fn sorted_distinct(input: &Vec<String>) -> (r: Vec<String>)
    ensures
        strictly_ascending(views(r@)),
        same_texts(views(r@), views(input@)),
{
    let mut out: Vec<String> = Vec::new();
    let mut k: usize = 0;
    while k < input.len()
        invariant
            k <= input.len(),
            strictly_ascending(views(out@)),
            same_texts(views(out@), views(input@.take(k as int))),
        decreases input.len() - k,
    {
        let t = &input[k];
        let ghost old_out = views(out@);
        let mut p: usize = 0;
        while p < out.len() && str_lt(out[p].as_str(), t.as_str())
            invariant
                p <= out.len(),
                views(out@) == old_out,
                forall|j: int| 0 <= j < p ==> text_lt(views(out@)[j], t@),
            decreases out.len() - p,
        {
            p = p + 1;
        }
        assert(input@.take(k + 1) =~= input@.take(k as int).push(input@[k as int]));
        assert(views(input@.take(k + 1)) =~= views(input@.take(k as int)).push(t@));
        if p < out.len() && str_eq(out[p].as_str(), t.as_str()) {
            assert(views(out@)[p as int] == t@);
            assert(views(out@).contains(t@));
        } else {
            proof {
                if p < out.len() {
                    lemma_text_lt_total(t@, views(out@)[p as int]);
                }
            }
            out.insert(p, t.clone());
            proof {
                let nv = views(out@);
                assert(nv =~= old_out.insert(p as int, t@));
                assert forall|i: int, j: int| 0 <= i < j < nv.len() implies text_lt(nv[i], nv[j]) by {
                    if j < p {
                    } else if j == p {
                    } else if i < p {
                        if j == p + 1 {
                            lemma_text_lt_transitive(nv[i], t@, nv[j]);
                        } else {
                            lemma_text_lt_transitive(t@, old_out[p as int], nv[j]);
                            lemma_text_lt_transitive(nv[i], t@, nv[j]);
                        }
                    } else if i == p {
                        if j > p + 1 {
                            lemma_text_lt_transitive(t@, old_out[p as int], nv[j]);
                        }
                    } else {
                    }
                }
                assert forall|x: Seq<char>| nv.contains(x) <==> (old_out.contains(x) || x == t@) by {
                    if nv.contains(x) {
                        let i = choose|i: int| 0 <= i < nv.len() && nv[i] == x;
                        if i < p {
                            assert(old_out[i] == x);
                        } else if i > p {
                            assert(old_out[i - 1] == x);
                        }
                    }
                    if old_out.contains(x) {
                        let i = choose|i: int| 0 <= i < old_out.len() && old_out[i] == x;
                        if i < p {
                            assert(nv[i] == x);
                        } else {
                            assert(nv[i + 1] == x);
                        }
                    }
                    if x == t@ {
                        assert(nv[p as int] == x);
                    }
                }
            }
        }
        proof {
            let prev = views(input@.take(k as int));
            assert forall|x: Seq<char>| prev.push(t@).contains(x) <==> (prev.contains(x) || x == t@) by {
                lemma_push_contains(prev, t@, x);
            }
        }
        k = k + 1;
    }
    assert(input@.take(input.len() as int) =~= input@);
    out
}

/// The titles a catch-up covers: the requested titles when a scope is given,
/// else the whole watched set; sorted, each once.
pub fn scoped_titles_from_input(watched_titles: &Vec<String>, title_scope: Option<Vec<String>>) -> (r:
    Vec<String>)
    ensures
        strictly_ascending(views(r@)),
        same_texts(
            views(r@),
            views(
                match title_scope {
                    Some(titles) => titles@,
                    None => watched_titles@,
                },
            ),
        ),
{
    match title_scope {
        Some(titles) => sorted_distinct(&titles),
        None => sorted_distinct(watched_titles),
    }
}

/// `true` or `false`, as `bool` is displayed.
pub open spec fn bool_text(b: bool) -> Seq<char> {
    if b {
        "true"@
    } else {
        "false"@
    }
}

/// The text of an optional string, or `default` when absent.
pub open spec fn text_or(o: Option<String>, default: Seq<char>) -> Seq<char> {
    match o {
        Some(v) => v@,
        None => default,
    }
}

/// The texts joined with `sep` between them.
pub open spec fn joined(parts: Seq<Seq<char>>, sep: Seq<char>) -> Seq<char>
    decreases parts.len(),
{
    if parts.len() == 0 {
        Seq::empty()
    } else if parts.len() == 1 {
        parts[0]
    } else {
        joined(parts.drop_last(), sep) + sep + parts.last()
    }
}

/// The report line of an unresolved revision.
pub open spec fn unresolved_line(item: UnresolvedExposureItem) -> Seq<char> {
    "coverage.unresolved_item title="@ + compact_text(item.title@) + " revid="@ + decimal(
        item.revid as nat,
    ) + " revision_url="@ + text_or(item.revision_url, "none"@) + " age_seconds="@ + (
    match item.age_seconds {
        Some(a) => signed_decimal(a as int),
        None => "unknown"@,
    }) + " reason="@ + sanitized_detail(item.reason@) + " next_action="@ + sanitized_detail(
        item.next_action@,
    )
}

/// The report line of a coalesced warning.
pub open spec fn warning_line(w: WarningSummary) -> Seq<char> {
    "coverage.warning_summary class="@ + w.class@ + " api_code="@ + text_or(w.api_code, "none"@)
        + " http_status="@ + (match w.http_status {
        Some(v) => decimal(v as nat),
        None => "none"@,
    }) + " retryable="@ + bool_text(w.retryable) + " retry_after_seconds="@ + (
    match w.retry_after_seconds {
        Some(v) => decimal(v as nat),
        None => "none"@,
    }) + " count="@ + decimal(w.count as nat) + " samples="@ + joined(
        views(w.sample_titles@),
        "|"@,
    ) + " stopped_early="@ + bool_text(w.stopped_early)
}

/// The counter lines every report starts with.
pub open spec fn counter_lines(s: CoverageSummary) -> Seq<Seq<char>> {
    seq![
        "coverage.scope_label="@ + text_or(s.scope_label, "recent window"@),
        "coverage.requested_by="@ + s.requested_by@,
        "coverage.pages_checked="@ + decimal(s.pages_checked as nat),
        "coverage.edits_checked="@ + decimal(s.edits_checked as nat),
        "coverage.hidden="@ + decimal(s.hidden_count as nat),
        "coverage.already_hidden="@ + decimal(s.already_hidden_count as nat),
        "coverage.skipped="@ + decimal(s.skipped_count as nat),
        "coverage.failed="@ + decimal(s.failed_count as nat),
        "coverage.unresolved="@ + decimal(s.unresolved_count as nat),
    ]
}

/// The candidate-discovery lines, present when a candidate source is known.
pub open spec fn candidate_lines(s: CoverageSummary) -> Seq<Seq<char>> {
    match s.candidate_source {
        None => Seq::empty(),
        Some(source) => seq![
            "coverage.candidate_source="@ + source@,
            "coverage.candidate_count="@ + decimal(s.candidate_count as nat),
            "coverage.watched_candidate_count="@ + decimal(s.watched_candidate_count as nat),
            "coverage.candidate_chunk_count="@ + decimal(s.candidate_chunk_count as nat),
        ] + match s.candidate_discovery_elapsed_ms {
            Some(ms) => seq!["coverage.candidate_discovery_elapsed_ms="@ + decimal(ms as nat)],
            None => Seq::empty(),
        },
    }
}

/// The lines on how the run ended: fallback, early stop and back-off.
pub open spec fn ending_lines(s: CoverageSummary) -> Seq<Seq<char>> {
    (match s.fallback_reason {
        Some(r) => seq!["coverage.fallback_reason="@ + r@],
        None => Seq::empty(),
    }) + (match s.stopped_early_reason {
        Some(r) => seq!["coverage.stopped_early_reason="@ + r@],
        None => Seq::empty(),
    }) + (match s.backoff_until {
        Some(t) => seq!["coverage.backoff_until="@ + utc_seconds_text(t)],
        None => Seq::empty(),
    })
}

/// The report of a run, one line per entry.
pub open spec fn summary_lines(s: CoverageSummary) -> Seq<Seq<char>> {
    counter_lines(s) + candidate_lines(s) + ending_lines(s) + s.unresolved_items@.map_values(
        |item: UnresolvedExposureItem| unresolved_line(item),
    ) + s.warning_summaries@.map_values(|w: WarningSummary| warning_line(w))
}

fn labelled_count(label: &str, n: u64) -> (r: String)
    ensures
        r@ == label@ + decimal(n as nat),
{
    let mut out: Vec<char> = Vec::new();
    push_str(&mut out, label);
    push_decimal(&mut out, n);
    assert(out@ =~= label@ + decimal(n as nat));
    string_of(&out)
}

fn labelled_text(label: &str, value: &str) -> (r: String)
    ensures
        r@ == label@ + value@,
{
    let mut out: Vec<char> = Vec::new();
    push_str(&mut out, label);
    push_str(&mut out, value);
    assert(out@ =~= label@ + value@);
    string_of(&out)
}

fn push_bool(out: &mut Vec<char>, b: bool)
    ensures
        final(out)@ == old(out)@ + bool_text(b),
{
    if b {
        push_str(out, "true");
    } else {
        push_str(out, "false");
    }
}

/// Appends the texts of `parts` joined by `sep`.
pub fn push_joined(out: &mut Vec<char>, parts: &Vec<String>, sep: &str)
    ensures
        final(out)@ == old(out)@ + joined(views(parts@), sep@),
{
    let ghost start = out@;
    let mut i: usize = 0;
    while i < parts.len()
        invariant
            i <= parts.len(),
            out@ == start + joined(views(parts@).take(i as int), sep@),
        decreases parts.len() - i,
    {
        if i > 0 {
            push_str(out, sep);
        }
        push_str(out, parts[i].as_str());
        proof {
            let t = views(parts@).take(i + 1);
            assert(t.drop_last() =~= views(parts@).take(i as int));
            if i == 0 {
                assert(joined(views(parts@).take(0), sep@) =~= Seq::<char>::empty());
                assert(joined(t, sep@) == t[0]);
            }
        }
        i = i + 1;
        assert(out@ =~= start + joined(views(parts@).take(i as int), sep@));
    }
    assert(views(parts@).take(parts.len() as int) =~= views(parts@));
}

fn unresolved_line_text(item: &UnresolvedExposureItem) -> (r: String)
    ensures
        r@ == unresolved_line(*item),
{
    let mut out: Vec<char> = Vec::new();
    push_str(&mut out, "coverage.unresolved_item title=");
    let title = compact_chars(item.title.as_str());
    push_all(&mut out, &title);
    push_str(&mut out, " revid=");
    push_decimal(&mut out, item.revid);
    push_str(&mut out, " revision_url=");
    match &item.revision_url {
        Some(url) => push_str(&mut out, url.as_str()),
        None => push_str(&mut out, "none"),
    }
    push_str(&mut out, " age_seconds=");
    match item.age_seconds {
        Some(a) => push_signed_decimal(&mut out, a),
        None => push_str(&mut out, "unknown"),
    }
    push_str(&mut out, " reason=");
    let reason = sanitize_report_detail(item.reason.as_str());
    push_str(&mut out, reason.as_str());
    push_str(&mut out, " next_action=");
    let next = sanitize_report_detail(item.next_action.as_str());
    push_str(&mut out, next.as_str());
    assert(out@ =~= unresolved_line(*item));
    string_of(&out)
}

fn warning_line_text(w: &WarningSummary) -> (r: String)
    ensures
        r@ == warning_line(*w),
{
    let mut out: Vec<char> = Vec::new();
    push_str(&mut out, "coverage.warning_summary class=");
    push_str(&mut out, w.class.as_str());
    push_str(&mut out, " api_code=");
    match &w.api_code {
        Some(code) => push_str(&mut out, code.as_str()),
        None => push_str(&mut out, "none"),
    }
    push_str(&mut out, " http_status=");
    match w.http_status {
        Some(v) => push_decimal(&mut out, v as u64),
        None => push_str(&mut out, "none"),
    }
    push_str(&mut out, " retryable=");
    push_bool(&mut out, w.retryable);
    push_str(&mut out, " retry_after_seconds=");
    match w.retry_after_seconds {
        Some(v) => push_decimal(&mut out, v),
        None => push_str(&mut out, "none"),
    }
    push_str(&mut out, " count=");
    push_decimal(&mut out, w.count as u64);
    push_str(&mut out, " samples=");
    push_joined(&mut out, &w.sample_titles, "|");
    push_str(&mut out, " stopped_early=");
    push_bool(&mut out, w.stopped_early);
    assert(out@ =~= warning_line(*w));
    string_of(&out)
}

/// The report lines of a run: counters, candidate discovery, how the run
/// ended, each unresolved revision (details sanitized) and each warning.
pub fn format_summary_lines(summary: &CoverageSummary) -> (r: Vec<String>)
    requires
        summary.backoff_until matches Some(t) ==> representable_time(t),
    ensures
        views(r@) == summary_lines(*summary),
{
    let mut lines: Vec<String> = Vec::new();
    match &summary.scope_label {
        Some(label) => lines.push(labelled_text("coverage.scope_label=", label.as_str())),
        None => lines.push(labelled_text("coverage.scope_label=", "recent window")),
    }
    lines.push(labelled_text("coverage.requested_by=", summary.requested_by.as_str()));
    lines.push(labelled_count("coverage.pages_checked=", summary.pages_checked as u64));
    lines.push(labelled_count("coverage.edits_checked=", summary.edits_checked as u64));
    lines.push(labelled_count("coverage.hidden=", summary.hidden_count as u64));
    lines.push(labelled_count("coverage.already_hidden=", summary.already_hidden_count as u64));
    lines.push(labelled_count("coverage.skipped=", summary.skipped_count as u64));
    lines.push(labelled_count("coverage.failed=", summary.failed_count as u64));
    lines.push(labelled_count("coverage.unresolved=", summary.unresolved_count as u64));
    assert(views(lines@) =~= counter_lines(*summary));
    let ghost after_counters = views(lines@);
    if let Some(source) = &summary.candidate_source {
        lines.push(labelled_text("coverage.candidate_source=", source.as_str()));
        lines.push(labelled_count("coverage.candidate_count=", summary.candidate_count as u64));
        lines.push(
            labelled_count(
                "coverage.watched_candidate_count=",
                summary.watched_candidate_count as u64,
            ),
        );
        lines.push(
            labelled_count("coverage.candidate_chunk_count=", summary.candidate_chunk_count as u64),
        );
        if let Some(ms) = summary.candidate_discovery_elapsed_ms {
            lines.push(labelled_count("coverage.candidate_discovery_elapsed_ms=", ms));
        }
    }
    assert(views(lines@) =~= after_counters + candidate_lines(*summary));
    let ghost after_candidates = views(lines@);
    if let Some(reason) = &summary.fallback_reason {
        lines.push(labelled_text("coverage.fallback_reason=", reason.as_str()));
    }
    if let Some(reason) = &summary.stopped_early_reason {
        lines.push(labelled_text("coverage.stopped_early_reason=", reason.as_str()));
    }
    if let Some(until) = summary.backoff_until {
        let text = format_utc_seconds(until);
        lines.push(labelled_text("coverage.backoff_until=", text.as_str()));
    }
    assert(views(lines@) =~= after_candidates + ending_lines(*summary));
    let ghost head = views(lines@);
    let mut i: usize = 0;
    while i < summary.unresolved_items.len()
        invariant
            i <= summary.unresolved_items.len(),
            views(lines@) == head + summary.unresolved_items@.take(i as int).map_values(
                |item: UnresolvedExposureItem| unresolved_line(item),
            ),
        decreases summary.unresolved_items.len() - i,
    {
        let ghost prev = views(lines@);
        let line = unresolved_line_text(&summary.unresolved_items[i]);
        lines.push(line);
        proof {
            let f = |item: UnresolvedExposureItem| unresolved_line(item);
            assert(views(lines@) =~= prev.push(unresolved_line(summary.unresolved_items@[i as int])));
            assert(summary.unresolved_items@.take(i + 1).map_values(f) =~= summary.unresolved_items@.take(
                i as int,
            ).map_values(f).push(f(summary.unresolved_items@[i as int])));
        }
        i = i + 1;
        assert(views(lines@) =~= head + summary.unresolved_items@.take(i as int).map_values(
            |item: UnresolvedExposureItem| unresolved_line(item),
        ));
    }
    assert(summary.unresolved_items@.take(i as int) =~= summary.unresolved_items@);
    let ghost middle = views(lines@);
    let mut j: usize = 0;
    while j < summary.warning_summaries.len()
        invariant
            j <= summary.warning_summaries.len(),
            views(lines@) == middle + summary.warning_summaries@.take(j as int).map_values(
                |w: WarningSummary| warning_line(w),
            ),
        decreases summary.warning_summaries.len() - j,
    {
        let ghost prev = views(lines@);
        let line = warning_line_text(&summary.warning_summaries[j]);
        lines.push(line);
        proof {
            let f = |w: WarningSummary| warning_line(w);
            assert(views(lines@) =~= prev.push(warning_line(summary.warning_summaries@[j as int])));
            assert(summary.warning_summaries@.take(j + 1).map_values(f) =~= summary.warning_summaries@.take(
                j as int,
            ).map_values(f).push(f(summary.warning_summaries@[j as int])));
        }
        j = j + 1;
        assert(views(lines@) =~= middle + summary.warning_summaries@.take(j as int).map_values(
            |w: WarningSummary| warning_line(w),
        ));
    }
    assert(summary.warning_summaries@.take(j as int) =~= summary.warning_summaries@);
    assert(views(lines@) =~= summary_lines(*summary));
    lines
}

} // verus!
