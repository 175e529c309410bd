//! Snapshots that catch-up runs and API failures leave behind for reports.
//! Instants are whole seconds since the Unix epoch.

use vstd::prelude::*;

use crate::text::copy_opt_string;

verus! {

/// What is known of one failed API call, without its payload.
#[derive(Clone, Debug, Default, PartialEq, Eq)]
pub struct ApiFailureSnapshot {
    pub class: String,
    pub api_code: Option<String>,
    pub http_status: Option<u16>,
    pub content_type: Option<String>,
    pub retryable: bool,
    pub retry_after_seconds: Option<u64>,
    pub operation: String,
    pub sample_title: Option<String>,
    pub sample_revid: Option<u64>,
    pub message: String,
    pub occurred_at: Option<i64>,
}

/// Failures of one root cause during a run, coalesced.
#[derive(Clone, Debug, Default, PartialEq, Eq)]
pub struct WarningSummary {
    pub class: String,
    pub api_code: Option<String>,
    pub http_status: Option<u16>,
    pub content_type: Option<String>,
    pub retryable: bool,
    pub retry_after_seconds: Option<u64>,
    pub operation: String,
    pub count: usize,
    pub sample_titles: Vec<String>,
    pub message: String,
    pub stopped_early: bool,
}

/// A revision that a run could not make safe, with what to do about it.
#[derive(Clone, Debug, Default, PartialEq, Eq)]
pub struct UnresolvedExposureItem {
    pub title: String,
    pub revid: u64,
    pub revision_url: Option<String>,
    pub age_seconds: Option<i64>,
    pub reason: String,
    pub next_action: String,
}

/// The outcome of one catch-up or coverage run.
#[derive(Clone, Debug, Default, PartialEq, Eq)]
pub struct CoverageSummary {
    pub scope_label: Option<String>,
    pub started_at: Option<i64>,
    pub ended_at: Option<i64>,
    pub requested_by: String,
    pub pages_checked: usize,
    pub edits_checked: usize,
    pub hidden_count: usize,
    pub already_hidden_count: usize,
    pub skipped_count: usize,
    pub failed_count: usize,
    pub unresolved_count: usize,
    pub unresolved_items: Vec<UnresolvedExposureItem>,
    pub warning_summaries: Vec<WarningSummary>,
    pub candidate_source: Option<String>,
    pub candidate_count: usize,
    pub watched_candidate_count: usize,
    pub candidate_chunk_count: usize,
    pub candidate_discovery_elapsed_ms: Option<u64>,
    pub fallback_reason: Option<String>,
    pub stopped_early_reason: Option<String>,
    pub backoff_until: Option<i64>,
}

/// What one reload of the watched-page list did.
#[derive(Clone, Debug, Default, PartialEq, Eq)]
pub struct SourceListRefresh {
    pub trigger_title: String,
    pub trigger_revid: Option<u64>,
    pub started_at: Option<i64>,
    pub completed_at: Option<i64>,
    pub old_source_revid: Option<u64>,
    pub new_source_revid: Option<u64>,
    pub redirects_reused: bool,
    pub catchup_title_scope: Option<String>,
    pub outcome: String,
    pub new_titles_count: usize,
    pub removed_titles_count: usize,
    pub catchup_triggered: bool,
    pub deferred_until: Option<i64>,
    pub error: Option<ApiFailureSnapshot>,
}

impl ApiFailureSnapshot {
    /// A field-by-field copy.
    pub fn copy(&self) -> (r: Self)
        ensures
            r == *self,
    {
        ApiFailureSnapshot {
            class: self.class.clone(),
            api_code: copy_opt_string(&self.api_code),
            http_status: self.http_status,
            content_type: copy_opt_string(&self.content_type),
            retryable: self.retryable,
            retry_after_seconds: self.retry_after_seconds,
            operation: self.operation.clone(),
            sample_title: copy_opt_string(&self.sample_title),
            sample_revid: self.sample_revid,
            message: self.message.clone(),
            occurred_at: self.occurred_at,
        }
    }
}

/// `a` is a copy of `b`: every field equal, the sample titles alike.
pub open spec fn same_warning(a: WarningSummary, b: WarningSummary) -> bool {
    &&& a == (WarningSummary { sample_titles: a.sample_titles, ..b })
    &&& a.sample_titles@ == b.sample_titles@
}

/// `a` is a copy of `b`, item by item.
pub open spec fn same_warnings(a: Seq<WarningSummary>, b: Seq<WarningSummary>) -> bool {
    &&& a.len() == b.len()
    &&& forall|i: int| 0 <= i < a.len() ==> same_warning(#[trigger] a[i], b[i])
}

impl WarningSummary {
    /// A field-by-field copy.
    pub fn copy(&self) -> (r: Self)
        ensures
            same_warning(r, *self),
    {
        WarningSummary {
            class: self.class.clone(),
            api_code: copy_opt_string(&self.api_code),
            http_status: self.http_status,
            content_type: copy_opt_string(&self.content_type),
            retryable: self.retryable,
            retry_after_seconds: self.retry_after_seconds,
            operation: self.operation.clone(),
            count: self.count,
            sample_titles: crate::cache::copy_strings(&self.sample_titles),
            message: self.message.clone(),
            stopped_early: self.stopped_early,
        }
    }
}

/// A copy of a list of warning summaries.
pub fn copy_warnings(v: &Vec<WarningSummary>) -> (r: Vec<WarningSummary>)
    ensures
        same_warnings(r@, v@),
{
    let mut out: Vec<WarningSummary> = Vec::new();
    let mut i: usize = 0;
    while i < v.len()
        invariant
            i <= v.len(),
            out@.len() == i,
            forall|j: int| 0 <= j < i ==> same_warning(#[trigger] out@[j], v@[j]),
        decreases v.len() - i,
    {
        out.push(v[i].copy());
        i = i + 1;
    }
    out
}

} // verus!
