//! Bounded latency samples and their percentile snapshots.

use vstd::prelude::*;
use vstd::relations::{sorted_by, total_ordering};

verus! {

broadcast use vstd::seq_lib::group_to_multiset_ensures;

/// How many recent samples each latency metric keeps.
pub const RECENT_LATENCY_SAMPLE_LIMIT: usize = 256;

/// Summary of the retained samples of one latency metric.
#[derive(Clone, Debug, Default, PartialEq, Eq)]
pub struct LatencyMetricSnapshot {
    pub sample_count: usize,
    pub latest_ms: Option<u64>,
    pub min_ms: Option<u64>,
    pub p50_ms: Option<u64>,
    pub p95_ms: Option<u64>,
    pub p99_ms: Option<u64>,
    pub max_ms: Option<u64>,
}

/// Snapshots of the two runtime latency metrics.
#[derive(Clone, Debug, Default, PartialEq, Eq)]
pub struct RuntimeLatencyMetricsSnapshot {
    pub observed_to_queue: LatencyMetricSnapshot,
    pub observed_to_hide: LatencyMetricSnapshot,
}

/// The most recent samples of one latency metric, oldest first.
#[derive(Clone, Debug, Default)]
pub struct BoundedLatencyMetric {
    pub samples: Vec<u64>,
    pub latest_ms: Option<u64>,
}

/// The two latency metrics that the runtime records.
#[derive(Clone, Debug)]
pub struct RuntimeLatencyMetrics {
    pub observed_to_queue: BoundedLatencyMetric,
    pub observed_to_hide: BoundedLatencyMetric,
}

pub open spec fn ascending_leq() -> spec_fn(u64, u64) -> bool {
    |a: u64, b: u64| a <= b
}

/// The samples in ascending order.
pub open spec fn ascending(s: Seq<u64>) -> Seq<u64> {
    s.sort_by(ascending_leq())
}

/// The rank used for the `p`-th percentile of `n` sorted samples:
/// `ceil((n - 1) * p / 100)`.
pub open spec fn percentile_rank(n: nat, p: nat) -> nat {
    let x = ((n - 1) * p) as nat;
    if x % 100 == 0 {
        x / 100
    } else {
        x / 100 + 1
    }
}

/// The `p`-th percentile of ascending samples: the sample at the percentile
/// rank, or `None` when there are no samples or the rank falls outside them.
pub open spec fn percentile_of(sorted: Seq<u64>, p: nat) -> Option<u64> {
    if sorted.len() == 0 {
        None
    } else {
        let rank = percentile_rank(sorted.len(), p);
        if rank < sorted.len() {
            Some(sorted[rank as int])
        } else {
            None
        }
    }
}

/// The snapshot of a metric holding `samples` (oldest first) and `latest`.
pub open spec fn snapshot_of(samples: Seq<u64>, latest: Option<u64>) -> LatencyMetricSnapshot {
    let s = ascending(samples);
    LatencyMetricSnapshot {
        sample_count: s.len() as usize,
        latest_ms: latest,
        min_ms: if s.len() > 0 { Some(s[0]) } else { None },
        p50_ms: percentile_of(s, 50),
        p95_ms: percentile_of(s, 95),
        p99_ms: percentile_of(s, 99),
        max_ms: if s.len() > 0 { Some(s.last()) } else { None },
    }
}

/// The retained samples after recording `value`: the oldest sample is
/// dropped when the limit is reached.
pub open spec fn samples_after_record(samples: Seq<u64>, value: u64) -> Seq<u64> {
    if samples.len() == RECENT_LATENCY_SAMPLE_LIMIT {
        samples.drop_first().push(value)
    } else {
        samples.push(value)
    }
}

proof fn lemma_ascending_total()
    ensures
        total_ordering(ascending_leq()),
{
}

proof fn lemma_sorted_unique(a: Seq<u64>, b: Seq<u64>)
    requires
        sorted_by(a, ascending_leq()),
        sorted_by(b, ascending_leq()),
        a.to_multiset() == b.to_multiset(),
    ensures
        a == b,
    decreases a.len(),
{
    assert(a.to_multiset().len() == a.len());
    assert(b.to_multiset().len() == b.len());
    if a.len() == 0 {
        assert(b.len() == 0);
        assert(a =~= b);
    } else {
        assert(b.len() == a.len());
        assert(a.to_multiset().count(a[0]) > 0);
        assert(b.contains(a[0]));
        let j = choose|j: int| 0 <= j < b.len() && b[j] == a[0];
        if j > 0 {
            assert((ascending_leq())(b[0], b[j]));
        }
        assert(b[0] <= b[j]);
        assert(b.to_multiset().count(b[0]) > 0);
        assert(a.contains(b[0]));
        let k = choose|k: int| 0 <= k < a.len() && a[k] == b[0];
        if k > 0 {
            assert((ascending_leq())(a[0], a[k]));
        }
        assert(a[0] <= a[k]);
        assert(a[0] == b[0]);
        let a1 = a.remove(0);
        let b1 = b.remove(0);
        assert(a1.to_multiset() == a.to_multiset().remove(a[0]));
        assert(b1.to_multiset() == b.to_multiset().remove(b[0]));
        assert forall|x: int, y: int| 0 <= x < y < a1.len() implies (ascending_leq())(a1[x], a1[y]) by {
            assert(a1[x] == a[x + 1] && a1[y] == a[y + 1]);
        }
        assert forall|x: int, y: int| 0 <= x < y < b1.len() implies (ascending_leq())(b1[x], b1[y]) by {
            assert(b1[x] == b[x + 1] && b1[y] == b[y + 1]);
        }
        lemma_sorted_unique(a1, b1);
        assert(a =~= seq![a[0]] + a1);
        assert(b =~= seq![b[0]] + b1);
    }
}

/// The samples in ascending order.
fn sorted_copy(v: &Vec<u64>) -> (r: Vec<u64>)
    ensures
        r@ == ascending(v@),
{
    let mut work = v.clone();
    let mut out: Vec<u64> = Vec::new();
    proof {
        assert(work@ == v@);
    }
    while work.len() > 0
        invariant
            sorted_by(out@, ascending_leq()),
            forall|i: int, j: int| 0 <= i < out.len() && 0 <= j < work.len() ==> out@[i] <= work@[j],
            out@.to_multiset().add(work@.to_multiset()) == v@.to_multiset(),
        decreases work.len(),
    {
        let mut m: usize = 0;
        let mut k: usize = 1;
        while k < work.len()
            invariant
                0 < work.len(),
                m < work.len(),
                1 <= k <= work.len(),
                forall|j: int| 0 <= j < k ==> work@[m as int] <= work@[j],
            decreases work.len() - k,
        {
            if work[k] < work[m] {
                m = k;
            }
            k = k + 1;
        }
        let ghost old_out = out@;
        let ghost old_work = work@;
        let x = work.remove(m);
        out.push(x);
        proof {
            assert(old_work.remove(m as int).to_multiset() == old_work.to_multiset().remove(x));
            assert(out@.to_multiset() == old_out.to_multiset().insert(x));
            assert(old_work.to_multiset().count(x) > 0) by {
                assert(old_work.contains(x));
            }
            assert(out@.to_multiset().add(work@.to_multiset()) =~= old_out.to_multiset().add(
                old_work.to_multiset(),
            ));
            assert forall|i: int, j: int| 0 <= i < out.len() && 0 <= j < work.len() implies out@[i]
                <= work@[j] by {
                if i < old_out.len() {
                    assert(out@[i] == old_out[i]);
                    if j < m {
                        assert(work@[j] == old_work[j]);
                    } else {
                        assert(work@[j] == old_work[j + 1]);
                    }
                } else {
                    if j < m {
                        assert(work@[j] == old_work[j]);
                    } else {
                        assert(work@[j] == old_work[j + 1]);
                    }
                }
            }
            assert forall|i: int, j: int| 0 <= i < j < out.len() implies (ascending_leq())(
                out@[i],
                out@[j],
            ) by {
                if j < old_out.len() {
                } else {
                    assert(out@[j] == x);
                    assert(old_work[m as int] == x);
                }
            }
        }
    }
    proof {
        assert(work@.to_multiset().len() == 0);
        assert(out@.to_multiset() =~= v@.to_multiset());
        lemma_ascending_total();
        v@.lemma_sort_by_ensures(ascending_leq());
        lemma_sorted_unique(out@, ascending(v@));
    }
    out
}

/// The `p`-th percentile of ascending samples.
pub fn percentile(sorted: &Vec<u64>, p: usize) -> (r: Option<u64>)
    requires
        sorted.len() == 0 || (sorted.len() - 1) * p <= usize::MAX,
    ensures
        r == percentile_of(sorted@, p as nat),
{
    if sorted.len() == 0 {
        return None;
    }
    let x = (sorted.len() - 1) * p;
    let rank = if x % 100 == 0 {
        x / 100
    } else {
        x / 100 + 1
    };
    if rank < sorted.len() {
        Some(sorted[rank])
    } else {
        None
    }
}

impl BoundedLatencyMetric {
    /// No samples and no latest value.
    pub fn new() -> (r: Self)
        ensures
            r.samples@ == Seq::<u64>::empty(),
            r.latest_ms is None,
    {
        BoundedLatencyMetric { samples: Vec::new(), latest_ms: None }
    }

    /// At most the sample limit is retained.
    pub open spec fn wf(&self) -> bool {
        self.samples.len() <= RECENT_LATENCY_SAMPLE_LIMIT
    }

    /// Records one latency sample.
    pub fn record(&mut self, value_ms: u64)
        requires
            old(self).wf(),
        ensures
            final(self).wf(),
            final(self).samples@ == samples_after_record(old(self).samples@, value_ms),
            final(self).latest_ms == Some(value_ms),
    {
        if self.samples.len() == RECENT_LATENCY_SAMPLE_LIMIT {
            let _ = self.samples.remove(0);
        }
        self.samples.push(value_ms);
        self.latest_ms = Some(value_ms);
        proof {
            if old(self).samples.len() == RECENT_LATENCY_SAMPLE_LIMIT {
                assert(old(self).samples@.remove(0) =~= old(self).samples@.drop_first());
            }
        }
    }

    /// Count, latest, minimum, percentiles and maximum of the retained samples.
    pub fn snapshot(&self) -> (r: LatencyMetricSnapshot)
        requires
            self.wf(),
        ensures
            r == snapshot_of(self.samples@, self.latest_ms),
    {
        let sorted = sorted_copy(&self.samples);
        proof {
            lemma_ascending_total();
            self.samples@.lemma_sort_by_ensures(ascending_leq());
            assert(ascending(self.samples@).to_multiset().len() == ascending(self.samples@).len());
            assert(self.samples@.to_multiset().len() == self.samples@.len());
            assert(sorted@.len() == self.samples@.len());
        }
        let n = sorted.len();
        LatencyMetricSnapshot {
            sample_count: n,
            latest_ms: self.latest_ms,
            min_ms: if n > 0 { Some(sorted[0]) } else { None },
            p50_ms: percentile(&sorted, 50),
            p95_ms: percentile(&sorted, 95),
            p99_ms: percentile(&sorted, 99),
            max_ms: if n > 0 { Some(sorted[n - 1]) } else { None },
        }
    }

    /// Drops every sample and the latest value.
    pub fn reset(&mut self)
        ensures
            final(self).samples@ == Seq::<u64>::empty(),
            final(self).latest_ms is None,
    {
        self.samples = Vec::new();
        self.latest_ms = None;
    }
}

impl RuntimeLatencyMetrics {
    /// Both metrics empty.
    pub fn new() -> (r: Self)
        ensures
            r.observed_to_queue.samples@ == Seq::<u64>::empty(),
            r.observed_to_hide.samples@ == Seq::<u64>::empty(),
            r.observed_to_queue.latest_ms is None,
            r.observed_to_hide.latest_ms is None,
    {
        RuntimeLatencyMetrics {
            observed_to_queue: BoundedLatencyMetric::new(),
            observed_to_hide: BoundedLatencyMetric::new(),
        }
    }

    pub open spec fn wf(&self) -> bool {
        self.observed_to_queue.wf() && self.observed_to_hide.wf()
    }
}

/// Records the latency from observing an edit to queueing its hide.
pub fn record_observed_to_queue_latency_ms(metrics: &mut RuntimeLatencyMetrics, value_ms: u64)
    requires
        old(metrics).wf(),
    ensures
        final(metrics).wf(),
        final(metrics).observed_to_queue.samples@ == samples_after_record(
            old(metrics).observed_to_queue.samples@,
            value_ms,
        ),
        final(metrics).observed_to_queue.latest_ms == Some(value_ms),
        final(metrics).observed_to_hide == old(metrics).observed_to_hide,
{
    metrics.observed_to_queue.record(value_ms);
}

/// Records the latency from observing an edit to its hide completing.
pub fn record_observed_to_hide_latency_ms(metrics: &mut RuntimeLatencyMetrics, value_ms: u64)
    requires
        old(metrics).wf(),
    ensures
        final(metrics).wf(),
        final(metrics).observed_to_hide.samples@ == samples_after_record(
            old(metrics).observed_to_hide.samples@,
            value_ms,
        ),
        final(metrics).observed_to_hide.latest_ms == Some(value_ms),
        final(metrics).observed_to_queue == old(metrics).observed_to_queue,
{
    metrics.observed_to_hide.record(value_ms);
}

/// Snapshots of both runtime latency metrics.
pub fn snapshot_runtime_latency_metrics(metrics: &RuntimeLatencyMetrics) -> (r:
    RuntimeLatencyMetricsSnapshot)
    requires
        metrics.wf(),
    ensures
        r.observed_to_queue == snapshot_of(
            metrics.observed_to_queue.samples@,
            metrics.observed_to_queue.latest_ms,
        ),
        r.observed_to_hide == snapshot_of(
            metrics.observed_to_hide.samples@,
            metrics.observed_to_hide.latest_ms,
        ),
{
    RuntimeLatencyMetricsSnapshot {
        observed_to_queue: metrics.observed_to_queue.snapshot(),
        observed_to_hide: metrics.observed_to_hide.snapshot(),
    }
}

/// Clears both runtime latency metrics.
pub fn reset_runtime_latency_metrics_for_tests(metrics: &mut RuntimeLatencyMetrics)
    ensures
        final(metrics).observed_to_queue.samples@ == Seq::<u64>::empty(),
        final(metrics).observed_to_hide.samples@ == Seq::<u64>::empty(),
        final(metrics).observed_to_queue.latest_ms is None,
        final(metrics).observed_to_hide.latest_ms is None,
{
    metrics.observed_to_queue.reset();
    metrics.observed_to_hide.reset();
}

/// How many recent samples each latency metric keeps.
pub fn latency_sample_limit_for_tests() -> (r: usize)
    ensures
        r == RECENT_LATENCY_SAMPLE_LIMIT,
{
    RECENT_LATENCY_SAMPLE_LIMIT
}

/// However many samples are recorded, a metric keeps at most the limit and
/// always keeps the newest sample last.
pub proof fn metric_record_is_bounded_and_keeps_newest(samples: Seq<u64>, value: u64)
    requires
        samples.len() <= RECENT_LATENCY_SAMPLE_LIMIT,
    ensures
        samples_after_record(samples, value).len() <= RECENT_LATENCY_SAMPLE_LIMIT,
        samples_after_record(samples, value).last() == value,
{
}

} // verus!
