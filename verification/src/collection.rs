//! Storage of the metrics collected for each process

use std::collections::HashMap;

use vstd::prelude::*;

use crate::process::Pid;
use crate::time::{Span, Timestamp};

verus! {

broadcast use vstd::std_specs::hash::group_hash_axioms;

/// A metric, with the timestamp of the iteration during which it was collected
#[derive(Copy, Clone, PartialEq, Eq, Structural, Debug)]
pub struct DatedMetric<M> {
    pub metric: M,
    pub timestamp: Timestamp,
}

/// The metrics whose timestamp the span covers, in order
pub open spec fn spec_in_span<M>(metrics: Seq<DatedMetric<M>>, span: Span) -> Seq<DatedMetric<M>> {
    metrics.filter(
        |dm: DatedMetric<M>|
            span.spec_begin().spec_millis() <= dm.timestamp.spec_millis()
                <= span.spec_end().spec_millis(),
    )
}

/// Stores the metrics of a process, in the order in which they were collected
pub struct ProcessData<M> {
    metrics: Vec<DatedMetric<M>>,
}

impl<M: Copy> ProcessData<M> {
    /// The collected metrics, in order
    pub closed spec fn spec_metrics(&self) -> Seq<DatedMetric<M>> {
        self.metrics@
    }

    /// No metric collected yet
    pub fn new() -> (d: Self)
        ensures
            d.spec_metrics() == Seq::<DatedMetric<M>>::empty(),
    {
        Self { metrics: Vec::new() }
    }

    /// Stores a metric collected during the iteration of timestamp `now`
    pub fn push(&mut self, metric: M, now: Timestamp)
        ensures
            final(self).spec_metrics() == old(self).spec_metrics().push(
                DatedMetric { metric, timestamp: now },
            ),
    {
        self.metrics.push(DatedMetric { metric, timestamp: now });
    }

    /// The last collected metric, if any
    pub fn last(&self) -> (m: Option<&M>)
        ensures
            self.spec_metrics().len() == 0 ==> m is None,
            self.spec_metrics().len() > 0 ==> m is Some && *m->Some_0
                == self.spec_metrics().last().metric,
    {
        if self.metrics.len() == 0 {
            None
        } else {
            Some(&self.metrics[self.metrics.len() - 1].metric)
        }
    }

    /// The metrics collected during the span, in order
    pub fn extract_metrics_according_to_span(&self, span: &Span) -> (r: Vec<DatedMetric<M>>)
        ensures
            r@ == spec_in_span(self.spec_metrics(), *span),
    {
        let ghost ms = self.metrics@;
        let ghost keep = |dm: DatedMetric<M>|
            span.spec_begin().spec_millis() <= dm.timestamp.spec_millis()
                <= span.spec_end().spec_millis();
        let mut r: Vec<DatedMetric<M>> = Vec::new();
        let mut i: usize = 0;
        while i < self.metrics.len()
            invariant
                ms == self.metrics@,
                keep == (|dm: DatedMetric<M>|
                    span.spec_begin().spec_millis() <= dm.timestamp.spec_millis()
                        <= span.spec_end().spec_millis()),
                i <= ms.len(),
                r@ == ms.take(i as int).filter(keep),
            decreases ms.len() - i,
        {
            let dm = self.metrics[i];
            proof {
                reveal_with_fuel(Seq::<_>::filter, 1);
                assert(ms.take(i + 1).drop_last() =~= ms.take(i as int));
            }
            if span.contains(dm.timestamp) {
                r.push(dm);
            }
            i = i + 1;
        }
        proof {
            assert(ms.take(i as int) =~= ms);
        }
        r
    }
}

/// Manages the metrics of each process: the metrics that have been collected for a process, or
/// a default metric for a process of which none has been
pub struct MetricCollection<M> {
    processes_data: HashMap<Pid, ProcessData<M>>,
    default: M,
}

impl<M: Copy + Default> MetricCollection<M> {
    /// The metrics collected for each process of which some have been collected
    pub closed spec fn spec_metrics(&self) -> Map<Pid, Seq<DatedMetric<M>>> {
        self.processes_data@.map_values(|d: ProcessData<M>| d.spec_metrics())
    }

    /// The metrics collected for a process, in order; none when none have been collected
    pub open spec fn spec_metrics_of(&self, pid: Pid) -> Seq<DatedMetric<M>> {
        if self.spec_metrics().contains_key(pid) {
            self.spec_metrics()[pid]
        } else {
            Seq::empty()
        }
    }

    /// The metric that stands for a process of which no metric has been collected
    pub closed spec fn spec_default(&self) -> M {
        self.default
    }

    /// No metric collected yet
    pub fn new() -> (c: Self)
        ensures
            c.spec_metrics() == Map::<Pid, Seq<DatedMetric<M>>>::empty(),
    {
        let c = Self { processes_data: HashMap::new(), default: M::default() };
        assert(c.spec_metrics() =~= Map::<Pid, Seq<DatedMetric<M>>>::empty());
        c
    }

    /// Stores a metric of a process, collected during the iteration of timestamp `now`
    pub fn push(&mut self, pid: Pid, metric: M, now: Timestamp)
        ensures
            final(self).spec_metrics() == old(self).spec_metrics().insert(
                pid,
                old(self).spec_metrics_of(pid).push(DatedMetric { metric, timestamp: now }),
            ),
            final(self).spec_default() == old(self).spec_default(),
    {
        let mut process_data = match self.processes_data.remove(&pid) {
            Some(d) => d,
            None => ProcessData::new(),
        };
        process_data.push(metric, now);
        self.processes_data.insert(pid, process_data);
        proof {
            assert(self.spec_metrics() =~= old(self).spec_metrics().insert(
                pid,
                old(self).spec_metrics_of(pid).push(DatedMetric { metric, timestamp: now }),
            ));
        }
    }

    /// The last metric collected for the process, or the default metric if none has been
    pub fn last_or_default(&self, pid: Pid) -> (m: &M)
        ensures
            self.spec_metrics_of(pid).len() > 0 ==> *m == self.spec_metrics_of(pid).last().metric,
            self.spec_metrics_of(pid).len() == 0 ==> *m == self.spec_default(),
    {
        match self.processes_data.get(&pid) {
            Some(d) => match d.last() {
                Some(m) => m,
                None => &self.default,
            },
            None => &self.default,
        }
    }

    /// The metrics of the process collected during the span, in order
    pub fn metrics_in_span(&self, pid: Pid, span: &Span) -> (r: Vec<DatedMetric<M>>)
        ensures
            r@ == spec_in_span(self.spec_metrics_of(pid), *span),
    {
        match self.processes_data.get(&pid) {
            Some(d) => d.extract_metrics_according_to_span(span),
            None => {
                proof {
                    reveal_with_fuel(Seq::<_>::filter, 1);
                }
                Vec::new()
            },
        }
    }

    /// The metric that stands for a process of which no metric has been collected
    pub fn default_metric(&self) -> (m: &M)
        ensures
            *m == self.spec_default(),
    {
        &self.default
    }
}

/// The metrics in a span are the collected metrics that the span covers: if the span covers
/// all of them, all of them, in the order in which they were collected.
pub proof fn law_span_covering_all_metrics<M>(metrics: Seq<DatedMetric<M>>, span: Span)
    requires
        forall|i: int|
            0 <= i < metrics.len() ==> span.spec_begin().spec_millis()
                <= #[trigger] metrics[i].timestamp.spec_millis() <= span.spec_end().spec_millis(),
    ensures
        spec_in_span(metrics, span) == metrics,
    decreases metrics.len(),
{
    reveal_with_fuel(Seq::<_>::filter, 1);
    if metrics.len() > 0 {
        let rest = metrics.drop_last();
        assert forall|i: int| 0 <= i < rest.len() implies span.spec_begin().spec_millis()
            <= #[trigger] rest[i].timestamp.spec_millis() <= span.spec_end().spec_millis() by {
            assert(rest[i] == metrics[i]);
        }
        law_span_covering_all_metrics(rest, span);
        assert(metrics[metrics.len() - 1] == metrics.last());
        assert(rest.push(metrics.last()) =~= metrics);
    }
}

/// A read gives back what the last write wrote: once a metric is pushed for a process, it is
/// the last metric of that process, after the metrics pushed before it, and the metrics of the
/// other processes are unchanged
pub proof fn law_last_pushed_metric_is_read_back<M>(
    metrics: Map<Pid, Seq<DatedMetric<M>>>,
    pid: Pid,
    metric: M,
    now: Timestamp,
)
    ensures
        ({
            let previous = if metrics.contains_key(pid) {
                metrics[pid]
            } else {
                Seq::empty()
            };
            let after = metrics.insert(pid, previous.push(DatedMetric { metric, timestamp: now }));
            &&& after[pid].last().metric == metric
            &&& after[pid].last().timestamp == now
            &&& after[pid].drop_last() == previous
            &&& forall|other: Pid| other != pid ==> #[trigger] after.contains_key(other)
                == metrics.contains_key(other) && (metrics.contains_key(other) ==> after[other]
                == metrics[other])
        }),
{
    let previous = if metrics.contains_key(pid) {
        metrics[pid]
    } else {
        Seq::empty()
    };
    assert(previous.push(DatedMetric { metric, timestamp: now }).drop_last() =~= previous);
}

} // verus!
