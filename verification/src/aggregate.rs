//! In-memory aggregation: a sink whose metrics accumulate count, sum, minimum
//! and maximum of the values written to them, and a source to read them back.

use std::sync::Arc;
use vstd::prelude::*;
use vstd::rwlock::{RwLock, RwLockPredicate};

use crate::clock::Value;
use crate::score::{keys_distinct, record_spec, AggregateScore, ScoreTable, ScoreView};
use crate::sink::{AsSink, AsSource, MetricKey, MetricKind, MetricSink, MetricWriter};

verus! {

/// The invariant that the shared score table keeps: each metric has at most one score.
pub struct WellFormedTable;

impl RwLockPredicate<ScoreTable> for WellFormedTable {
    open spec fn inv(self, t: ScoreTable) -> bool {
        t.wf()
    }
}

type SharedTable = Arc<RwLock<ScoreTable, WellFormedTable>>;

/// Aggregates the values of its metrics in memory.
pub struct MetricAggregator {
    metrics: SharedTable,
}

impl MetricAggregator {
    /// The lock that holds the scores of this aggregator.
    pub closed spec fn shared(&self) -> RwLock<ScoreTable, WellFormedTable> {
        *self.metrics
    }

    /// An aggregator without any metric.
    pub fn new() -> (a: MetricAggregator) {
        let table = ScoreTable::new();
        MetricAggregator { metrics: Arc::new(RwLock::new(table, Ghost(WellFormedTable))) }
    }
}

/// The identifier of a metric defined on an aggregate sink: its kind and full name.
#[derive(Debug)]
pub struct AggregateKey {
    kind: MetricKind,
    name: String,
}

impl View for AggregateKey {
    type V = (MetricKind, Seq<char>);

    closed spec fn view(&self) -> (MetricKind, Seq<char>) {
        (self.kind, self.name@)
    }
}

impl MetricKey for AggregateKey {

}

/// The sink side of an aggregator: metrics defined here write into its scores.
pub struct AggregateSink {
    metrics: SharedTable,
}

impl AggregateSink {
    /// The lock that holds the scores this sink writes to.
    pub closed spec fn shared(&self) -> RwLock<ScoreTable, WellFormedTable> {
        *self.metrics
    }
}

impl MetricSink for AggregateSink {
    type Metric = AggregateKey;

    type Writer = AggregateSink;

    open spec fn defines(&self, kind: MetricKind, name: Seq<char>, metric: AggregateKey) -> bool {
        metric@ == (kind, name)
    }

    fn new_metric(&self, kind: MetricKind, name: &str) -> (metric: AggregateKey) {
        let name = name.to_owned();
        let (mut table, handle) = self.metrics.acquire_write();
        table.register(kind, &name);
        handle.release_write(table);
        AggregateKey { kind, name }
    }

    open spec fn opens(&self, writer: AggregateSink) -> bool {
        writer.shared() == self.shared()
    }

    fn new_writer(&self) -> (w: AggregateSink) {
        AggregateSink { metrics: self.metrics.clone() }
    }
}

impl MetricWriter<AggregateKey> for AggregateSink {
    /// The scores of the aggregator as the write found them and as it left them.
    type Trace = (Seq<ScoreView>, Seq<ScoreView>);

    open spec fn wrote(
        &self,
        metric: AggregateKey,
        value: Value,
        trace: (Seq<ScoreView>, Seq<ScoreView>),
    ) -> bool {
        &&& keys_distinct(trace.0)
        &&& trace.1 == record_spec(trace.0, metric@.0, metric@.1, value)
    }

    fn write(&self, metric: &AggregateKey, value: Value) -> (trace: Ghost<
        (Seq<ScoreView>, Seq<ScoreView>),
    >) {
        let (mut table, handle) = self.metrics.acquire_write();
        let ghost before = table@;
        table.record(metric.kind, &metric.name, value);
        let ghost after = table@;
        handle.release_write(table);
        Ghost((before, after))
    }
}

/// An aggregate sink defines one metric per kind and name: defining the same
/// metric twice gives the same key, so both write to the same score.
pub proof fn law_aggregate_definitions_agree(
    sink: AggregateSink,
    kind: MetricKind,
    name: Seq<char>,
    m1: AggregateKey,
    m2: AggregateKey,
)
    requires
        sink.defines(kind, name, m1),
        sink.defines(kind, name, m2),
    ensures
        m1@ == m2@,
{
}

/// A metric defined on a sink of an aggregator, written with a writer that sink
/// opened, lands in that aggregator's scores under the metric's kind and name.
pub proof fn law_sink_writes_into_its_aggregator(
    agg: MetricAggregator,
    sink: AggregateSink,
    kind: MetricKind,
    name: Seq<char>,
    key: AggregateKey,
    writer: AggregateSink,
)
    requires
        sink.shared() == agg.shared(),
        sink.defines(kind, name, key),
        sink.opens(writer),
    ensures
        writer.shared() == agg.shared(),
        key@ == (kind, name),
{
}

/// The source side of an aggregator: reads the scores of its metrics.
pub struct AggregateSource {
    metrics: SharedTable,
}

impl AggregateSource {
    /// The lock that holds the scores this source reads.
    pub closed spec fn shared(&self) -> RwLock<ScoreTable, WellFormedTable> {
        *self.metrics
    }

    /// Copies of the scores of all metrics, in the order they were defined.
    /// Each metric has at most one score among them.
    pub fn snapshot(&self) -> (scores: Vec<AggregateScore>)
        ensures
            keys_distinct(scores@.map_values(|s: AggregateScore| s@)),
    {
        let handle = self.metrics.acquire_read();
        let table = handle.borrow();
        let scores = table.snapshot();
        handle.release_read();
        scores
    }
}

impl AsSink<AggregateSink> for MetricAggregator {
    fn as_sink(&self) -> (s: AggregateSink)
        ensures
            s.shared() == self.shared(),
    {
        AggregateSink { metrics: self.metrics.clone() }
    }
}

impl AsSource for MetricAggregator {
    fn as_source(&self) -> (s: AggregateSource)
        ensures
            s.shared() == self.shared(),
    {
        AggregateSource { metrics: self.metrics.clone() }
    }
}

/// Aggregate metrics in memory.
/// Depending on the type of metric, count, sum, minimum and maximum of values will be tracked.
/// Needs to be connected to a publish to be useful.
pub fn aggregate() -> (a: MetricAggregator) {
    MetricAggregator::new()
}

} // verus!
