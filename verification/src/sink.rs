//! The backend API: metric kinds and the traits that metric sinks implement.

use vstd::prelude::*;

use crate::aggregate::AggregateSource;
use crate::clock::Value;

verus! {

/// Used to differentiate between metric kinds in the backend.
#[derive(Debug, Copy, Clone, PartialEq, Eq, Structural)]
pub enum MetricKind {
    /// Is one item handled?
    Event,
    /// How many items are handled?
    Count,
    /// How much are we using or do we have left?
    Gauge,
    /// How long does this take?
    Time,
}

impl MetricKind {
    /// The kind's name, in lower case: `event`, `count`, `gauge` or `time`.
    pub fn label(&self) -> (l: &'static str)
        ensures
            l@ == match *self {
                MetricKind::Event => "event"@,
                MetricKind::Count => "count"@,
                MetricKind::Gauge => "gauge"@,
                MetricKind::Time => "time"@,
            },
    {
        match self {
            MetricKind::Event => "event",
            MetricKind::Count => "count",
            MetricKind::Gauge => "gauge",
            MetricKind::Time => "time",
        }
    }
}

/// A metric identifier defined by a specific metric sink implementation.
/// Passed back to when writing a metric value
/// May carry state specific to the sink's implementation
pub trait MetricKey {}

/// A sink-specific target for writing metrics to.
pub trait MetricWriter<M: MetricKey>: Send {
    /// What a write shows of the backend it writes to, such as its state just
    /// before and just after the write.
    type Trace;

    /// Whether `trace` shows `value` written to `metric`, and nothing else.
    spec fn wrote(&self, metric: M, value: Value, trace: Self::Trace) -> bool;

    /// Write a single metric value
    fn write(&self, metric: &M, value: Value) -> (trace: Ghost<Self::Trace>)
        ensures
            self.wrote(*metric, value, trace@),
    ;

    /// Some sinks may have buffering capability.
    /// Flushing makes sure all previously written metrics are propagated
    /// down the sink chain and to any applicable external outputs.
    fn flush(&self) {
    }
}

/// Main trait of the metrics backend API.
/// Defines a component that can be used when setting up a metrics backend stack.
/// Intermediate sinks transform how metrics are defined and written;
/// terminal sinks store or propagate metric values to other systems.
pub trait MetricSink {
    /// Metric identifier type of this sink.
    type Metric: MetricKey;

    /// Metric writer type of this sink.
    type Writer: MetricWriter<Self::Metric>;

    /// Whether `metric` is what this sink defines for a metric of `kind` named `name`.
    spec fn defines(&self, kind: MetricKind, name: Seq<char>, metric: Self::Metric) -> bool;

    /// Define a new sink-specific metric that can be used for writing values.
    fn new_metric(&self, kind: MetricKind, name: &str) -> (metric: Self::Metric)
        ensures
            self.defines(kind, name@, metric),
    ;

    /// Whether `writer` writes to this sink's backend.
    spec fn opens(&self, writer: Self::Writer) -> bool;

    /// Open a metric writer to write metrics to.
    /// Some sinks reuse the same writer while others allocate resources for every new writer.
    fn new_writer(&self) -> (writer: Self::Writer)
        ensures
            self.opens(writer),
    ;
}

/// Metric source trait
pub trait AsSource {
    /// Get the metric source.
    fn as_source(&self) -> AggregateSource;
}

/// Metric sink trait
pub trait AsSink<S: MetricSink> {
    /// Get the metric sink.
    fn as_sink(&self) -> S;
}

} // verus!
