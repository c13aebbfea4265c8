//! A sink that sends every metric to two backends.

use vstd::prelude::*;

use crate::clock::Value;
use crate::sink::{MetricKey, MetricKind, MetricSink, MetricWriter};

verus! {

/// The pair of metrics that a dual sink defines, one on each backend.
pub struct DualKey<M1, M2> {
    first: M1,
    second: M2,
}

impl<M1, M2> DualKey<M1, M2> {
    /// The metric on the first backend.
    pub closed spec fn first(&self) -> M1 {
        self.first
    }

    /// The metric on the second backend.
    pub closed spec fn second(&self) -> M2 {
        self.second
    }
}

impl<M1: MetricKey, M2: MetricKey> MetricKey for DualKey<M1, M2> {

}

/// Writes every value to the writers of both backends.
pub struct DualWriter<W1, W2> {
    first: W1,
    second: W2,
}

impl<W1, W2> DualWriter<W1, W2> {
    /// The writer of the first backend.
    pub closed spec fn first(&self) -> W1 {
        self.first
    }

    /// The writer of the second backend.
    pub closed spec fn second(&self) -> W2 {
        self.second
    }
}

impl<M1: MetricKey, M2: MetricKey, W1: MetricWriter<M1>, W2: MetricWriter<M2>> MetricWriter<
    DualKey<M1, M2>,
> for DualWriter<W1, W2> {
    /// What the writes to each backend show.
    type Trace = (W1::Trace, W2::Trace);

    open spec fn wrote(&self, metric: DualKey<M1, M2>, value: Value, trace: (W1::Trace, W2::Trace)) -> bool {
        &&& self.first().wrote(metric.first(), value, trace.0)
        &&& self.second().wrote(metric.second(), value, trace.1)
    }

    fn write(&self, metric: &DualKey<M1, M2>, value: Value) -> (trace: Ghost<(W1::Trace, W2::Trace)>) {
        let first = self.first.write(&metric.first, value);
        let second = self.second.write(&metric.second, value);
        Ghost((first@, second@))
    }

    fn flush(&self) {
        self.first.flush();
        self.second.flush();
    }
}

/// Sends metrics to two separate backends.
pub struct DualSink<S1: MetricSink, S2: MetricSink> {
    first: S1,
    second: S2,
}

impl<S1: MetricSink, S2: MetricSink> DualSink<S1, S2> {
    /// The first backend.
    pub closed spec fn first(&self) -> S1 {
        self.first
    }

    /// The second backend.
    pub closed spec fn second(&self) -> S2 {
        self.second
    }

    /// A sink that sends metrics to both `first` and `second`.
    pub fn new(first: S1, second: S2) -> (d: Self)
        ensures
            d.first() == first,
            d.second() == second,
    {
        DualSink { first, second }
    }
}

impl<S1: MetricSink, S2: MetricSink> MetricSink for DualSink<S1, S2> {
    type Metric = DualKey<S1::Metric, S2::Metric>;

    type Writer = DualWriter<S1::Writer, S2::Writer>;

    open spec fn defines(
        &self,
        kind: MetricKind,
        name: Seq<char>,
        metric: DualKey<S1::Metric, S2::Metric>,
    ) -> bool {
        &&& self.first().defines(kind, name, metric.first())
        &&& self.second().defines(kind, name, metric.second())
    }

    fn new_metric(&self, kind: MetricKind, name: &str) -> (metric: DualKey<S1::Metric, S2::Metric>) {
        let first = self.first.new_metric(kind, name);
        let second = self.second.new_metric(kind, name);
        DualKey { first, second }
    }

    open spec fn opens(&self, writer: DualWriter<S1::Writer, S2::Writer>) -> bool {
        &&& self.first().opens(writer.first())
        &&& self.second().opens(writer.second())
    }

    fn new_writer(&self) -> (w: DualWriter<S1::Writer, S2::Writer>) {
        DualWriter { first: self.first.new_writer(), second: self.second.new_writer() }
    }
}

/// Sends metrics to separate backends.
/// Nested combine() can be used if more than two destinations are required.
pub fn combine<S1: MetricSink, S2: MetricSink>(s1: S1, s2: S2) -> (d: DualSink<S1, S2>)
    ensures
        d.first() == s1,
        d.second() == s2,
{
    DualSink::new(s1, s2)
}

} // verus!
