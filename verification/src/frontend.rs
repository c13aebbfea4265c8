//! The application-facing metrics: events, counters, gauges, timers and their dispatch.

use std::sync::Arc;
use vstd::prelude::*;

use crate::clock::{elapsed_us_spec, TimeHandle, Value};
use crate::sink::{MetricKind, MetricSink, MetricWriter};

verus! {

/// A monotonic counter metric.
/// Since value is only ever increased by one, no value parameter is provided,
/// preventing potential problems.
pub struct Event<C: MetricSink + 'static> {
    metric: <C as MetricSink>::Metric,
    target_writer: Arc<<C as MetricSink>::Writer>,
}

impl<C: MetricSink> Event<C> {
    /// The sink-specific metric that this event writes to.
    pub closed spec fn metric(&self) -> C::Metric {
        self.metric
    }

    /// The writer that this event writes its values with.
    pub closed spec fn writer(&self) -> C::Writer {
        *self.target_writer
    }

    /// Record a single event occurence: the value 1 is written to the event's metric.
    pub fn mark(&self) -> (trace: Ghost<<C::Writer as MetricWriter<C::Metric>>::Trace>)
        ensures
            self.writer().wrote(self.metric(), 1, trace@),
    {
        self.target_writer.write(&self.metric, 1)
    }
}

/// A gauge that sends values to the metrics backend
pub struct Gauge<C: MetricSink + 'static> {
    metric: <C as MetricSink>::Metric,
    target_writer: Arc<<C as MetricSink>::Writer>,
}

impl<C: MetricSink> Gauge<C> {
    /// The sink-specific metric that this gauge writes to.
    pub closed spec fn metric(&self) -> C::Metric {
        self.metric
    }

    /// The writer that this gauge writes its values with.
    pub closed spec fn writer(&self) -> C::Writer {
        *self.target_writer
    }

    /// Record a value point for this gauge: `value` is written to the gauge's metric.
    pub fn value(&self, value: Value) -> (trace: Ghost<<C::Writer as MetricWriter<C::Metric>>::Trace>)
        ensures
            self.writer().wrote(self.metric(), value, trace@),
    {
        self.target_writer.write(&self.metric, value)
    }
}

/// A counter that sends values to the metrics backend
pub struct Counter<C: MetricSink + 'static> {
    metric: <C as MetricSink>::Metric,
    target_writer: Arc<<C as MetricSink>::Writer>,
}

impl<C: MetricSink> Counter<C> {
    /// The sink-specific metric that this counter writes to.
    pub closed spec fn metric(&self) -> C::Metric {
        self.metric
    }

    /// The writer that this counter writes its values with.
    pub closed spec fn writer(&self) -> C::Writer {
        *self.target_writer
    }

    /// Record a value count: `count` is written to the counter's metric.
    pub fn count(&self, count: Value) -> (trace: Ghost<<C::Writer as MetricWriter<C::Metric>>::Trace>)
        ensures
            self.writer().wrote(self.metric(), count, trace@),
    {
        self.target_writer.write(&self.metric, count)
    }
}

/// A timer that sends values to the metrics backend
/// Timers can record time intervals in multiple ways :
/// - with the time(Fn) method, which wraps a closure with start() and stop() calls.
/// - with start() and stop() methods, wrapping around the operation to time
/// - with the interval_us() method, providing an externally determined microsecond interval
pub struct Timer<C: MetricSink + 'static> {
    metric: <C as MetricSink>::Metric,
    target_writer: Arc<<C as MetricSink>::Writer>,
}

impl<C: MetricSink> Timer<C> {
    /// The sink-specific metric that this timer writes to.
    pub closed spec fn metric(&self) -> C::Metric {
        self.metric
    }

    /// The writer that this timer writes its values with.
    pub closed spec fn writer(&self) -> C::Writer {
        *self.target_writer
    }

    /// Record a microsecond interval for this timer
    /// Can be used in place of start()/stop() if an external time interval source is used
    pub fn interval_us(&self, interval_us: Value) -> (recorded: Value)
        ensures
            recorded == interval_us,
    {
        self.target_writer.write(&self.metric, interval_us);
        interval_us
    }

    /// Obtain a opaque handle to the current time.
    /// The handle is passed back to the stop() method to record a time interval.
    /// This is actually a convenience method to the TimeHandle::now()
    /// Beware, handles obtained here are not bound to this specific timer instance
    /// _for now_ but might be in the future for safety.
    pub fn start(&self) -> (h: TimeHandle) {
        TimeHandle::now()
    }

    /// Record the time elapsed from `start_time` until `now`, which must not lie
    /// before it. Returns the microsecond interval value that was recorded.
    pub fn stop_at(&self, start_time: &TimeHandle, now: &TimeHandle) -> (recorded: Value)
        requires
            start_time@ <= now@,
        ensures
            recorded == elapsed_us_spec(start_time@, now@),
    {
        let elapsed_us = start_time.elapsed_us_until(now);
        self.interval_us(elapsed_us)
    }

    /// Record the time elapsed since the start_time handle was obtained.
    /// This call can be performed multiple times using the same handle,
    /// reporting distinct time intervals each time.
    /// Returns the microsecond interval value that was recorded.
    /// The performance counter is monotonic, so its reading does not lie before
    /// the handle; should it ever, nothing is recorded and the result is 0.
    pub fn stop(&self, start_time: &TimeHandle) -> (recorded: Value)
        ensures
            exists|now_ns: u64|
                start_time@ <= now_ns && recorded == elapsed_us_spec(start_time@, now_ns),
    {
        let now = TimeHandle::now();
        if start_time.nanos() <= now.nanos() {
            self.stop_at(start_time, &now)
        } else {
            assert(elapsed_us_spec(start_time@, start_time@) == 0);
            0
        }
    }

    /// Record the time taken to execute the provided closure
    pub fn time<F, R>(&self, operations: F) -> (value: R) where F: FnOnce() -> R
        requires
            operations.requires(()),
        ensures
            operations.ensures((), value),
    {
        let start_time = self.start();
        let value: R = operations();
        self.stop(&start_time);
        value
    }
}

/// A metric dispatch that writes directly to the metric backend (not queuing)
pub struct Metrics<C: MetricSink + 'static> {
    prefix: String,
    target: Arc<C>,
    writer: Arc<<C as MetricSink>::Writer>,
}

impl<C: MetricSink> Metrics<C> {
    /// The writer belongs to the sink that defines the metrics.
    #[verifier::type_invariant]
    spec fn writer_opened_by_target(&self) -> bool {
        self.target.opens(*self.writer)
    }

    /// The writer shared by the metrics defined here.
    pub closed spec fn writer(&self) -> C::Writer {
        *self.writer
    }

    /// The prefix prepended to the name of every metric defined here.
    pub closed spec fn prefix(&self) -> Seq<char> {
        self.prefix@
    }

    /// The sink that defines the metrics.
    pub closed spec fn target(&self) -> C {
        *self.target
    }

    /// Create a new direct metric dispatch
    pub fn new(target: C) -> (m: Metrics<C>)
        ensures
            m.prefix() == Seq::<char>::empty(),
            m.target() == target,
            target.opens(m.writer()),
    {
        let target_writer = target.new_writer();
        Metrics { prefix: String::new(), target: Arc::new(target), writer: Arc::new(target_writer) }
    }

    fn add_prefix(&self, name: &str) -> (full: String)
        ensures
            full@ == self.prefix() + name@,
    {
        if self.prefix.as_str().is_empty() {
            return name.to_owned();
        }
        let mut buf: String = self.prefix.clone();
        buf.append(name);
        buf
    }

    /// Define an event named `name` (after the prefix) on the target sink.
    pub fn event(&self, name: &str) -> (e: Event<C>)
        ensures
            self.target().defines(MetricKind::Event, self.prefix() + name@, e.metric()),
            e.writer() == self.writer(),
            self.target().opens(e.writer()),
    {
        proof {
            use_type_invariant(self);
        }
        let full = self.add_prefix(name);
        let metric = self.target.new_metric(MetricKind::Event, full.as_str());
        Event { metric, target_writer: self.writer.clone() }
    }

    /// Define a counter named `name` (after the prefix) on the target sink.
    pub fn counter(&self, name: &str) -> (c: Counter<C>)
        ensures
            self.target().defines(MetricKind::Count, self.prefix() + name@, c.metric()),
            c.writer() == self.writer(),
            self.target().opens(c.writer()),
    {
        proof {
            use_type_invariant(self);
        }
        let full = self.add_prefix(name);
        let metric = self.target.new_metric(MetricKind::Count, full.as_str());
        Counter { metric, target_writer: self.writer.clone() }
    }

    /// Define a timer named `name` (after the prefix) on the target sink.
    pub fn timer(&self, name: &str) -> (t: Timer<C>)
        ensures
            self.target().defines(MetricKind::Time, self.prefix() + name@, t.metric()),
            t.writer() == self.writer(),
            self.target().opens(t.writer()),
    {
        proof {
            use_type_invariant(self);
        }
        let full = self.add_prefix(name);
        let metric = self.target.new_metric(MetricKind::Time, full.as_str());
        Timer { metric, target_writer: self.writer.clone() }
    }

    /// Define a gauge named `name` (after the prefix) on the target sink.
    pub fn gauge(&self, name: &str) -> (g: Gauge<C>)
        ensures
            self.target().defines(MetricKind::Gauge, self.prefix() + name@, g.metric()),
            g.writer() == self.writer(),
            self.target().opens(g.writer()),
    {
        proof {
            use_type_invariant(self);
        }
        let full = self.add_prefix(name);
        let metric = self.target.new_metric(MetricKind::Gauge, full.as_str());
        Gauge { metric, target_writer: self.writer.clone() }
    }

    /// A dispatch onto the same sink whose metric names start with `prefix`.
    pub fn with_prefix(&self, prefix: &str) -> (m: Self)
        ensures
            m.prefix() == prefix@,
            m.target() == self.target(),
            m.writer() == self.writer(),
    {
        proof {
            use_type_invariant(self);
        }
        Metrics { prefix: prefix.to_owned(), target: self.target.clone(), writer: self.writer.clone() }
    }
}

} // verus!

verus! {

/// Wrap the metrics backend to provide an application-friendly interface.
pub fn metrics<S: MetricSink>(sink: S) -> (m: Metrics<S>)
    ensures
        m.prefix() == Seq::<char>::empty(),
        m.target() == sink,
        sink.opens(m.writer()),
{
    Metrics::new(sink)
}

} // verus!
