//! A sink for the application's logger: each written value becomes a log entry.
//! The entries wait here until the application hands them to its logger.

use std::sync::Arc;
use vstd::prelude::*;
use vstd::rwlock::{RwLock, RwLockPredicate};

use crate::clock::Value;
use crate::sink::{MetricKey, MetricKind, MetricSink, MetricWriter};

verus! {

/// One value written to a metric of a logging sink.
#[derive(Debug)]
pub struct LogEntry {
    kind: MetricKind,
    name: String,
    value: Value,
}

impl View for LogEntry {
    type V = (MetricKind, Seq<char>, Value);

    closed spec fn view(&self) -> (MetricKind, Seq<char>, Value) {
        (self.kind, self.name@, self.value)
    }
}

impl LogEntry {
    /// The kind of the metric.
    pub fn kind(&self) -> (k: MetricKind)
        ensures
            k == self@.0,
    {
        self.kind
    }

    /// The full name of the metric.
    pub fn name(&self) -> (n: &str)
        ensures
            n@ == self@.1,
    {
        self.name.as_str()
    }

    /// The value written.
    pub fn value(&self) -> (v: Value)
        ensures
            v == self@.2,
    {
        self.value
    }
}

/// Any sequence of entries may wait for the logger.
pub struct AnyEntries;

impl RwLockPredicate<Vec<LogEntry>> for AnyEntries {
    open spec fn inv(self, v: Vec<LogEntry>) -> bool {
        true
    }
}

type SharedEntries = Arc<RwLock<Vec<LogEntry>, AnyEntries>>;

/// The metric of a logging sink: its kind and full name.
#[derive(Debug)]
pub struct LogKey {
    kind: MetricKind,
    name: String,
}

impl View for LogKey {
    type V = (MetricKind, Seq<char>);

    closed spec fn view(&self) -> (MetricKind, Seq<char>) {
        (self.kind, self.name@)
    }
}

impl MetricKey for LogKey {

}

/// Turns each written value into an entry for the logger.
pub struct LoggingWriter {
    entries: SharedEntries,
}

impl LoggingWriter {
    /// The lock that holds the entries this writer adds to.
    pub closed spec fn shared(&self) -> RwLock<Vec<LogEntry>, AnyEntries> {
        *self.entries
    }
}

/// The entries of a queue, as values.
pub open spec fn entries_view(entries: Seq<LogEntry>) -> Seq<(MetricKind, Seq<char>, Value)> {
    entries.map_values(|e: LogEntry| e@)
}

impl MetricWriter<LogKey> for LoggingWriter {
    /// The queued entries as the write found them and as it left them.
    type Trace = (Seq<(MetricKind, Seq<char>, Value)>, Seq<(MetricKind, Seq<char>, Value)>);

    open spec fn wrote(
        &self,
        metric: LogKey,
        value: Value,
        trace: (Seq<(MetricKind, Seq<char>, Value)>, Seq<(MetricKind, Seq<char>, Value)>),
    ) -> bool {
        trace.1 == trace.0.push((metric@.0, metric@.1, value))
    }

    fn write(&self, metric: &LogKey, value: Value) -> (trace: Ghost<
        (Seq<(MetricKind, Seq<char>, Value)>, Seq<(MetricKind, Seq<char>, Value)>),
    >) {
        let entry = LogEntry { kind: metric.kind, name: metric.name.clone(), value };
        let (mut entries, handle) = self.entries.acquire_write();
        let ghost before = entries_view(entries@);
        entries.push(entry);
        let ghost after = entries_view(entries@);
        assert(after =~= before.push((metric@.0, metric@.1, value)));
        handle.release_write(entries);
        Ghost((before, after))
    }
}

/// Send metric to a logger; metric names start with the sink's prefix.
/// Written values wait in the sink as entries, without bound, until the
/// application takes them with `take_entries` and hands them to its logger.
pub struct LoggingSink {
    prefix: String,
    entries: SharedEntries,
}

impl LoggingSink {
    /// The lock that holds the entries waiting for the logger.
    pub closed spec fn shared(&self) -> RwLock<Vec<LogEntry>, AnyEntries> {
        *self.entries
    }

    /// The prefix of the names of the metrics of this sink.
    pub closed spec fn prefix(&self) -> Seq<char> {
        self.prefix@
    }

    /// A logging sink whose metric names start with `prefix`.
    pub fn new(prefix: &str) -> (s: LoggingSink)
        ensures
            s.prefix() == prefix@,
    {
        let entries: Vec<LogEntry> = Vec::new();
        LoggingSink {
            prefix: prefix.to_owned(),
            entries: Arc::new(RwLock::new(entries, Ghost(AnyEntries))),
        }
    }

    /// The entries written since the last call, oldest first; they leave the sink.
    pub fn take_entries(&self) -> (taken: Vec<LogEntry>) {
        let (entries, handle) = self.entries.acquire_write();
        handle.release_write(Vec::new());
        entries
    }
}

impl MetricSink for LoggingSink {
    type Metric = LogKey;

    type Writer = LoggingWriter;

    open spec fn defines(&self, kind: MetricKind, name: Seq<char>, metric: LogKey) -> bool {
        metric@ == (kind, self.prefix() + name)
    }

    fn new_metric(&self, kind: MetricKind, name: &str) -> (metric: LogKey) {
        let mut full = self.prefix.clone();
        full.append(name);
        LogKey { kind, name: full }
    }

    open spec fn opens(&self, writer: LoggingWriter) -> bool {
        writer.shared() == self.shared()
    }

    fn new_writer(&self) -> (w: LoggingWriter) {
        LoggingWriter { entries: self.entries.clone() }
    }
}

/// A value written, with a writer of a logging sink, to a metric that sink defined,
/// of any kind, adds exactly one entry at the end of the queue: the metric's kind,
/// the sink's prefix followed by the metric's name, and the value. The entries
/// already queued stay as they were.
pub proof fn law_log_write_queues_one_entry(
    sink: LoggingSink,
    kind: MetricKind,
    name: Seq<char>,
    metric: LogKey,
    writer: LoggingWriter,
    value: Value,
    trace: (Seq<(MetricKind, Seq<char>, Value)>, Seq<(MetricKind, Seq<char>, Value)>),
)
    requires
        sink.defines(kind, name, metric),
        sink.opens(writer),
        writer.wrote(metric, value, trace),
    ensures
        trace.1.len() == trace.0.len() + 1,
        trace.1.subrange(0, trace.0.len() as int) == trace.0,
        trace.1.last() == (kind, sink.prefix() + name, value),
        writer.shared() == sink.shared(),
{
    assert(trace.1.subrange(0, trace.0.len() as int) =~= trace.0);
}

/// Send metric to a logger.
/// This uses the basic log crate as it is configured for the application.
pub fn log(prefix: &str) -> (s: LoggingSink)
    ensures
        s.prefix() == prefix@,
{
    LoggingSink::new(prefix)
}

} // verus!
