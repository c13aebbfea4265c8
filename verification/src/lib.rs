//! Application metrics: a frontend of events, counters, gauges and timers that
//! dispatches to pluggable sinks, with an in-memory aggregating sink, a dual sink,
//! a logging sink and publication of aggregated statistics.

pub mod aggregate;
pub mod clock;
pub mod dual;
pub mod frontend;
pub mod laws;
pub mod logging;
pub mod publish;
pub mod score;
pub mod sink;

pub use aggregate::{aggregate, AggregateKey, AggregateSink, AggregateSource, MetricAggregator};
pub use clock::{elapsed_us_spec, TimeHandle, Value};
pub use dual::{combine, DualKey, DualSink, DualWriter};
pub use frontend::{metrics, Counter, Event, Gauge, Metrics, Timer};
pub use logging::{log, LogEntry, LogKey, LoggingSink, LoggingWriter};
pub use publish::{publish, published_values, published_values_all, AggregatePublisher, PublishedValue};
pub use score::{AggregateScore, ScoreTable, ScoreView};
pub use sink::{AsSink, AsSource, MetricKey, MetricKind, MetricSink, MetricWriter};
