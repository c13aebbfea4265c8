use dipstick::{aggregate, combine, log, metrics, AsSink, AsSource, MetricKind, MetricSink, MetricWriter};

#[test]
fn combine_sends_values_to_both_backends() {
    let first = aggregate();
    let second = aggregate();
    let m = metrics(combine(first.as_sink(), second.as_sink()));
    m.counter("both").count(4);
    m.counter("both").count(6);
    for agg in [&first, &second] {
        let scores = agg.as_source().snapshot();
        assert_eq!(scores.len(), 1);
        assert_eq!(scores[0].name(), "both");
        assert_eq!((scores[0].hit(), scores[0].sum()), (2, 10));
    }
}

#[test]
fn nested_combine_reaches_three_backends() {
    let a = aggregate();
    let b = aggregate();
    let c = aggregate();
    let m = metrics(combine(a.as_sink(), combine(b.as_sink(), c.as_sink())));
    m.event("e").mark();
    for agg in [&a, &b, &c] {
        assert_eq!(agg.as_source().snapshot()[0].hit(), 1);
    }
}

#[test]
fn log_sink_prefixes_names_and_queues_entries() {
    let sink = log("app.");
    let counter = sink.new_metric(MetricKind::Count, "requests");
    let writer = sink.new_writer();
    writer.write(&counter, 3);
    writer.write(&counter, 4);
    let entries = sink.take_entries();
    assert_eq!(entries.len(), 2);
    assert_eq!(entries[0].kind(), MetricKind::Count);
    assert_eq!(entries[0].name(), "app.requests");
    assert_eq!(entries[0].value(), 3);
    assert_eq!(entries[1].value(), 4);
    assert!(sink.take_entries().is_empty());
}

#[test]
fn log_sink_through_metrics_dispatch() {
    let sink = log("");
    let writer_sink = sink.new_writer();
    let key = sink.new_metric(MetricKind::Time, "t");
    writer_sink.write(&key, 1500);
    writer_sink.flush();
    let entries = sink.take_entries();
    assert_eq!(entries.len(), 1);
    assert_eq!((entries[0].kind(), entries[0].name(), entries[0].value()), (MetricKind::Time, "t", 1500));
}

#[test]
fn metric_kind_labels() {
    assert_eq!(MetricKind::Event.label(), "event");
    assert_eq!(MetricKind::Count.label(), "count");
    assert_eq!(MetricKind::Gauge.label(), "gauge");
    assert_eq!(MetricKind::Time.label(), "time");
}
