use dipstick::{aggregate, metrics, publish, published_values, AggregateScore, AsSink, AsSource, MetricKind};

fn stats(score: &AggregateScore) -> Vec<(MetricKind, String, u64)> {
    published_values(score).iter().map(|p| (p.kind(), p.name().to_string(), p.value())).collect()
}

#[test]
fn nothing_is_published_without_hits() {
    let s = AggregateScore::new(MetricKind::Time, "t");
    assert!(stats(&s).is_empty());
}

#[test]
fn event_publishes_its_count() {
    let mut s = AggregateScore::new(MetricKind::Event, "e");
    s.add(1);
    s.add(1);
    assert_eq!(stats(&s), vec![(MetricKind::Event, "e.count".to_string(), 2)]);
}

#[test]
fn counter_publishes_count_and_sum() {
    let mut s = AggregateScore::new(MetricKind::Count, "c");
    s.add(5);
    s.add(7);
    assert_eq!(stats(&s), vec![(MetricKind::Count, "c.count".to_string(), 2), (MetricKind::Count, "c.sum".to_string(), 12)]);
}

#[test]
fn gauge_publishes_min_and_max() {
    let mut s = AggregateScore::new(MetricKind::Gauge, "g");
    s.add(5);
    s.add(7);
    assert_eq!(stats(&s), vec![(MetricKind::Gauge, "g.min".to_string(), 5), (MetricKind::Gauge, "g.max".to_string(), 7)]);
}

#[test]
fn timer_publishes_all_four() {
    let mut s = AggregateScore::new(MetricKind::Time, "t");
    s.add(9);
    s.add(1);
    assert_eq!(
        stats(&s),
        vec![
            (MetricKind::Time, "t.count".to_string(), 2),
            (MetricKind::Time, "t.sum".to_string(), 10),
            (MetricKind::Time, "t.min".to_string(), 1),
            (MetricKind::Time, "t.max".to_string(), 9),
        ]
    );
}

#[test]
fn publish_writes_statistics_to_the_target() {
    let source = aggregate();
    let target = aggregate();
    let m = metrics(source.as_sink());
    m.counter("c").count(3);
    m.counter("c").count(4);
    m.event("idle_event");
    let publisher = publish(source.as_source(), target.as_sink());
    publisher.publish();
    let published: Vec<(String, u64, u64)> =
        target.as_source().snapshot().iter().map(|s| (s.name().to_string(), s.hit(), s.sum())).collect();
    assert_eq!(published, vec![("c.count".to_string(), 1, 2), ("c.sum".to_string(), 1, 7)]);
}

#[test]
fn published_values_all_concatenates_in_score_order() {
    let mut e = AggregateScore::new(MetricKind::Event, "e");
    e.add(1);
    let idle = AggregateScore::new(MetricKind::Count, "idle");
    let mut g = AggregateScore::new(MetricKind::Gauge, "g");
    g.add(4);
    g.add(2);
    let scores = vec![e, idle, g];
    let all: Vec<(MetricKind, String, u64)> = dipstick::published_values_all(&scores)
        .iter()
        .map(|p| (p.kind(), p.name().to_string(), p.value()))
        .collect();
    assert_eq!(
        all,
        vec![
            (MetricKind::Event, "e.count".to_string(), 1),
            (MetricKind::Gauge, "g.min".to_string(), 2),
            (MetricKind::Gauge, "g.max".to_string(), 4),
        ]
    );
}

#[test]
fn publish_reads_the_given_source_only() {
    let mine = aggregate();
    let other = aggregate();
    let target = aggregate();
    metrics(mine.as_sink()).event("mine").mark();
    metrics(other.as_sink()).event("other").mark();
    publish(mine.as_source(), target.as_sink()).publish();
    let names: Vec<String> = target.as_source().snapshot().iter().map(|s| s.name().to_string()).collect();
    assert_eq!(names, vec!["mine.count".to_string()]);
}

#[test]
fn publish_aggregate_to_log_doc_example() {
    let aggregate = aggregate();
    let publisher = publish(aggregate.as_source(), dipstick::log("aggregated"));
    publisher.publish();
    assert!(publisher.sink().take_entries().is_empty());
}

#[test]
fn publish_aggregate_to_log_queues_statistics() {
    let aggregate = aggregate();
    let m = metrics(aggregate.as_sink());
    m.event("my_event").mark();
    m.event("my_event").mark();
    let publisher = publish(aggregate.as_source(), dipstick::log("aggregated."));
    publisher.publish();
    let entries: Vec<(MetricKind, String, u64)> = publisher
        .sink()
        .take_entries()
        .iter()
        .map(|e| (e.kind(), e.name().to_string(), e.value()))
        .collect();
    assert_eq!(entries, vec![(MetricKind::Event, "aggregated.my_event.count".to_string(), 2)]);
}
