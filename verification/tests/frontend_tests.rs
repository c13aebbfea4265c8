use dipstick::{aggregate, metrics, AsSink, AsSource, MetricKind, Metrics, AggregateSink};

fn score_of(metrics_source: &dipstick::AggregateSource, name: &str) -> (MetricKind, u64, u64, u64, u64) {
    let scores = metrics_source.snapshot();
    for s in scores.iter() {
        if s.name() == name {
            return (s.kind(), s.hit(), s.sum(), s.min(), s.max());
        }
    }
    panic!("no score named {}", name);
}

#[test]
fn counter_sums_its_counts() {
    let agg = aggregate();
    let m = metrics(agg.as_sink());
    let c = m.counter("requests");
    c.count(3);
    c.count(4);
    c.count(10);
    assert_eq!(score_of(&agg.as_source(), "requests"), (MetricKind::Count, 3, 17, 3, 10));
}

#[test]
fn gauge_tracks_min_and_max() {
    let agg = aggregate();
    let m = metrics(agg.as_sink());
    let g = m.gauge("memory");
    g.value(50);
    g.value(20);
    g.value(70);
    let (kind, hit, _, min, max) = score_of(&agg.as_source(), "memory");
    assert_eq!(kind, MetricKind::Gauge);
    assert_eq!(hit, 3);
    assert_eq!(min, 20);
    assert_eq!(max, 70);
}

#[test]
fn timer_interval_us_records_and_returns_the_interval() {
    let agg = aggregate();
    let m = metrics(agg.as_sink());
    let t = m.timer("timer_a");
    assert_eq!(t.interval_us(2_000_000), 2_000_000);
    assert_eq!(score_of(&agg.as_source(), "timer_a"), (MetricKind::Time, 1, 2_000_000, 2_000_000, 2_000_000));
}

#[test]
fn timer_start_stop_records_one_interval() {
    let agg = aggregate();
    let m = metrics(agg.as_sink());
    let t = m.timer("op");
    let start = t.start();
    let recorded = t.stop(&start);
    let (_, hit, sum, _, _) = score_of(&agg.as_source(), "op");
    assert_eq!(hit, 1);
    assert_eq!(sum, recorded);
}

#[test]
fn timer_stop_at_records_the_interval_between_readings() {
    let agg = aggregate();
    let m = metrics(agg.as_sink());
    let t = m.timer("between");
    let start = t.start();
    let now = dipstick::TimeHandle::now();
    let expected = (now.nanos() - start.nanos()) / 1000;
    assert_eq!(t.stop_at(&start, &now), expected);
    assert_eq!(t.stop_at(&start, &start), 0);
    let (_, hit, sum, min, max) = score_of(&agg.as_source(), "between");
    assert_eq!((hit, sum, min, max), (2, expected, 0, expected));
}

#[test]
fn timer_stop_can_reuse_its_handle() {
    let agg = aggregate();
    let m = metrics(agg.as_sink());
    let t = m.timer("reused");
    let start = t.start();
    let first = t.stop(&start);
    let second = t.stop(&start);
    assert!(second >= first);
    let (_, hit, sum, _, _) = score_of(&agg.as_source(), "reused");
    assert_eq!(hit, 2);
    assert_eq!(sum, first + second);
}

#[test]
fn timer_time_returns_the_closure_value_and_records_it() {
    let agg = aggregate();
    let m = metrics(agg.as_sink());
    let t = m.timer("closure");
    let v = t.time(|| 6 * 7);
    assert_eq!(v, 42);
    let (kind, hit, _, _, _) = score_of(&agg.as_source(), "closure");
    assert_eq!(kind, MetricKind::Time);
    assert_eq!(hit, 1);
}

#[test]
fn event_marks_count_once_each() {
    let agg = aggregate();
    let m = metrics(agg.as_sink());
    let e = m.event("clicks");
    e.mark();
    e.mark();
    e.mark();
    assert_eq!(score_of(&agg.as_source(), "clicks"), (MetricKind::Event, 3, 3, 1, 1));
}

#[test]
fn prefix_is_prepended_and_replaced_by_with_prefix() {
    let agg = aggregate();
    let m: Metrics<AggregateSink> = Metrics::new(agg.as_sink());
    let app = m.with_prefix("app.");
    app.counter("hits").count(1);
    let other = app.with_prefix("other.");
    other.counter("hits").count(2);
    m.counter("hits").count(5);
    let names: Vec<String> = agg.as_source().snapshot().iter().map(|s| s.name().to_string()).collect();
    assert_eq!(names, vec!["app.hits".to_string(), "other.hits".to_string(), "hits".to_string()]);
}

#[test]
fn a_metric_defined_twice_shares_its_score() {
    let agg = aggregate();
    let m = metrics(agg.as_sink());
    m.counter("shared").count(1);
    m.counter("shared").count(2);
    let scores = agg.as_source().snapshot();
    assert_eq!(scores.len(), 1);
    assert_eq!(scores[0].sum(), 3);
}

#[test]
fn same_name_of_another_kind_is_another_metric() {
    let agg = aggregate();
    let m = metrics(agg.as_sink());
    m.counter("x").count(1);
    m.gauge("x").value(9);
    let scores = agg.as_source().snapshot();
    assert_eq!(scores.len(), 2);
    assert_eq!(scores[0].kind(), MetricKind::Count);
    assert_eq!(scores[1].kind(), MetricKind::Gauge);
}

#[test]
fn defined_metric_without_values_has_an_empty_score() {
    let agg = aggregate();
    let m = metrics(agg.as_sink());
    let _unused = m.timer("idle");
    assert_eq!(score_of(&agg.as_source(), "idle"), (MetricKind::Time, 0, 0, u64::MAX, 0));
}
