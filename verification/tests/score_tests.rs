use dipstick::{AggregateScore, MetricKind, ScoreTable};

#[test]
fn fresh_score_has_no_hits() {
    let s = AggregateScore::new(MetricKind::Gauge, "g");
    assert_eq!(s.kind(), MetricKind::Gauge);
    assert_eq!(s.name(), "g");
    assert_eq!((s.hit(), s.sum(), s.min(), s.max()), (0, 0, u64::MAX, 0));
}

#[test]
fn score_add_tracks_count_sum_min_max() {
    let mut s = AggregateScore::new(MetricKind::Time, "t");
    s.add(30);
    s.add(10);
    s.add(20);
    assert_eq!((s.hit(), s.sum(), s.min(), s.max()), (3, 60, 10, 30));
    let d = s.duplicate();
    assert_eq!((d.kind(), d.name(), d.hit(), d.sum(), d.min(), d.max()), (MetricKind::Time, "t", 3, 60, 10, 30));
}

#[test]
fn score_sum_wraps_around() {
    let mut s = AggregateScore::new(MetricKind::Count, "c");
    s.add(u64::MAX);
    s.add(2);
    assert_eq!(s.sum(), 1);
    assert_eq!(s.hit(), 2);
    assert_eq!(s.min(), 2);
    assert_eq!(s.max(), u64::MAX);
}

#[test]
fn table_register_is_idempotent() {
    let mut t = ScoreTable::new();
    let name = "a".to_string();
    t.register(MetricKind::Event, &name);
    t.register(MetricKind::Event, &name);
    assert_eq!(t.len(), 1);
    assert_eq!(t.find(MetricKind::Event, &name), Some(0));
    assert_eq!(t.find(MetricKind::Count, &name), None);
    assert_eq!(t.snapshot()[0].hit(), 0);
}

#[test]
fn table_record_updates_only_its_metric() {
    let mut t = ScoreTable::new();
    let a = "a".to_string();
    let b = "b".to_string();
    t.record(MetricKind::Count, &a, 5);
    t.record(MetricKind::Count, &b, 7);
    t.record(MetricKind::Count, &a, 1);
    let snap = t.snapshot();
    assert_eq!(snap.len(), 2);
    assert_eq!((snap[0].name(), snap[0].hit(), snap[0].sum(), snap[0].min(), snap[0].max()), ("a", 2, 6, 1, 5));
    assert_eq!((snap[1].name(), snap[1].hit(), snap[1].sum(), snap[1].min(), snap[1].max()), ("b", 1, 7, 7, 7));
}

#[test]
fn table_write_without_definition_equals_define_then_write() {
    let name = "x".to_string();
    let mut direct = ScoreTable::new();
    direct.record(MetricKind::Gauge, &name, 4);
    let mut defined = ScoreTable::new();
    defined.register(MetricKind::Gauge, &name);
    defined.record(MetricKind::Gauge, &name, 4);
    let d = direct.snapshot();
    let e = defined.snapshot();
    assert_eq!(d.len(), e.len());
    assert_eq!((d[0].hit(), d[0].sum(), d[0].min(), d[0].max()), (e[0].hit(), e[0].sum(), e[0].min(), e[0].max()));
}

#[test]
fn table_writes_aggregate_a_sequence() {
    let mut t = ScoreTable::new();
    let name = "seq".to_string();
    for v in [8u64, 3, 12, 5] {
        t.record(MetricKind::Time, &name, v);
    }
    let s = &t.snapshot()[0];
    assert_eq!((s.hit(), s.sum(), s.min(), s.max()), (4, 28, 3, 12));
}
