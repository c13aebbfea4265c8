use dipstick::{aggregate, metrics, AsSink, AsSource};

#[test]
fn aggregate_counts_events_marked_twice() {
    let aggregate = aggregate();
    let metrics = metrics(aggregate.as_sink());

    metrics.event("my_event").mark();
    metrics.event("my_event").mark();

    let scores = aggregate.as_source().snapshot();
    assert_eq!(scores.len(), 1);
    assert_eq!(scores[0].name(), "my_event");
    assert_eq!(scores[0].hit(), 2);
    assert_eq!(scores[0].sum(), 2);
}
