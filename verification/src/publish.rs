//! Publication of aggregated scores to another sink.

use vstd::prelude::*;

use crate::aggregate::AggregateSource;
use crate::clock::Value;
use crate::score::{keys_distinct, AggregateScore, ScoreView};
use crate::sink::{MetricKind, MetricSink, MetricWriter};

verus! {

/// One statistic of an aggregated metric, as it is published:
/// kind, name of the statistic and its value.
#[derive(Debug)]
pub struct PublishedValue {
    kind: MetricKind,
    name: String,
    value: Value,
}

impl View for PublishedValue {
    type V = (MetricKind, Seq<char>, Value);

    closed spec fn view(&self) -> (MetricKind, Seq<char>, Value) {
        (self.kind, self.name@, self.value)
    }
}

impl PublishedValue {
    /// The kind of the aggregated metric.
    pub fn kind(&self) -> (k: MetricKind)
        ensures
            k == self@.0,
    {
        self.kind
    }

    /// The name of the statistic: the metric's name and a suffix.
    pub fn name(&self) -> (n: &str)
        ensures
            n@ == self@.1,
    {
        self.name.as_str()
    }

    /// The value of the statistic.
    pub fn value(&self) -> (v: Value)
        ensures
            v == self@.2,
    {
        self.value
    }
}

/// The statistics published for a score: nothing for a metric without hits;
/// otherwise, after the metric's kind, its count for an event, its count and sum
/// for a counter, its minimum and maximum for a gauge, and all four for a timer.
/// Each is named by the metric's name followed by `.count`, `.sum`, `.min` or `.max`.
pub open spec fn publication(s: ScoreView) -> Seq<(MetricKind, Seq<char>, Value)> {
    let count = (s.kind, s.name + ".count"@, s.hit);
    let sum = (s.kind, s.name + ".sum"@, s.sum);
    let min = (s.kind, s.name + ".min"@, s.min);
    let max = (s.kind, s.name + ".max"@, s.max);
    if s.hit == 0 {
        seq![]
    } else {
        match s.kind {
            MetricKind::Event => seq![count],
            MetricKind::Count => seq![count, sum],
            MetricKind::Gauge => seq![min, max],
            MetricKind::Time => seq![count, sum, min, max],
        }
    }
}

fn statistic(kind: MetricKind, name: &str, suffix: &str, value: Value) -> (p: PublishedValue)
    ensures
        p@ == (kind, name@ + suffix@, value),
{
    let mut full = name.to_owned();
    full.append(suffix);
    PublishedValue { kind, name: full, value }
}

/// The statistics that publication sends for `score`.
pub fn published_values(score: &AggregateScore) -> (values: Vec<PublishedValue>)
    ensures
        values@.map_values(|p: PublishedValue| p@) == publication(score@),
{
    let kind = score.kind();
    let name = score.name();
    let mut values: Vec<PublishedValue> = Vec::new();
    if score.hit() == 0 {
        assert(values@.map_values(|p: PublishedValue| p@) =~= publication(score@));
        return values;
    }
    match kind {
        MetricKind::Event => {
            values.push(statistic(kind, name, ".count", score.hit()));
        },
        MetricKind::Count => {
            values.push(statistic(kind, name, ".count", score.hit()));
            values.push(statistic(kind, name, ".sum", score.sum()));
        },
        MetricKind::Gauge => {
            values.push(statistic(kind, name, ".min", score.min()));
            values.push(statistic(kind, name, ".max", score.max()));
        },
        MetricKind::Time => {
            values.push(statistic(kind, name, ".count", score.hit()));
            values.push(statistic(kind, name, ".sum", score.sum()));
            values.push(statistic(kind, name, ".min", score.min()));
            values.push(statistic(kind, name, ".max", score.max()));
        },
    }
    assert(values@.map_values(|p: PublishedValue| p@) =~= publication(score@));
    values
}

/// Every statistic published for a metric is named after it, carries its kind,
/// and a metric without hits publishes nothing.
pub proof fn law_publication_names_its_metric(s: ScoreView)
    ensures
        s.hit == 0 ==> publication(s).len() == 0,
        forall|i: int|
            0 <= i < publication(s).len() ==> {
                &&& (#[trigger] publication(s)[i]).0 == s.kind
                &&& publication(s)[i].1.subrange(0, s.name.len() as int) == s.name
            },
{
    assert forall|i: int| 0 <= i < publication(s).len() implies {
        &&& (#[trigger] publication(s)[i]).0 == s.kind
        &&& publication(s)[i].1.subrange(0, s.name.len() as int) == s.name
    } by {
        let n = publication(s)[i].1;
        assert(n.subrange(0, s.name.len() as int) =~= s.name);
    }
}

/// The statistics published for all `scores`, score after score.
pub open spec fn publication_all(scores: Seq<ScoreView>) -> Seq<(MetricKind, Seq<char>, Value)>
    decreases scores.len(),
{
    if scores.len() == 0 {
        seq![]
    } else {
        publication_all(scores.drop_last()) + publication(scores.last())
    }
}

/// The statistics that publication sends for all `scores`, score after score.
pub fn published_values_all(scores: &Vec<AggregateScore>) -> (values: Vec<PublishedValue>)
    ensures
        values@.map_values(|p: PublishedValue| p@) == publication_all(
            scores@.map_values(|s: AggregateScore| s@),
        ),
{
    let ghost all = scores@.map_values(|s: AggregateScore| s@);
    let n = scores.len();
    let mut values: Vec<PublishedValue> = Vec::new();
    let mut i: usize = 0;
    assert(all.take(0) =~= Seq::<ScoreView>::empty());
    while i < n
        invariant
            n == scores@.len(),
            all == scores@.map_values(|s: AggregateScore| s@),
            i <= n,
            values@.map_values(|p: PublishedValue| p@) == publication_all(all.take(i as int)),
        decreases n - i,
    {
        let ghost before = values@;
        let mut next = published_values(&scores[i]);
        let ghost added = next@;
        values.append(&mut next);
        assert(all.take(i + 1).drop_last() =~= all.take(i as int));
        assert(all.take(i + 1).last() == scores@[i as int]@);
        assert(values@ == before + added);
        assert(values@.map_values(|p: PublishedValue| p@) =~= before.map_values(
            |p: PublishedValue| p@,
        ) + added.map_values(|p: PublishedValue| p@));
        i = i + 1;
    }
    assert(all.take(n as int) =~= all);
    values
}

/// In the statistics of all scores, those of the score at `i` come as a block,
/// after those of the scores before it.
proof fn lemma_publication_all_block(scores: Seq<ScoreView>, i: int, k: int)
    requires
        0 <= i < scores.len(),
        0 <= k < publication(scores[i]).len(),
    ensures
        publication_all(scores.take(i)).len() + k < publication_all(scores).len(),
        publication_all(scores)[publication_all(scores.take(i)).len() + k] == publication(
            scores[i],
        )[k],
    decreases scores.len(),
{
    let prev = scores.drop_last();
    if i == scores.len() - 1 {
        assert(scores.take(i) =~= prev);
    } else {
        assert(scores.take(i) =~= prev.take(i));
        lemma_publication_all_block(prev, i, k);
    }
}

/// Publication writes every statistic of every score it read: for each score
/// and each of its statistics (see `publication`) one write, in the order of
/// the scores, hands the statistic's value to a metric that the target defined
/// with the statistic's kind and name, through a writer opened on the target.
pub proof fn law_publish_writes_every_statistic<S: MetricSink + Sync>(
    publisher: AggregatePublisher<S>,
    report: PublishReport<S>,
    i: int,
    k: int,
)
    requires
        keys_distinct(report.scores),
        publisher.target().opens(report.writer),
        report.writes.len() == publication_all(report.scores).len(),
        forall|j: int|
            0 <= j < report.writes.len() ==> {
                let stat = #[trigger] publication_all(report.scores)[j];
                &&& publisher.target().defines(stat.0, stat.1, report.writes[j].0)
                &&& report.writer.wrote(report.writes[j].0, stat.2, report.writes[j].1)
            },
        0 <= i < report.scores.len(),
        0 <= k < publication(report.scores[i]).len(),
    ensures
        ({
            let stat = publication(report.scores[i])[k];
            let j = publication_all(report.scores.take(i)).len() + k;
            &&& j < report.writes.len()
            &&& publisher.target().defines(stat.0, stat.1, report.writes[j].0)
            &&& report.writer.wrote(report.writes[j].0, stat.2, report.writes[j].1)
        }),
{
    lemma_publication_all_block(report.scores, i, k);
    let j = publication_all(report.scores.take(i)).len() + k;
    assert(publication_all(report.scores)[j] == publication(report.scores[i])[k]);
}

/// What a publication did: the scores it read, the writer it opened on the
/// target, and for each published statistic the target's metric and what the
/// write of its value shows.
pub struct PublishReport<S: MetricSink> {
    pub scores: Seq<ScoreView>,
    pub writer: S::Writer,
    pub writes: Seq<(S::Metric, <S::Writer as MetricWriter<S::Metric>>::Trace)>,
}

/// Publishes all metrics of an aggregate source to a target sink.
pub struct AggregatePublisher<S: MetricSink + Sync> {
    source: AggregateSource,
    target: S,
}

impl<S: MetricSink + Sync> AggregatePublisher<S> {
    /// The source whose scores are published.
    pub closed spec fn source(&self) -> AggregateSource {
        self.source
    }

    /// The sink that receives the published statistics.
    pub closed spec fn target(&self) -> S {
        self.target
    }

    /// The sink that receives the published statistics.
    pub fn sink(&self) -> (s: &S)
        ensures
            *s == self.target(),
    {
        &self.target
    }

    /// A publisher of the scores of `source` to `target`.
    pub fn new(source: AggregateSource, target: S) -> (p: Self)
        ensures
            p.source() == source,
            p.target() == target,
    {
        AggregatePublisher { source, target }
    }

    /// Write the statistics of every aggregated metric, as `published_values_all`
    /// computes them from a snapshot of the source, to metrics of the target sink,
    /// in that order, then flush the writer. The report gives the scores read,
    /// the writer opened on the target, and for each statistic, in order, the
    /// metric the target defined for it and what its one write shows.
    pub fn publish(&self) -> (report: Ghost<PublishReport<S>>)
        ensures
            keys_distinct(report@.scores),
            self.target().opens(report@.writer),
            report@.writes.len() == publication_all(report@.scores).len(),
            forall|j: int|
                0 <= j < report@.writes.len() ==> {
                    let stat = #[trigger] publication_all(report@.scores)[j];
                    &&& self.target().defines(stat.0, stat.1, report@.writes[j].0)
                    &&& report@.writer.wrote(report@.writes[j].0, stat.2, report@.writes[j].1)
                },
    {
        let scores = self.source.snapshot();
        let values = published_values_all(&scores);
        let ghost read = scores@.map_values(|s: AggregateScore| s@);
        let ghost stats = values@.map_values(|p: PublishedValue| p@);
        let writer = self.target.new_writer();
        let ghost mut writes: Seq<(S::Metric, <S::Writer as MetricWriter<S::Metric>>::Trace)> =
            Seq::empty();
        let m = values.len();
        let mut j: usize = 0;
        while j < m
            invariant
                m == values@.len(),
                stats == values@.map_values(|p: PublishedValue| p@),
                stats == publication_all(read),
                self.target().opens(writer),
                j <= m,
                writes.len() == j,
                forall|k: int|
                    0 <= k < j ==> {
                        let stat = #[trigger] stats[k];
                        &&& self.target().defines(stat.0, stat.1, writes[k].0)
                        &&& writer.wrote(writes[k].0, stat.2, writes[k].1)
                    },
            decreases m - j,
        {
            let metric = self.target.new_metric(values[j].kind(), values[j].name());
            let trace = writer.write(&metric, values[j].value());
            proof {
                writes = writes.push((metric, trace@));
            }
            j = j + 1;
        }
        writer.flush();
        Ghost(PublishReport { scores: read, writer, writes })
    }
}

/// Publishes all metrics from a source to a backend.
pub fn publish<S: MetricSink + Sync>(source: AggregateSource, sink: S) -> (p: AggregatePublisher<S>)
    ensures
        p.source() == source,
        p.target() == sink,
{
    AggregatePublisher::new(source, sink)
}

} // verus!
