//! Per-metric scores and the table that holds them: what an aggregate sink
//! tracks of the values written to each of its metrics.

use vstd::prelude::*;

use crate::clock::Value;
use crate::sink::MetricKind;

verus! {

/// `a + b`, wrapped around at `2^64` as an atomic add does.
pub open spec fn wrapping_add_spec(a: u64, b: u64) -> u64 {
    if a + b <= u64::MAX {
        (a + b) as u64
    } else {
        (a + b - 0x1_0000_0000_0000_0000) as u64
    }
}

/// The smaller of two values.
pub open spec fn min_spec(a: u64, b: u64) -> u64 {
    if a <= b { a } else { b }
}

/// The larger of two values.
pub open spec fn max_spec(a: u64, b: u64) -> u64 {
    if a >= b { a } else { b }
}

/// What a score holds, as mathematical values.
pub struct ScoreView {
    pub kind: MetricKind,
    pub name: Seq<char>,
    /// How many values were recorded.
    pub hit: u64,
    /// Their sum, modulo `2^64`.
    pub sum: u64,
    /// The smallest of them (`u64::MAX` while there is none).
    pub min: u64,
    /// The largest of them (`0` while there is none).
    pub max: u64,
}

/// The score of a metric to which nothing was written yet.
pub open spec fn fresh_score(kind: MetricKind, name: Seq<char>) -> ScoreView {
    ScoreView { kind, name, hit: 0, sum: 0, min: u64::MAX, max: 0 }
}

/// The score after one more value was written to it.
pub open spec fn score_add(s: ScoreView, value: u64) -> ScoreView {
    ScoreView {
        kind: s.kind,
        name: s.name,
        hit: wrapping_add_spec(s.hit, 1),
        sum: wrapping_add_spec(s.sum, value),
        min: min_spec(s.min, value),
        max: max_spec(s.max, value),
    }
}

/// Count, sum, minimum and maximum of the values written to one metric.
#[derive(Debug)]
pub struct AggregateScore {
    kind: MetricKind,
    name: String,
    hit: u64,
    sum: u64,
    min: u64,
    max: u64,
}

impl View for AggregateScore {
    type V = ScoreView;

    closed spec fn view(&self) -> ScoreView {
        ScoreView {
            kind: self.kind,
            name: self.name@,
            hit: self.hit,
            sum: self.sum,
            min: self.min,
            max: self.max,
        }
    }
}

impl AggregateScore {
    /// The score of a metric to which nothing was written yet.
    pub fn new(kind: MetricKind, name: &str) -> (s: AggregateScore)
        ensures
            s@ == fresh_score(kind, name@),
    {
        AggregateScore { kind, name: name.to_owned(), hit: 0, sum: 0, min: u64::MAX, max: 0 }
    }

    /// Account for one more value written to the metric.
    pub fn add(&mut self, value: Value)
        ensures
            final(self)@ == score_add(old(self)@, value),
    {
        self.hit = self.hit.wrapping_add(1);
        self.sum = self.sum.wrapping_add(value);
        if value < self.min {
            self.min = value;
        }
        if value > self.max {
            self.max = value;
        }
    }

    /// A copy of this score.
    pub fn duplicate(&self) -> (s: AggregateScore)
        ensures
            s@ == self@,
    {
        AggregateScore {
            kind: self.kind,
            name: self.name.clone(),
            hit: self.hit,
            sum: self.sum,
            min: self.min,
            max: self.max,
        }
    }

    /// The kind of the metric.
    pub fn kind(&self) -> (k: MetricKind)
        ensures
            k == self@.kind,
    {
        self.kind
    }

    /// The name of the metric.
    pub fn name(&self) -> (n: &str)
        ensures
            n@ == self@.name,
    {
        self.name.as_str()
    }

    /// How many values were written.
    pub fn hit(&self) -> (h: u64)
        ensures
            h == self@.hit,
    {
        self.hit
    }

    /// The sum of the values written, modulo `2^64`.
    pub fn sum(&self) -> (s: u64)
        ensures
            s == self@.sum,
    {
        self.sum
    }

    /// The smallest value written (`u64::MAX` while there is none).
    pub fn min(&self) -> (m: u64)
        ensures
            m == self@.min,
    {
        self.min
    }

    /// The largest value written (`0` while there is none).
    pub fn max(&self) -> (m: u64)
        ensures
            m == self@.max,
    {
        self.max
    }
}

/// Whether a score belongs to the metric of `kind` named `name`.
pub open spec fn same_key(s: ScoreView, kind: MetricKind, name: Seq<char>) -> bool {
    s.kind == kind && s.name == name
}

/// No two scores belong to the same metric.
pub open spec fn keys_distinct(s: Seq<ScoreView>) -> bool {
    forall|i: int, j: int|
        0 <= i < j < s.len() ==> !same_key(#[trigger] s[i], s[j].kind, #[trigger] s[j].name)
}

/// Whether some score belongs to the metric of `kind` named `name`.
pub open spec fn contains_key(s: Seq<ScoreView>, kind: MetricKind, name: Seq<char>) -> bool {
    exists|i: int| 0 <= i < s.len() && same_key(#[trigger] s[i], kind, name)
}

/// The position of the score of the metric of `kind` named `name`.
pub open spec fn key_index(s: Seq<ScoreView>, kind: MetricKind, name: Seq<char>) -> int {
    choose|i: int| 0 <= i < s.len() && same_key(#[trigger] s[i], kind, name)
}

/// The scores once the metric of `kind` named `name` is defined: a fresh score
/// is added at the end unless the metric already has one.
pub open spec fn register_spec(s: Seq<ScoreView>, kind: MetricKind, name: Seq<char>) -> Seq<
    ScoreView,
> {
    if contains_key(s, kind, name) {
        s
    } else {
        s.push(fresh_score(kind, name))
    }
}

/// The scores once `value` is written to the metric of `kind` named `name`:
/// its score takes the value in, and a metric without a score gets one first.
pub open spec fn record_spec(s: Seq<ScoreView>, kind: MetricKind, name: Seq<char>, value: u64) -> Seq<
    ScoreView,
> {
    if contains_key(s, kind, name) {
        let i = key_index(s, kind, name);
        s.update(i, score_add(s[i], value))
    } else {
        s.push(score_add(fresh_score(kind, name), value))
    }
}

/// The scores of all metrics of an aggregate, in the order they were defined.
#[derive(Debug)]
pub struct ScoreTable {
    scores: Vec<AggregateScore>,
}

impl View for ScoreTable {
    type V = Seq<ScoreView>;

    closed spec fn view(&self) -> Seq<ScoreView> {
        self.scores@.map_values(|s: AggregateScore| s@)
    }
}

impl ScoreTable {
    /// Each metric has at most one score.
    pub open spec fn wf(&self) -> bool {
        keys_distinct(self@)
    }

    /// A table without any score.
    pub fn new() -> (t: ScoreTable)
        ensures
            t.wf(),
            t@ == Seq::<ScoreView>::empty(),
    {
        let t = ScoreTable { scores: Vec::new() };
        assert(t@ =~= Seq::<ScoreView>::empty());
        t
    }

    /// The number of scores.
    pub fn len(&self) -> (n: usize)
        ensures
            n == self@.len(),
    {
        self.scores.len()
    }

    /// The position of the score of the metric of `kind` named `name`, if it has one.
    pub fn find(&self, kind: MetricKind, name: &String) -> (r: Option<usize>)
        requires
            self.wf(),
        ensures
            r is None <==> !contains_key(self@, kind, name@),
            r matches Some(i) ==> i < self@.len() && same_key(self@[i as int], kind, name@)
                && i == key_index(self@, kind, name@),
    {
        let n = self.scores.len();
        let mut i: usize = 0;
        while i < n
            invariant
                n == self.scores@.len(),
                self@.len() == n,
                self.wf(),
                i <= n,
                forall|j: int| 0 <= j < i ==> !same_key(#[trigger] self@[j], kind, name@),
            decreases n - i,
        {
            if self.scores[i].kind == kind && self.scores[i].name.eq(name) {
                assert(same_key(self@[i as int], kind, name@));
                proof {
                    let k = key_index(self@, kind, name@);
                    assert(0 <= k < self@.len() && same_key(self@[k], kind, name@));
                    if k != i {
                        if k < i {
                            assert(!same_key(self@[k], kind, name@));
                        } else {
                            assert(!same_key(self@[i as int], self@[k].kind, self@[k].name));
                        }
                    }
                }
                return Some(i);
            }
            i = i + 1;
        }
        None
    }

    /// Define the metric of `kind` named `name`: it gets a fresh score unless it has one.
    pub fn register(&mut self, kind: MetricKind, name: &String)
        requires
            old(self).wf(),
        ensures
            final(self).wf(),
            final(self)@ == register_spec(old(self)@, kind, name@),
    {
        match self.find(kind, name) {
            Some(_) => {},
            None => {
                let s = AggregateScore::new(kind, name.as_str());
                self.scores.push(s);
                assert(self@ =~= old(self)@.push(fresh_score(kind, name@)));
            },
        }
    }

    /// Write `value` to the metric of `kind` named `name`.
    pub fn record(&mut self, kind: MetricKind, name: &String, value: Value)
        requires
            old(self).wf(),
        ensures
            final(self).wf(),
            final(self)@ == record_spec(old(self)@, kind, name@, value),
    {
        match self.find(kind, name) {
            Some(i) => {
                let mut s = self.scores[i].duplicate();
                s.add(value);
                self.scores.set(i, s);
                assert(self@ =~= old(self)@.update(i as int, score_add(old(self)@[i as int], value)));
            },
            None => {
                let mut s = AggregateScore::new(kind, name.as_str());
                s.add(value);
                self.scores.push(s);
                assert(self@ =~= old(self)@.push(score_add(fresh_score(kind, name@), value)));
            },
        }
    }

    /// Copies of all scores, in table order.
    pub fn snapshot(&self) -> (v: Vec<AggregateScore>)
        ensures
            v@.map_values(|s: AggregateScore| s@) == self@,
    {
        let n = self.scores.len();
        let mut v: Vec<AggregateScore> = Vec::new();
        let mut i: usize = 0;
        while i < n
            invariant
                n == self.scores@.len(),
                i <= n,
                v@.len() == i,
                forall|j: int| 0 <= j < i ==> (#[trigger] v@[j])@ == self.scores@[j]@,
            decreases n - i,
        {
            v.push(self.scores[i].duplicate());
            i = i + 1;
        }
        assert(v@.map_values(|s: AggregateScore| s@) =~= self@);
        v
    }
}

} // verus!
