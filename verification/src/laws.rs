//! What aggregation promises of every table and every sequence of writes.

use vstd::prelude::*;

use crate::aggregate::AggregateSink;
use crate::frontend::{Counter, Event, Gauge};
use crate::sink::{MetricKind, MetricWriter};
use crate::score::{
    contains_key, fresh_score, key_index, keys_distinct, max_spec, min_spec, record_spec,
    register_spec, same_key, score_add, wrapping_add_spec, ScoreView,
};

verus! {

/// The score that the metric of `kind` named `name` has in `s`; a fresh one if it has none.
pub open spec fn score_of(s: Seq<ScoreView>, kind: MetricKind, name: Seq<char>) -> ScoreView {
    if contains_key(s, kind, name) {
        s[key_index(s, kind, name)]
    } else {
        fresh_score(kind, name)
    }
}

/// The scores once each of `values` is written, in order, to the metric of `kind` named `name`.
pub open spec fn record_all(
    s: Seq<ScoreView>,
    kind: MetricKind,
    name: Seq<char>,
    values: Seq<u64>,
) -> Seq<ScoreView>
    decreases values.len(),
{
    if values.len() == 0 {
        s
    } else {
        record_spec(record_all(s, kind, name, values.drop_last()), kind, name, values.last())
    }
}

/// The sum of `values`.
pub open spec fn seq_sum(values: Seq<u64>) -> int
    decreases values.len(),
{
    if values.len() == 0 {
        0
    } else {
        seq_sum(values.drop_last()) + values.last()
    }
}

/// The smallest of `values`; `u64::MAX` for none.
pub open spec fn seq_min(values: Seq<u64>) -> u64
    decreases values.len(),
{
    if values.len() == 0 {
        u64::MAX
    } else {
        min_spec(seq_min(values.drop_last()), values.last())
    }
}

/// The largest of `values`; `0` for none.
pub open spec fn seq_max(values: Seq<u64>) -> u64
    decreases values.len(),
{
    if values.len() == 0 {
        0
    } else {
        max_spec(seq_max(values.drop_last()), values.last())
    }
}

/// In a table with one score per metric, the score of a metric is the only one at its position.
proof fn lemma_key_index_unique(s: Seq<ScoreView>, kind: MetricKind, name: Seq<char>, j: int)
    requires
        keys_distinct(s),
        0 <= j < s.len(),
        same_key(s[j], kind, name),
    ensures
        contains_key(s, kind, name),
        key_index(s, kind, name) == j,
{
    assert(contains_key(s, kind, name));
    let k = key_index(s, kind, name);
    if k < j {
        assert(!same_key(s[k], s[j].kind, s[j].name));
    } else if k > j {
        assert(!same_key(s[j], s[k].kind, s[k].name));
    }
}

/// Writing a value to a metric takes it into that metric's score: one more hit,
/// the value added to the sum (modulo `2^64`), minimum and maximum updated.
/// Every other metric keeps its score and stays defined or undefined as it was,
/// and the table keeps one score per metric.
pub proof fn law_write_updates_only_its_metric(
    s: Seq<ScoreView>,
    kind: MetricKind,
    name: Seq<char>,
    value: u64,
)
    requires
        keys_distinct(s),
    ensures
        keys_distinct(record_spec(s, kind, name, value)),
        contains_key(record_spec(s, kind, name, value), kind, name),
        score_of(record_spec(s, kind, name, value), kind, name) == score_add(
            score_of(s, kind, name),
            value,
        ),
        forall|k2: MetricKind, n2: Seq<char>|
            !(k2 == kind && n2 == name) ==> {
                &&& #[trigger] score_of(record_spec(s, kind, name, value), k2, n2) == score_of(
                    s,
                    k2,
                    n2,
                )
                &&& contains_key(record_spec(s, kind, name, value), k2, n2) == contains_key(
                    s,
                    k2,
                    n2,
                )
            },
{
    let t = record_spec(s, kind, name, value);
    if contains_key(s, kind, name) {
        let i = key_index(s, kind, name);
        assert(t[i] == score_add(s[i], value));
        assert(keys_distinct(t)) by {
            assert forall|a: int, b: int| 0 <= a < b < t.len() implies !same_key(
                #[trigger] t[a],
                t[b].kind,
                #[trigger] t[b].name,
            ) by {
                assert(!same_key(s[a], s[b].kind, s[b].name));
            }
        }
        lemma_key_index_unique(t, kind, name, i);
        assert forall|k2: MetricKind, n2: Seq<char>| !(k2 == kind && n2 == name) implies {
            &&& #[trigger] score_of(t, k2, n2) == score_of(s, k2, n2)
            &&& contains_key(t, k2, n2) == contains_key(s, k2, n2)
        } by {
            if contains_key(s, k2, n2) {
                let j = key_index(s, k2, n2);
                lemma_key_index_unique(t, k2, n2, j);
            }
            if contains_key(t, k2, n2) {
                let j = key_index(t, k2, n2);
                assert(same_key(s[j], k2, n2));
            }
        }
    } else {
        let n = s.len() as int;
        assert(t[n] == score_add(fresh_score(kind, name), value));
        assert(keys_distinct(t)) by {
            assert forall|a: int, b: int| 0 <= a < b < t.len() implies !same_key(
                #[trigger] t[a],
                t[b].kind,
                #[trigger] t[b].name,
            ) by {
                if b < n {
                    assert(!same_key(s[a], s[b].kind, s[b].name));
                } else {
                    assert(!same_key(s[a], kind, name));
                }
            }
        }
        lemma_key_index_unique(t, kind, name, n);
        assert forall|k2: MetricKind, n2: Seq<char>| !(k2 == kind && n2 == name) implies {
            &&& #[trigger] score_of(t, k2, n2) == score_of(s, k2, n2)
            &&& contains_key(t, k2, n2) == contains_key(s, k2, n2)
        } by {
            if contains_key(s, k2, n2) {
                let j = key_index(s, k2, n2);
                lemma_key_index_unique(t, k2, n2, j);
            }
            if contains_key(t, k2, n2) {
                let j = key_index(t, k2, n2);
                assert(j != n);
                assert(same_key(s[j], k2, n2));
            }
        }
    }
}

/// Defining a metric twice is the same as defining it once, defining it
/// changes no score, and afterwards the metric has a score.
pub proof fn law_define_is_idempotent(s: Seq<ScoreView>, kind: MetricKind, name: Seq<char>)
    requires
        keys_distinct(s),
    ensures
        keys_distinct(register_spec(s, kind, name)),
        contains_key(register_spec(s, kind, name), kind, name),
        register_spec(register_spec(s, kind, name), kind, name) == register_spec(s, kind, name),
        forall|k2: MetricKind, n2: Seq<char>|
            #[trigger] score_of(register_spec(s, kind, name), k2, n2) == score_of(s, k2, n2),
{
    let t = register_spec(s, kind, name);
    if !contains_key(s, kind, name) {
        let n = s.len() as int;
        assert(keys_distinct(t)) by {
            assert forall|a: int, b: int| 0 <= a < b < t.len() implies !same_key(
                #[trigger] t[a],
                t[b].kind,
                #[trigger] t[b].name,
            ) by {
                if b < n {
                    assert(!same_key(s[a], s[b].kind, s[b].name));
                } else {
                    assert(!same_key(s[a], kind, name));
                }
            }
        }
        lemma_key_index_unique(t, kind, name, n);
        assert forall|k2: MetricKind, n2: Seq<char>|
            #[trigger] score_of(t, k2, n2) == score_of(s, k2, n2) by {
            if contains_key(s, k2, n2) {
                let j = key_index(s, k2, n2);
                lemma_key_index_unique(t, k2, n2, j);
            }
            if contains_key(t, k2, n2) {
                let j = key_index(t, k2, n2);
                if j < n {
                    lemma_key_index_unique(s, k2, n2, j);
                }
            }
        }
    }
}

/// Writing to a metric that was never defined is the same as defining it first
/// and then writing to it.
pub proof fn law_write_defines(s: Seq<ScoreView>, kind: MetricKind, name: Seq<char>, value: u64)
    requires
        keys_distinct(s),
    ensures
        record_spec(register_spec(s, kind, name), kind, name, value) == record_spec(
            s,
            kind,
            name,
            value,
        ),
{
    if !contains_key(s, kind, name) {
        let n = s.len() as int;
        let t = register_spec(s, kind, name);
        law_define_is_idempotent(s, kind, name);
        lemma_key_index_unique(t, kind, name, n);
        assert(record_spec(t, kind, name, value) =~= record_spec(s, kind, name, value));
    }
}

/// Writing values in turn keeps one score per metric.
proof fn lemma_record_all_distinct(
    s: Seq<ScoreView>,
    kind: MetricKind,
    name: Seq<char>,
    values: Seq<u64>,
)
    requires
        keys_distinct(s),
    ensures
        keys_distinct(record_all(s, kind, name, values)),
    decreases values.len(),
{
    if values.len() > 0 {
        lemma_record_all_distinct(s, kind, name, values.drop_last());
        law_write_updates_only_its_metric(
            record_all(s, kind, name, values.drop_last()),
            kind,
            name,
            values.last(),
        );
    }
}

/// `wrapping_add_spec` is addition modulo `2^64`.
proof fn lemma_wrapping_add_is_mod(a: int, v: u64)
    requires
        0 <= a,
    ensures
        wrapping_add_spec((a % 0x1_0000_0000_0000_0000) as u64, v) == ((a + v)
            % 0x1_0000_0000_0000_0000) as u64,
{
    let m: int = 0x1_0000_0000_0000_0000;
    let r = a % m;
    vstd::arithmetic::div_mod::lemma_add_mod_noop(a, v as int, m);
    vstd::arithmetic::div_mod::lemma_small_mod(v as nat, m as nat);
    vstd::arithmetic::div_mod::lemma_mod_bound(a, m);
    if r + v < m {
        vstd::arithmetic::div_mod::lemma_small_mod((r + v) as nat, m as nat);
    } else {
        vstd::arithmetic::div_mod::lemma_small_mod((r + v - m) as nat, m as nat);
        vstd::arithmetic::div_mod::lemma_mod_sub_multiples_vanish(r + v, m);
    }
}

/// Writing values `v1 .. vn` in turn to a metric that had no score leaves it
/// with `n` hits, the sum of the values modulo `2^64`, their minimum and their
/// maximum; the table keeps one score per metric.
pub proof fn law_writes_aggregate(
    s: Seq<ScoreView>,
    kind: MetricKind,
    name: Seq<char>,
    values: Seq<u64>,
)
    requires
        keys_distinct(s),
        !contains_key(s, kind, name),
        values.len() <= u64::MAX,
    ensures
        keys_distinct(record_all(s, kind, name, values)),
        score_of(record_all(s, kind, name, values), kind, name) == (ScoreView {
            kind,
            name,
            hit: values.len() as u64,
            sum: (seq_sum(values) % 0x1_0000_0000_0000_0000) as u64,
            min: seq_min(values),
            max: seq_max(values),
        }),
    decreases values.len(),
{
    lemma_record_all_distinct(s, kind, name, values);
    if values.len() > 0 {
        let prev = values.drop_last();
        law_writes_aggregate(s, kind, name, prev);
        law_write_updates_only_its_metric(record_all(s, kind, name, prev), kind, name, values.last());
        lemma_seq_sum_nonneg(prev);
        lemma_wrapping_add_is_mod(seq_sum(prev), values.last());
    }
}

/// A sum of values is never negative.
proof fn lemma_seq_sum_nonneg(values: Seq<u64>)
    ensures
        seq_sum(values) >= 0,
    decreases values.len(),
{
    if values.len() > 0 {
        lemma_seq_sum_nonneg(values.drop_last());
    }
}

/// A value point recorded on a gauge of an aggregator lands in the score of the
/// gauge's metric and only there: one more hit, the minimum and the maximum take
/// the value in, so the value lies between them afterwards.
pub proof fn law_gauge_value_is_tracked(
    gauge: Gauge<AggregateSink>,
    value: u64,
    trace: (Seq<ScoreView>, Seq<ScoreView>),
)
    requires
        gauge.writer().wrote(gauge.metric(), value, trace),
    ensures
        ({
            let (kind, name) = gauge.metric()@;
            let before = score_of(trace.0, kind, name);
            let after = score_of(trace.1, kind, name);
            &&& after.hit == wrapping_add_spec(before.hit, 1)
            &&& after.min == min_spec(before.min, value)
            &&& after.max == max_spec(before.max, value)
            &&& after.min <= value <= after.max
            &&& forall|k2: MetricKind, n2: Seq<char>|
                !(k2 == kind && n2 == name) ==> #[trigger] score_of(trace.1, k2, n2) == score_of(
                    trace.0,
                    k2,
                    n2,
                )
        }),
{
    let (kind, name) = gauge.metric()@;
    law_write_updates_only_its_metric(trace.0, kind, name, value);
}

/// A count recorded on a counter of an aggregator is added to the sum of the
/// counter's metric (modulo `2^64`) with one more hit; no other metric changes.
pub proof fn law_counter_count_is_summed(
    counter: Counter<AggregateSink>,
    count: u64,
    trace: (Seq<ScoreView>, Seq<ScoreView>),
)
    requires
        counter.writer().wrote(counter.metric(), count, trace),
    ensures
        ({
            let (kind, name) = counter.metric()@;
            let before = score_of(trace.0, kind, name);
            let after = score_of(trace.1, kind, name);
            &&& after.hit == wrapping_add_spec(before.hit, 1)
            &&& after.sum == wrapping_add_spec(before.sum, count)
            &&& forall|k2: MetricKind, n2: Seq<char>|
                !(k2 == kind && n2 == name) ==> #[trigger] score_of(trace.1, k2, n2) == score_of(
                    trace.0,
                    k2,
                    n2,
                )
        }),
{
    let (kind, name) = counter.metric()@;
    law_write_updates_only_its_metric(trace.0, kind, name, count);
}

/// Marking an event of an aggregator adds one hit and one to the sum of the
/// event's metric; no other metric changes.
pub proof fn law_event_mark_is_counted(
    event: Event<AggregateSink>,
    trace: (Seq<ScoreView>, Seq<ScoreView>),
)
    requires
        event.writer().wrote(event.metric(), 1, trace),
    ensures
        ({
            let (kind, name) = event.metric()@;
            let before = score_of(trace.0, kind, name);
            let after = score_of(trace.1, kind, name);
            &&& after.hit == wrapping_add_spec(before.hit, 1)
            &&& after.sum == wrapping_add_spec(before.sum, 1)
            &&& forall|k2: MetricKind, n2: Seq<char>|
                !(k2 == kind && n2 == name) ==> #[trigger] score_of(trace.1, k2, n2) == score_of(
                    trace.0,
                    k2,
                    n2,
                )
        }),
{
    let (kind, name) = event.metric()@;
    law_write_updates_only_its_metric(trace.0, kind, name, 1);
}

} // verus!
