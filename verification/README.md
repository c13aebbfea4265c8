# dipstick

A metrics library: application code defines events, counters, gauges and
timers on a `Metrics` dispatch; each metric is defined on, and writes its values
to, a backend `MetricSink`. Sinks provided here aggregate values in memory
(count, sum, minimum, maximum per metric), send to two sinks at once, or queue
entries for the application's logger; aggregated scores can be published to
another sink.

Layout:

- `src/` — the library, with its contracts and proofs: `clock` (time handles), `sink`
  (backend traits), `frontend` (dispatch and metric handles), `score` (scores
  and the score table), `aggregate`, `dual`, `logging`, `publish`, and `laws`
  (properties of aggregation, proved over the score table).
- `tests/` — tests of the library.
- `app/` — unverified glue: forwarding queued log entries to the `log` crate,
  and taking `num::ToPrimitive` values where the library takes a `u64`.
