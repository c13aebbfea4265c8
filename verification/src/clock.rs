//! Time handles used to measure intervals in microseconds.

use vstd::prelude::*;

verus! {

/// A metric value.
pub type Value = u64;

/// Reads the high-resolution performance counter of the `time` crate
/// (`time::precise_time_ns`): nanoseconds since an unspecified epoch.
/// The reading depends on the clock, so nothing is promised of it.
#[verifier::external_body]
fn precise_time_ns() -> (ns: u64) {
    time::precise_time_ns()
}

/// A point in time, in nanoseconds of the performance counter.
#[derive(Debug)]
pub struct TimeHandle(u64);

impl View for TimeHandle {
    type V = u64;

    closed spec fn view(&self) -> u64 {
        self.0
    }
}

/// Whole microseconds from `start_ns` to a later `now_ns`, both in nanoseconds.
pub open spec fn elapsed_us_spec(start_ns: u64, now_ns: u64) -> u64
    recommends
        start_ns <= now_ns,
{
    ((now_ns - start_ns) / 1000) as u64
}

impl TimeHandle {
    /// Get a handle on current time.
    /// Used by the `Timer::start` method.
    pub fn now() -> (h: TimeHandle) {
        TimeHandle(precise_time_ns())
    }

    /// The reading of the performance counter that this handle holds, in nanoseconds.
    pub fn nanos(&self) -> (ns: u64)
        ensures
            ns == self@,
    {
        self.0
    }

    /// The microseconds elapsed from this handle until `later`,
    /// which must not lie before it.
    pub fn elapsed_us_until(&self, later: &TimeHandle) -> (us: Value)
        requires
            self@ <= later@,
        ensures
            us == elapsed_us_spec(self@, later@),
    {
        (later.0 - self.0) / 1000
    }

    /// Get the elapsed time in microseconds since TimeHandle was obtained.
    /// The performance counter is monotonic, so its reading does not lie before
    /// the handle; should it ever, no time is counted and the result is 0.
    pub fn elapsed_us(self) -> (us: Value)
        ensures
            exists|now_ns: u64| self@ <= now_ns && us == elapsed_us_spec(self@, now_ns),
    {
        let now = TimeHandle::now();
        if self.0 <= now.0 {
            self.elapsed_us_until(&now)
        } else {
            assert(elapsed_us_spec(self@, self@) == 0);
            0
        }
    }
}

} // verus!
