//! Frame timing in whole nanoseconds since the engine started.
use vstd::prelude::*;

verus! {

/// Nanoseconds in one second.
pub const NANOS_PER_SECOND: u64 = 1_000_000_000;

/// The time since start and the length of the last frame, both in
/// nanoseconds. `time_since_start` never decreases.
#[derive(Clone, Copy, Debug, PartialEq, Eq, Structural)]
pub struct FrameClock {
    pub time_since_start: u64,
    pub delta_time: u64,
}

/// The clock after a frame that began at `now`: time since start moves to
/// `now` unless that would take it back, and the delta is how far it moved.
pub open spec fn clock_after(clock: FrameClock, now: u64) -> FrameClock {
    let t = if now >= clock.time_since_start { now } else { clock.time_since_start };
    FrameClock { time_since_start: t, delta_time: (t - clock.time_since_start) as u64 }
}

/// Whole seconds in `nanos`.
pub open spec fn whole_seconds(nanos: u64) -> u64 {
    nanos / NANOS_PER_SECOND
}

impl FrameClock {
    /// A clock at the start: no time passed, no frame yet.
    pub fn new() -> (r: FrameClock)
        ensures
            r.time_since_start == 0,
            r.delta_time == 0,
    {
        FrameClock { time_since_start: 0, delta_time: 0 }
    }

    /// Starts a frame at `now`, read from a monotonic clock as nanoseconds
    /// since start.
    pub fn tick(&mut self, now: u64)
        ensures
            *final(self) == clock_after(*old(self), now),
    {
        let t = if now >= self.time_since_start { now } else { self.time_since_start };
        self.delta_time = t - self.time_since_start;
        self.time_since_start = t;
    }

    /// Whole seconds since start.
    pub fn seconds_since_start(&self) -> (r: u64)
        ensures
            r == whole_seconds(self.time_since_start),
    {
        self.time_since_start / NANOS_PER_SECOND
    }
}

/// Time since start never goes back, and each delta is exactly the step from
/// one frame's time since start to the next.
pub proof fn lemma_clock_monotonic(clock: FrameClock, now: u64)
    ensures
        clock_after(clock, now).time_since_start >= clock.time_since_start,
        clock_after(clock, now).time_since_start == clock.time_since_start + clock_after(clock, now).delta_time,
        now >= clock.time_since_start ==> clock_after(clock, now).time_since_start == now,
{
}

} // verus!
