use vstd::prelude::*;

verus! {

/// `x` held to the range of `i64`.
pub open spec fn clamp_i64(x: int) -> i64 {
    if x < i64::MIN {
        i64::MIN
    } else if x > i64::MAX {
        i64::MAX
    } else {
        x as i64
    }
}

/// `a + b`, held to the range of `i64`.
pub fn saturating_add_i64(a: i64, b: i64) -> (r: i64)
    ensures
        r == clamp_i64(a + b),
{
    match a.checked_add(b) {
        Some(s) => s,
        None => if b < 0 {
            i64::MIN
        } else {
            i64::MAX
        },
    }
}

/// `a - b`, held to the range of `i64`.
pub fn saturating_sub_i64(a: i64, b: i64) -> (r: i64)
    ensures
        r == clamp_i64(a - b),
{
    match a.checked_sub(b) {
        Some(s) => s,
        None => if b > 0 {
            i64::MIN
        } else {
            i64::MAX
        },
    }
}

/// One end of a time window, in the unit of time that its user chooses.
#[derive(Clone, Copy, Debug, PartialEq, Eq, Structural)]
pub enum TimeBound {
    Included(i64),
    Excluded(i64),
    Unbounded,
}

/// Timing that travels with a message over all its hops, in milliseconds.
#[derive(Clone, Copy, Debug)]
pub struct LongTermTiming {
    /// When the first message of the exchange was sent (unix time).
    pub initial_timestamp: i64,
    /// Processing time summed over all the hops so far.
    pub cumulative_processing_time: i64,
}

/// Timing of the current hop, in milliseconds.
#[derive(Clone, Copy, Debug)]
pub struct ShortTermTiming {
    /// When this hop produced the message (unix time).
    pub timestamp: i64,
    /// How long this hop took.
    pub processing_time: i64,
}

impl ShortTermTiming {
    /// Timing of a hop that started at `start` and ends at `now`.
    pub fn until_now(start: i64, now: i64) -> (r: ShortTermTiming)
        ensures
            r.timestamp == now,
            r.processing_time == clamp_i64(now - start),
    {
        ShortTermTiming { timestamp: now, processing_time: saturating_sub_i64(now, start) }
    }
}

impl LongTermTiming {
    pub fn new(initial_timestamp: i64) -> (r: LongTermTiming)
        ensures
            r.initial_timestamp == initial_timestamp,
            r.cumulative_processing_time == 0,
    {
        LongTermTiming { initial_timestamp, cumulative_processing_time: 0 }
    }

    /// The timing after one more hop, which took `hop`.
    pub fn update_cumulative_timings(self, hop: &ShortTermTiming) -> (r: LongTermTiming)
        ensures
            r == self.after_hop(*hop),
    {
        LongTermTiming {
            initial_timestamp: self.initial_timestamp,
            cumulative_processing_time: saturating_add_i64(
                self.cumulative_processing_time,
                hop.processing_time,
            ),
        }
    }

    pub open spec fn after_hop(self, hop: ShortTermTiming) -> LongTermTiming {
        LongTermTiming {
            initial_timestamp: self.initial_timestamp,
            cumulative_processing_time: clamp_i64(
                self.cumulative_processing_time + hop.processing_time,
            ),
        }
    }
}

} // verus!
