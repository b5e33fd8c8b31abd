//! How times are written in stored and published records: unix seconds or
//! milliseconds, and time windows as `[lower, upper)` pairs of seconds in
//! which `None` stands for an open end.
use vstd::prelude::*;

use crate::timing::{clamp_i64, saturating_add_i64, saturating_sub_i64, TimeBound};

verus! {

/// A moment in UTC: whole seconds of unix time and the nanoseconds after them
/// (past a billion during a leap second).
#[derive(Clone, Copy, Debug, PartialEq, Eq, Structural)]
pub struct UtcTime {
    pub secs: i64,
    pub nanos: u32,
}

impl UtcTime {
    pub open spec fn wf(self) -> bool {
        self.nanos < 2_000_000_000
    }

    /// The moment in whole milliseconds of unix time.
    pub open spec fn millis(self) -> i64 {
        clamp_i64(self.secs * 1000 + self.nanos / 1_000_000)
    }

    pub fn from_secs(secs: i64) -> (r: UtcTime)
        ensures
            r.wf(),
            r.secs == secs,
            r.nanos == 0,
    {
        UtcTime { secs, nanos: 0 }
    }

    /// The moment in whole milliseconds of unix time.
    pub fn timestamp_millis(self) -> (r: i64)
        requires
            self.wf(),
        ensures
            r == self.millis(),
    {
        let v: i128 = (self.secs as i128) * 1000 + (self.nanos / 1_000_000) as i128;
        if v > i64::MAX as i128 {
            i64::MAX
        } else if v < i64::MIN as i128 {
            i64::MIN
        } else {
            v as i64
        }
    }
}

/// A time window `(lower, upper)`.
pub type Time = (TimeBound, TimeBound);

/// The written form of the lower end of a window: the first second in it.
pub open spec fn lower_secs(b: TimeBound) -> Option<i64> {
    match b {
        TimeBound::Included(t) => Some(t),
        TimeBound::Excluded(t) => Some(clamp_i64(t + 1)),
        TimeBound::Unbounded => None,
    }
}

/// The written form of the upper end of a window: the first second after it.
pub open spec fn upper_secs(b: TimeBound) -> Option<i64> {
    match b {
        TimeBound::Included(t) => Some(clamp_i64(t - 1)),
        TimeBound::Excluded(t) => Some(t),
        TimeBound::Unbounded => None,
    }
}

/// The end of a window that a written number (or `None`) stands for.
pub open spec fn lower_of(v: Option<i64>) -> TimeBound {
    match v {
        Some(t) => TimeBound::Included(t),
        None => TimeBound::Unbounded,
    }
}

pub open spec fn upper_of(v: Option<i64>) -> TimeBound {
    match v {
        Some(t) => TimeBound::Excluded(t),
        None => TimeBound::Unbounded,
    }
}

/// Writes a window of seconds as the pair `[lower, upper)`, where an open
/// end is `None`.
pub fn seconds_bound_tuple(value: &Time) -> (r: (Option<i64>, Option<i64>))
    ensures
        r == (lower_secs(value.0), upper_secs(value.1)),
{
    let lower = match value.0 {
        TimeBound::Included(t) => Some(t),
        TimeBound::Excluded(t) => Some(saturating_add_i64(t, 1)),
        TimeBound::Unbounded => None,
    };
    let upper = match value.1 {
        TimeBound::Included(t) => Some(saturating_sub_i64(t, 1)),
        TimeBound::Excluded(t) => Some(t),
        TimeBound::Unbounded => None,
    };
    (lower, upper)
}

/// Writes an optional window of seconds.
pub fn seconds_option_bound_tuple(value: &Option<Time>) -> (r: Option<(Option<i64>, Option<i64>)>)
    ensures
        r == match *value {
            Some(t) => Some((lower_secs(t.0), upper_secs(t.1))),
            None => None,
        },
{
    match value {
        Some(t) => Some(seconds_bound_tuple(t)),
        None => None,
    }
}

/// Writes an optional moment as whole seconds.
pub fn seconds_option(opt: &Option<UtcTime>) -> (r: Option<i64>)
    ensures
        r == match *opt {
            Some(t) => Some(t.secs),
            None => None,
        },
{
    match opt {
        Some(t) => Some(t.secs),
        None => None,
    }
}

/// Writes an optional moment as whole milliseconds.
pub fn ts_milliseconds_option(opt: &Option<UtcTime>) -> (r: Option<i64>)
    requires
        match *opt {
            Some(t) => t.wf(),
            None => true,
        },
    ensures
        r == match *opt {
            Some(t) => Some(t.millis()),
            None => None,
        },
{
    match opt {
        Some(t) => Some(t.timestamp_millis()),
        None => None,
    }
}

/// The value of one end of a window of milliseconds, zero where it is open.
pub open spec fn bound_millis(b: TimeBound) -> i64 {
    match b {
        TimeBound::Included(t) => t,
        TimeBound::Excluded(t) => t,
        TimeBound::Unbounded => 0,
    }
}

/// Writes optional windows of milliseconds as pairs of numbers, an open end
/// as zero.
pub fn milliseconds_bound_tuples_option(value: &Option<Vec<Time>>) -> (r: Option<Vec<(i64, i64)>>)
    ensures
        match *value {
            None => r is None,
            Some(v) => r matches Some(w) && w@.len() == v@.len() && forall|i: int|
                0 <= i < v@.len() ==> #[trigger] w@[i] == (
                    bound_millis(v@[i].0),
                    bound_millis(v@[i].1),
                ),
        },
{
    match value {
        None => None,
        Some(v) => {
            let mut out: Vec<(i64, i64)> = Vec::new();
            let mut i: usize = 0;
            while i < v.len()
                invariant
                    0 <= i <= v@.len(),
                    out@.len() == i,
                    forall|k: int|
                        0 <= k < i ==> #[trigger] out@[k] == (
                            bound_millis(v@[k].0),
                            bound_millis(v@[k].1),
                        ),
                decreases v@.len() - i,
            {
                let (lt, rt) = v[i];
                let l = match lt {
                    TimeBound::Included(t) => t,
                    TimeBound::Excluded(t) => t,
                    TimeBound::Unbounded => 0,
                };
                let u = match rt {
                    TimeBound::Included(t) => t,
                    TimeBound::Excluded(t) => t,
                    TimeBound::Unbounded => 0,
                };
                out.push((l, u));
                i = i + 1;
            }
            Some(out)
        },
    }
}

/// A sequence held too few elements: `len` is how many were expected to be
/// there when it ended.
#[derive(Clone, Copy, Debug, PartialEq, Eq, Structural)]
pub struct InvalidLength {
    pub len: usize,
}

/// Reads a moment, or nothing, from whole seconds of unix time.
pub struct SecondsTimestampOptionVisitor;

impl SecondsTimestampOptionVisitor {
    /// What the reader expects to find.
    pub fn expecting(&self) -> (r: &'static str)
        ensures
            r@ == "none or unix time (seconds)"@,
    {
        "none or unix time (seconds)"
    }

    pub fn visit_none(&self) -> (r: Option<UtcTime>)
        ensures
            r is None,
    {
        None
    }

    /// The moment at the start of second `secs` of unix time.
    pub fn visit_some(&self, secs: i64) -> (r: Option<UtcTime>)
        ensures
            r == Some(UtcTime { secs, nanos: 0 }),
    {
        Some(UtcTime::from_secs(secs))
    }
}

/// Reads a window `[lower, upper)`, or nothing, from a pair of whole seconds
/// of unix time in which `None` stands for an open end.
pub struct TupleSecondsTimestampVisitor;

/// What the reader makes of the elements of a pair.
pub open spec fn window_of(items: Seq<Option<i64>>) -> Result<Time, InvalidLength> {
    if items.len() < 1 {
        Err(InvalidLength { len: 1 })
    } else if items.len() < 2 {
        Err(InvalidLength { len: 2 })
    } else {
        Ok((lower_of(items[0]), upper_of(items[1])))
    }
}

impl TupleSecondsTimestampVisitor {
    /// What the reader expects to find.
    pub fn expecting(&self) -> (r: &'static str)
        ensures
            r@ == "none or a [lt, rt) range of unix time (seconds) or null (unbounded)"@,
    {
        "none or a [lt, rt) range of unix time (seconds) or null (unbounded)"
    }

    /// Reads the window from the elements of the pair, in order.
    pub fn visit_seq(&self, items: &Vec<Option<i64>>) -> (r: Result<Time, InvalidLength>)
        ensures
            r == window_of(items@),
    {
        if items.len() < 1 {
            return Err(InvalidLength { len: 1 });
        }
        let lower = match items[0] {
            Some(t) => TimeBound::Included(t),
            None => TimeBound::Unbounded,
        };
        if items.len() < 2 {
            return Err(InvalidLength { len: 2 });
        }
        let upper = match items[1] {
            Some(t) => TimeBound::Excluded(t),
            None => TimeBound::Unbounded,
        };
        Ok((lower, upper))
    }

    pub fn visit_none(&self) -> (r: Option<Time>)
        ensures
            r is None,
    {
        None
    }

    /// Reads the window from the elements of a pair that is present.
    pub fn visit_some(&self, items: &Vec<Option<i64>>) -> (r: Result<Option<Time>, InvalidLength>)
        ensures
            r == match window_of(items@) {
                Ok(t) => Ok(Some(t)),
                Err(e) => Err(e),
            },
    {
        match self.visit_seq(items) {
            Ok(t) => Ok(Some(t)),
            Err(e) => Err(e),
        }
    }
}

} // verus!
