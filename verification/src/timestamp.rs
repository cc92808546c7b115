//! Timestamps: seconds and nanoseconds, compared as points on the real
//! timeline.

use vstd::prelude::*;

verus! {

/// A point in time: whole seconds (possibly negative) and a sub-second
/// nanosecond part.
#[derive(Clone, Copy, Debug, PartialEq, Eq, PartialOrd, Ord, Hash, Structural)]
pub struct Timestamp {
    /// Whole seconds.
    pub secs: i64,
    /// Nanoseconds within the second; always below one billion.
    pub nsecs: u32,
}

impl Timestamp {
    /// The nanosecond part never reaches a full second.
    pub open spec fn wf(self) -> bool {
        self.nsecs < 1_000_000_000
    }

    /// The timestamp as a single (unbounded) count of nanoseconds.
    pub open spec fn as_nanos(self) -> int {
        self.secs * 1_000_000_000 + self.nsecs
    }

    /// Builds a timestamp; rejects a nanosecond part of a second or more.
    pub fn new(secs: i64, nsecs: u32) -> (r: Option<Timestamp>)
        ensures
            nsecs < 1_000_000_000 ==> r == Some(Timestamp { secs, nsecs }),
            nsecs >= 1_000_000_000 ==> r is None,
    {
        if nsecs < 1_000_000_000 {
            Some(Timestamp { secs, nsecs })
        } else {
            None
        }
    }

    /// Whether this timestamp is strictly earlier than the other.
    pub fn lt(&self, other: &Timestamp) -> (r: bool)
        ensures
            r == ts_lt(*self, *other),
    {
        self.secs < other.secs || (self.secs == other.secs && self.nsecs < other.nsecs)
    }

    /// Whether this timestamp is earlier than or equal to the other.
    pub fn le(&self, other: &Timestamp) -> (r: bool)
        ensures
            r == ts_le(*self, *other),
    {
        self.secs < other.secs || (self.secs == other.secs && self.nsecs <= other.nsecs)
    }
}

/// The order on timestamps: by seconds, then by the sub-second part.
pub open spec fn ts_lt(a: Timestamp, b: Timestamp) -> bool {
    a.secs < b.secs || (a.secs == b.secs && a.nsecs < b.nsecs)
}

/// The reflexive order on timestamps.
pub open spec fn ts_le(a: Timestamp, b: Timestamp) -> bool {
    a.secs < b.secs || (a.secs == b.secs && a.nsecs <= b.nsecs)
}

/// On well-formed timestamps the field order is exactly the order of the
/// timestamps as points on the timeline, because the nanosecond part never
/// reaches a full second.
pub proof fn lemma_order_matches_fields(a: Timestamp, b: Timestamp)
    requires
        a.wf(),
        b.wf(),
    ensures
        ts_lt(a, b) == (a.as_nanos() < b.as_nanos()),
        ts_le(a, b) == (a.as_nanos() <= b.as_nanos()),
{
    if a.secs < b.secs {
        assert(a.secs * 1_000_000_000 + a.nsecs < b.secs * 1_000_000_000 + b.nsecs)
            by (nonlinear_arith)
            requires
                a.secs < b.secs,
                a.nsecs < 1_000_000_000,
                0 <= b.nsecs,
        ;
    }
    if b.secs < a.secs {
        assert(b.secs * 1_000_000_000 + b.nsecs < a.secs * 1_000_000_000 + a.nsecs)
            by (nonlinear_arith)
            requires
                b.secs < a.secs,
                b.nsecs < 1_000_000_000,
                0 <= a.nsecs,
        ;
    }
}

} // verus!
