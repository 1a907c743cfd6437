//! Points in time without a time zone, as the database's `timestamp` holds them.
use vstd::prelude::*;

verus! {

/// Nanoseconds in one second.
pub const NANOS_PER_SECOND: u32 = 1_000_000_000;

/// A date and time without a time zone, counted from 1970-01-01 00:00:00:
/// whole seconds (negative before that day) and the nanoseconds past them.
#[derive(Clone, Copy, Debug, PartialEq, Eq, Structural)]
pub struct Timestamp {
    pub seconds: i64,
    pub nanos: u32,
}

impl Timestamp {
    /// The nanoseconds stay below one second.
    pub open spec fn wf(&self) -> bool {
        self.nanos < NANOS_PER_SECOND
    }

    /// The point in time, in nanoseconds from 1970-01-01 00:00:00.
    pub open spec fn instant(&self) -> int {
        self.seconds * NANOS_PER_SECOND + self.nanos
    }

    /// Builds a timestamp; `None` where the nanoseconds make a whole second or more.
    pub fn new(seconds: i64, nanos: u32) -> (r: Option<Timestamp>)
        ensures
            nanos < NANOS_PER_SECOND <==> r is Some,
            r matches Some(t) ==> t.wf() && t.seconds == seconds && t.nanos == nanos,
    {
        if nanos < NANOS_PER_SECOND {
            Some(Timestamp { seconds, nanos })
        } else {
            None
        }
    }

    /// Whether this point in time is the same as `other` or later.
    pub fn is_not_before(&self, other: &Timestamp) -> (r: bool)
        requires
            self.wf(),
            other.wf(),
        ensures
            r == (self.instant() >= other.instant()),
    {
        proof {
            lemma_instant_order(*self, *other);
        }
        self.seconds > other.seconds || (self.seconds == other.seconds && self.nanos
            >= other.nanos)
    }
}

/// On well-formed timestamps the order of instants is the order of
/// (seconds, nanoseconds) pairs.
proof fn lemma_instant_order(a: Timestamp, b: Timestamp)
    requires
        a.wf(),
        b.wf(),
    ensures
        a.instant() >= b.instant() <==> (a.seconds > b.seconds || (a.seconds == b.seconds
            && a.nanos >= b.nanos)),
{
    let n = NANOS_PER_SECOND as int;
    if a.seconds > b.seconds {
        assert(a.seconds * n >= b.seconds * n + n) by (nonlinear_arith)
            requires
                a.seconds > b.seconds,
                n > 0,
        ;
    } else if a.seconds < b.seconds {
        assert(b.seconds * n >= a.seconds * n + n) by (nonlinear_arith)
            requires
                a.seconds < b.seconds,
                n > 0,
        ;
    }
}

} // verus!
