//! Instants on the UTC time line and the whole milliseconds between them.

use vstd::prelude::*;

verus! {

/// An instant in UTC: whole seconds since 1970-01-01T00:00:00Z, and the
/// nanoseconds past that second.
#[derive(Clone, Copy, Debug, PartialEq, Eq, Structural)]
pub struct Timestamp {
    pub secs: i64,
    pub nanos: u32,
}

/// A span of nanoseconds cut down to whole milliseconds. The cut is towards
/// zero, so a span shorter than a millisecond in either direction is zero.
pub open spec fn whole_millis(span_nanos: int) -> int {
    if span_nanos >= 0 {
        span_nanos / 1_000_000
    } else {
        -((-span_nanos) / 1_000_000)
    }
}

/// The whole milliseconds from `earlier` to `later`; negative when `later`
/// lies before `earlier`.
pub open spec fn millis_between(later: Timestamp, earlier: Timestamp) -> int {
    whole_millis(later.nanos_since_epoch() - earlier.nanos_since_epoch())
}

impl Timestamp {
    /// The position of this instant on the time line, in nanoseconds.
    pub open spec fn nanos_since_epoch(self) -> int {
        self.secs * 1_000_000_000 + self.nanos
    }

    /// The whole milliseconds that have passed since `earlier`.
    pub fn millis_since(&self, earlier: &Timestamp) -> (elapsed: i128)
        ensures
            elapsed == millis_between(*self, *earlier),
    {
        let later_ns: i128 = self.secs as i128 * 1_000_000_000 + self.nanos as i128;
        let earlier_ns: i128 = earlier.secs as i128 * 1_000_000_000 + earlier.nanos as i128;
        let span: i128 = later_ns - earlier_ns;
        if span >= 0 {
            span / 1_000_000
        } else {
            -((-span) / 1_000_000)
        }
    }
}

} // verus!
