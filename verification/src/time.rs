//! Points in time and spans between them, counted in nanoseconds.

use vstd::prelude::*;

verus! {

/// A span of time.
#[derive(Clone, Copy, Debug, PartialEq, Eq, Structural)]
pub struct Duration {
    pub nanos: u128,
}

/// A point in time, counted from an origin that the caller keeps.
#[derive(Clone, Copy, Debug, PartialEq, Eq, Structural)]
pub struct Instant {
    pub nanos: u128,
}

/// The longest time that an owner waits for its release when it is dropped.
pub open spec fn drop_grace() -> Duration {
    Duration { nanos: 2_000_000_000 }
}

impl Duration {
    /// A span in milliseconds.
    pub fn from_millis(millis: u64) -> (r: Duration)
        ensures
            r.nanos == millis * 1_000_000,
    {
        Duration { nanos: millis as u128 * 1_000_000 }
    }

    /// A span in seconds.
    pub fn from_secs(secs: u64) -> (r: Duration)
        ensures
            r.nanos == secs * 1_000_000_000,
    {
        Duration { nanos: secs as u128 * 1_000_000_000 }
    }

    /// Whether the span is empty.
    pub fn is_zero(self) -> (r: bool)
        ensures
            r == (self.nanos == 0),
    {
        self.nanos == 0
    }

    /// The shorter of two spans.
    pub open spec fn shorter(self, other: Duration) -> Duration {
        if self.nanos <= other.nanos {
            self
        } else {
            other
        }
    }

    /// The shorter of two spans.
    pub fn min(self, other: Duration) -> (r: Duration)
        ensures
            r == self.shorter(other),
    {
        if self.nanos <= other.nanos {
            self
        } else {
            other
        }
    }
}

impl Instant {
    /// How long it is from `earlier` to `self`; nothing where `earlier` is not earlier.
    pub open spec fn since(self, earlier: Instant) -> Duration {
        Duration {
            nanos: if self.nanos >= earlier.nanos {
                (self.nanos - earlier.nanos) as u128
            } else {
                0
            },
        }
    }

    /// How long it is from `earlier` to `self`; nothing where `earlier` is not earlier.
    pub fn saturating_duration_since(self, earlier: Instant) -> (r: Duration)
        ensures
            r == self.since(earlier),
    {
        Duration { nanos: self.nanos.saturating_sub(earlier.nanos) }
    }

    /// When an owner that is dropped now gives up its release.
    pub fn drop_deadline(self) -> (r: Instant)
        requires
            self.nanos + drop_grace().nanos <= u128::MAX,
        ensures
            r.nanos == self.nanos + drop_grace().nanos,
    {
        Instant { nanos: self.nanos + Duration::from_secs(2).nanos }
    }
}

/// The time since a point is what takes one from it to now, and nothing for a point that is yet to
/// come.
pub proof fn law_time_since(now: Instant, earlier: Instant)
    ensures
        earlier.nanos <= now.nanos ==> earlier.nanos + now.since(earlier).nanos == now.nanos,
        earlier.nanos >= now.nanos ==> now.since(earlier).nanos == 0,
{
}

/// The shorter of two spans is one of them, and longer than neither.
pub proof fn law_shorter_span(a: Duration, b: Duration)
    ensures
        a.shorter(b) == a || a.shorter(b) == b,
        a.shorter(b).nanos <= a.nanos,
        a.shorter(b).nanos <= b.nanos,
{
}

/// An owner that is dropped waits for two seconds from when it is dropped.
pub proof fn law_drop_grace(now: Instant, deadline: Instant)
    requires
        call_ensures(Instant::drop_deadline, (now,), deadline),
    ensures
        drop_grace().nanos == 2 * 1_000_000_000,
        deadline.since(now).nanos == 2 * 1_000_000_000,
{
}

/// A second is a thousand milliseconds and a thousand million nanoseconds, and only a span of none
/// of them is nothing.
pub proof fn law_spans(n: u64, millis: Duration, secs: Duration, empty: bool)
    requires
        call_ensures(Duration::from_millis, (n,), millis),
        call_ensures(Duration::from_secs, (n,), secs),
        call_ensures(Duration::is_zero, (millis,), empty),
    ensures
        secs.nanos == 1_000 * millis.nanos,
        secs.nanos == 1_000_000_000 * n,
        empty <==> n == 0,
{
}

} // verus!
