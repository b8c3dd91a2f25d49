//! Clock readings and lengths of time, as whole nanoseconds.
//!
//! Nothing here reads a clock: callers hand the readings in.

use vstd::prelude::*;

verus! {

pub const NANOS_PER_SEC: u128 = 1_000_000_000;

pub const NANOS_PER_MILLI: u128 = 1_000_000;

/// A length of time.
#[derive(Debug, Clone, Copy, PartialEq, Eq, Structural)]
pub struct Duration {
    pub nanos: u128,
}

impl Duration {
    pub fn from_secs(secs: u64) -> (d: Duration)
        ensures
            d.nanos == secs * NANOS_PER_SEC,
    {
        Duration { nanos: secs as u128 * NANOS_PER_SEC }
    }

    pub fn from_millis(millis: u64) -> (d: Duration)
        ensures
            d.nanos == millis * NANOS_PER_MILLI,
    {
        Duration { nanos: millis as u128 * NANOS_PER_MILLI }
    }

    pub fn from_nanos(nanos: u64) -> (d: Duration)
        ensures
            d.nanos == nanos,
    {
        Duration { nanos: nanos as u128 }
    }

    pub fn is_zero(&self) -> (b: bool)
        ensures
            b == (self.nanos == 0),
    {
        self.nanos == 0
    }

    /// Whole seconds, rounded down.
    pub fn as_secs(&self) -> (s: u128)
        ensures
            s == self.nanos / NANOS_PER_SEC,
    {
        self.nanos / NANOS_PER_SEC
    }

    /// The longer of the two.
    pub fn max(self, other: Duration) -> (d: Duration)
        ensures
            d == if self.nanos < other.nanos {
                other
            } else {
                self
            },
    {
        if self.nanos < other.nanos {
            other
        } else {
            self
        }
    }

    /// The shorter of the two.
    pub fn min(self, other: Duration) -> (d: Duration)
        ensures
            d == if other.nanos < self.nanos {
                other
            } else {
                self
            },
    {
        if other.nanos < self.nanos {
            other
        } else {
            self
        }
    }
}

/// A reading of a monotonic clock, counted from an arbitrary origin.
#[derive(Debug, Clone, Copy, PartialEq, Eq, Structural)]
pub struct Instant {
    pub nanos: u128,
}

/// The instant `d` after `i`; the last instant there is where that is out of range.
pub open spec fn instant_after(i: Instant, d: Duration) -> Instant {
    if i.nanos + d.nanos <= u128::MAX {
        Instant { nanos: (i.nanos + d.nanos) as u128 }
    } else {
        Instant { nanos: u128::MAX }
    }
}

/// Time from `earlier` to `later`, zero when `later` does not come after `earlier`.
pub open spec fn instant_since(later: Instant, earlier: Instant) -> Duration {
    if later.nanos > earlier.nanos {
        Duration { nanos: (later.nanos - earlier.nanos) as u128 }
    } else {
        Duration { nanos: 0 }
    }
}

impl Instant {
    pub fn after(self, d: Duration) -> (i: Instant)
        ensures
            i == instant_after(self, d),
    {
        Instant { nanos: self.nanos.saturating_add(d.nanos) }
    }

    pub fn since(self, earlier: Instant) -> (d: Duration)
        ensures
            d == instant_since(self, earlier),
    {
        Duration { nanos: self.nanos.saturating_sub(earlier.nanos) }
    }
}

/// A reading of the system clock, counted from the Unix epoch.
#[derive(Debug, Clone, Copy, PartialEq, Eq, Structural)]
pub struct SystemTime {
    pub unix_nanos: i128,
}

/// Time from `earlier` to `later`, zero when `later` does not come after `earlier`.
pub open spec fn system_since(later: SystemTime, earlier: SystemTime) -> Duration {
    if later.unix_nanos > earlier.unix_nanos {
        Duration { nanos: (later.unix_nanos - earlier.unix_nanos) as u128 }
    } else {
        Duration { nanos: 0 }
    }
}

/// Whole seconds since the Unix epoch, zero before it.
pub open spec fn unix_seconds(t: SystemTime) -> int {
    if t.unix_nanos >= 0 {
        t.unix_nanos as int / NANOS_PER_SEC as int
    } else {
        0
    }
}

/// `t`, or the Unix epoch where `t` comes before it.
pub open spec fn epoch_or_later(t: SystemTime) -> SystemTime {
    if t.unix_nanos < 0 {
        SystemTime { unix_nanos: 0 }
    } else {
        t
    }
}

impl SystemTime {
    /// This time, or the Unix epoch where this comes before it.
    pub fn not_before_epoch(self) -> (t: SystemTime)
        ensures
            t == epoch_or_later(self),
    {
        if self.unix_nanos < 0 {
            SystemTime { unix_nanos: 0 }
        } else {
            self
        }
    }

    pub fn since(self, earlier: SystemTime) -> (d: Duration)
        ensures
            d == system_since(self, earlier),
    {
        let later: i128 = self.unix_nanos;
        let before: i128 = earlier.unix_nanos;
        if later <= before {
            Duration { nanos: 0 }
        } else if before >= 0 || later < 0 {
            Duration { nanos: (later - before) as u128 }
        } else {
            let below: u128 = (-(before + 1)) as u128 + 1;
            Duration { nanos: later as u128 + below }
        }
    }

    /// Whole milliseconds since the Unix epoch, zero before it.
    pub fn unix_millis(self) -> (ms: u128)
        ensures
            ms == if self.unix_nanos >= 0 {
                self.unix_nanos as int / NANOS_PER_MILLI as int
            } else {
                0
            },
    {
        if self.unix_nanos >= 0 {
            self.unix_nanos as u128 / NANOS_PER_MILLI
        } else {
            0
        }
    }

    pub fn unix_secs(self) -> (s: u128)
        ensures
            s == unix_seconds(self),
    {
        if self.unix_nanos >= 0 {
            self.unix_nanos as u128 / NANOS_PER_SEC
        } else {
            0
        }
    }
}

/// A second is a thousand milliseconds and a milliard nanoseconds.
pub proof fn units_of_time()
    ensures
        NANOS_PER_SEC == 1_000_000_000,
        NANOS_PER_MILLI * 1000 == NANOS_PER_SEC,
{
}

/// Going forward by some time and looking back shows that time, unless the clock's range ends
/// before; a later instant is never reached by a shorter time.
pub proof fn time_passed_can_be_read_off(i: Instant, d: Duration, e: Duration)
    ensures
        i.nanos + d.nanos <= u128::MAX ==> instant_since(instant_after(i, d), i) == d
            && instant_after(i, d).nanos == i.nanos + d.nanos,
        i.nanos + d.nanos > u128::MAX ==> instant_after(i, d).nanos == u128::MAX,
        d.nanos <= e.nanos ==> instant_after(i, d).nanos <= instant_after(i, e).nanos,
{
}

/// The time between two readings is their difference, and zero where the clock went backwards.
pub proof fn time_between_readings(a: Instant, b: Instant, s: SystemTime, t: SystemTime)
    ensures
        a.nanos <= b.nanos ==> a.nanos + instant_since(b, a).nanos == b.nanos,
        a.nanos >= b.nanos ==> instant_since(b, a).nanos == 0,
        s.unix_nanos <= t.unix_nanos ==> s.unix_nanos + system_since(t, s).nanos == t.unix_nanos,
        s.unix_nanos >= t.unix_nanos ==> system_since(t, s).nanos == 0,
{
}

/// Whole seconds since the epoch are what has fully passed of it; before the epoch there are none.
pub proof fn seconds_since_the_epoch(t: SystemTime)
    ensures
        t.unix_nanos >= 0 ==> unix_seconds(t) * 1_000_000_000 <= t.unix_nanos < (unix_seconds(t) + 1)
            * 1_000_000_000,
        t.unix_nanos < 0 ==> unix_seconds(t) == 0,
        epoch_or_later(t).unix_nanos >= 0,
        epoch_or_later(t).unix_nanos >= t.unix_nanos,
        epoch_or_later(t) == t || epoch_or_later(t).unix_nanos == 0,
        t.unix_nanos >= 0 ==> epoch_or_later(t) == t,
{
}

} // verus!
