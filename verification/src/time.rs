use vstd::prelude::*;

verus! {

/// A span of time, counted in nanoseconds.
#[derive(Clone, Copy, Debug, PartialEq, Eq, Structural)]
pub struct Duration {
    pub nanos: u128,
}

/// A reading of a monotonic clock: the nanoseconds that have passed since the
/// clock's origin.
#[derive(Clone, Copy, Debug, PartialEq, Eq, Structural)]
pub struct Instant {
    pub nanos: u128,
}

pub const NANOS_PER_MILLI: u128 = 1_000_000;

pub const NANOS_PER_SEC: u128 = 1_000_000_000;

impl Duration {
    pub fn from_nanos(nanos: u128) -> (d: Duration)
        ensures
            d.nanos == nanos,
    {
        Duration { nanos }
    }

    pub fn from_millis(millis: u64) -> (d: Duration)
        ensures
            d.nanos == millis * NANOS_PER_MILLI,
    {
        let wide: u128 = millis as u128;
        assert(wide * NANOS_PER_MILLI <= u64::MAX * NANOS_PER_MILLI) by (nonlinear_arith)
            requires
                wide <= u64::MAX,
        ;
        Duration { nanos: wide * NANOS_PER_MILLI }
    }

    pub fn from_secs(secs: u64) -> (d: Duration)
        ensures
            d.nanos == secs * NANOS_PER_SEC,
    {
        let wide: u128 = secs as u128;
        assert(wide * NANOS_PER_SEC <= u64::MAX * NANOS_PER_SEC) by (nonlinear_arith)
            requires
                wide <= u64::MAX,
        ;
        Duration { nanos: wide * NANOS_PER_SEC }
    }

    pub fn as_nanos(&self) -> (n: u128)
        ensures
            n == self.nanos,
    {
        self.nanos
    }

    pub fn is_zero(&self) -> (z: bool)
        ensures
            z == (self.nanos == 0),
    {
        self.nanos == 0
    }

    /// Twice this span, but no more than `cap`.
    pub open spec fn spec_doubled_up_to(self, cap: Duration) -> Duration {
        if 2 * self.nanos <= cap.nanos {
            Duration { nanos: (2 * self.nanos) as u128 }
        } else {
            cap
        }
    }

    /// Twice this span, but no more than `cap`.
    pub fn doubled_up_to(self, cap: Duration) -> (d: Duration)
        ensures
            d == self.spec_doubled_up_to(cap),
    {
        if self.nanos <= cap.nanos && self.nanos <= cap.nanos - self.nanos {
            Duration { nanos: self.nanos + self.nanos }
        } else {
            cap
        }
    }
}

impl Instant {
    pub fn from_nanos(nanos: u128) -> (t: Instant)
        ensures
            t.nanos == nanos,
    {
        Instant { nanos }
    }

    pub fn as_nanos(&self) -> (n: u128)
        ensures
            n == self.nanos,
    {
        self.nanos
    }

    /// The instant that lies `span` after this one, unless the clock cannot
    /// count that far.
    pub fn checked_add(&self, span: Duration) -> (r: Option<Instant>)
        ensures
            self.nanos + span.nanos <= u128::MAX ==> r == Some(
                Instant { nanos: (self.nanos + span.nanos) as u128 },
            ),
            self.nanos + span.nanos > u128::MAX ==> r is None,
    {
        if span.nanos <= u128::MAX - self.nanos {
            Some(Instant { nanos: self.nanos + span.nanos })
        } else {
            None
        }
    }

    /// The time from `earlier` to this instant; `None` when `earlier` is in fact
    /// the later of the two.
    pub fn checked_duration_since(&self, earlier: Instant) -> (r: Option<Duration>)
        ensures
            self.nanos >= earlier.nanos ==> r == Some(
                Duration { nanos: (self.nanos - earlier.nanos) as u128 },
            ),
            self.nanos < earlier.nanos ==> r is None,
    {
        if self.nanos >= earlier.nanos {
            Some(Duration { nanos: self.nanos - earlier.nanos })
        } else {
            None
        }
    }

    /// Whether this instant, taken as a deadline, lies strictly before `now`.
    pub open spec fn spec_has_passed(self, now: Instant) -> bool {
        self.nanos < now.nanos
    }

    /// Whether this instant, taken as a deadline, lies strictly before `now`.
    pub fn has_passed(&self, now: Instant) -> (r: bool)
        ensures
            r == self.spec_has_passed(now),
    {
        self.nanos < now.nanos
    }

    /// The time that has gone by between this instant and `now`; zero when `now`
    /// is not later.
    pub open spec fn spec_elapsed(self, now: Instant) -> Duration {
        if now.nanos >= self.nanos {
            Duration { nanos: (now.nanos - self.nanos) as u128 }
        } else {
            Duration { nanos: 0 }
        }
    }

    /// The time that has gone by between this instant and `now`; zero when `now`
    /// is not later.
    pub fn elapsed(&self, now: Instant) -> (d: Duration)
        ensures
            d == self.spec_elapsed(now),
    {
        if now.nanos >= self.nanos {
            Duration { nanos: now.nanos - self.nanos }
        } else {
            Duration { nanos: 0 }
        }
    }
}

} // verus!
