//! Clock readings and spans of time, in whole nanoseconds.

use vstd::prelude::*;

verus! {

/// Nanoseconds in one millisecond.
pub const NANOS_PER_MILLI: u64 = 1_000_000;

/// Nanoseconds in one second.
pub const NANOS_PER_SEC: u64 = 1_000_000_000;

/// A span of time.
#[derive(Clone, Copy, Debug, PartialEq, Eq, Structural)]
pub struct Duration {
    pub nanos: u64,
}

/// A reading of a monotonic clock, counted from an origin that the caller
/// fixes once.
#[derive(Clone, Copy, Debug, PartialEq, Eq, Structural)]
pub struct Instant {
    pub nanos: u64,
}

/// The product `a * b`, or `u64::MAX` where it does not fit.
pub open spec fn saturating_product(a: u64, b: u64) -> u64 {
    if a * b > u64::MAX {
        u64::MAX
    } else {
        (a * b) as u64
    }
}

/// The sum `a + b`, or `u64::MAX` where it does not fit.
pub open spec fn saturating_sum(a: u64, b: u64) -> u64 {
    if a + b > u64::MAX {
        u64::MAX
    } else {
        (a + b) as u64
    }
}

/// The difference `a - b`, or zero where `b` is the larger.
pub open spec fn saturating_difference(a: u64, b: u64) -> u64 {
    if a < b {
        0
    } else {
        (a - b) as u64
    }
}

fn mul_saturating(a: u64, b: u64) -> (r: u64)
    ensures
        r == saturating_product(a, b),
{
    match a.checked_mul(b) {
        Some(p) => p,
        None => u64::MAX,
    }
}

impl Duration {
    /// The empty span.
    pub fn zero() -> (d: Duration)
        ensures
            d.nanos == 0,
    {
        Duration { nanos: 0 }
    }

    pub fn from_nanos(nanos: u64) -> (d: Duration)
        ensures
            d.nanos == nanos,
    {
        Duration { nanos }
    }

    /// A span of `millis` milliseconds; the longest span where that does not fit.
    pub fn from_millis(millis: u64) -> (d: Duration)
        ensures
            d.nanos == saturating_product(millis, NANOS_PER_MILLI),
    {
        Duration { nanos: mul_saturating(millis, NANOS_PER_MILLI) }
    }

    /// A span of `secs` seconds; the longest span where that does not fit.
    pub fn from_secs(secs: u64) -> (d: Duration)
        ensures
            d.nanos == saturating_product(secs, NANOS_PER_SEC),
    {
        Duration { nanos: mul_saturating(secs, NANOS_PER_SEC) }
    }

    pub fn as_nanos(&self) -> (n: u64)
        ensures
            n == self.nanos,
    {
        self.nanos
    }

    pub fn is_zero(&self) -> (b: bool)
        ensures
            b == (self.nanos == 0),
    {
        self.nanos == 0
    }
}

impl Instant {
    pub fn from_nanos(nanos: u64) -> (t: Instant)
        ensures
            t.nanos == nanos,
    {
        Instant { nanos }
    }

    pub fn as_nanos(&self) -> (n: u64)
        ensures
            n == self.nanos,
    {
        self.nanos
    }

    /// The time that passed from `earlier` to `self`, or none where `earlier`
    /// is in fact the later reading.
    pub open spec fn since(self, earlier: Instant) -> Duration {
        Duration { nanos: saturating_difference(self.nanos, earlier.nanos) }
    }

    /// The reading `span` after `self`, or the last reading where the clock
    /// cannot count that far.
    pub open spec fn after(self, span: Duration) -> Instant {
        Instant { nanos: saturating_sum(self.nanos, span.nanos) }
    }

    /// The reading `span` before `self`, or the clock's origin.
    pub open spec fn before(self, span: Duration) -> Instant {
        Instant { nanos: saturating_difference(self.nanos, span.nanos) }
    }

    pub fn saturating_duration_since(&self, earlier: Instant) -> (d: Duration)
        ensures
            d == self.since(earlier),
    {
        if self.nanos < earlier.nanos {
            Duration { nanos: 0 }
        } else {
            Duration { nanos: self.nanos - earlier.nanos }
        }
    }

    pub fn saturating_add(&self, span: Duration) -> (t: Instant)
        ensures
            t == self.after(span),
    {
        match self.nanos.checked_add(span.nanos) {
            Some(n) => Instant { nanos: n },
            None => Instant { nanos: u64::MAX },
        }
    }

    pub fn saturating_sub(&self, span: Duration) -> (t: Instant)
        ensures
            t == self.before(span),
    {
        if self.nanos < span.nanos {
            Instant { nanos: 0 }
        } else {
            Instant { nanos: self.nanos - span.nanos }
        }
    }
}

} // verus!
