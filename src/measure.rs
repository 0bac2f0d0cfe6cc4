use vstd::prelude::*;
use crate::text::SCALE;

verus! {

/// A non-negative fixed-point number, held as a count of billionths.
#[derive(Clone, Copy, Debug, PartialEq, Eq, Structural)]
pub struct Real {
    pub units: u64,
}

impl Real {
    pub fn from_units(units: u64) -> (r: Real)
        ensures
            r.units == units,
    {
        Real { units }
    }

    /// The whole number `n`.
    pub fn from_whole(n: u64) -> (r: Real)
        requires
            n * SCALE <= u64::MAX,
        ensures
            r.units == n * SCALE,
    {
        Real { units: n * SCALE }
    }
}

/// A span of time, held in nanoseconds.
#[derive(Clone, Copy, Debug, PartialEq, Eq, Structural)]
pub struct Duration {
    pub nanos: u64,
}

impl Duration {
    pub fn from_nanos(nanos: u64) -> (r: Duration)
        ensures
            r.nanos == nanos,
    {
        Duration { nanos }
    }

    pub fn from_millis(millis: u64) -> (r: Duration)
        requires
            millis * 1_000_000 <= u64::MAX,
        ensures
            r.nanos == millis * 1_000_000,
    {
        Duration { nanos: millis * 1_000_000 }
    }

    pub fn from_secs(secs: u64) -> (r: Duration)
        requires
            secs * SCALE <= u64::MAX,
        ensures
            r.nanos == secs * SCALE,
    {
        Duration { nanos: secs * SCALE }
    }

    /// Whole milliseconds, rounded down.
    pub fn as_millis(&self) -> (r: u64)
        ensures
            r == self.nanos / 1_000_000,
    {
        self.nanos / 1_000_000
    }
}

/// A measured value: totally ordered by `amount`, which is also its numeric
/// reading in billionths of its unit (a `Duration` reads as seconds).
pub trait Measurable {
    spec fn amount(&self) -> nat;

    fn to_real(&self) -> (r: Real)
        ensures
            r.units as nat == self.amount(),
    ;
}

impl Measurable for Real {
    open spec fn amount(&self) -> nat {
        self.units as nat
    }

    fn to_real(&self) -> (r: Real) {
        *self
    }
}

impl Measurable for Duration {
    open spec fn amount(&self) -> nat {
        self.nanos as nat
    }

    fn to_real(&self) -> (r: Real) {
        Real { units: self.nanos }
    }
}

} // verus!
