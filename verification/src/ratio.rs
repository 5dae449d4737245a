//! An exact nonnegative rational, the result type of the sampler's readings.
//!
//! The sampler never divides: each reading is returned as a numerator and a
//! positive denominator, so a degenerate divisor can be guarded exactly and a
//! caller that wants a floating-point fraction performs the division itself.

use vstd::prelude::*;

verus! {

/// A nonnegative rational `num / den` with a positive denominator.
///
/// A denominator of zero can never be built, so converting a `Ratio` to a
/// quotient is always defined. The value is not required to lie below one:
/// a host that reports more available than total memory passes through.
#[derive(Clone, Copy, Debug, PartialEq, Eq, Structural)]
pub struct Ratio {
    pub num: u64,
    pub den: u64,
}

impl Ratio {
    /// Well-formedness: the denominator is positive.
    pub open spec fn wf(self) -> bool {
        self.den >= 1
    }

    /// The ratio standing for an exact zero reading.
    pub open spec fn spec_zero() -> Ratio {
        Ratio { num: 0, den: 1 }
    }

    /// Builds the zero reading, used on every degraded path.
    pub fn zero() -> (r: Ratio)
        ensures
            r == Ratio::spec_zero(),
            r.wf(),
    {
        Ratio { num: 0, den: 1 }
    }
}

} // verus!
