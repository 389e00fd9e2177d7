use vstd::prelude::*;

verus! {

use crate::PERIOD_SCALE;

/// An age: a count of elapsed seconds since birth.
#[derive(Clone, Copy, Debug)]
pub struct Duration {
    seconds: u64,
}

impl View for Duration {
    type V = u64;

    closed spec fn view(&self) -> u64 {
        self.seconds
    }
}

impl From<u64> for Duration {
    fn from(s: u64) -> (d: Duration)
        ensures
            d@ == s,
    {
        Duration { seconds: s }
    }
}

impl vstd::std_specs::convert::FromSpecImpl<u64> for Duration {
    closed spec fn obeys_from_spec() -> bool {
        true
    }

    closed spec fn from_spec(s: u64) -> Duration {
        Duration { seconds: s }
    }
}

/// An age in planetary years, held exactly as the fraction `num / den`.
///
/// Numerator and denominator carry the same fixed-point scale of
/// `PERIOD_SCALE`, so the quotient is the age in years with no rounding.
#[derive(Clone, Copy, Debug, PartialEq, Eq, Structural)]
pub struct Years {
    /// The age in seconds, times `PERIOD_SCALE`.
    pub num: u128,
    /// The length of the planet's year in seconds, times `PERIOD_SCALE`.
    pub den: u128,
}

impl Duration {
    /// Divide this age by a year length given in hundred-millionths of a
    /// second. Nothing can be divided by zero, so a zero divisor yields
    /// `None`; every other divisor yields the exact quotient as a fraction.
    pub fn div(&self, divisor: u128) -> (r: Option<Years>)
        ensures
            r is None <==> divisor == 0,
            r matches Some(y) ==> y.num == self@ * PERIOD_SCALE && y.den == divisor,
    {
        if divisor == 0 {
            None
        } else {
            proof {
                assert((self.seconds as int) * (PERIOD_SCALE as int) <= 0xffff_ffff_ffff_ffff
                    * 100_000_000) by (nonlinear_arith)
                    requires
                        self.seconds <= 0xffff_ffff_ffff_ffff,
                        PERIOD_SCALE == 100_000_000,
                ;
            }
            Some(Years { num: (self.seconds as u128) * (PERIOD_SCALE as u128), den: divisor })
        }
    }
}

} // verus!
