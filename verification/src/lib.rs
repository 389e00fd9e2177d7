//! Ages on the planets of the solar system.
//!
//! Given an age in seconds, compute how old someone would be on each of the
//! eight planets, where a planet's "year" is the time it takes to complete
//! one orbit around the sun, measured in Earth years of exactly 31557600
//! seconds (365 days and a quarter).
//!
//! Orbital periods are fractions of an Earth year with at most eight decimal
//! digits, so the library carries each one exactly as a whole count of
//! hundred-millionths of an Earth year, and an age in years comes back as an
//! exact fraction (`Years`) rather than a rounded quotient.

use vstd::prelude::*;

mod duration;

pub use duration::Duration;
pub use duration::Years;

verus! {

/// Seconds in one Earth year of 365 days and a quarter.
pub const EARTH_YEAR_IN_SECONDS: u64 = 31557600;

/// The fixed-point scale for orbital periods: an orbital period is held as a
/// whole count of hundred-millionths of an Earth year.
pub const PERIOD_SCALE: u64 = 100_000_000;

/// The numerator of an age of `seconds` expressed in planetary years: the
/// seconds, brought to the same fixed-point scale as the denominator.
pub open spec fn years_num(seconds: int) -> int {
    seconds * PERIOD_SCALE
}

/// The denominator of an age expressed in planetary years: the length of the
/// planet's year in seconds, times `PERIOD_SCALE`, for a planet whose orbital
/// period is `period_e8` hundred-millionths of an Earth year.
pub open spec fn years_den(period_e8: int) -> int {
    EARTH_YEAR_IN_SECONDS * period_e8
}

/// A body that orbits the sun, with a fixed positive orbital period.
pub trait Planet {
    /// The orbital period, in hundred-millionths of an Earth year.
    spec fn spec_orbital_period_e8() -> u64;

    /// The orbital period, in hundred-millionths of an Earth year.
    fn orbital_period_e8() -> (p: u64)
        ensures
            p == Self::spec_orbital_period_e8(),
            1 <= p,
    ;

    /// The age `d` expressed in this planet's years, as an exact fraction:
    /// the seconds divided by the length of this planet's year in seconds.
    fn years_during(d: &Duration) -> (y: Years)
        ensures
            y.num == years_num(d@ as int),
            y.den == years_den(Self::spec_orbital_period_e8() as int),
    {
        let p = Self::orbital_period_e8();
        let divisor: u128 = (EARTH_YEAR_IN_SECONDS as u128) * (p as u128);
        proof {
            assert(divisor > 0) by (nonlinear_arith)
                requires
                    divisor == (EARTH_YEAR_IN_SECONDS as int) * (p as int),
                    EARTH_YEAR_IN_SECONDS == 31557600,
                    1 <= p,
            ;
        }
        d.div(divisor).unwrap()
    }
}

/// `n1 / d1 == n2 / d2`, by cross-multiplication; meant for positive
/// denominators, where it agrees with equality of the quotients.
pub open spec fn frac_eq(n1: int, d1: int, n2: int, d2: int) -> bool {
    n1 * d2 == n2 * d1
}

/// `n1 / d1 < n2 / d2`, by cross-multiplication; meant for positive
/// denominators, where it agrees with order of the quotients.
pub open spec fn frac_lt(n1: int, d1: int, n2: int, d2: int) -> bool {
    n1 * d2 < n2 * d1
}

/// On every planet, an age of zero seconds is zero planetary years.
pub proof fn lemma_zero_age<P: Planet>()
    ensures
        frac_eq(years_num(0), years_den(P::spec_orbital_period_e8() as int), 0, 1),
{
}

/// One Earth year of seconds is exactly one Earth year.
pub proof fn lemma_one_earth_year()
    ensures
        frac_eq(
            years_num(EARTH_YEAR_IN_SECONDS as int),
            years_den(Earth::spec_orbital_period_e8() as int),
            1,
            1,
        ),
{
}

/// On a fixed planet, the age in years grows strictly with the age in
/// seconds.
pub proof fn lemma_strictly_increasing(s1: int, s2: int, period_e8: int)
    requires
        0 <= s1 < s2,
        0 < period_e8,
    ensures
        frac_lt(years_num(s1), years_den(period_e8), years_num(s2), years_den(period_e8)),
{
    let n1: int = years_num(s1);
    let n2: int = years_num(s2);
    let d: int = years_den(period_e8);
    assert(n1 < n2) by (nonlinear_arith)
        requires
            n1 == s1 * (PERIOD_SCALE as int),
            n2 == s2 * (PERIOD_SCALE as int),
            s1 < s2,
            PERIOD_SCALE == 100_000_000,
    ;
    assert(0 < d) by (nonlinear_arith)
        requires
            d == (EARTH_YEAR_IN_SECONDS as int) * period_e8,
            0 < period_e8,
            EARTH_YEAR_IN_SECONDS == 31557600,
    ;
    assert(n1 * d < n2 * d) by (nonlinear_arith)
        requires
            n1 < n2,
            0 < d,
    ;
}

/// For a fixed positive age, the planet with the longer orbital period
/// counts fewer of its years.
pub proof fn lemma_longer_orbit_fewer_years(s: int, p1: int, p2: int)
    requires
        0 < s,
        0 < p1 < p2,
    ensures
        frac_lt(years_num(s), years_den(p2), years_num(s), years_den(p1)),
{
    let n: int = years_num(s);
    let d1: int = years_den(p1);
    let d2: int = years_den(p2);
    assert(0 < n) by (nonlinear_arith)
        requires
            n == s * (PERIOD_SCALE as int),
            0 < s,
            PERIOD_SCALE == 100_000_000,
    ;
    assert(d1 < d2) by (nonlinear_arith)
        requires
            d1 == (EARTH_YEAR_IN_SECONDS as int) * p1,
            d2 == (EARTH_YEAR_IN_SECONDS as int) * p2,
            0 < p1 < p2,
            EARTH_YEAR_IN_SECONDS == 31557600,
    ;
    assert(n * d1 < n * d2) by (nonlinear_arith)
        requires
            0 < n,
            d1 < d2,
    ;
}

pub struct Mercury;

impl Planet for Mercury {
    open spec fn spec_orbital_period_e8() -> u64 {
        24084670
    }

    fn orbital_period_e8() -> u64 {
        24084670
    }
}

pub struct Venus;

impl Planet for Venus {
    open spec fn spec_orbital_period_e8() -> u64 {
        61519726
    }

    fn orbital_period_e8() -> u64 {
        61519726
    }
}

pub struct Earth;

impl Planet for Earth {
    open spec fn spec_orbital_period_e8() -> u64 {
        100000000
    }

    fn orbital_period_e8() -> u64 {
        100000000
    }
}

pub struct Mars;

impl Planet for Mars {
    open spec fn spec_orbital_period_e8() -> u64 {
        188081580
    }

    fn orbital_period_e8() -> u64 {
        188081580
    }
}

pub struct Jupiter;

impl Planet for Jupiter {
    open spec fn spec_orbital_period_e8() -> u64 {
        1186261500
    }

    fn orbital_period_e8() -> u64 {
        1186261500
    }
}

pub struct Saturn;

impl Planet for Saturn {
    open spec fn spec_orbital_period_e8() -> u64 {
        2944749800
    }

    fn orbital_period_e8() -> u64 {
        2944749800
    }
}

pub struct Uranus;

impl Planet for Uranus {
    open spec fn spec_orbital_period_e8() -> u64 {
        8401684600
    }

    fn orbital_period_e8() -> u64 {
        8401684600
    }
}

pub struct Neptune;

impl Planet for Neptune {
    open spec fn spec_orbital_period_e8() -> u64 {
        16479132000
    }

    fn orbital_period_e8() -> u64 {
        16479132000
    }
}

} // verus!
