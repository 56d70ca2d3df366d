//! The fixed-point fraction type used for fee rates and the global index.
//!
//! A `Decimal` carries a non-negative fraction as an integer count of
//! units of 10^-18, the storage precision of the accrual index.

use vstd::prelude::*;

verus! {

use crate::arith::muldiv;

/// The denominator of the fixed-point representation: 10^18.
pub const DECIMAL_FRACTIONAL: u128 = 1_000_000_000_000_000_000;

/// A non-negative fixed-point fraction: `raw` units of 10^-18.
#[derive(Clone, Copy, PartialEq, Eq, Structural, Debug)]
pub struct Decimal {
    pub raw: u128,
}

impl Decimal {
    /// The fraction zero.
    pub fn zero() -> (r: Decimal)
        ensures
            r.raw == 0,
    {
        Decimal { raw: 0 }
    }

    /// The fraction one.
    pub fn one() -> (r: Decimal)
        ensures
            r.raw == DECIMAL_FRACTIONAL,
    {
        Decimal { raw: DECIMAL_FRACTIONAL }
    }

    /// `x` percent, as a fraction.
    pub fn percent(x: u64) -> (r: Decimal)
        ensures
            r.raw == x * 10_000_000_000_000_000int,
    {
        (Decimal { raw: (x as u128) * 10_000_000_000_000_000 })
    }

    pub fn is_zero(&self) -> (r: bool)
        ensures
            r == (self.raw == 0),
    {
        self.raw == 0
    }

    /// The fraction `numerator / denominator`, rounded down to the storage
    /// precision.  The quotient must fit the 128-bit storage width.
    pub fn from_ratio(numerator: u128, denominator: u128) -> (r: Decimal)
        requires
            denominator != 0,
            numerator * DECIMAL_FRACTIONAL / (denominator as int) <= u128::MAX,
        ensures
            r.raw == numerator * DECIMAL_FRACTIONAL / (denominator as int),
    {
        match muldiv(numerator, DECIMAL_FRACTIONAL, denominator) {
            Some(v) => Decimal { raw: v },
            None => {
                proof {
                    assert(false);
                }
                Decimal { raw: 0 }
            },
        }
    }
}

} // verus!
