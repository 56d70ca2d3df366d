//! Decimal helpers for the accrual index.

use vstd::prelude::*;

verus! {

use crate::decimal::Decimal;

/// Sum of two decimals, carried out on a width where the addition itself
/// cannot wrap; the result must fit the 128-bit storage width of the index.
pub fn decimal_summation_in_256(a: Decimal, b: Decimal) -> (r: Decimal)
    requires
        a.raw + b.raw <= u128::MAX,
    ensures
        r.raw == a.raw + b.raw,
{
    Decimal { raw: a.raw + b.raw }
}

} // verus!
