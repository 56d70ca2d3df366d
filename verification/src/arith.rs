//! Extended-precision ratio arithmetic.
//!
//! The accrual index advances by `claimed_rewards / total_balance`, stored as a
//! fixed-point fraction.  Computing that quotient at full precision needs a
//! 256-bit intermediate numerator: the product of two 128-bit values is formed
//! as a (high, low) pair of halves and divided exactly, rounding down.

use vstd::prelude::*;

verus! {

use vstd::arithmetic::div_mod::{
    lemma_basic_div,
    lemma_div_basics,
    lemma_div_denominator,
    lemma_div_is_ordered,
    lemma_div_multiples_vanish,
    lemma_fundamental_div_mod,
    lemma_fundamental_div_mod_converse,
    lemma_multiply_divide_lt,
};
use vstd::arithmetic::mul::{
    lemma_mul_inequality,
    lemma_mul_strict_inequality_converse,
    lemma_mul_upper_bound,
};
use vstd::arithmetic::power2::{
    lemma2_to64,
    lemma2_to64_rest,
    lemma_pow2_adds,
    lemma_pow2_pos,
    lemma_pow2_strictly_increases,
    pow2,
};

/// 2^64: the base in which 256-bit products are carried as pairs of halves.
pub const BASE64: u128 = 0x1_0000_0000_0000_0000;

/// 2^128 as a mathematical integer, one above `u128::MAX`.
pub open spec fn pow2_128() -> int {
    0x1_0000_0000_0000_0000_0000_0000_0000_0000int
}

/// The full 256-bit product of two 128-bit values, as (high, low) halves.
pub fn mul_wide(x: u128, y: u128) -> (r: (u128, u128))
    ensures
        r.0 * pow2_128() + r.1 == x * y,
{
    let xh: u128 = x / BASE64;
    let xl: u128 = x % BASE64;
    let yh: u128 = y / BASE64;
    let yl: u128 = y % BASE64;
    proof {
        lemma_fundamental_div_mod(x as int, BASE64 as int);
        lemma_fundamental_div_mod(y as int, BASE64 as int);
        lemma_multiply_divide_lt(x as int, BASE64 as int, BASE64 as int);
        lemma_multiply_divide_lt(y as int, BASE64 as int, BASE64 as int);
        lemma_mul_upper_bound(xh as int, BASE64 - 1, yh as int, BASE64 - 1);
        lemma_mul_upper_bound(xh as int, BASE64 - 1, yl as int, BASE64 - 1);
        lemma_mul_upper_bound(xl as int, BASE64 - 1, yh as int, BASE64 - 1);
        lemma_mul_upper_bound(xl as int, BASE64 - 1, yl as int, BASE64 - 1);
    }
    let hh: u128 = xh * yh;
    let p1: u128 = xh * yl;
    let p2: u128 = xl * yh;
    let ll: u128 = xl * yl;
    let p1h: u128 = p1 / BASE64;
    let p1l: u128 = p1 % BASE64;
    let p2h: u128 = p2 / BASE64;
    let p2l: u128 = p2 % BASE64;
    proof {
        lemma_fundamental_div_mod(p1 as int, BASE64 as int);
        lemma_fundamental_div_mod(p2 as int, BASE64 as int);
        // p1, p2 <= (2^64 - 1)^2 == (2^64 - 2) * 2^64 + 1, so their high halves
        // are at most 2^64 - 2.
        lemma_fundamental_div_mod_converse(
            (BASE64 - 1) * (BASE64 - 1),
            BASE64 as int,
            BASE64 - 2,
            1,
        );
        lemma_div_is_ordered(p1 as int, (BASE64 - 1) * (BASE64 - 1), BASE64 as int);
        lemma_div_is_ordered(p2 as int, (BASE64 - 1) * (BASE64 - 1), BASE64 as int);
    }
    let midl: u128 = p1l + p2l;
    let c0: u128 = midl / BASE64;
    let m0: u128 = midl % BASE64;
    proof {
        lemma_fundamental_div_mod(midl as int, BASE64 as int);
        lemma_mul_upper_bound(m0 as int, BASE64 - 1, BASE64 as int, BASE64 as int);
    }
    let m0b: u128 = m0 * BASE64;
    let lo: u128;
    let c1: u128;
    if ll <= u128::MAX - m0b {
        lo = ll + m0b;
        c1 = 0;
    } else {
        lo = ll - (u128::MAX - m0b) - 1;
        c1 = 1;
    }
    let hi: u128 = hh + p1h + p2h + c0 + c1;
    proof {
        assert(hi * pow2_128() + lo == x * y) by (nonlinear_arith)
            requires
                x == xh * BASE64 + xl,
                y == yh * BASE64 + yl,
                hh == xh * yh,
                p1 == xh * yl,
                p2 == xl * yh,
                ll == xl * yl,
                p1 == p1h * BASE64 + p1l,
                p2 == p2h * BASE64 + p2l,
                midl == p1l + p2l,
                midl == c0 * BASE64 + m0,
                m0b == m0 * BASE64,
                lo + c1 * pow2_128() == ll + m0b,
                hi == hh + p1h + p2h + c0 + c1,
        ;
    }
    (hi, lo)
}

/// Quotient and remainder of the 256-bit value `hi * 2^128 + lo` by `d`,
/// computed by binary restoring division.  `hi < d` is exactly the condition
/// for the quotient to fit in 128 bits.
pub fn div_wide(hi: u128, lo: u128, d: u128) -> (r: (u128, u128))
    requires
        0 < d,
        hi < d,
    ensures
        r.0 == (hi * pow2_128() + lo) / (d as int),
        r.1 == (hi * pow2_128() + lo) % (d as int),
{
    let mut q: u128 = 0;
    let mut rem: u128 = hi;
    let mut p: u128 = 0x8000_0000_0000_0000_0000_0000_0000_0000;
    let mut i: usize = 0;
    proof {
        lemma2_to64();
        lemma2_to64_rest();
        lemma_pow2_adds(64, 63);
        lemma_pow2_adds(64, 64);
        assert(pow2(127) == 0x8000_0000_0000_0000_0000_0000_0000_0000);
        assert(pow2(128) == pow2_128());
        lemma_basic_div(lo as int, pow2(128) as int);
    }
    while i < 128
        invariant
            0 < d,
            hi < d,
            i <= 128,
            rem < d,
            i < 128 ==> p == pow2((127 - i) as nat),
            q < pow2(i as nat),
            q * d + rem == hi * pow2(i as nat) + (lo as int) / (pow2((128 - i) as nat) as int),
        decreases 128 - i,
    {
        let ghost e: nat = (128 - i) as nat;
        let ghost f: nat = (127 - i) as nat;
        let ghost done: int = (lo as int) / (pow2(e) as int);
        let ghost q0: int = q as int;
        let ghost rem0: int = rem as int;
        proof {
            lemma_pow2_adds(f, 1);
            lemma2_to64();
            lemma_pow2_pos(f);
            assert(pow2(e) == pow2(f) * 2);
            lemma_div_denominator(lo as int, pow2(f) as int, 2);
            lemma_fundamental_div_mod((lo as int) / (pow2(f) as int), 2);
        }
        let bit: u128 = (lo / p) % 2;
        let ghost done2: int = (lo as int) / (pow2(f) as int);
        proof {
            assert(done2 == 2 * done + bit);
        }
        let t: u128 = d - rem;
        let qbit: u128;
        if rem >= t {
            let r2: u128 = rem - t;
            rem = r2 + bit;
            qbit = 1;
        } else {
            let s: u128 = rem + rem;
            let s2: u128 = s + bit;
            if s2 >= d {
                rem = 0;
                qbit = 1;
            } else {
                rem = s2;
                qbit = 0;
            }
        }
        proof {
            assert(rem == 2 * rem0 + bit - qbit * d);
            assert(rem < d);
            // q stays below 2^127, so the doubling cannot overflow.
            if i < 127 {
                lemma_pow2_strictly_increases(i as nat, 127);
            }
            lemma_pow2_adds(64, 63);
            lemma2_to64();
            lemma2_to64_rest();
            assert(pow2(127) == 0x8000_0000_0000_0000_0000_0000_0000_0000);
            assert(q < pow2(127));
        }
        q = q * 2 + qbit;
        proof {
            lemma_pow2_adds(i as nat, 1);
            lemma_pow2_adds((127 - i) as nat, (i + 1) as nat);
            lemma_pow2_adds(64, 64);
            lemma2_to64();
            lemma2_to64_rest();
            assert(pow2(128) == pow2_128());
            assert(pow2((i + 1) as nat) == 2 * pow2(i as nat));
            // Preservation of the division invariant.
            assert(q * d + rem == hi * pow2((i + 1) as nat) + done2) by (nonlinear_arith)
                requires
                    q == 2 * q0 + qbit,
                    rem == 2 * rem0 + bit - qbit * d,
                    q0 * d + rem0 == hi * pow2(i as nat) + done,
                    done2 == 2 * done + bit,
                    pow2((i + 1) as nat) == 2 * pow2(i as nat),
            ;
            // The new quotient still fits: q < 2^(i+1).
            lemma_pow2_adds((127 - i) as nat, (i + 1) as nat);
            assert((lo as int) < pow2((127 - i) as nat) * pow2((i + 1) as nat));
            lemma_multiply_divide_lt(lo as int, pow2((127 - i) as nat) as int, pow2(
                (i + 1) as nat,
            ) as int);
            assert(done2 < pow2((i + 1) as nat));
            lemma_mul_inequality(hi + 1, d as int, pow2((i + 1) as nat) as int);
            assert((hi + 1) * pow2((i + 1) as nat) == hi * pow2((i + 1) as nat) + pow2(
                (i + 1) as nat,
            )) by (nonlinear_arith);
            assert(q * d < d * pow2((i + 1) as nat));
            assert(q * d < pow2((i + 1) as nat) * d) by (nonlinear_arith)
                requires
                    q * d < d * pow2((i + 1) as nat),
            ;
            lemma_mul_strict_inequality_converse(q as int, pow2((i + 1) as nat) as int, d as int);
        }
        proof {
            if i + 1 < 128 {
                lemma_pow2_adds((126 - i) as nat, 1);
                lemma2_to64();
                assert(p == 2 * pow2((126 - i) as nat));
                lemma_div_multiples_vanish(pow2((126 - i) as nat) as int, 2);
                assert((p as int) / 2 == pow2((126 - i) as nat));
            }
        }
        p = p / 2;
        i = i + 1;
    }
    proof {
        lemma2_to64();
        lemma_div_basics(lo as int);
        assert((lo as int) / (pow2(0) as int) == lo);
        assert(q * d + rem == hi * pow2(128) + lo);
        lemma_pow2_adds(64, 64);
        lemma2_to64_rest();
        assert(pow2(128) == pow2_128());
        lemma_fundamental_div_mod_converse(
            hi * pow2_128() + lo,
            d as int,
            q as int,
            rem as int,
        );
    }
    (q, rem)
}

/// `floor(x * y / z)` computed through a full 256-bit intermediate product;
/// `None` exactly when the quotient does not fit in a `u128`.
pub fn muldiv(x: u128, y: u128, z: u128) -> (r: Option<u128>)
    requires
        0 < z,
    ensures
        match r {
            Some(v) => v == (x * y) / (z as int),
            None => (x * y) / (z as int) > u128::MAX,
        },
{
    let (hi, lo) = mul_wide(x, y);
    if hi >= z {
        proof {
            lemma_mul_inequality(z as int, hi as int, pow2_128());
            lemma_div_multiples_vanish(pow2_128(), z as int);
            assert((z as int) * pow2_128() == z * pow2_128());
            lemma_div_is_ordered(
                (z as int) * pow2_128(),
                hi * pow2_128() + lo,
                z as int,
            );
        }
        None
    } else {
        let (q, _rem) = div_wide(hi, lo, z);
        Some(q)
    }
}

/// When the second factor is no larger than the divisor, the quotient is
/// bounded by the first factor, so `muldiv` always succeeds.
pub proof fn lemma_muldiv_le(x: int, y: int, z: int)
    requires
        0 <= x,
        0 <= y,
        0 < z,
        y <= z,
    ensures
        (x * y) / z <= x,
{
    lemma_mul_inequality(y, z, x);
    assert(y * x == x * y) by (nonlinear_arith);
    assert(z * x == x * z) by (nonlinear_arith);
    lemma_div_is_ordered(x * y, x * z, z);
    lemma_div_multiples_vanish(x, z);
    assert(z * x == x * z) by (nonlinear_arith);
}

} // verus!
