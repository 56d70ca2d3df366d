use anchor_basset_reward::arith::{div_wide, mul_wide, muldiv};
use anchor_basset_reward::decimal::{DECIMAL_FRACTIONAL, Decimal};
use anchor_basset_reward::update::{compute_lido_fee, deduct_tax};

#[test]
fn mul_wide_crosses_the_halfword_boundary() {
    let b64: u128 = 1u128 << 64;
    assert_eq!(mul_wide(b64, b64), (1, 0));
    assert_eq!(mul_wide(0, u128::MAX), (0, 0));
    assert_eq!(mul_wide(u128::MAX, 1), (0, u128::MAX));
    // (2^128 - 1)^2 == (2^128 - 2) * 2^128 + 1
    assert_eq!(mul_wide(u128::MAX, u128::MAX), (u128::MAX - 1, 1));
}

#[test]
fn div_wide_divides_a_256_bit_numerator() {
    // 2^128 == 3 * 0x5555...5555 + 1
    let third: u128 = u128::MAX / 3;
    assert_eq!(div_wide(1, 0, 3), (third, 1));
    assert_eq!(div_wide(0, 1000, 7), (142, 6));
}

#[test]
fn muldiv_is_exact_and_detects_overflow() {
    assert_eq!(muldiv(7, 3, 2), Some(10));
    assert_eq!(muldiv(u128::MAX, u128::MAX, u128::MAX), Some(u128::MAX));
    assert_eq!(muldiv(1u128 << 127, 4, 2), None);
    assert_eq!(muldiv(0, u128::MAX, 5), Some(0));
}

#[test]
fn decimal_from_ratio_rounds_down() {
    assert_eq!(Decimal::from_ratio(1, 3).raw, 333_333_333_333_333_333);
    assert_eq!(Decimal::from_ratio(2, 1).raw, 2 * DECIMAL_FRACTIONAL);
    assert_eq!(Decimal::percent(10).raw, DECIMAL_FRACTIONAL / 10);
    assert!(Decimal::zero().is_zero());
    assert_eq!(Decimal::one().raw, DECIMAL_FRACTIONAL);
}

#[test]
fn lido_fee_rounds_down() {
    assert_eq!(compute_lido_fee(900, Decimal::percent(10)), 90);
    assert_eq!(compute_lido_fee(999, Decimal::percent(10)), 99);
    assert_eq!(compute_lido_fee(9, Decimal::percent(10)), 0);
    assert_eq!(compute_lido_fee(u128::MAX, Decimal::one()), u128::MAX);
}

#[test]
fn tax_deduction_keeps_the_capped_share() {
    // 1% tax on 90: 90 * 1 / 1.01 keeps 89, burns 1.
    assert_eq!(deduct_tax(90, Decimal::percent(1), 1_000_000), 89);
    // the cap limits the burn
    assert_eq!(deduct_tax(90, Decimal::percent(1), 0), 90);
    // zero rate burns nothing
    assert_eq!(deduct_tax(90, Decimal::zero(), 1_000_000), 90);
}
