//! Accounting core of a liquid-staking reward-distribution module.
//!
//! The library tracks accrued staking rewards for a pool of bonded
//! principal, extracts a protocol fee from each claim, and maintains a
//! monotonically non-decreasing per-unit reward index, advanced with
//! extended-precision ratio arithmetic.  Handlers consume host-ledger
//! observations (balances, transfer-tax parameters) as plain inputs and
//! emit outbound instructions as plain values; every invocation either
//! commits its state as a whole or fails with no effect.

use vstd::prelude::*;

verus! {

/// Errors surfaced by the reward-accounting handlers.
#[derive(Clone, Copy, PartialEq, Eq, Structural, Debug)]
pub enum RewardError {
    /// The sender is not the principal configured for the operation.
    Unauthorized,
    /// A required record was read before it was stored.
    Uninitialized,
    /// A precondition of the operation does not hold (no bonded principal).
    InvalidState,
    /// The settlement balance fell below the accounting snapshot.
    ArithmeticUnderflow,
    /// A transfer of a non-positive amount was requested.
    InvalidAmount,
}

} // verus!

pub mod arith;
pub mod contracts;
pub mod decimal;
pub mod laws;
pub mod math;
pub mod msg;
pub mod state;
pub mod swap;
pub mod update;
