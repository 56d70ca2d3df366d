//! The Global Index Updater: realizes settlement-balance growth as index
//! progress, extracting and routing the protocol fee.
//!
//! The handler consumes host-ledger observations (the settlement balance and
//! the transfer-tax parameters) as plain inputs; it emits the fee transfer as
//! an outbound instruction and commits the new `State` as a whole, or fails
//! with no effect.

use vstd::prelude::*;

verus! {

use crate::RewardError;
use crate::arith::{lemma_muldiv_le, muldiv};
use crate::decimal::{DECIMAL_FRACTIONAL, Decimal};
use crate::math::decimal_summation_in_256;
use crate::msg::{Audit, Coin, Instruction, Response};
use crate::state::{State, Store};

/// The protocol fee retained from `claimed` rewards at `rate` (given in
/// units of 10^-18), rounded down.
pub open spec fn spec_fee(claimed: int, rate: int) -> int {
    (claimed * rate) / (DECIMAL_FRACTIONAL as int)
}

/// The ledger's transfer tax on a declared amount: the part of `amount`
/// that does not survive a transfer at tax rate `rate`, capped at `cap`.
pub open spec fn spec_tax(amount: int, rate: int, cap: int) -> int {
    let kept = (amount * DECIMAL_FRACTIONAL) / (DECIMAL_FRACTIONAL + rate);
    if amount - kept <= cap {
        amount - kept
    } else {
        cap
    }
}

/// What a recipient actually receives of a declared `amount`.
pub open spec fn spec_net_of_tax(amount: int, rate: int, cap: int) -> int {
    amount - spec_tax(amount, rate, cap)
}

/// Index growth from `claimed` net rewards over `total` bonded principal,
/// at index precision, rounded down.
pub open spec fn spec_index_delta(claimed: int, total: int) -> int {
    (claimed * DECIMAL_FRACTIONAL) / total
}

/// The complete outcome of an index update on the given observations, at
/// mathematical precision: either the error the invocation fails with, or
/// the committed state together with (claimed rewards net of fee, fee,
/// net fee transfer amount).
pub open spec fn update_outcome(
    store: Store,
    sender: String,
    balance: u128,
    tax_rate: Decimal,
    tax_cap: u128,
) -> Result<(State, int, int, int), RewardError> {
    match (store.config, store.state) {
        (Some(cfg), Some(st)) => if sender@ != cfg.hub_contract@ {
            Err(RewardError::Unauthorized)
        } else if st.total_balance == 0 {
            Err(RewardError::InvalidState)
        } else if balance < st.prev_reward_balance {
            Err(RewardError::ArithmeticUnderflow)
        } else {
            let claimed0 = balance - st.prev_reward_balance;
            let fee = spec_fee(claimed0 as int, cfg.lido_fee_rate.raw as int);
            let claimed = claimed0 - fee;
            let net = spec_net_of_tax(fee, tax_rate.raw as int, tax_cap as int);
            let delta = spec_index_delta(claimed, st.total_balance as int);
            let committed = State {
                total_balance: st.total_balance,
                prev_reward_balance: (balance - fee) as u128,
                global_index: Decimal { raw: (st.global_index.raw + delta) as u128 },
            };
            Ok((committed, claimed, fee, net))
        },
        _ => Err(RewardError::Uninitialized),
    }
}

/// Whenever the update will succeed, the advanced index must fit the
/// 128-bit storage width of `global_index`; the host aborts the whole
/// invocation otherwise, so callers establish this before invoking.
pub open spec fn update_fits(store: Store, sender: String, balance: u128) -> bool {
    match (store.config, store.state) {
        (Some(cfg), Some(st)) => (sender@ == cfg.hub_contract@ && st.total_balance > 0
            && balance >= st.prev_reward_balance) ==> {
            let claimed0 = balance - st.prev_reward_balance;
            let fee = spec_fee(claimed0 as int, cfg.lido_fee_rate.raw as int);
            let claimed = claimed0 - fee;
            st.global_index.raw + spec_index_delta(claimed, st.total_balance as int) <= u128::MAX
        },
        _ => true,
    }
}

/// Everything `handle_update_global_index` promises: on failure the error
/// matches the outcome and the store is untouched; on success the new state
/// is committed as a whole and exactly one fee transfer is emitted, declared
/// net of tax while the accounting snapshot is debited the gross fee.
pub open spec fn update_post(
    store0: Store,
    store1: Store,
    sender: String,
    balance: u128,
    tax_rate: Decimal,
    tax_cap: u128,
    r: Result<Response, RewardError>,
) -> bool {
    match update_outcome(store0, sender, balance, tax_rate, tax_cap) {
        Err(e) => r == Err::<Response, RewardError>(e) && store1 == store0,
        Ok(out) => match store0.config {
            Some(cfg) => {
                &&& store1.config == store0.config
                &&& store1.state == Some(out.0)
                &&& r matches Ok(resp) && resp.instructions@.len() == 1
                    && resp.instructions@[0] == (Instruction::Transfer {
                    recipient: cfg.lido_fee_address,
                    fund: Coin { denom: cfg.reward_denom, amount: out.3 as u128 },
                }) && resp.audit == (Audit::UpdateGlobalIndex {
                    claimed_rewards: out.1 as u128,
                    lido_fee: out.2 as u128,
                })
            },
            None => false,
        },
    }
}

/// Decides `update_fits` executably, so a caller can test the storage-width
/// precondition of `handle_update_global_index` before invoking it.
pub fn update_fits_check(store: &Store, sender: &String, reward_balance: u128) -> (r: bool)
    requires
        store.wf(),
    ensures
        r == update_fits(*store, *sender, reward_balance),
{
    match (&store.config, &store.state) {
        (Some(cfg), Some(st)) => {
            if !(*sender == cfg.hub_contract) {
                true
            } else if st.total_balance == 0 {
                true
            } else if reward_balance < st.prev_reward_balance {
                true
            } else {
                let claimed0: u128 = reward_balance - st.prev_reward_balance;
                let fee: u128 = compute_lido_fee(claimed0, cfg.lido_fee_rate);
                let claimed: u128 = claimed0 - fee;
                match muldiv(claimed, DECIMAL_FRACTIONAL, st.total_balance) {
                    None => false,
                    Some(delta) => delta <= u128::MAX - st.global_index.raw,
                }
            }
        },
        _ => true,
    }
}

/// The protocol fee on `amount` at `fee_rate`, rounded down.  The rate is a
/// fraction in [0, 1], so the fee never exceeds the amount.
pub fn compute_lido_fee(amount: u128, fee_rate: Decimal) -> (r: u128)
    requires
        fee_rate.raw <= DECIMAL_FRACTIONAL,
    ensures
        r == spec_fee(amount as int, fee_rate.raw as int),
        r <= amount,
{
    let opt = muldiv(amount, fee_rate.raw, DECIMAL_FRACTIONAL);
    proof {
        lemma_muldiv_le(amount as int, fee_rate.raw as int, DECIMAL_FRACTIONAL as int);
    }
    match opt {
        Some(v) => v,
        None => {
            proof {
                assert(false);
            }
            0
        },
    }
}

/// The net amount a recipient receives when `amount` is declared in a
/// transfer, after the ledger burns its capped transfer tax on the way.
pub fn deduct_tax(amount: u128, tax_rate: Decimal, tax_cap: u128) -> (r: u128)
    requires
        tax_rate.raw <= u128::MAX - DECIMAL_FRACTIONAL,
    ensures
        r == spec_net_of_tax(amount as int, tax_rate.raw as int, tax_cap as int),
        r <= amount,
{
    let denom: u128 = DECIMAL_FRACTIONAL + tax_rate.raw;
    let kept_opt = muldiv(amount, DECIMAL_FRACTIONAL, denom);
    proof {
        lemma_muldiv_le(amount as int, DECIMAL_FRACTIONAL as int, denom as int);
    }
    let kept: u128 = match kept_opt {
        Some(v) => v,
        None => {
            proof {
                assert(false);
            }
            0
        },
    };
    let gross: u128 = amount - kept;
    let tax: u128 = if gross <= tax_cap {
        gross
    } else {
        tax_cap
    };
    amount - tax
}

/// Advance the global index by the growth of the settlement balance since
/// the last update, net of the protocol fee.  Permissioned to the hub;
/// atomic: any failure leaves the store untouched and emits nothing.
///
/// `reward_balance` is the contract's current settlement-denomination
/// balance as queried from the host ledger; `tax_rate` and `tax_cap` are the
/// ledger's transfer-tax parameters for the settlement denomination.
pub fn handle_update_global_index(
    store: &mut Store,
    sender: &String,
    reward_balance: u128,
    tax_rate: Decimal,
    tax_cap: u128,
) -> (r: Result<Response, RewardError>)
    requires
        old(store).wf(),
        tax_rate.raw <= u128::MAX - DECIMAL_FRACTIONAL,
        update_fits(*old(store), *sender, reward_balance),
    ensures
        final(store).wf(),
        update_post(
            *old(store),
            *final(store),
            *sender,
            reward_balance,
            tax_rate,
            tax_cap,
            r,
        ),
{
    let hub_ok: bool;
    let fee_addr: String;
    let denom: String;
    let rate: Decimal;
    match store.read_config() {
        Ok(c) => {
            hub_ok = *sender == c.hub_contract;
            fee_addr = c.lido_fee_address.clone();
            denom = c.reward_denom.clone();
            rate = c.lido_fee_rate;
        },
        Err(e) => {
            return Err(e);
        },
    }
    let st: State = match store.read_state() {
        Ok(s) => s,
        Err(e) => {
            return Err(e);
        },
    };
    if !hub_ok {
        return Err(RewardError::Unauthorized);
    }
    if st.total_balance == 0 {
        return Err(RewardError::InvalidState);
    }
    if reward_balance < st.prev_reward_balance {
        return Err(RewardError::ArithmeticUnderflow);
    }
    let claimed0: u128 = reward_balance - st.prev_reward_balance;
    let lido_fee: u128 = compute_lido_fee(claimed0, rate);
    let claimed: u128 = claimed0 - lido_fee;
    let net_fee: u128 = deduct_tax(lido_fee, tax_rate, tax_cap);
    let delta: Decimal = Decimal::from_ratio(claimed, st.total_balance);
    let new_index: Decimal = decimal_summation_in_256(st.global_index, delta);
    let committed = State {
        total_balance: st.total_balance,
        prev_reward_balance: reward_balance - lido_fee,
        global_index: new_index,
    };
    store.store_state(committed);
    let mut instructions: Vec<Instruction> = Vec::new();
    instructions.push(
        Instruction::Transfer { recipient: fee_addr, fund: Coin { denom, amount: net_fee } },
    );
    Ok(
        Response {
            instructions,
            audit: Audit::UpdateGlobalIndex { claimed_rewards: claimed, lido_fee },
        },
    )
}

} // verus!
