//! Initialization, dispatch, and the reward-push handler of the simpler
//! companion operating mode.

use vstd::prelude::*;

verus! {

use crate::RewardError;
use crate::decimal::{DECIMAL_FRACTIONAL, Decimal};
use crate::msg::{
    Audit,
    Coin,
    HandleMsg,
    InitResponse,
    Instruction,
    Response,
    RewardInitMsg,
};
use crate::state::{Config, State, Store};
use crate::swap::{handle_swap, swap_post};
use crate::update::{handle_update_global_index, update_fits, update_post};

broadcast use vstd::string::to_string_from_display_ensures_for_str;

/// What `init` stores and emits: the full configuration, an explicitly
/// zeroed ledger, and the registration hook if one was given.
pub open spec fn init_post(store1: Store, msg: RewardInitMsg, r: InitResponse) -> bool {
    &&& store1.config == Some(
        Config {
            owner: msg.owner,
            hub_contract: msg.hub_contract,
            reward_denom: msg.reward_denom,
            lido_fee_rate: msg.lido_fee_rate,
            lido_fee_address: msg.lido_fee_address,
        },
    )
    &&& store1.state == Some(
        State { total_balance: 0, prev_reward_balance: 0, global_index: Decimal { raw: 0 } },
    )
    &&& match msg.init_hook {
        None => r.instructions@.len() == 0,
        Some(h) => r.instructions@.len() == 1 && r.instructions@[0] == (Instruction::Execute {
            contract_addr: h.contract_addr,
            msg: h.msg,
        }),
    }
}

/// Store the configuration and a zeroed ledger, and notify the registered
/// hook if one was given.  The fee rate must be a fraction in [0, 1].
pub fn init(store: &mut Store, msg: RewardInitMsg) -> (r: InitResponse)
    requires
        msg.lido_fee_rate.raw <= DECIMAL_FRACTIONAL,
    ensures
        final(store).wf(),
        init_post(*final(store), msg, r),
{
    let RewardInitMsg {
        owner,
        hub_contract,
        reward_denom,
        lido_fee_rate,
        lido_fee_address,
        init_hook,
    } = msg;
    store.store_config(
        Config { owner, hub_contract, reward_denom, lido_fee_rate, lido_fee_address },
    );
    store.store_state(
        State { total_balance: 0, prev_reward_balance: 0, global_index: Decimal::zero() },
    );
    let mut instructions: Vec<Instruction> = Vec::new();
    match init_hook {
        Some(h) => {
            instructions.push(
                Instruction::Execute { contract_addr: h.contract_addr, msg: h.msg },
            );
        },
        None => {},
    }
    InitResponse { instructions }
}

/// Everything `handle_send` promises: a zero amount is rejected before
/// anything else, then the configured owner is the only authorized sender,
/// and on success exactly one transfer of exactly the requested amount is
/// emitted while no state changes.
pub open spec fn send_post(
    store: Store,
    sender: String,
    receiver: String,
    amount: u128,
    r: Result<Response, RewardError>,
) -> bool {
    if amount == 0 {
        r == Err::<Response, RewardError>(RewardError::InvalidAmount)
    } else {
        match store.config {
            None => r == Err::<Response, RewardError>(RewardError::Uninitialized),
            Some(cfg) => if sender@ != cfg.owner@ {
                r == Err::<Response, RewardError>(RewardError::Unauthorized)
            } else {
                r matches Ok(resp) && resp.instructions@.len() == 1 && (
                resp.instructions@[0] matches Instruction::Transfer { recipient, fund }
                    && recipient == receiver && fund.denom@ == "uusd"@ && fund.amount == amount)
                    && resp.audit == (Audit::SendReward { amount })
            },
        }
    }
}

/// Send a fixed reward amount to a receiver.  Permissioned to the owner;
/// reads no ledger state and mutates nothing.
pub fn handle_send(store: &Store, sender: &String, receiver: String, amount: u128) -> (r: Result<
    Response,
    RewardError,
>)
    ensures
        send_post(*store, *sender, receiver, amount, r),
{
    if amount == 0 {
        return Err(RewardError::InvalidAmount);
    }
    let cfg = match store.read_config() {
        Ok(c) => c,
        Err(e) => {
            return Err(e);
        },
    };
    if !(*sender == cfg.owner) {
        return Err(RewardError::Unauthorized);
    }
    let mut instructions: Vec<Instruction> = Vec::new();
    instructions.push(
        Instruction::Transfer {
            recipient: receiver,
            fund: Coin { denom: "uusd".to_string(), amount },
        },
    );
    Ok(Response { instructions, audit: Audit::SendReward { amount } })
}

/// Dispatch one inbound invocation.  The caller supplies the host-ledger
/// observations the operations consume: the full balance sheet for a swap,
/// the settlement balance and transfer-tax parameters for an index update.
pub fn handle(
    store: &mut Store,
    sender: &String,
    msg: HandleMsg,
    balances: &Vec<Coin>,
    reward_balance: u128,
    tax_rate: Decimal,
    tax_cap: u128,
) -> (r: Result<Response, RewardError>)
    requires
        old(store).wf(),
        msg matches HandleMsg::UpdateGlobalIndex {} ==> tax_rate.raw <= u128::MAX
            - DECIMAL_FRACTIONAL && update_fits(*old(store), *sender, reward_balance),
    ensures
        final(store).wf(),
        match msg {
            HandleMsg::SendReward { receiver, amount } => *final(store) == *old(store)
                && send_post(*old(store), *sender, receiver, amount, r),
            HandleMsg::Swap {  } => *final(store) == *old(store) && swap_post(
                *old(store),
                *sender,
                balances@,
                r,
            ),
            HandleMsg::UpdateGlobalIndex {  } => update_post(
                *old(store),
                *final(store),
                *sender,
                reward_balance,
                tax_rate,
                tax_cap,
                r,
            ),
        },
{
    match msg {
        HandleMsg::SendReward { receiver, amount } => handle_send(store, sender, receiver, amount),
        HandleMsg::Swap {  } => handle_swap(store, sender, balances),
        HandleMsg::UpdateGlobalIndex {  } => handle_update_global_index(
            store,
            sender,
            reward_balance,
            tax_rate,
            tax_cap,
        ),
    }
}

} // verus!
