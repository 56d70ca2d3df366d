//! Inbound messages and the outbound instructions the handlers emit.
//!
//! Instructions are fire-and-forget requests to the host ledger; their
//! effects are observed only through later balance queries.

use vstd::prelude::*;

verus! {

/// An amount of one denomination.
#[derive(Clone, PartialEq, Eq, Debug)]
pub struct Coin {
    pub denom: String,
    pub amount: u128,
}

/// An outbound request handed to the host ledger for execution after the
/// invocation returns.
#[derive(Clone, PartialEq, Eq, Debug)]
pub enum Instruction {
    /// Convert the offered balance into the asked denomination.
    Swap { offer: Coin, ask_denom: String },
    /// Send funds from the contract to a recipient; the declared amount is
    /// taxed by the ledger on the way.
    Transfer { recipient: String, fund: Coin },
    /// Invoke another contract (the registration hook at initialization).
    Execute { contract_addr: String, msg: Vec<u8> },
}

/// The audit record of one successful invocation.
#[derive(Clone, Copy, PartialEq, Eq, Structural, Debug)]
pub enum Audit {
    Swap,
    UpdateGlobalIndex { claimed_rewards: u128, lido_fee: u128 },
    SendReward { amount: u128 },
}

/// Result of a successful handler invocation.
#[derive(Clone, PartialEq, Eq, Debug)]
pub struct Response {
    pub instructions: Vec<Instruction>,
    pub audit: Audit,
}

/// Result of a successful initialization.
#[derive(Clone, PartialEq, Eq, Debug)]
pub struct InitResponse {
    pub instructions: Vec<Instruction>,
}

/// A contract to notify once initialization is done.
#[derive(Clone, PartialEq, Eq, Debug)]
pub struct InitHook {
    pub contract_addr: String,
    pub msg: Vec<u8>,
}

/// The initialization message.
#[derive(Clone, PartialEq, Eq, Debug)]
pub struct RewardInitMsg {
    pub owner: String,
    pub hub_contract: String,
    pub reward_denom: String,
    pub lido_fee_rate: crate::decimal::Decimal,
    pub lido_fee_address: String,
    pub init_hook: Option<InitHook>,
}

/// The recognized inbound operations.
#[derive(Clone, PartialEq, Eq, Debug)]
pub enum HandleMsg {
    SendReward { receiver: String, amount: u128 },
    Swap {},
    UpdateGlobalIndex {},
}

} // verus!
