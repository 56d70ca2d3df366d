//! The two durable records of the module and their explicit load/store
//! operations.  A read before initialization fails with `Uninitialized`;
//! nothing is silently defaulted.

use vstd::prelude::*;

verus! {

use crate::RewardError;
use crate::decimal::{Decimal, DECIMAL_FRACTIONAL};

/// Addressing and fee parameters, set once at initialization.
#[derive(Clone, PartialEq, Eq, Debug)]
pub struct Config {
    /// Principal authorized to request reward payouts.
    pub owner: String,
    /// Principal authorized to trigger swaps and index updates.
    pub hub_contract: String,
    /// The settlement denomination all rewards are expressed in.
    pub reward_denom: String,
    /// Fraction of claimed rewards retained as protocol fee; at most one.
    pub lido_fee_rate: Decimal,
    /// Destination of the protocol fee.
    pub lido_fee_address: String,
}

impl Config {
    /// The configured fee rate is a fraction in [0, 1].
    pub open spec fn wf(self) -> bool {
        self.lido_fee_rate.raw <= DECIMAL_FRACTIONAL
    }
}

/// The mutable accrual ledger.
#[derive(Clone, Copy, PartialEq, Eq, Structural, Debug)]
pub struct State {
    /// Total bonded principal, in principal units.
    pub total_balance: u128,
    /// Settlement balance as of the end of the last successful update,
    /// net of the fee debited then.
    pub prev_reward_balance: u128,
    /// Cumulative reward per unit of bonded principal; never decreases.
    pub global_index: Decimal,
}

/// The two records, each independently addressable and explicitly absent
/// until stored.
pub struct Store {
    pub config: Option<Config>,
    pub state: Option<State>,
}

impl Store {
    /// Both records start absent.
    pub fn new() -> (s: Store)
        ensures
            s.config is None,
            s.state is None,
    {
        Store { config: None, state: None }
    }

    /// The stored configuration, if any, satisfies the Config invariant.
    pub open spec fn wf(self) -> bool {
        match self.config {
            Some(c) => c.wf(),
            None => true,
        }
    }

    pub fn store_config(&mut self, config: Config)
        requires
            config.wf(),
        ensures
            final(self).config == Some(config),
            final(self).state == old(self).state,
            final(self).wf(),
    {
        self.config = Some(config);
    }

    pub fn read_config(&self) -> (r: Result<&Config, RewardError>)
        ensures
            match r {
                Ok(c) => self.config == Some(*c),
                Err(e) => self.config is None && e == RewardError::Uninitialized,
            },
    {
        match &self.config {
            Some(c) => Ok(c),
            None => Err(RewardError::Uninitialized),
        }
    }

    pub fn store_state(&mut self, state: State)
        ensures
            final(self).state == Some(state),
            final(self).config == old(self).config,
            final(self).wf() == old(self).wf(),
    {
        self.state = Some(state);
    }

    pub fn read_state(&self) -> (r: Result<State, RewardError>)
        ensures
            match r {
                Ok(s) => self.state == Some(s),
                Err(e) => self.state is None && e == RewardError::Uninitialized,
            },
    {
        match &self.state {
            Some(s) => Ok(*s),
            None => Err(RewardError::Uninitialized),
        }
    }
}

} // verus!
