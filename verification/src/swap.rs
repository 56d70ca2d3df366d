//! The Swap Converter: normalizes every foreign balance the contract holds
//! into the settlement denomination by emitting one conversion instruction
//! per foreign coin.  Conversion is fulfilled asynchronously by the host;
//! no local state is touched.

use vstd::prelude::*;

verus! {

use crate::RewardError;
use crate::msg::{Audit, Coin, Instruction, Response};
use crate::state::Store;

/// One conversion instruction per balance whose denomination differs from
/// the settlement denomination, in order, each converting the full balance.
pub open spec fn swap_instructions(coins: Seq<Coin>, reward_denom: String) -> Seq<Instruction>
    decreases coins.len(),
{
    if coins.len() == 0 {
        Seq::empty()
    } else {
        let rest = swap_instructions(coins.drop_last(), reward_denom);
        let c = coins.last();
        if c.denom@ == reward_denom@ {
            rest
        } else {
            rest.push(Instruction::Swap { offer: c, ask_denom: reward_denom })
        }
    }
}

/// Everything `handle_swap` promises: `Uninitialized` without a stored
/// configuration, `Unauthorized` for any sender but the hub, and otherwise
/// exactly the conversion instructions for the foreign balances held.
pub open spec fn swap_post(
    store: Store,
    sender: String,
    balances: Seq<Coin>,
    r: Result<Response, RewardError>,
) -> bool {
    match store.config {
        None => r == Err::<Response, RewardError>(RewardError::Uninitialized),
        Some(cfg) => if sender@ != cfg.hub_contract@ {
            r == Err::<Response, RewardError>(RewardError::Unauthorized)
        } else {
            r matches Ok(resp) && resp.instructions@ == swap_instructions(
                balances,
                cfg.reward_denom,
            ) && resp.audit == Audit::Swap
        },
    }
}

/// Convert all held foreign balances to the settlement denomination.
/// Permissioned to the hub.  `balances` is the contract's full balance
/// sheet as queried from the host ledger.
pub fn handle_swap(store: &Store, sender: &String, balances: &Vec<Coin>) -> (r: Result<
    Response,
    RewardError,
>)
    ensures
        swap_post(*store, *sender, balances@, r),
{
    let cfg = match store.read_config() {
        Ok(c) => c,
        Err(e) => {
            return Err(e);
        },
    };
    if !(*sender == cfg.hub_contract) {
        return Err(RewardError::Unauthorized);
    }
    let mut instructions: Vec<Instruction> = Vec::new();
    let mut i: usize = 0;
    while i < balances.len()
        invariant
            i <= balances.len(),
            store.config == Some(*cfg),
            instructions@ == swap_instructions(balances@.take(i as int), cfg.reward_denom),
        decreases balances.len() - i,
    {
        let c = &balances[i];
        if !(c.denom == cfg.reward_denom) {
            instructions.push(
                Instruction::Swap {
                    offer: Coin { denom: c.denom.clone(), amount: c.amount },
                    ask_denom: cfg.reward_denom.clone(),
                },
            );
        }
        proof {
            assert(balances@.take(i + 1).drop_last() =~= balances@.take(i as int));
            assert(balances@.take(i + 1).last() == balances@[i as int]);
        }
        i = i + 1;
    }
    proof {
        assert(balances@.take(balances@.len() as int) =~= balances@);
    }
    Ok(Response { instructions, audit: Audit::Swap })
}

} // verus!
