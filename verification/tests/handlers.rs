use anchor_basset_reward::RewardError;
use anchor_basset_reward::contracts::{handle, handle_send, init};
use anchor_basset_reward::decimal::{DECIMAL_FRACTIONAL, Decimal};
use anchor_basset_reward::msg::{
    Audit, Coin, HandleMsg, InitHook, Instruction, Response, RewardInitMsg,
};
use anchor_basset_reward::state::{Config, State, Store};
use anchor_basset_reward::swap::handle_swap;
use anchor_basset_reward::update::{handle_update_global_index, update_fits_check};

fn base_config() -> Config {
    Config {
        owner: "owner0000".to_string(),
        hub_contract: "hub0000".to_string(),
        reward_denom: "uusd".to_string(),
        lido_fee_rate: Decimal::percent(10),
        lido_fee_address: "fee0000".to_string(),
    }
}

fn store_with(total: u128, prev: u128, index_raw: u128) -> Store {
    let mut store = Store::new();
    store.store_config(base_config());
    store.store_state(State {
        total_balance: total,
        prev_reward_balance: prev,
        global_index: Decimal { raw: index_raw },
    });
    store
}

fn coin(denom: &str, amount: u128) -> Coin {
    Coin {
        denom: denom.to_string(),
        amount,
    }
}

#[test]
fn update_example_numbers() {
    // total 1000, snapshot 100, fee rate 10%, queried balance 1000:
    // claimed 900, fee 90, net claimed 810, snapshot 910, index +0.81.
    let mut store = store_with(1000, 100, 0);
    let resp = handle_update_global_index(
        &mut store,
        &"hub0000".to_string(),
        1000,
        Decimal::zero(),
        u128::MAX,
    )
    .unwrap();
    assert_eq!(
        resp.audit,
        Audit::UpdateGlobalIndex {
            claimed_rewards: 810,
            lido_fee: 90
        }
    );
    assert_eq!(resp.instructions.len(), 1);
    assert_eq!(
        resp.instructions[0],
        Instruction::Transfer {
            recipient: "fee0000".to_string(),
            fund: coin("uusd", 90),
        }
    );
    let st = store.read_state().unwrap();
    assert_eq!(st.total_balance, 1000);
    assert_eq!(st.prev_reward_balance, 910);
    assert_eq!(st.global_index.raw, 810_000_000_000_000_000);
}

#[test]
fn update_fee_transfer_is_net_of_tax_but_snapshot_is_gross() {
    // Same numbers, but a 1% transfer tax with a high cap: the declared
    // transfer is 89 while the snapshot is still debited the gross 90.
    let mut store = store_with(1000, 100, 0);
    let resp = handle_update_global_index(
        &mut store,
        &"hub0000".to_string(),
        1000,
        Decimal::percent(1),
        1_000_000,
    )
    .unwrap();
    assert_eq!(
        resp.instructions[0],
        Instruction::Transfer {
            recipient: "fee0000".to_string(),
            fund: coin("uusd", 89),
        }
    );
    assert_eq!(store.read_state().unwrap().prev_reward_balance, 910);
}

#[test]
fn update_tax_cap_limits_the_tax() {
    // 1% tax would burn 1 out of 90, but the cap of 0 burns nothing.
    let mut store = store_with(1000, 100, 0);
    let resp = handle_update_global_index(
        &mut store,
        &"hub0000".to_string(),
        1000,
        Decimal::percent(1),
        0,
    )
    .unwrap();
    assert_eq!(
        resp.instructions[0],
        Instruction::Transfer {
            recipient: "fee0000".to_string(),
            fund: coin("uusd", 90),
        }
    );
}

#[test]
fn update_zero_total_balance_is_invalid_state() {
    let mut store = store_with(0, 100, 7);
    let r = handle_update_global_index(
        &mut store,
        &"hub0000".to_string(),
        1000,
        Decimal::zero(),
        0,
    );
    assert_eq!(r, Err(RewardError::InvalidState));
    let st = store.read_state().unwrap();
    assert_eq!(st.total_balance, 0);
    assert_eq!(st.prev_reward_balance, 100);
    assert_eq!(st.global_index.raw, 7);
}

#[test]
fn update_balance_below_snapshot_is_underflow() {
    let mut store = store_with(1000, 100, 7);
    let r = handle_update_global_index(
        &mut store,
        &"hub0000".to_string(),
        99,
        Decimal::zero(),
        0,
    );
    assert_eq!(r, Err(RewardError::ArithmeticUnderflow));
    let st = store.read_state().unwrap();
    assert_eq!(st.prev_reward_balance, 100);
    assert_eq!(st.global_index.raw, 7);
}

#[test]
fn update_by_non_hub_is_unauthorized() {
    let mut store = store_with(1000, 100, 7);
    let r = handle_update_global_index(
        &mut store,
        &"owner0000".to_string(),
        1000,
        Decimal::zero(),
        0,
    );
    assert_eq!(r, Err(RewardError::Unauthorized));
    assert_eq!(store.read_state().unwrap().global_index.raw, 7);
}

#[test]
fn update_uninitialized_store_fails() {
    let mut store = Store::new();
    let r = handle_update_global_index(
        &mut store,
        &"hub0000".to_string(),
        1000,
        Decimal::zero(),
        0,
    );
    assert_eq!(r, Err(RewardError::Uninitialized));
}

#[test]
fn update_twice_without_growth_changes_nothing() {
    // Second queried balance equals the snapshot left by the first call:
    // nothing is claimed, no fee is charged, the index stays put.
    let mut store = store_with(1000, 100, 0);
    let hub = "hub0000".to_string();
    let first = handle_update_global_index(&mut store, &hub, 1000, Decimal::zero(), 0).unwrap();
    assert_eq!(
        first.audit,
        Audit::UpdateGlobalIndex {
            claimed_rewards: 810,
            lido_fee: 90
        }
    );
    let snapshot = store.read_state().unwrap().prev_reward_balance;
    assert_eq!(snapshot, 910);
    let second =
        handle_update_global_index(&mut store, &hub, snapshot, Decimal::zero(), 0).unwrap();
    assert_eq!(
        second.audit,
        Audit::UpdateGlobalIndex {
            claimed_rewards: 0,
            lido_fee: 0
        }
    );
    let st = store.read_state().unwrap();
    assert_eq!(st.prev_reward_balance, 910);
    assert_eq!(st.global_index.raw, 810_000_000_000_000_000);
}

#[test]
fn swap_by_non_hub_is_unauthorized() {
    let store = store_with(1000, 100, 0);
    let balances = vec![coin("ukrw", 5), coin("uusd", 7)];
    let r = handle_swap(&store, &"mallory".to_string(), &balances);
    assert_eq!(r, Err(RewardError::Unauthorized));
}

#[test]
fn swap_with_only_settlement_balance_emits_nothing() {
    let store = store_with(1000, 100, 0);
    let balances = vec![coin("uusd", 500)];
    let resp = handle_swap(&store, &"hub0000".to_string(), &balances).unwrap();
    assert_eq!(resp.instructions.len(), 0);
    assert_eq!(resp.audit, Audit::Swap);
}

#[test]
fn swap_converts_each_foreign_balance() {
    let store = store_with(1000, 100, 0);
    let balances = vec![coin("ukrw", 5), coin("uusd", 7), coin("uluna", 9)];
    let resp = handle_swap(&store, &"hub0000".to_string(), &balances).unwrap();
    assert_eq!(
        resp.instructions,
        vec![
            Instruction::Swap {
                offer: coin("ukrw", 5),
                ask_denom: "uusd".to_string(),
            },
            Instruction::Swap {
                offer: coin("uluna", 9),
                ask_denom: "uusd".to_string(),
            },
        ]
    );
}

#[test]
fn swap_uninitialized_store_fails() {
    let store = Store::new();
    let r = handle_swap(&store, &"hub0000".to_string(), &vec![]);
    assert_eq!(r, Err(RewardError::Uninitialized));
}

#[test]
fn send_zero_amount_is_invalid() {
    let store = store_with(1000, 100, 0);
    let r = handle_send(&store, &"owner0000".to_string(), "alice".to_string(), 0);
    assert_eq!(r, Err(RewardError::InvalidAmount));
}

#[test]
fn send_by_owner_emits_one_transfer() {
    let store = store_with(1000, 100, 3);
    let resp = handle_send(&store, &"owner0000".to_string(), "alice".to_string(), 42).unwrap();
    assert_eq!(resp.instructions.len(), 1);
    assert_eq!(
        resp.instructions[0],
        Instruction::Transfer {
            recipient: "alice".to_string(),
            fund: coin("uusd", 42),
        }
    );
    assert_eq!(resp.audit, Audit::SendReward { amount: 42 });
    // no state change: the handler cannot even write the store
    assert_eq!(store.read_state().unwrap().global_index.raw, 3);
}

#[test]
fn send_by_hub_is_unauthorized() {
    // The two authorization principals are distinct: the hub cannot push
    // rewards, only the owner can.
    let store = store_with(1000, 100, 0);
    let r = handle_send(&store, &"hub0000".to_string(), "alice".to_string(), 42);
    assert_eq!(r, Err(RewardError::Unauthorized));
}

#[test]
fn init_stores_config_and_zeroed_state() {
    let mut store = Store::new();
    let resp = init(
        &mut store,
        RewardInitMsg {
            owner: "owner0000".to_string(),
            hub_contract: "hub0000".to_string(),
            reward_denom: "uusd".to_string(),
            lido_fee_rate: Decimal::percent(10),
            lido_fee_address: "fee0000".to_string(),
            init_hook: None,
        },
    );
    assert_eq!(resp.instructions.len(), 0);
    let cfg = store.read_config().unwrap();
    assert_eq!(cfg.hub_contract, "hub0000".to_string());
    assert_eq!(cfg.lido_fee_rate.raw, DECIMAL_FRACTIONAL / 10);
    let st = store.read_state().unwrap();
    assert_eq!(st.total_balance, 0);
    assert_eq!(st.prev_reward_balance, 0);
    assert_eq!(st.global_index.raw, 0);
}

#[test]
fn init_notifies_the_registered_hook() {
    let mut store = Store::new();
    let resp = init(
        &mut store,
        RewardInitMsg {
            owner: "owner0000".to_string(),
            hub_contract: "hub0000".to_string(),
            reward_denom: "uusd".to_string(),
            lido_fee_rate: Decimal::zero(),
            lido_fee_address: "fee0000".to_string(),
            init_hook: Some(InitHook {
                contract_addr: "hub0000".to_string(),
                msg: vec![1, 2, 3],
            }),
        },
    );
    assert_eq!(
        resp.instructions,
        vec![Instruction::Execute {
            contract_addr: "hub0000".to_string(),
            msg: vec![1, 2, 3],
        }]
    );
}

#[test]
fn handle_dispatches_each_operation() {
    let hub = "hub0000".to_string();
    let owner = "owner0000".to_string();
    let no_balances: Vec<Coin> = vec![];

    let mut store = store_with(1000, 100, 0);
    let r: Result<Response, RewardError> = handle(
        &mut store,
        &owner,
        HandleMsg::SendReward {
            receiver: "alice".to_string(),
            amount: 5,
        },
        &no_balances,
        0,
        Decimal::zero(),
        0,
    );
    assert_eq!(r.unwrap().audit, Audit::SendReward { amount: 5 });

    let balances = vec![coin("uluna", 11)];
    let r = handle(
        &mut store,
        &hub,
        HandleMsg::Swap {},
        &balances,
        0,
        Decimal::zero(),
        0,
    );
    assert_eq!(r.unwrap().instructions.len(), 1);

    let r = handle(
        &mut store,
        &hub,
        HandleMsg::UpdateGlobalIndex {},
        &no_balances,
        1000,
        Decimal::zero(),
        u128::MAX,
    );
    assert_eq!(
        r.unwrap().audit,
        Audit::UpdateGlobalIndex {
            claimed_rewards: 810,
            lido_fee: 90
        }
    );
}

#[test]
fn update_with_a_numerator_beyond_native_width() {
    // claimed * 10^18 overflows 128 bits, so the quotient only comes out
    // right through the widened intermediate: 10^21 rewards over 10^12
    // bonded units advance the index by 10^9 exactly (fee rate zero).
    let mut store = Store::new();
    let mut cfg = base_config();
    cfg.lido_fee_rate = Decimal::zero();
    store.store_config(cfg);
    store.store_state(State {
        total_balance: 1_000_000_000_000,
        prev_reward_balance: 0,
        global_index: Decimal { raw: 0 },
    });
    let resp = handle_update_global_index(
        &mut store,
        &"hub0000".to_string(),
        1_000_000_000_000_000_000_000,
        Decimal::zero(),
        0,
    )
    .unwrap();
    assert_eq!(
        resp.audit,
        Audit::UpdateGlobalIndex {
            claimed_rewards: 1_000_000_000_000_000_000_000,
            lido_fee: 0
        }
    );
    let st = store.read_state().unwrap();
    assert_eq!(st.global_index.raw, 1_000_000_000 * DECIMAL_FRACTIONAL);
}

#[test]
fn fits_check_detects_index_width_exhaustion() {
    let hub = "hub0000".to_string();
    let store = store_with(1000, 100, 0);
    assert!(update_fits_check(&store, &hub, 1000));
    // the precondition concerns only calls that would otherwise succeed
    assert!(update_fits_check(&store, &"mallory".to_string(), u128::MAX));
    // one unit of principal claiming the full coin range overflows the index
    let exhausted = store_with(1, 0, 0);
    assert!(!update_fits_check(&exhausted, &hub, u128::MAX));
}
