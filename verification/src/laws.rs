//! Laws of the accrual algorithm, stated over the exact outcome
//! specification and proved once for all inputs.

use vstd::prelude::*;

verus! {

use vstd::arithmetic::div_mod::{lemma_div_basics, lemma_div_pos_is_pos};
use vstd::arithmetic::mul::lemma_mul_nonnegative;
use crate::arith::lemma_muldiv_le;
use crate::decimal::{DECIMAL_FRACTIONAL, Decimal};
use crate::msg::Coin;
use crate::state::{Config, State, Store};
use crate::swap::swap_instructions;
use crate::update::{spec_fee, spec_index_delta, update_fits, update_outcome};

/// A successful index update never decreases the global index.
pub proof fn lemma_update_monotone(
    store: Store,
    sender: String,
    balance: u128,
    tax_rate: Decimal,
    tax_cap: u128,
)
    requires
        store.wf(),
        update_fits(store, sender, balance),
        update_outcome(store, sender, balance, tax_rate, tax_cap) is Ok,
    ensures
        match (update_outcome(store, sender, balance, tax_rate, tax_cap), store.state) {
            (Ok(out), Some(st)) => out.0.global_index.raw >= st.global_index.raw,
            _ => false,
        },
{
    match (store.config, store.state) {
        (Some(cfg), Some(st)) => {
            let claimed0 = balance - st.prev_reward_balance;
            let rate = cfg.lido_fee_rate.raw as int;
            let fee = spec_fee(claimed0 as int, rate);
            lemma_mul_nonnegative(claimed0 as int, rate);
            lemma_div_pos_is_pos(claimed0 * rate, DECIMAL_FRACTIONAL as int);
            lemma_muldiv_le(claimed0 as int, rate, DECIMAL_FRACTIONAL as int);
            let claimed = claimed0 - fee;
            lemma_mul_nonnegative(claimed, DECIMAL_FRACTIONAL as int);
            lemma_div_pos_is_pos(claimed * DECIMAL_FRACTIONAL, st.total_balance as int);
            assert(spec_index_delta(claimed, st.total_balance as int) >= 0);
        },
        _ => {
            assert(false);
        },
    }
}

/// One successful index update carries the ledger from `s0` to `s1` under
/// configuration `cfg`, for the given observations.
pub open spec fn advances_by(
    cfg: Config,
    s0: State,
    s1: State,
    sender: String,
    balance: u128,
    tax_rate: Decimal,
    tax_cap: u128,
) -> bool {
    let store = Store { config: Some(cfg), state: Some(s0) };
    update_fits(store, sender, balance) && match update_outcome(
        store,
        sender,
        balance,
        tax_rate,
        tax_cap,
    ) {
        Ok(out) => out.0 == s1,
        Err(_) => false,
    }
}

/// Some successful index update carries the ledger from `s0` to `s1`.
pub open spec fn advances(cfg: Config, s0: State, s1: State) -> bool {
    exists|sender: String, balance: u128, tax_rate: Decimal, tax_cap: u128|
        #[trigger] advances_by(cfg, s0, s1, sender, balance, tax_rate, tax_cap)
}

/// Over any run of successful index updates, the global index is
/// non-decreasing from the first ledger state to the last.
pub proof fn lemma_global_index_monotone(cfg: Config, run: Seq<State>)
    requires
        cfg.wf(),
        run.len() >= 1,
        forall|i: int| 0 <= i < run.len() - 1 ==> #[trigger] advances(cfg, run[i], run[i + 1]),
    ensures
        run.last().global_index.raw >= run.first().global_index.raw,
    decreases run.len(),
{
    if run.len() >= 2 {
        let ghost i0: int = 0;
        assert(advances(cfg, run[i0], run[i0 + 1]));
        assert(advances(cfg, run[0], run[1]));
        let (sender, balance, tax_rate, tax_cap) = choose|
            sender: String,
            balance: u128,
            tax_rate: Decimal,
            tax_cap: u128,
        | advances_by(cfg, run[0], run[1], sender, balance, tax_rate, tax_cap);
        lemma_update_monotone(
            Store { config: Some(cfg), state: Some(run[0]) },
            sender,
            balance,
            tax_rate,
            tax_cap,
        );
        let rest = run.drop_first();
        assert forall|i: int| 0 <= i < rest.len() - 1 implies #[trigger] advances(
            cfg,
            rest[i],
            rest[i + 1],
        ) by {
            assert(rest[i] == run[i + 1]);
            assert(rest[i + 1] == run[i + 2]);
            assert(advances(cfg, run[i + 1], run[i + 2]));
        }
        lemma_global_index_monotone(cfg, rest);
        assert(rest.first() == run[1]);
        assert(rest.last() == run.last());
    }
}

/// When every held balance is already in the settlement denomination, the
/// converter emits no instructions.
pub proof fn lemma_swap_settlement_only(coins: Seq<Coin>, reward_denom: String)
    requires
        forall|i: int| 0 <= i < coins.len() ==> #[trigger] coins[i].denom@ == reward_denom@,
    ensures
        swap_instructions(coins, reward_denom).len() == 0,
    decreases coins.len(),
{
    if coins.len() > 0 {
        let head = coins.drop_last();
        assert forall|i: int| 0 <= i < head.len() implies #[trigger] head[i].denom@
            == reward_denom@ by {
            assert(head[i] == coins[i]);
        }
        lemma_swap_settlement_only(head, reward_denom);
        assert(coins.last() == coins[coins.len() - 1]);
    }
}

/// Updating again at an unchanged settlement balance (the balance queried
/// equals the snapshot left by the previous update) succeeds, claims
/// nothing, charges no fee, and leaves the ledger exactly as it was.
pub proof fn lemma_update_no_growth(
    cfg: Config,
    st: State,
    sender: String,
    tax_rate: Decimal,
    tax_cap: u128,
)
    requires
        cfg.wf(),
        sender@ == cfg.hub_contract@,
        st.total_balance > 0,
    ensures
        match update_outcome(
            Store { config: Some(cfg), state: Some(st) },
            sender,
            st.prev_reward_balance,
            tax_rate,
            tax_cap,
        ) {
            Ok(out) => out.1 == 0 && out.2 == 0 && out.0 == st,
            Err(_) => false,
        },
{
    lemma_div_basics(DECIMAL_FRACTIONAL as int);
    lemma_div_basics(st.total_balance as int);
    assert(spec_fee(0, cfg.lido_fee_rate.raw as int) == 0);
    assert(spec_index_delta(0, st.total_balance as int) == 0);
}

} // verus!
