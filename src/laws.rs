//! Properties that relate the engine's operations, proved from their contracts.
use crate::engine::{apply_param_changes, param_update_events, value_or, Module};
use crate::fixed::{mul_down, Price, Rate, Ratio};
use crate::liquidation::strategy_of;
use crate::liquidation::Settlement;
use crate::types::{
    AccountId, Balance, Change, CurrencyId, DebitBalance, Error, Event, LiquidationStrategy,
    RiskManagementParams,
};
use crate::unsigned::scan_position_after;
use vstd::arithmetic::div_mod::{
    lemma_add_mod_noop, lemma_mod_add_multiples_vanish, lemma_mod_bound, lemma_mod_self_0,
    lemma_small_mod,
};
use vstd::prelude::*;

verus! {

/// Before shutdown, one block of accrual on an allowed collateral type with debit
/// and a non-zero fee never lowers its exchange rate. When the increment is
/// non-zero and the rate is not at its maximum, the rate stays where it was
/// exactly when the treasury refused the surplus.
pub proof fn lemma_accrual_never_lowers_rate(m: Module, c: CurrencyId, total_debits: DebitBalance, surplus_accepted: bool)
    requires
        m.wf(),
        !m.spec_is_shutdown(),
        m.is_allowed(c),
        total_debits > 0,
        m.stability_fee_of(c) > 0,
    ensures
        m.accrual_of(c, total_debits as int) is Some,
        ({
            let before = m.exchange_rate_of(c);
            let after = value_or(
                m.rate_after_accrual(c, total_debits as int, surplus_accepted),
                m.spec_config().default_debit_exchange_rate.value(),
            );
            &&& after >= before
            &&& (mul_down(before, m.stability_fee_of(c)) > 0 && before < u128::MAX) ==> (after == before
                <==> !surplus_accepted)
        }),
{
}

/// A position without debit, or without a price, is never unsafe.
pub proof fn lemma_unsafe_needs_debit_and_price(
    m: Module,
    c: CurrencyId,
    debit: DebitBalance,
    collateral: Balance,
    price: Option<Price>,
)
    requires
        debit == 0 || price is None,
    ensures
        !m.is_unsafe(c, debit as int, collateral as int, price),
{
}

/// A position accepted on adjustment has no debit value, or has at least the
/// minimum debit value, a known price, and a ratio at or above the liquidation
/// ratio and the required ratio when one is set.
pub proof fn lemma_accepted_position_is_sound(
    m: Module,
    c: CurrencyId,
    collateral: Balance,
    debit: DebitBalance,
    price: Option<Price>,
)
    requires
        m.position_check(c, collateral as int, debit as int, price) is Ok,
    ensures
        m.debit_value_of(c, debit as int) == 0 || ({
            let ratio = m.collateral_ratio_of(c, collateral as int, debit as int, price->Some_0);
            let required = m.spec_collateral_params(c).required_collateral_ratio;
            &&& price is Some
            &&& m.debit_value_of(c, debit as int) >= m.spec_config().minimum_debit_value
            &&& ratio >= m.liquidation_ratio_of(c)
            &&& (required is Some ==> ratio >= required->Some_0.value())
        }),
{
}

/// Applying the same parameter update twice stores what one update stores, and
/// the second update announces no change.
pub proof fn lemma_param_update_idempotent(
    c: CurrencyId,
    p: RiskManagementParams,
    stability_fee: Change<Option<Rate>>,
    liquidation_ratio: Change<Option<Ratio>>,
    liquidation_penalty: Change<Option<Rate>>,
    required_collateral_ratio: Change<Option<Ratio>>,
    maximum_total_debit_value: Change<Balance>,
)
    ensures
        ({
            let once = apply_param_changes(
                p,
                stability_fee,
                liquidation_ratio,
                liquidation_penalty,
                required_collateral_ratio,
                maximum_total_debit_value,
            );
            &&& apply_param_changes(
                once,
                stability_fee,
                liquidation_ratio,
                liquidation_penalty,
                required_collateral_ratio,
                maximum_total_debit_value,
            ) == once
            &&& param_update_events(
                c,
                once,
                stability_fee,
                liquidation_ratio,
                liquidation_penalty,
                required_collateral_ratio,
                maximum_total_debit_value,
            ) == Seq::<Event>::empty()
        }),
{
    let once = apply_param_changes(
        p,
        stability_fee,
        liquidation_ratio,
        liquidation_penalty,
        required_collateral_ratio,
        maximum_total_debit_value,
    );
    assert(param_update_events(
        c,
        once,
        stability_fee,
        liquidation_ratio,
        liquidation_penalty,
        required_collateral_ratio,
        maximum_total_debit_value,
    ) =~= Seq::<Event>::empty());
}

/// A settlement takes all the debit of the position, so settling the position
/// that it leaves fails for want of debit.
pub proof fn lemma_settle_twice_fails(
    m: Module,
    who: AccountId,
    c: CurrencyId,
    debit: DebitBalance,
    collateral: Balance,
    price: Option<Price>,
)
    requires
        m.settlement_of(who, c, debit, collateral, price) is Ok,
    ensures
        ({
            let s = m.settlement_of(who, c, debit, collateral, price)->Ok_0;
            &&& s.debit_balance == debit
            &&& s.collateral_amount <= collateral
            &&& m.settlement_of(
                who,
                c,
                (debit - s.debit_balance) as DebitBalance,
                (collateral - s.collateral_amount) as Balance,
                price,
            ) == Err::<Settlement, Error>(Error::NoDebitValue)
        }),
{
}

/// The positions of `k` consecutive scanner runs that start at `first`.
pub open spec fn scan_sequence(first: int, k: nat, count: int) -> int
    decreases k,
{
    if k == 0 {
        first
    } else {
        scan_position_after(Some(scan_sequence(first, (k - 1) as nat, count) as u32), count, 0)
    }
}

proof fn lemma_scan_sequence_mod(first: int, k: nat, count: int)
    requires
        0 < count <= u32::MAX,
        0 <= first < count,
    ensures
        scan_sequence(first, k, count) == (first + k) % count,
    decreases k,
{
    if k == 0 {
        lemma_small_mod(first as nat, count as nat);
    } else {
        lemma_scan_sequence_mod(first, (k - 1) as nat, count);
        let x = first + k - 1;
        let p = x % count;
        lemma_mod_bound(x, count);
        lemma_add_mod_noop(x, 1, count);
        if count == 1 {
            lemma_mod_self_0(1);
            lemma_small_mod(0, 1);
        } else {
            lemma_small_mod(1, count as nat);
            if p + 1 < count {
                lemma_small_mod((p + 1) as nat, count as nat);
            } else {
                lemma_mod_self_0(count);
            }
        }
    }
}

/// Runs of the scanner walk round the allowed collateral types: from any first
/// position, every position comes up within `count` runs.
pub proof fn lemma_scanner_visits_every_collateral(first: u32, count: u32, target: u32)
    requires
        first < count,
        target < count,
    ensures
        exists|k: nat| k < count && #[trigger] scan_sequence(first as int, k, count as int) == target,
{
    let k: nat = if target >= first {
        (target - first) as nat
    } else {
        (target + count - first) as nat
    };
    lemma_scan_sequence_mod(first as int, k, count as int);
    if target >= first {
        lemma_small_mod(target as nat, count as nat);
    } else {
        lemma_mod_add_multiples_vanish(target as int, count as int);
        lemma_small_mod(target as nat, count as nat);
    }
    assert(scan_sequence(first as int, k, count as int) == target);
}

/// Without debit value, any position passes the check, whatever its collateral.
pub proof fn lemma_no_debit_value_always_valid(
    m: Module,
    c: CurrencyId,
    collateral: Balance,
    debit: DebitBalance,
    price: Option<Price>,
)
    requires
        m.debit_value_of(c, debit as int) == 0,
    ensures
        m.position_check(c, collateral as int, debit as int, price) == Ok::<(), Error>(()),
{
}

/// A position whose ratio equals the liquidation ratio is safe.
pub proof fn lemma_at_liquidation_ratio_is_safe(
    m: Module,
    c: CurrencyId,
    debit: DebitBalance,
    collateral: Balance,
    price: Price,
)
    requires
        m.collateral_ratio_of(c, collateral as int, debit as int, price) == m.liquidation_ratio_of(c),
    ensures
        !m.is_unsafe(c, debit as int, collateral as int, Some(price)),
{
}

/// When the exchange needs no collateral, the collateral goes to auction.
pub proof fn lemma_zero_supply_means_auction(slippage: Option<Ratio>, collateral: Balance, slippage_limit: Ratio)
    ensures
        strategy_of(0, slippage, collateral as int, slippage_limit) == LiquidationStrategy::Auction,
{
}

/// When the exchange reports no slippage, the collateral goes to auction.
pub proof fn lemma_unknown_slippage_means_auction(supply: Balance, collateral: Balance, slippage_limit: Ratio)
    ensures
        strategy_of(supply as int, None, collateral as int, slippage_limit) == LiquidationStrategy::Auction,
{
}

} // verus!
