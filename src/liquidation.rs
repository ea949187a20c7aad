//! Liquidation of unsafe positions and settlement of positions after shutdown.
//!
//! The ledger, the exchange and the treasury are reached by the caller: these
//! functions decide what to ask of them, from what they reported.
use crate::engine::Module;
use crate::fixed::{mul_down, saturate, Price, Ratio};
use crate::types::{AccountId, Balance, CurrencyId, DebitBalance, Error, Event, LiquidationStrategy};
use vstd::prelude::*;

verus! {

/// An accepted liquidation: the whole position goes to the treasury, which must
/// raise `target_stable_amount` of stablecoin from the collateral.
#[derive(PartialEq, Eq, Structural, Clone, Copy, Debug)]
pub struct Liquidation {
    pub who: AccountId,
    pub currency_id: CurrencyId,
    /// Collateral to confiscate and sell.
    pub collateral_amount: Balance,
    /// Debit units to confiscate.
    pub debit_balance: DebitBalance,
    /// Value of the confiscated debit.
    pub bad_debt_value: Balance,
    /// Bad debt plus the liquidation penalty on it.
    pub target_stable_amount: Balance,
}

/// An accepted settlement after shutdown: the collateral that covers the debit,
/// and all the debit, go to the treasury.
#[derive(PartialEq, Eq, Structural, Clone, Copy, Debug)]
pub struct Settlement {
    pub who: AccountId,
    pub currency_id: CurrencyId,
    /// Collateral to confiscate.
    pub collateral_amount: Balance,
    /// Debit units to confiscate.
    pub debit_balance: DebitBalance,
}

/// The exchange is used when it needs a non-zero amount that the position holds,
/// swaps are enabled, and its slippage is known and within the limit.
pub open spec fn strategy_of(
    supply: int,
    slippage: Option<Ratio>,
    collateral: int,
    slippage_limit: Ratio,
) -> LiquidationStrategy {
    if supply != 0 && collateral >= supply && slippage_limit.value() > 0 && match slippage {
        Some(s) => s.value() <= slippage_limit.value(),
        None => false,
    } {
        LiquidationStrategy::Exchange
    } else {
        LiquidationStrategy::Auction
    }
}

/// Chooses how to sell confiscated collateral, from the exchange's quote: the
/// collateral `supply` it needs and the `slippage` of that swap.
pub fn liquidation_strategy(
    supply: Balance,
    slippage: Option<Ratio>,
    collateral: Balance,
    slippage_limit: Ratio,
) -> (r: LiquidationStrategy)
    ensures
        r == strategy_of(supply as int, slippage, collateral as int, slippage_limit),
{
    let within_limit = match slippage {
        Some(s) => s.inner <= slippage_limit.inner,
        None => false,
    };
    if supply != 0 && collateral >= supply && slippage_limit.inner > 0 && within_limit {
        LiquidationStrategy::Exchange
    } else {
        LiquidationStrategy::Auction
    }
}

impl Module {
    /// Outcome of liquidating a position of `debit` units and `collateral`.
    pub open spec fn liquidation_of(
        &self,
        who: AccountId,
        c: CurrencyId,
        debit: DebitBalance,
        collateral: Balance,
        price: Option<Price>,
    ) -> Result<Liquidation, Error> {
        if !self.is_unsafe(c, debit as int, collateral as int, price) {
            Err(Error::MustBeUnsafe)
        } else {
            let bad_debt = self.debit_value_of(c, debit as int);
            Ok(Liquidation {
                who,
                currency_id: c,
                collateral_amount: collateral,
                debit_balance: debit,
                bad_debt_value: bad_debt as u128,
                target_stable_amount: saturate(bad_debt + mul_down(self.liquidation_penalty_of(c), bad_debt)) as u128,
            })
        }
    }

    /// Outcome of settling a position of `debit` units and `collateral` after
    /// shutdown; `price` is that of the stablecoin in the collateral.
    pub open spec fn settlement_of(
        &self,
        who: AccountId,
        c: CurrencyId,
        debit: DebitBalance,
        collateral: Balance,
        price: Option<Price>,
    ) -> Result<Settlement, Error> {
        if debit == 0 {
            Err(Error::NoDebitValue)
        } else {
            match price {
                None => Err(Error::InvalidFeedPrice),
                Some(p) => {
                    let covered = mul_down(p.value(), self.debit_value_of(c, debit as int));
                    Ok(Settlement {
                        who,
                        currency_id: c,
                        collateral_amount: if covered < collateral { covered as u128 } else { collateral },
                        debit_balance: debit,
                    })
                },
            }
        }
    }

    /// Liquidates a position: it must be unsafe at `price`, that of the collateral
    /// in the stablecoin (`None` when the oracle has none).
    pub fn liquidate_unsafe_cdp(
        &self,
        who: AccountId,
        currency_id: CurrencyId,
        debit_balance: DebitBalance,
        collateral_balance: Balance,
        price: Option<Price>,
    ) -> (r: Result<Liquidation, Error>)
        requires
            self.wf(),
        ensures
            r == self.liquidation_of(who, currency_id, debit_balance, collateral_balance, price),
    {
        if !self.is_cdp_unsafe(currency_id, debit_balance, collateral_balance, price) {
            return Err(Error::MustBeUnsafe);
        }
        let bad_debt_value = self.get_debit_value(currency_id, debit_balance);
        let penalty = self.get_liquidation_penalty(currency_id).saturating_mul_int(bad_debt_value);
        Ok(Liquidation {
            who,
            currency_id,
            collateral_amount: collateral_balance,
            debit_balance,
            bad_debt_value,
            target_stable_amount: bad_debt_value.saturating_add(penalty),
        })
    }

    /// The unsigned `liquidate` call: refused after shutdown.
    pub fn liquidate(
        &self,
        currency_id: CurrencyId,
        who: AccountId,
        debit_balance: DebitBalance,
        collateral_balance: Balance,
        price: Option<Price>,
    ) -> (r: Result<Liquidation, Error>)
        requires
            self.wf(),
        ensures
            r == if self.spec_is_shutdown() {
                Err(Error::AlreadyShutdown)
            } else {
                self.liquidation_of(who, currency_id, debit_balance, collateral_balance, price)
            },
    {
        if self.is_shutdown() {
            return Err(Error::AlreadyShutdown);
        }
        self.liquidate_unsafe_cdp(who, currency_id, debit_balance, collateral_balance, price)
    }

    /// Settles a position with debit: `price` is that of the stablecoin in the
    /// collateral (`None` when the oracle has none).
    pub fn settle_cdp_has_debit(
        &self,
        who: AccountId,
        currency_id: CurrencyId,
        debit_balance: DebitBalance,
        collateral_balance: Balance,
        price: Option<Price>,
    ) -> (r: Result<Settlement, Error>)
        requires
            self.wf(),
        ensures
            r == self.settlement_of(who, currency_id, debit_balance, collateral_balance, price),
    {
        if debit_balance == 0 {
            return Err(Error::NoDebitValue);
        }
        let settle_price = match price {
            Some(p) => p,
            None => { return Err(Error::InvalidFeedPrice); },
        };
        let bad_debt_value = self.get_debit_value(currency_id, debit_balance);
        let covered = settle_price.saturating_mul_int(bad_debt_value);
        let confiscate = if covered < collateral_balance { covered } else { collateral_balance };
        Ok(Settlement { who, currency_id, collateral_amount: confiscate, debit_balance })
    }

    /// The unsigned `settle` call: only after shutdown.
    pub fn settle(
        &self,
        currency_id: CurrencyId,
        who: AccountId,
        debit_balance: DebitBalance,
        collateral_balance: Balance,
        price: Option<Price>,
    ) -> (r: Result<Settlement, Error>)
        requires
            self.wf(),
        ensures
            r == if !self.spec_is_shutdown() {
                Err(Error::MustAfterShutdown)
            } else {
                self.settlement_of(who, currency_id, debit_balance, collateral_balance, price)
            },
    {
        if !self.is_shutdown() {
            return Err(Error::MustAfterShutdown);
        }
        self.settle_cdp_has_debit(who, currency_id, debit_balance, collateral_balance, price)
    }

    /// The strategy for a liquidation, under the configured slippage limit.
    pub fn choose_liquidation_strategy(
        &self,
        liquidation: &Liquidation,
        supply: Balance,
        slippage: Option<Ratio>,
    ) -> (r: LiquidationStrategy)
        ensures
            r == strategy_of(
                supply as int,
                slippage,
                liquidation.collateral_amount as int,
                self.spec_config().max_slippage_swap_with_dex,
            ),
    {
        liquidation_strategy(supply, slippage, liquidation.collateral_amount, self.config().max_slippage_swap_with_dex)
    }
}

impl Liquidation {
    /// Collateral to return to the owner after a swap of `supply`: what the swap
    /// left over, when it succeeded and left any.
    pub fn refund_after_swap(&self, supply: Balance, swap_succeeded: bool) -> (r: Option<Balance>)
        ensures
            r == if swap_succeeded && self.collateral_amount > supply {
                Some((self.collateral_amount - supply) as u128)
            } else {
                None::<u128>
            },
    {
        if swap_succeeded && self.collateral_amount > supply {
            Some(self.collateral_amount - supply)
        } else {
            None
        }
    }

    pub fn event(&self, strategy: LiquidationStrategy) -> (r: Event)
        ensures
            r == Event::LiquidateUnsafeCDP(
                self.currency_id,
                self.who,
                self.collateral_amount,
                self.bad_debt_value,
                strategy,
            ),
    {
        Event::LiquidateUnsafeCDP(self.currency_id, self.who, self.collateral_amount, self.bad_debt_value, strategy)
    }
}

impl Settlement {
    pub fn event(&self) -> (r: Event)
        ensures
            r == Event::SettleCDPInDebit(self.currency_id, self.who),
    {
        Event::SettleCDPInDebit(self.currency_id, self.who)
    }
}

} // verus!
