//! Identifiers, parameters, events and errors of the engine.
use crate::fixed::{Fixed, Rate, Ratio};
use vstd::prelude::*;

verus! {

/// Identifier of a currency: a collateral type or the stablecoin.
pub type CurrencyId = u32;

/// Identifier of the owner of a position.
pub type AccountId = u64;

/// An amount of collateral or stablecoin.
pub type Balance = u128;

/// An amount of debit units, which bear interest through the exchange rate.
pub type DebitBalance = u128;

/// An update of one parameter: keep it, or replace it with a new value.
#[derive(PartialEq, Eq, Structural, Clone, Copy, Debug)]
pub enum Change<T> {
    NoChange,
    NewValue(T),
}

/// The value of a parameter after an update.
pub open spec fn apply_change<T>(current: T, change: Change<T>) -> T {
    match change {
        Change::NoChange => current,
        Change::NewValue(v) => v,
    }
}

/// Risk management parameters of one collateral type.
#[derive(PartialEq, Eq, Structural, Clone, Copy, Debug)]
pub struct RiskManagementParams {
    /// Hard cap of the total debit value issued against this collateral type.
    pub maximum_total_debit_value: Balance,
    /// Extra stability fee over the global one; `None` means zero.
    pub stability_fee: Option<Rate>,
    /// Ratio under which a position is unsafe; `None` means the default.
    pub liquidation_ratio: Option<Ratio>,
    /// Penalty rate charged on liquidation; `None` means the default.
    pub liquidation_penalty: Option<Rate>,
    /// Ratio that an adjusted position must keep; `None` means not enforced.
    pub required_collateral_ratio: Option<Ratio>,
}

/// Parameters of a collateral type that was never configured.
pub open spec fn default_params() -> RiskManagementParams {
    RiskManagementParams {
        maximum_total_debit_value: 0,
        stability_fee: None,
        liquidation_ratio: None,
        liquidation_penalty: None,
        required_collateral_ratio: None,
    }
}

impl Default for RiskManagementParams {
    fn default() -> (r: RiskManagementParams)
        ensures
            r == default_params(),
    {
        RiskManagementParams {
            maximum_total_debit_value: 0,
            stability_fee: None,
            liquidation_ratio: None,
            liquidation_penalty: None,
            required_collateral_ratio: None,
        }
    }
}

/// How the collateral of a liquidated position is sold.
#[derive(PartialEq, Eq, Structural, Clone, Copy, Debug)]
pub enum LiquidationStrategy {
    /// By collateral auctions run by the treasury.
    Auction,
    /// By a direct swap on the exchange.
    Exchange,
}

/// Errors of the engine.
#[derive(PartialEq, Eq, Structural, Clone, Copy, Debug)]
pub enum Error {
    /// The total debit value of the collateral type would exceed its hard cap.
    ExceedDebitValueHardCap,
    /// The collateral ratio is below the required collateral ratio.
    BelowRequiredCollateralRatio,
    /// The collateral ratio is below the liquidation ratio.
    BelowLiquidationRatio,
    /// Only an unsafe position can be liquidated.
    MustBeUnsafe,
    /// The currency is not an allowed collateral type.
    InvalidCollateralType,
    /// The remaining debit value is below the dust limit.
    RemainDebitValueTooSmall,
    /// No price is available.
    InvalidFeedPrice,
    /// The position has no debit to settle.
    NoDebitValue,
    /// The system has already been shut down.
    AlreadyShutdown,
    /// Only allowed after shutdown.
    MustAfterShutdown,
}

/// Events of the engine.
#[derive(PartialEq, Eq, Structural, Clone, Copy, Debug)]
pub enum Event {
    /// (collateral type, owner, collateral amount, bad debt value, strategy)
    LiquidateUnsafeCDP(CurrencyId, AccountId, Balance, Balance, LiquidationStrategy),
    /// (collateral type, owner)
    SettleCDPInDebit(CurrencyId, AccountId),
    StabilityFeeUpdated(CurrencyId, Option<Rate>),
    LiquidationRatioUpdated(CurrencyId, Option<Ratio>),
    LiquidationPenaltyUpdated(CurrencyId, Option<Rate>),
    RequiredCollateralRatioUpdated(CurrencyId, Option<Ratio>),
    MaximumTotalDebitValueUpdated(CurrencyId, Balance),
    GlobalStabilityFeeUpdated(Rate),
}

/// The constants that a deployment of the engine is configured with.
#[derive(Clone, Debug)]
pub struct CdpConfig {
    /// The allowed collateral types, without repetition.
    pub collateral_currency_ids: Vec<CurrencyId>,
    pub default_liquidation_ratio: Ratio,
    pub default_debit_exchange_rate: Fixed,
    pub default_liquidation_penalty: Rate,
    /// Smallest non-zero debit value a position may keep.
    pub minimum_debit_value: Balance,
    pub stable_currency_id: CurrencyId,
    /// Largest slippage accepted for a swap on the exchange; zero disables swaps.
    pub max_slippage_swap_with_dex: Ratio,
    /// Base priority of the engine's unsigned transactions.
    pub unsigned_priority: u64,
}

impl CdpConfig {
    /// The allowed collateral types are pairwise distinct.
    pub open spec fn wf(&self) -> bool {
        forall|i: int, j: int|
            0 <= i < j < self.collateral_currency_ids@.len() ==> self.collateral_currency_ids@[i]
                != self.collateral_currency_ids@[j]
    }

    pub open spec fn is_allowed(&self, c: CurrencyId) -> bool {
        self.collateral_currency_ids@.contains(c)
    }
}

} // verus!
