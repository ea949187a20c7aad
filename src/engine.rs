//! The engine's state: parameters per collateral type, the global stability fee,
//! the debit exchange rates and the shutdown flag; with the valuation of positions,
//! the risk checks and the per-block accrual of the stability fee.
use crate::fixed::{accuracy, mul_down, saturate, ExchangeRate, Fixed, Price, Rate, Ratio};
use crate::types::{
    apply_change, default_params, Balance, CdpConfig, Change, CurrencyId, DebitBalance, Error,
    Event, RiskManagementParams,
};
use vstd::prelude::*;

verus! {

/// The CDP engine.
pub struct Module {
    config: CdpConfig,
    is_shutdown: bool,
    global_stability_fee: Rate,
    /// Parameters of each allowed collateral type, in the order of the configuration.
    collateral_params: Vec<RiskManagementParams>,
    /// Stored exchange rate of each allowed collateral type, in the same order.
    debit_exchange_rates: Vec<Option<ExchangeRate>>,
}

/// Stablecoin to issue to the surplus pool for one block of stability fee on one
/// collateral type, and the exchange rate that the collateral type moves to once
/// the treasury has accepted it.
#[derive(PartialEq, Eq, Structural, Clone, Copy, Debug)]
pub struct StabilityFeeAccrual {
    pub issued_stable_coin_balance: Balance,
    pub new_debit_exchange_rate: ExchangeRate,
}

/// The inner value of an optional fixed-point parameter, or `d` when it is unset.
pub open spec fn value_or(f: Option<Fixed>, d: int) -> int {
    match f {
        Some(v) => v.value(),
        None => d,
    }
}

/// Parameters after one call of `set_collateral_params`.
pub open spec fn apply_param_changes(
    p: RiskManagementParams,
    stability_fee: Change<Option<Rate>>,
    liquidation_ratio: Change<Option<Ratio>>,
    liquidation_penalty: Change<Option<Rate>>,
    required_collateral_ratio: Change<Option<Ratio>>,
    maximum_total_debit_value: Change<Balance>,
) -> RiskManagementParams {
    RiskManagementParams {
        maximum_total_debit_value: apply_change(p.maximum_total_debit_value, maximum_total_debit_value),
        stability_fee: apply_change(p.stability_fee, stability_fee),
        liquidation_ratio: apply_change(p.liquidation_ratio, liquidation_ratio),
        liquidation_penalty: apply_change(p.liquidation_penalty, liquidation_penalty),
        required_collateral_ratio: apply_change(p.required_collateral_ratio, required_collateral_ratio),
    }
}

/// Whether an update gives a parameter a value other than the one it has.
pub open spec fn changes_value<T>(current: T, change: Change<T>) -> bool {
    match change {
        Change::NoChange => false,
        Change::NewValue(v) => v != current,
    }
}

/// The event for one parameter, present when the update changes its value.
pub open spec fn update_event<T>(current: T, change: Change<T>, e: Event) -> Seq<Event> {
    if changes_value(current, change) {
        seq![e]
    } else {
        seq![]
    }
}

/// The events of one call of `set_collateral_params`, in the order of the fields.
pub open spec fn param_update_events(
    c: CurrencyId,
    p: RiskManagementParams,
    stability_fee: Change<Option<Rate>>,
    liquidation_ratio: Change<Option<Ratio>>,
    liquidation_penalty: Change<Option<Rate>>,
    required_collateral_ratio: Change<Option<Ratio>>,
    maximum_total_debit_value: Change<Balance>,
) -> Seq<Event> {
    update_event(p.stability_fee, stability_fee, Event::StabilityFeeUpdated(c, apply_change(p.stability_fee, stability_fee)))
        + update_event(p.liquidation_ratio, liquidation_ratio, Event::LiquidationRatioUpdated(c, apply_change(p.liquidation_ratio, liquidation_ratio)))
        + update_event(p.liquidation_penalty, liquidation_penalty, Event::LiquidationPenaltyUpdated(c, apply_change(p.liquidation_penalty, liquidation_penalty)))
        + update_event(p.required_collateral_ratio, required_collateral_ratio, Event::RequiredCollateralRatioUpdated(c, apply_change(p.required_collateral_ratio, required_collateral_ratio)))
        + update_event(p.maximum_total_debit_value, maximum_total_debit_value, Event::MaximumTotalDebitValueUpdated(c, apply_change(p.maximum_total_debit_value, maximum_total_debit_value)))
}

impl Module {
    /// The parallel vectors line up with the allowed collateral types, which are distinct.
    pub closed spec fn wf(&self) -> bool {
        &&& self.config.wf()
        &&& self.collateral_params@.len() == self.config.collateral_currency_ids@.len()
        &&& self.debit_exchange_rates@.len() == self.config.collateral_currency_ids@.len()
    }

    pub closed spec fn spec_config(&self) -> CdpConfig {
        self.config
    }

    pub closed spec fn spec_is_shutdown(&self) -> bool {
        self.is_shutdown
    }

    pub closed spec fn spec_global_stability_fee(&self) -> Rate {
        self.global_stability_fee
    }

    /// Stored parameters of `c`; the defaults for a type that is not allowed.
    pub closed spec fn spec_collateral_params(&self, c: CurrencyId) -> RiskManagementParams {
        let ids = self.config.collateral_currency_ids@;
        if exists|i: int| 0 <= i < ids.len() && ids[i] == c {
            self.collateral_params@[choose|i: int| 0 <= i < ids.len() && ids[i] == c]
        } else {
            default_params()
        }
    }

    /// Stored exchange rate of `c`, if any.
    pub closed spec fn spec_debit_exchange_rate(&self, c: CurrencyId) -> Option<ExchangeRate> {
        let ids = self.config.collateral_currency_ids@;
        if exists|i: int| 0 <= i < ids.len() && ids[i] == c {
            self.debit_exchange_rates@[choose|i: int| 0 <= i < ids.len() && ids[i] == c]
        } else {
            None
        }
    }

    pub open spec fn is_allowed(&self, c: CurrencyId) -> bool {
        self.spec_config().is_allowed(c)
    }

    /// Global stability fee plus the collateral type's own, saturated.
    pub open spec fn stability_fee_of(&self, c: CurrencyId) -> int {
        saturate(value_or(self.spec_collateral_params(c).stability_fee, 0) + self.spec_global_stability_fee().value())
    }

    pub open spec fn liquidation_ratio_of(&self, c: CurrencyId) -> int {
        value_or(self.spec_collateral_params(c).liquidation_ratio, self.spec_config().default_liquidation_ratio.value())
    }

    pub open spec fn liquidation_penalty_of(&self, c: CurrencyId) -> int {
        value_or(self.spec_collateral_params(c).liquidation_penalty, self.spec_config().default_liquidation_penalty.value())
    }

    pub open spec fn exchange_rate_of(&self, c: CurrencyId) -> int {
        value_or(self.spec_debit_exchange_rate(c), self.spec_config().default_debit_exchange_rate.value())
    }

    /// Stablecoin value of `debit` debit units of `c`.
    pub open spec fn debit_value_of(&self, c: CurrencyId, debit: int) -> int {
        mul_down(self.exchange_rate_of(c), debit)
    }

    /// Collateral value over debit value, as the inner value of a ratio; zero
    /// without debit value, saturated when it does not fit.
    pub open spec fn collateral_ratio_of(&self, c: CurrencyId, collateral: int, debit: int, price: Price) -> int {
        let locked = mul_down(price.value(), collateral);
        let debit_value = self.debit_value_of(c, debit);
        if debit_value == 0 {
            0
        } else {
            saturate((locked * accuracy()) / debit_value)
        }
    }

    /// A position with debit whose ratio, at a known price, is below the liquidation ratio.
    pub open spec fn is_unsafe(&self, c: CurrencyId, debit: int, collateral: int, price: Option<Price>) -> bool {
        debit != 0 && match price {
            Some(p) => self.collateral_ratio_of(c, collateral, debit, p) < self.liquidation_ratio_of(c),
            None => false,
        }
    }

    /// Outcome of the check made when a position is adjusted.
    pub open spec fn position_check(&self, c: CurrencyId, collateral: int, debit: int, price: Option<Price>) -> Result<(), Error> {
        let debit_value = self.debit_value_of(c, debit);
        if debit_value == 0 {
            Ok(())
        } else {
            match price {
                None => Err(Error::InvalidFeedPrice),
                Some(p) => {
                    let ratio = self.collateral_ratio_of(c, collateral, debit, p);
                    let required = self.spec_collateral_params(c).required_collateral_ratio;
                    if required is Some && ratio < required->Some_0.value() {
                        Err(Error::BelowRequiredCollateralRatio)
                    } else if ratio < self.liquidation_ratio_of(c) {
                        Err(Error::BelowLiquidationRatio)
                    } else if debit_value < self.spec_config().minimum_debit_value {
                        Err(Error::RemainDebitValueTooSmall)
                    } else {
                        Ok(())
                    }
                },
            }
        }
    }

    /// The accrual of one block on `c` with `total_debits` outstanding debit units.
    pub open spec fn accrual_of(&self, c: CurrencyId, total_debits: int) -> Option<StabilityFeeAccrual> {
        let fee = self.stability_fee_of(c);
        if self.spec_is_shutdown() || !self.is_allowed(c) || fee == 0 || total_debits == 0 {
            None
        } else {
            let rate = self.exchange_rate_of(c);
            let increment = mul_down(rate, fee);
            Some(StabilityFeeAccrual {
                issued_stable_coin_balance: mul_down(increment, self.debit_value_of(c, total_debits)) as u128,
                new_debit_exchange_rate: Fixed { inner: saturate(rate + increment) as u128 },
            })
        }
    }

    /// Stored exchange rate of `c` once the treasury has answered for one block's
    /// accrual: the new rate when there was an accrual and it accepted the surplus.
    pub open spec fn rate_after_accrual(&self, c: CurrencyId, total_debits: int, surplus_accepted: bool) -> Option<ExchangeRate> {
        match self.accrual_of(c, total_debits) {
            Some(accrual) if surplus_accepted => Some(accrual.new_debit_exchange_rate),
            _ => self.spec_debit_exchange_rate(c),
        }
    }

    /// Configuration, shutdown flag and global stability fee are the same in both.
    pub open spec fn same_globals(&self, other: &Module) -> bool {
        &&& self.spec_config() == other.spec_config()
        &&& self.spec_is_shutdown() == other.spec_is_shutdown()
        &&& self.spec_global_stability_fee() == other.spec_global_stability_fee()
    }

    proof fn lemma_entry(&self, i: int)
        requires
            self.wf(),
            0 <= i < self.config.collateral_currency_ids@.len(),
        ensures
            self.spec_collateral_params(self.config.collateral_currency_ids@[i]) == self.collateral_params@[i],
            self.spec_debit_exchange_rate(self.config.collateral_currency_ids@[i]) == self.debit_exchange_rates@[i],
    {
        let ids = self.config.collateral_currency_ids@;
        let c = ids[i];
        assert(exists|j: int| 0 <= j < ids.len() && ids[j] == c);
        let j = choose|j: int| 0 <= j < ids.len() && ids[j] == c;
        if j < i {
            assert(ids[j] != ids[i]);
        } else if i < j {
            assert(ids[i] != ids[j]);
        }
    }

    /// Position of `c` among the allowed collateral types.
    fn index_of(&self, c: CurrencyId) -> (r: Option<usize>)
        requires
            self.wf(),
        ensures
            match r {
                Some(i) => i < self.config.collateral_currency_ids@.len()
                    && self.config.collateral_currency_ids@[i as int] == c,
                None => !self.is_allowed(c),
            },
    {
        let mut i: usize = 0;
        while i < self.config.collateral_currency_ids.len()
            invariant
                i <= self.config.collateral_currency_ids@.len(),
                forall|j: int| 0 <= j < i ==> self.config.collateral_currency_ids@[j] != c,
            decreases self.config.collateral_currency_ids@.len() - i,
        {
            if self.config.collateral_currency_ids[i] == c {
                return Some(i);
            }
            i = i + 1;
        }
        proof {
            if self.config.collateral_currency_ids@.contains(c) {
                let k = choose|k: int| 0 <= k < self.config.collateral_currency_ids@.len() && self.config.collateral_currency_ids@[k] == c;
                assert(self.config.collateral_currency_ids@[k] != c);
            }
        }
        None
    }

    /// An engine with no parameters set and no accrued interest.
    pub fn new(config: CdpConfig, global_stability_fee: Rate) -> (r: Module)
        requires
            config.wf(),
        ensures
            r.wf(),
            r.spec_config() == config,
            !r.spec_is_shutdown(),
            r.spec_global_stability_fee() == global_stability_fee,
            forall|c: CurrencyId| #[trigger] r.spec_collateral_params(c) == default_params(),
            forall|c: CurrencyId| #[trigger] r.spec_debit_exchange_rate(c) is None,
    {
        let n = config.collateral_currency_ids.len();
        let mut collateral_params: Vec<RiskManagementParams> = Vec::new();
        let mut debit_exchange_rates: Vec<Option<ExchangeRate>> = Vec::new();
        let mut i: usize = 0;
        while i < n
            invariant
                n == config.collateral_currency_ids@.len(),
                i <= n,
                collateral_params@.len() == i,
                debit_exchange_rates@.len() == i,
                forall|j: int| 0 <= j < i ==> collateral_params@[j] == default_params(),
                forall|j: int| 0 <= j < i ==> debit_exchange_rates@[j] is None,
            decreases n - i,
        {
            collateral_params.push(RiskManagementParams::default());
            debit_exchange_rates.push(None);
            i = i + 1;
        }
        let r = Module { config, is_shutdown: false, global_stability_fee, collateral_params, debit_exchange_rates };
        proof {
            assert forall|c: CurrencyId| #[trigger] r.spec_collateral_params(c) == default_params()
                && r.spec_debit_exchange_rate(c) is None by {
                let ids = r.config.collateral_currency_ids@;
                if exists|k: int| 0 <= k < ids.len() && ids[k] == c {
                    let k = choose|k: int| 0 <= k < ids.len() && ids[k] == c;
                    r.lemma_entry(k);
                }
            }
        }
        r
    }

    pub fn config(&self) -> (r: &CdpConfig)
        ensures
            *r == self.spec_config(),
    {
        &self.config
    }

    /// Whether the system has been shut down.
    pub fn is_shutdown(&self) -> (r: bool)
        ensures
            r == self.spec_is_shutdown(),
    {
        self.is_shutdown
    }

    pub fn global_stability_fee(&self) -> (r: Rate)
        ensures
            r == self.spec_global_stability_fee(),
    {
        self.global_stability_fee
    }

    /// Stored parameters of a collateral type.
    pub fn collateral_params(&self, currency_id: CurrencyId) -> (r: RiskManagementParams)
        requires
            self.wf(),
        ensures
            r == self.spec_collateral_params(currency_id),
    {
        match self.index_of(currency_id) {
            Some(i) => {
                proof { self.lemma_entry(i as int); }
                self.collateral_params[i]
            },
            None => RiskManagementParams::default(),
        }
    }

    /// Stored exchange rate of a collateral type, if it has accrued any fee.
    pub fn debit_exchange_rate(&self, currency_id: CurrencyId) -> (r: Option<ExchangeRate>)
        requires
            self.wf(),
        ensures
            r == self.spec_debit_exchange_rate(currency_id),
    {
        match self.index_of(currency_id) {
            Some(i) => {
                proof { self.lemma_entry(i as int); }
                self.debit_exchange_rates[i]
            },
            None => None,
        }
    }

    pub fn maximum_total_debit_value(&self, currency_id: CurrencyId) -> (r: Balance)
        requires
            self.wf(),
        ensures
            r == self.spec_collateral_params(currency_id).maximum_total_debit_value,
    {
        self.collateral_params(currency_id).maximum_total_debit_value
    }

    pub fn required_collateral_ratio(&self, currency_id: CurrencyId) -> (r: Option<Ratio>)
        requires
            self.wf(),
        ensures
            r == self.spec_collateral_params(currency_id).required_collateral_ratio,
    {
        self.collateral_params(currency_id).required_collateral_ratio
    }

    /// Per-block stability fee of a collateral type: its own plus the global one.
    pub fn get_stability_fee(&self, currency_id: CurrencyId) -> (r: Rate)
        requires
            self.wf(),
        ensures
            r.value() == self.stability_fee_of(currency_id),
    {
        let own = match self.collateral_params(currency_id).stability_fee {
            Some(f) => f,
            None => Fixed::zero(),
        };
        own.saturating_add(self.global_stability_fee)
    }

    pub fn get_liquidation_ratio(&self, currency_id: CurrencyId) -> (r: Ratio)
        requires
            self.wf(),
        ensures
            r.value() == self.liquidation_ratio_of(currency_id),
    {
        match self.collateral_params(currency_id).liquidation_ratio {
            Some(r) => r,
            None => self.config.default_liquidation_ratio,
        }
    }

    pub fn get_liquidation_penalty(&self, currency_id: CurrencyId) -> (r: Rate)
        requires
            self.wf(),
        ensures
            r.value() == self.liquidation_penalty_of(currency_id),
    {
        match self.collateral_params(currency_id).liquidation_penalty {
            Some(r) => r,
            None => self.config.default_liquidation_penalty,
        }
    }

    pub fn get_debit_exchange_rate(&self, currency_id: CurrencyId) -> (r: ExchangeRate)
        requires
            self.wf(),
        ensures
            r.value() == self.exchange_rate_of(currency_id),
    {
        match self.debit_exchange_rate(currency_id) {
            Some(r) => r,
            None => self.config.default_debit_exchange_rate,
        }
    }

    /// Stablecoin value of an amount of debit units.
    pub fn get_debit_value(&self, currency_id: CurrencyId, debit_balance: DebitBalance) -> (r: Balance)
        requires
            self.wf(),
        ensures
            r as int == self.debit_value_of(currency_id, debit_balance as int),
    {
        self.get_debit_exchange_rate(currency_id).saturating_mul_int(debit_balance)
    }

    /// Debit value that a liquidation or settlement leaves to the treasury.
    pub fn get_bad_debt_value(&self, currency_id: CurrencyId, debit_balance: DebitBalance) -> (r: Balance)
        requires
            self.wf(),
        ensures
            r as int == self.debit_value_of(currency_id, debit_balance as int),
    {
        self.get_debit_value(currency_id, debit_balance)
    }

    /// Collateral value at `price` over debit value.
    pub fn calculate_collateral_ratio(
        &self,
        currency_id: CurrencyId,
        collateral_balance: Balance,
        debit_balance: DebitBalance,
        price: Price,
    ) -> (r: Ratio)
        requires
            self.wf(),
        ensures
            r.value() == self.collateral_ratio_of(currency_id, collateral_balance as int, debit_balance as int, price),
    {
        let locked_collateral_value = price.saturating_mul_int(collateral_balance);
        let debit_value = self.get_debit_value(currency_id, debit_balance);
        if debit_value == 0 {
            Fixed::zero()
        } else {
            match Fixed::checked_from_rational(locked_collateral_value, debit_value) {
                Some(r) => r,
                None => Fixed::from_inner(u128::MAX),
            }
        }
    }

    /// Whether a position may be liquidated; `price` is that of the collateral in
    /// the stablecoin, `None` when the oracle has none.
    pub fn is_cdp_unsafe(
        &self,
        currency_id: CurrencyId,
        debit_balance: DebitBalance,
        collateral_balance: Balance,
        price: Option<Price>,
    ) -> (r: bool)
        requires
            self.wf(),
        ensures
            r == self.is_unsafe(currency_id, debit_balance as int, collateral_balance as int, price),
    {
        if debit_balance == 0 {
            false
        } else {
            match price {
                Some(p) => {
                    let ratio = self.calculate_collateral_ratio(currency_id, collateral_balance, debit_balance, p);
                    ratio.inner < self.get_liquidation_ratio(currency_id).inner
                },
                None => false,
            }
        }
    }

    /// Checks a position after an adjustment; `price` is that of the collateral in
    /// the stablecoin, `None` when the oracle has none.
    pub fn check_position_valid(
        &self,
        currency_id: CurrencyId,
        collateral_balance: Balance,
        debit_balance: DebitBalance,
        price: Option<Price>,
    ) -> (r: Result<(), Error>)
        requires
            self.wf(),
        ensures
            r == self.position_check(currency_id, collateral_balance as int, debit_balance as int, price),
    {
        let debit_value = self.get_debit_value(currency_id, debit_balance);
        if debit_value != 0 {
            let feed_price = match price {
                Some(p) => p,
                None => { return Err(Error::InvalidFeedPrice); },
            };
            let ratio = self.calculate_collateral_ratio(currency_id, collateral_balance, debit_balance, feed_price);
            if let Some(required) = self.required_collateral_ratio(currency_id) {
                if ratio.inner < required.inner {
                    return Err(Error::BelowRequiredCollateralRatio);
                }
            }
            if ratio.inner < self.get_liquidation_ratio(currency_id).inner {
                return Err(Error::BelowLiquidationRatio);
            }
            if debit_value < self.config.minimum_debit_value {
                return Err(Error::RemainDebitValueTooSmall);
            }
        }
        Ok(())
    }

    /// Checks the total debit of a collateral type against its hard cap.
    pub fn check_debit_cap(&self, currency_id: CurrencyId, total_debit_balance: DebitBalance) -> (r: Result<(), Error>)
        requires
            self.wf(),
        ensures
            r is Ok <==> self.debit_value_of(currency_id, total_debit_balance as int)
                <= self.spec_collateral_params(currency_id).maximum_total_debit_value,
            r is Err ==> r == Err::<(), Error>(Error::ExceedDebitValueHardCap),
    {
        let hard_cap = self.maximum_total_debit_value(currency_id);
        let total_debit_value = self.get_debit_value(currency_id, total_debit_balance);
        if total_debit_value <= hard_cap {
            Ok(())
        } else {
            Err(Error::ExceedDebitValueHardCap)
        }
    }

    /// Checks that positions of this collateral type may be adjusted; the ledger
    /// then performs the adjustment.
    pub fn adjust_position(&self, currency_id: CurrencyId) -> (r: Result<(), Error>)
        requires
            self.wf(),
        ensures
            r is Ok <==> self.is_allowed(currency_id),
            r is Err ==> r == Err::<(), Error>(Error::InvalidCollateralType),
    {
        match self.index_of(currency_id) {
            Some(_) => Ok(()),
            None => Err(Error::InvalidCollateralType),
        }
    }
}


/// `a == b` for optional fixed-point values.
fn option_fixed_eq(a: Option<Fixed>, b: Option<Fixed>) -> (r: bool)
    ensures
        r == (a == b),
{
    match (a, b) {
        (Some(x), Some(y)) => x.inner == y.inner,
        (None, None) => true,
        _ => false,
    }
}

impl Module {
    proof fn lemma_unchanged_elsewhere(&self, other: &Module, i: int)
        requires
            self.wf(),
            other.wf(),
            self.config == other.config,
            0 <= i < self.config.collateral_currency_ids@.len(),
            forall|j: int| 0 <= j < self.collateral_params@.len() && j != i ==> self.collateral_params@[j] == other.collateral_params@[j],
            forall|j: int| 0 <= j < self.debit_exchange_rates@.len() && j != i ==> self.debit_exchange_rates@[j] == other.debit_exchange_rates@[j],
        ensures
            forall|c: CurrencyId| c != self.config.collateral_currency_ids@[i] ==> {
                &&& #[trigger] self.spec_collateral_params(c) == other.spec_collateral_params(c)
                &&& self.spec_debit_exchange_rate(c) == other.spec_debit_exchange_rate(c)
            },
    {
        assert forall|c: CurrencyId| c != self.config.collateral_currency_ids@[i] implies {
            &&& #[trigger] self.spec_collateral_params(c) == other.spec_collateral_params(c)
            &&& self.spec_debit_exchange_rate(c) == other.spec_debit_exchange_rate(c)
        } by {
            let ids = self.config.collateral_currency_ids@;
            if exists|k: int| 0 <= k < ids.len() && ids[k] == c {
                let k = choose|k: int| 0 <= k < ids.len() && ids[k] == c;
                self.lemma_entry(k);
                other.lemma_entry(k);
            }
        }
    }

    /// Replaces the global stability fee.
    pub fn set_global_params(&mut self, global_stability_fee: Rate) -> (r: Event)
        requires
            old(self).wf(),
        ensures
            final(self).wf(),
            final(self).spec_global_stability_fee() == global_stability_fee,
            final(self).spec_config() == old(self).spec_config(),
            final(self).spec_is_shutdown() == old(self).spec_is_shutdown(),
            forall|c: CurrencyId| #[trigger] final(self).spec_collateral_params(c) == old(self).spec_collateral_params(c),
            forall|c: CurrencyId| #[trigger] final(self).spec_debit_exchange_rate(c) == old(self).spec_debit_exchange_rate(c),
            r == Event::GlobalStabilityFeeUpdated(global_stability_fee),
    {
        self.global_stability_fee = global_stability_fee;
        Event::GlobalStabilityFeeUpdated(global_stability_fee)
    }

    /// Updates the parameters of an allowed collateral type; returns one event for
    /// each parameter whose value changed.
    pub fn set_collateral_params(
        &mut self,
        currency_id: CurrencyId,
        stability_fee: Change<Option<Rate>>,
        liquidation_ratio: Change<Option<Ratio>>,
        liquidation_penalty: Change<Option<Rate>>,
        required_collateral_ratio: Change<Option<Ratio>>,
        maximum_total_debit_value: Change<Balance>,
    ) -> (r: Result<Vec<Event>, Error>)
        requires
            old(self).wf(),
        ensures
            final(self).wf(),
            final(self).same_globals(old(self)),
            !old(self).is_allowed(currency_id) ==> r == Err::<Vec<Event>, Error>(Error::InvalidCollateralType)
                && *final(self) == *old(self),
            old(self).is_allowed(currency_id) ==> r is Ok,
            r matches Ok(events) ==> events@ == param_update_events(
                currency_id,
                old(self).spec_collateral_params(currency_id),
                stability_fee,
                liquidation_ratio,
                liquidation_penalty,
                required_collateral_ratio,
                maximum_total_debit_value,
            ),
            old(self).is_allowed(currency_id) ==> final(self).spec_collateral_params(currency_id) == apply_param_changes(
                old(self).spec_collateral_params(currency_id),
                stability_fee,
                liquidation_ratio,
                liquidation_penalty,
                required_collateral_ratio,
                maximum_total_debit_value,
            ),
            forall|c: CurrencyId| c != currency_id ==> #[trigger] final(self).spec_collateral_params(c)
                == old(self).spec_collateral_params(c),
            forall|c: CurrencyId| #[trigger] final(self).spec_debit_exchange_rate(c) == old(self).spec_debit_exchange_rate(c),
    {
        let i = match self.index_of(currency_id) {
            Some(i) => i,
            None => { return Err(Error::InvalidCollateralType); },
        };
        proof { self.lemma_entry(i as int); }
        let ghost before = *self;
        let old_params = self.collateral_params[i];
        let mut params = old_params;
        let mut events: Vec<Event> = Vec::new();
        if let Change::NewValue(update) = stability_fee {
            if !option_fixed_eq(update, old_params.stability_fee) {
                events.push(Event::StabilityFeeUpdated(currency_id, update));
            }
            params.stability_fee = update;
        }
        let ghost e1 = events@;
        assert(e1 == update_event(old_params.stability_fee, stability_fee, Event::StabilityFeeUpdated(currency_id, params.stability_fee)));
        if let Change::NewValue(update) = liquidation_ratio {
            if !option_fixed_eq(update, old_params.liquidation_ratio) {
                events.push(Event::LiquidationRatioUpdated(currency_id, update));
            }
            params.liquidation_ratio = update;
        }
        let ghost e2 = events@;
        assert(e2 =~= e1 + update_event(old_params.liquidation_ratio, liquidation_ratio, Event::LiquidationRatioUpdated(currency_id, params.liquidation_ratio)));
        if let Change::NewValue(update) = liquidation_penalty {
            if !option_fixed_eq(update, old_params.liquidation_penalty) {
                events.push(Event::LiquidationPenaltyUpdated(currency_id, update));
            }
            params.liquidation_penalty = update;
        }
        let ghost e3 = events@;
        assert(e3 =~= e2 + update_event(old_params.liquidation_penalty, liquidation_penalty, Event::LiquidationPenaltyUpdated(currency_id, params.liquidation_penalty)));
        if let Change::NewValue(update) = required_collateral_ratio {
            if !option_fixed_eq(update, old_params.required_collateral_ratio) {
                events.push(Event::RequiredCollateralRatioUpdated(currency_id, update));
            }
            params.required_collateral_ratio = update;
        }
        let ghost e4 = events@;
        assert(e4 =~= e3 + update_event(old_params.required_collateral_ratio, required_collateral_ratio, Event::RequiredCollateralRatioUpdated(currency_id, params.required_collateral_ratio)));
        if let Change::NewValue(val) = maximum_total_debit_value {
            if val != old_params.maximum_total_debit_value {
                events.push(Event::MaximumTotalDebitValueUpdated(currency_id, val));
            }
            params.maximum_total_debit_value = val;
        }
        assert(events@ =~= e4 + update_event(old_params.maximum_total_debit_value, maximum_total_debit_value, Event::MaximumTotalDebitValueUpdated(currency_id, params.maximum_total_debit_value)));
        self.collateral_params.set(i, params);
        proof {
            self.lemma_entry(i as int);
            self.lemma_unchanged_elsewhere(&before, i as int);
        }
        Ok(events)
    }

    /// Switches the system to shutdown; it stays there.
    pub fn on_emergency_shutdown(&mut self)
        requires
            old(self).wf(),
        ensures
            final(self).wf(),
            final(self).spec_is_shutdown(),
            final(self).spec_config() == old(self).spec_config(),
            final(self).spec_global_stability_fee() == old(self).spec_global_stability_fee(),
            forall|c: CurrencyId| #[trigger] final(self).spec_collateral_params(c) == old(self).spec_collateral_params(c),
            forall|c: CurrencyId| #[trigger] final(self).spec_debit_exchange_rate(c) == old(self).spec_debit_exchange_rate(c),
    {
        self.is_shutdown = true;
    }

    /// One block of stability fee on a collateral type with `total_debits`
    /// outstanding debit units: `None` after shutdown, for a type that is not
    /// allowed, or when the fee or the debits are zero.
    pub fn stability_fee_accrual(&self, currency_id: CurrencyId, total_debits: DebitBalance) -> (r: Option<StabilityFeeAccrual>)
        requires
            self.wf(),
        ensures
            r == self.accrual_of(currency_id, total_debits as int),
    {
        if self.is_shutdown {
            return None;
        }
        if self.index_of(currency_id).is_none() {
            return None;
        }
        let debit_exchange_rate = self.get_debit_exchange_rate(currency_id);
        let stability_fee_rate = self.get_stability_fee(currency_id);
        if stability_fee_rate.is_zero() || total_debits == 0 {
            return None;
        }
        let increment = debit_exchange_rate.saturating_mul(stability_fee_rate);
        let total_debit_value = self.get_debit_value(currency_id, total_debits);
        let issued = increment.saturating_mul_int(total_debit_value);
        Some(StabilityFeeAccrual {
            issued_stable_coin_balance: issued,
            new_debit_exchange_rate: debit_exchange_rate.saturating_add(increment),
        })
    }

    /// Completes one block's accrual on a collateral type, after the treasury has
    /// answered for the surplus of `stability_fee_accrual` on the same arguments:
    /// the exchange rate moves to its new value only when the surplus was accepted.
    pub fn accrue_stability_fee(&mut self, currency_id: CurrencyId, total_debits: DebitBalance, surplus_accepted: bool)
        requires
            old(self).wf(),
        ensures
            final(self).wf(),
            final(self).same_globals(old(self)),
            forall|c: CurrencyId| #[trigger] final(self).spec_collateral_params(c) == old(self).spec_collateral_params(c),
            forall|c: CurrencyId| c != currency_id ==> #[trigger] final(self).spec_debit_exchange_rate(c)
                == old(self).spec_debit_exchange_rate(c),
            final(self).spec_debit_exchange_rate(currency_id) == old(self).rate_after_accrual(
                currency_id,
                total_debits as int,
                surplus_accepted,
            ),
    {
        if !surplus_accepted {
            return;
        }
        let accrual = match self.stability_fee_accrual(currency_id, total_debits) {
            Some(a) => a,
            None => { return; },
        };
        let i = match self.index_of(currency_id) {
            Some(i) => i,
            None => { return; },
        };
        let ghost before = *self;
        self.debit_exchange_rates.set(i, Some(accrual.new_debit_exchange_rate));
        proof {
            self.lemma_entry(i as int);
            before.lemma_entry(i as int);
            self.lemma_unchanged_elsewhere(&before, i as int);
        }
    }
}


/// One collateral type's parameters in the genesis configuration: (collateral
/// type, stability fee, liquidation ratio, liquidation penalty, required
/// collateral ratio, maximum total debit value).
pub type GenesisCollateralParams = (CurrencyId, Option<Rate>, Option<Ratio>, Option<Rate>, Option<Ratio>, Balance);

/// The parameters that a genesis entry gives.
pub open spec fn params_of_entry(e: GenesisCollateralParams) -> RiskManagementParams {
    RiskManagementParams {
        maximum_total_debit_value: e.5,
        stability_fee: e.1,
        liquidation_ratio: e.2,
        liquidation_penalty: e.3,
        required_collateral_ratio: e.4,
    }
}

/// Parameters of `c` after the genesis entries: those of its last entry.
pub open spec fn genesis_params(entries: Seq<GenesisCollateralParams>, c: CurrencyId) -> RiskManagementParams
    decreases entries.len(),
{
    if entries.len() == 0 {
        default_params()
    } else if entries.last().0 == c {
        params_of_entry(entries.last())
    } else {
        genesis_params(entries.drop_last(), c)
    }
}

impl Module {
    /// The engine at genesis: the global stability fee and the parameters of each
    /// listed collateral type, which must all be allowed.
    pub fn genesis(
        config: CdpConfig,
        global_stability_fee: Rate,
        collaterals_params: &Vec<GenesisCollateralParams>,
    ) -> (r: Result<Module, Error>)
        requires
            config.wf(),
        ensures
            r is Ok <==> forall|i: int| 0 <= i < collaterals_params@.len() ==> config.is_allowed(#[trigger] collaterals_params@[i].0),
            r is Err ==> r == Err::<Module, Error>(Error::InvalidCollateralType),
            r matches Ok(m) ==> {
                &&& m.wf()
                &&& m.spec_config() == config
                &&& !m.spec_is_shutdown()
                &&& m.spec_global_stability_fee() == global_stability_fee
                &&& forall|c: CurrencyId| #[trigger] m.spec_collateral_params(c) == genesis_params(collaterals_params@, c)
                &&& forall|c: CurrencyId| #[trigger] m.spec_debit_exchange_rate(c) is None
            },
    {
        let ghost entries = collaterals_params@;
        let mut m = Module::new(config, global_stability_fee);
        let mut i: usize = 0;
        proof {
            assert(entries.subrange(0, 0).len() == 0);
        }
        while i < collaterals_params.len()
            invariant
                i <= entries.len(),
                entries == collaterals_params@,
                m.wf(),
                m.spec_config() == config,
                !m.spec_is_shutdown(),
                m.spec_global_stability_fee() == global_stability_fee,
                forall|c: CurrencyId| #[trigger] m.spec_collateral_params(c) == genesis_params(entries.subrange(0, i as int), c),
                forall|c: CurrencyId| #[trigger] m.spec_debit_exchange_rate(c) is None,
                forall|j: int| 0 <= j < i ==> config.is_allowed(#[trigger] entries[j].0),
            decreases entries.len() - i,
        {
            let e = collaterals_params[i];
            let ghost before = m;
            match m.set_collateral_params(
                e.0,
                Change::NewValue(e.1),
                Change::NewValue(e.2),
                Change::NewValue(e.3),
                Change::NewValue(e.4),
                Change::NewValue(e.5),
            ) {
                Ok(_) => {},
                Err(err) => { return Err(err); },
            }
            proof {
                let next = entries.subrange(0, i + 1);
                assert(next.drop_last() =~= entries.subrange(0, i as int));
                assert(next.last() == e);
                assert forall|c: CurrencyId| #[trigger] m.spec_collateral_params(c) == genesis_params(next, c) by {
                    if c != e.0 {
                        assert(m.spec_collateral_params(c) == before.spec_collateral_params(c));
                    }
                }
            }
            i = i + 1;
        }
        proof {
            assert(entries.subrange(0, entries.len() as int) =~= entries);
        }
        Ok(m)
    }
}

} // verus!
