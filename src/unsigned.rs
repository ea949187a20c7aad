//! The unsigned calls that the off-chain scanner proposes, their validation on
//! admission, and the scanner's choices.
use crate::engine::Module;
use crate::fixed::{Price, Rate, Ratio};
use crate::types::{AccountId, Balance, Change, CurrencyId, DebitBalance};
use vstd::prelude::*;

verus! {

/// Number of blocks for which an admitted unsigned call stays valid.
pub const UNSIGNED_LONGEVITY: u64 = 64;

/// The calls of the engine.
#[derive(PartialEq, Eq, Structural, Clone, Copy, Debug)]
pub enum Call {
    /// Liquidate (collateral type, owner).
    Liquidate(CurrencyId, AccountId),
    /// Settle (collateral type, owner).
    Settle(CurrencyId, AccountId),
    SetGlobalParams(Rate),
    SetCollateralParams(
        CurrencyId,
        Change<Option<Rate>>,
        Change<Option<Ratio>>,
        Change<Option<Rate>>,
        Change<Option<Ratio>>,
        Change<Balance>,
    ),
}

/// Why an unsigned call is not admitted.
#[derive(PartialEq, Eq, Structural, Clone, Copy, Debug)]
pub enum InvalidTransaction {
    /// The call no longer applies to the position.
    Stale,
    /// The call is not one that may be sent unsigned.
    Call,
}

/// What an admitted call provides, so that the pool keeps one of each.
#[derive(PartialEq, Eq, Structural, Clone, Copy, Debug)]
pub enum ProvidesTag {
    /// (block number, collateral type, owner)
    Liquidation(u64, CurrencyId, AccountId),
    /// (collateral type, owner)
    Settlement(CurrencyId, AccountId),
}

/// An admitted unsigned call.
#[derive(PartialEq, Eq, Structural, Clone, Copy, Debug)]
pub struct ValidTransaction {
    pub priority: u64,
    pub provides: ProvidesTag,
    pub longevity: u64,
    pub propagate: bool,
}

/// An admitted call with the configured priority, kept for `UNSIGNED_LONGEVITY` blocks.
pub open spec fn valid_with(priority: u64, provides: ProvidesTag) -> ValidTransaction {
    ValidTransaction { priority, provides, longevity: 64, propagate: true }
}

/// The position the scanner looks at after `previous`: the next one, round the
/// list of `count` collateral types; `random_pick` when there is no previous one.
pub open spec fn scan_position_after(previous: Option<u32>, count: int, random_pick: u32) -> int {
    match previous {
        Some(p) => if p + 1 < count { p + 1 } else { 0 },
        None => (random_pick as int) % count,
    }
}

/// Chooses the collateral type of the scanner's next run, among `collateral_count`.
pub fn next_scan_position(previous: Option<u32>, collateral_count: u32, random_pick: u32) -> (r: u32)
    requires
        collateral_count > 0,
    ensures
        r as int == scan_position_after(previous, collateral_count as int, random_pick),
        r < collateral_count,
{
    match previous {
        Some(p) => if p < collateral_count - 1 {
            p + 1
        } else {
            0
        },
        None => random_pick % collateral_count,
    }
}

impl Module {
    /// Whether an unsigned call is admitted: a liquidation of an unsafe position
    /// before shutdown, or a settlement of a position with debit after it. The
    /// position is the one the call names, at `price` (that of its collateral in
    /// the stablecoin).
    pub open spec fn validity_of(
        &self,
        call: Call,
        block_number: u64,
        debit: DebitBalance,
        collateral: Balance,
        price: Option<Price>,
    ) -> Result<ValidTransaction, InvalidTransaction> {
        let priority = self.spec_config().unsigned_priority;
        match call {
            Call::Liquidate(c, who) => if !self.is_unsafe(c, debit as int, collateral as int, price)
                || self.spec_is_shutdown() {
                Err(InvalidTransaction::Stale)
            } else {
                Ok(valid_with(priority, ProvidesTag::Liquidation(block_number, c, who)))
            },
            Call::Settle(c, who) => if debit == 0 || !self.spec_is_shutdown() {
                Err(InvalidTransaction::Stale)
            } else {
                Ok(valid_with(priority, ProvidesTag::Settlement(c, who)))
            },
            _ => Err(InvalidTransaction::Call),
        }
    }

    /// The call that the scanner proposes for one position, if any.
    pub open spec fn proposal_of(
        &self,
        c: CurrencyId,
        who: AccountId,
        debit: DebitBalance,
        collateral: Balance,
        price: Option<Price>,
    ) -> Option<Call> {
        if !self.spec_is_shutdown() {
            if self.is_unsafe(c, debit as int, collateral as int, price) {
                Some(Call::Liquidate(c, who))
            } else {
                None
            }
        } else if debit != 0 {
            Some(Call::Settle(c, who))
        } else {
            None
        }
    }

    /// Admission of an unsigned call in the transaction pool.
    pub fn validate_unsigned(
        &self,
        call: &Call,
        block_number: u64,
        debit_balance: DebitBalance,
        collateral_balance: Balance,
        price: Option<Price>,
    ) -> (r: Result<ValidTransaction, InvalidTransaction>)
        requires
            self.wf(),
        ensures
            r == self.validity_of(*call, block_number, debit_balance, collateral_balance, price),
    {
        let priority = self.config().unsigned_priority;
        match call {
            Call::Liquidate(currency_id, who) => {
                if !self.is_cdp_unsafe(*currency_id, debit_balance, collateral_balance, price) || self.is_shutdown() {
                    return Err(InvalidTransaction::Stale);
                }
                Ok(ValidTransaction {
                    priority,
                    provides: ProvidesTag::Liquidation(block_number, *currency_id, *who),
                    longevity: UNSIGNED_LONGEVITY,
                    propagate: true,
                })
            },
            Call::Settle(currency_id, who) => {
                if debit_balance == 0 || !self.is_shutdown() {
                    return Err(InvalidTransaction::Stale);
                }
                Ok(ValidTransaction {
                    priority,
                    provides: ProvidesTag::Settlement(*currency_id, *who),
                    longevity: UNSIGNED_LONGEVITY,
                    propagate: true,
                })
            },
            _ => Err(InvalidTransaction::Call),
        }
    }

    /// The scanner's proposal for one position of the collateral type it scans:
    /// before shutdown a liquidation of an unsafe position, after it a settlement
    /// of a position with debit.
    pub fn offchain_proposal(
        &self,
        currency_id: CurrencyId,
        who: AccountId,
        debit_balance: DebitBalance,
        collateral_balance: Balance,
        price: Option<Price>,
    ) -> (r: Option<Call>)
        requires
            self.wf(),
        ensures
            r == self.proposal_of(currency_id, who, debit_balance, collateral_balance, price),
    {
        if !self.is_shutdown() {
            if self.is_cdp_unsafe(currency_id, debit_balance, collateral_balance, price) {
                Some(Call::Liquidate(currency_id, who))
            } else {
                None
            }
        } else if debit_balance != 0 {
            Some(Call::Settle(currency_id, who))
        } else {
            None
        }
    }
}

} // verus!
