use cdp_engine::engine::Module;
use cdp_engine::fixed::{Fixed, ACCURACY};
use cdp_engine::liquidation::liquidation_strategy;
use cdp_engine::types::{CdpConfig, Change, Error, Event, LiquidationStrategy, RiskManagementParams};
use cdp_engine::unsigned::{next_scan_position, Call, InvalidTransaction, ProvidesTag};

const BTC: u32 = 1;
const DOT: u32 = 2;
const AUSD: u32 = 0;
const ALICE: u64 = 7;

fn fixed(inner: u128) -> Fixed {
    Fixed::from_inner(inner)
}

/// `n / d` as a fixed-point number.
fn ratio(n: u128, d: u128) -> Fixed {
    fixed(n * ACCURACY / d)
}

fn config() -> CdpConfig {
    CdpConfig {
        collateral_currency_ids: vec![BTC, DOT],
        default_liquidation_ratio: ratio(3, 2),
        default_debit_exchange_rate: ratio(1, 1),
        default_liquidation_penalty: ratio(1, 10),
        minimum_debit_value: 100,
        stable_currency_id: AUSD,
        max_slippage_swap_with_dex: ratio(1, 10),
        unsigned_priority: 1 << 20,
    }
}

fn module() -> Module {
    Module::new(config(), Fixed::zero())
}

#[test]
fn unsafe_position_goes_to_auction_without_supply() {
    let m = module();
    assert!(m.is_cdp_unsafe(BTC, 200, 100, Some(ratio(1, 1))));
    assert_eq!(m.calculate_collateral_ratio(BTC, 100, 200, ratio(1, 1)), ratio(1, 2));
    let liq = m.liquidate(BTC, ALICE, 200, 100, Some(ratio(1, 1))).unwrap();
    assert_eq!(liq.collateral_amount, 100);
    assert_eq!(liq.debit_balance, 200);
    assert_eq!(liq.bad_debt_value, 200);
    assert_eq!(liq.target_stable_amount, 220);
    let strategy = m.choose_liquidation_strategy(&liq, 0, None);
    assert_eq!(strategy, LiquidationStrategy::Auction);
    assert_eq!(liq.event(strategy), Event::LiquidateUnsafeCDP(BTC, ALICE, 100, 200, LiquidationStrategy::Auction));
}

#[test]
fn unsafe_position_swapped_on_exchange_with_refund() {
    let m = module();
    let liq = m.liquidate(BTC, ALICE, 200, 100, Some(ratio(1, 1))).unwrap();
    let strategy = m.choose_liquidation_strategy(&liq, 60, Some(ratio(5, 100)));
    assert_eq!(strategy, LiquidationStrategy::Exchange);
    assert_eq!(liq.refund_after_swap(60, true), Some(40));
    assert_eq!(liq.refund_after_swap(60, false), None);
    assert_eq!(liq.refund_after_swap(100, true), None);
    assert_eq!(liq.event(strategy), Event::LiquidateUnsafeCDP(BTC, ALICE, 100, 200, LiquidationStrategy::Exchange));
}

#[test]
fn safe_position_cannot_be_liquidated() {
    let m = module();
    assert_eq!(m.calculate_collateral_ratio(BTC, 300, 100, ratio(1, 1)), ratio(3, 1));
    assert!(!m.is_cdp_unsafe(BTC, 100, 300, Some(ratio(1, 1))));
    assert_eq!(m.liquidate(BTC, ALICE, 100, 300, Some(ratio(1, 1))), Err(Error::MustBeUnsafe));
}

#[test]
fn stability_fee_accrues_into_exchange_rate() {
    let mut m = Module::new(config(), ratio(1, 100));
    assert_eq!(m.get_stability_fee(BTC), ratio(1, 100));
    let accrual = m.stability_fee_accrual(BTC, 1000).unwrap();
    assert_eq!(accrual.issued_stable_coin_balance, 10);
    assert_eq!(accrual.new_debit_exchange_rate, ratio(101, 100));
    m.accrue_stability_fee(BTC, 1000, true);
    assert_eq!(m.debit_exchange_rate(BTC), Some(ratio(101, 100)));
    assert_eq!(m.get_debit_exchange_rate(BTC), ratio(101, 100));
    assert_eq!(m.get_debit_value(BTC, 1000), 1010);
    assert_eq!(m.debit_exchange_rate(DOT), None);
}

#[test]
fn refused_surplus_keeps_exchange_rate() {
    let mut m = Module::new(config(), ratio(1, 100));
    assert!(m.stability_fee_accrual(BTC, 1000).is_some());
    m.accrue_stability_fee(BTC, 1000, false);
    assert_eq!(m.debit_exchange_rate(BTC), None);
    assert_eq!(m.get_debit_exchange_rate(BTC), ratio(1, 1));
}

#[test]
fn no_accrual_without_fee_debit_or_after_shutdown() {
    let mut m = module();
    assert_eq!(m.stability_fee_accrual(BTC, 1000), None);
    m.set_global_params(ratio(1, 100));
    assert_eq!(m.stability_fee_accrual(BTC, 0), None);
    assert_eq!(m.stability_fee_accrual(99, 1000), None);
    assert!(m.stability_fee_accrual(BTC, 1000).is_some());
    m.on_emergency_shutdown();
    assert_eq!(m.stability_fee_accrual(BTC, 1000), None);
}

#[test]
fn settlement_after_shutdown_confiscates_covering_collateral() {
    let mut m = module();
    assert_eq!(m.settle(BTC, ALICE, 100, 50, Some(ratio(2, 1))), Err(Error::MustAfterShutdown));
    m.on_emergency_shutdown();
    assert!(m.is_shutdown());
    let s = m.settle(BTC, ALICE, 100, 50, Some(ratio(2, 1))).unwrap();
    assert_eq!(s.collateral_amount, 50);
    assert_eq!(s.debit_balance, 100);
    assert_eq!(s.event(), Event::SettleCDPInDebit(BTC, ALICE));
    let s = m.settle(BTC, ALICE, 100, 500, Some(ratio(2, 1))).unwrap();
    assert_eq!(s.collateral_amount, 200);
}

#[test]
fn settling_twice_fails_with_no_debit() {
    let mut m = module();
    m.on_emergency_shutdown();
    let s = m.settle(BTC, ALICE, 100, 50, Some(ratio(2, 1))).unwrap();
    assert_eq!(m.settle(BTC, ALICE, 100 - s.debit_balance, 50 - s.collateral_amount, Some(ratio(2, 1))), Err(Error::NoDebitValue));
}

#[test]
fn settlement_needs_price() {
    let mut m = module();
    m.on_emergency_shutdown();
    assert_eq!(m.settle_cdp_has_debit(ALICE, BTC, 100, 50, None), Err(Error::InvalidFeedPrice));
}

#[test]
fn liquidation_refused_after_shutdown() {
    let mut m = module();
    m.on_emergency_shutdown();
    assert_eq!(m.liquidate(BTC, ALICE, 200, 100, Some(ratio(1, 1))), Err(Error::AlreadyShutdown));
    m.on_emergency_shutdown();
    assert!(m.is_shutdown());
}

#[test]
fn debit_cap_is_enforced() {
    let mut m = module();
    m.set_collateral_params(BTC, Change::NoChange, Change::NoChange, Change::NoChange, Change::NoChange, Change::NewValue(1000))
        .unwrap();
    assert_eq!(m.maximum_total_debit_value(BTC), 1000);
    assert_eq!(m.check_debit_cap(BTC, 1001), Err(Error::ExceedDebitValueHardCap));
    assert_eq!(m.check_debit_cap(BTC, 1000), Ok(()));
}

#[test]
fn repeated_param_update_emits_once() {
    let mut m = module();
    let update = |m: &mut Module| {
        m.set_collateral_params(
            BTC,
            Change::NewValue(Some(ratio(1, 100))),
            Change::NewValue(Some(ratio(2, 1))),
            Change::NewValue(None),
            Change::NewValue(Some(ratio(5, 2))),
            Change::NewValue(5000),
        )
    };
    let first = update(&mut m).unwrap();
    assert_eq!(
        first,
        vec![
            Event::StabilityFeeUpdated(BTC, Some(ratio(1, 100))),
            Event::LiquidationRatioUpdated(BTC, Some(ratio(2, 1))),
            Event::RequiredCollateralRatioUpdated(BTC, Some(ratio(5, 2))),
            Event::MaximumTotalDebitValueUpdated(BTC, 5000),
        ]
    );
    let stored = m.collateral_params(BTC);
    let second = update(&mut m).unwrap();
    assert!(second.is_empty());
    assert_eq!(m.collateral_params(BTC), stored);
    assert_eq!(
        stored,
        RiskManagementParams {
            maximum_total_debit_value: 5000,
            stability_fee: Some(ratio(1, 100)),
            liquidation_ratio: Some(ratio(2, 1)),
            liquidation_penalty: None,
            required_collateral_ratio: Some(ratio(5, 2)),
        }
    );
    assert_eq!(m.get_liquidation_ratio(BTC), ratio(2, 1));
    assert_eq!(m.get_liquidation_penalty(BTC), ratio(1, 10));
    assert_eq!(m.required_collateral_ratio(BTC), Some(ratio(5, 2)));
    assert_eq!(m.collateral_params(DOT), RiskManagementParams::default());
}

#[test]
fn param_update_rejects_unknown_collateral() {
    let mut m = module();
    let r = m.set_collateral_params(AUSD, Change::NoChange, Change::NoChange, Change::NoChange, Change::NoChange, Change::NewValue(1));
    assert_eq!(r, Err(Error::InvalidCollateralType));
    assert_eq!(m.adjust_position(AUSD), Err(Error::InvalidCollateralType));
    assert_eq!(m.adjust_position(DOT), Ok(()));
}

#[test]
fn global_fee_adds_to_collateral_fee() {
    let mut m = module();
    assert_eq!(m.set_global_params(ratio(2, 100)), Event::GlobalStabilityFeeUpdated(ratio(2, 100)));
    m.set_collateral_params(DOT, Change::NewValue(Some(ratio(3, 100))), Change::NoChange, Change::NoChange, Change::NoChange, Change::NoChange)
        .unwrap();
    assert_eq!(m.get_stability_fee(DOT), ratio(5, 100));
    assert_eq!(m.get_stability_fee(BTC), ratio(2, 100));
    assert_eq!(m.global_stability_fee(), ratio(2, 100));
    m.set_global_params(fixed(u128::MAX));
    assert_eq!(m.get_stability_fee(DOT), fixed(u128::MAX));
}

#[test]
fn zero_debit_value_position_is_always_valid() {
    let m = module();
    assert_eq!(m.check_position_valid(BTC, 0, 0, None), Ok(()));
    assert_eq!(m.check_position_valid(BTC, 1000, 0, Some(ratio(1, 1))), Ok(()));
}

#[test]
fn position_check_errors() {
    let mut m = module();
    assert_eq!(m.check_position_valid(BTC, 1000, 200, None), Err(Error::InvalidFeedPrice));
    assert_eq!(m.check_position_valid(BTC, 250, 200, Some(ratio(1, 1))), Err(Error::BelowLiquidationRatio));
    assert_eq!(m.check_position_valid(BTC, 150, 99, Some(ratio(1, 1))), Err(Error::RemainDebitValueTooSmall));
    assert_eq!(m.check_position_valid(BTC, 300, 200, Some(ratio(1, 1))), Ok(()));
    m.set_collateral_params(BTC, Change::NoChange, Change::NoChange, Change::NoChange, Change::NewValue(Some(ratio(2, 1))), Change::NoChange)
        .unwrap();
    assert_eq!(m.check_position_valid(BTC, 300, 200, Some(ratio(1, 1))), Err(Error::BelowRequiredCollateralRatio));
    assert_eq!(m.check_position_valid(BTC, 400, 200, Some(ratio(1, 1))), Ok(()));
}

#[test]
fn exactly_at_liquidation_ratio_is_safe() {
    let m = module();
    assert_eq!(m.calculate_collateral_ratio(BTC, 150, 100, ratio(1, 1)), ratio(3, 2));
    assert!(!m.is_cdp_unsafe(BTC, 100, 150, Some(ratio(1, 1))));
    assert!(m.is_cdp_unsafe(BTC, 100, 149, Some(ratio(1, 1))));
}

#[test]
fn no_debit_or_no_price_is_safe() {
    let m = module();
    assert!(!m.is_cdp_unsafe(BTC, 0, 0, Some(ratio(1, 1))));
    assert!(!m.is_cdp_unsafe(BTC, 200, 100, None));
}

#[test]
fn collateral_ratio_edges() {
    let m = module();
    assert_eq!(m.calculate_collateral_ratio(BTC, 100, 0, ratio(1, 1)), Fixed::zero());
    assert_eq!(m.calculate_collateral_ratio(BTC, u128::MAX, 1, ratio(1, 1)), fixed(u128::MAX));
    assert_eq!(m.get_bad_debt_value(BTC, 123), 123);
}

#[test]
fn strategy_needs_supply_and_known_slippage() {
    let limit = ratio(1, 10);
    assert_eq!(liquidation_strategy(0, Some(ratio(1, 100)), 100, limit), LiquidationStrategy::Auction);
    assert_eq!(liquidation_strategy(60, None, 100, limit), LiquidationStrategy::Auction);
    assert_eq!(liquidation_strategy(60, Some(ratio(2, 10)), 100, limit), LiquidationStrategy::Auction);
    assert_eq!(liquidation_strategy(160, Some(ratio(1, 100)), 100, limit), LiquidationStrategy::Auction);
    assert_eq!(liquidation_strategy(60, Some(ratio(1, 100)), 100, Fixed::zero()), LiquidationStrategy::Auction);
    assert_eq!(liquidation_strategy(60, Some(ratio(1, 10)), 100, limit), LiquidationStrategy::Exchange);
}

#[test]
fn scanner_rotates_through_collaterals() {
    assert_eq!(next_scan_position(Some(0), 3, 0), 1);
    assert_eq!(next_scan_position(Some(1), 3, 0), 2);
    assert_eq!(next_scan_position(Some(2), 3, 0), 0);
    assert_eq!(next_scan_position(Some(9), 3, 0), 0);
    assert_eq!(next_scan_position(None, 3, 2), 2);
    let mut seen = [false; 3];
    let mut p = next_scan_position(None, 3, 1);
    for _ in 0..3 {
        seen[p as usize] = true;
        p = next_scan_position(Some(p), 3, 0);
    }
    assert_eq!(seen, [true, true, true]);
}

#[test]
fn scanner_proposals() {
    let mut m = module();
    assert_eq!(m.offchain_proposal(BTC, ALICE, 200, 100, Some(ratio(1, 1))), Some(Call::Liquidate(BTC, ALICE)));
    assert_eq!(m.offchain_proposal(BTC, ALICE, 100, 300, Some(ratio(1, 1))), None);
    m.on_emergency_shutdown();
    assert_eq!(m.offchain_proposal(BTC, ALICE, 100, 300, None), Some(Call::Settle(BTC, ALICE)));
    assert_eq!(m.offchain_proposal(BTC, ALICE, 0, 300, None), None);
}

#[test]
fn unsigned_calls_are_validated() {
    let mut m = module();
    let v = m.validate_unsigned(&Call::Liquidate(BTC, ALICE), 42, 200, 100, Some(ratio(1, 1))).unwrap();
    assert_eq!(v.provides, ProvidesTag::Liquidation(42, BTC, ALICE));
    assert_eq!(v.priority, 1 << 20);
    assert_eq!(v.longevity, 64);
    assert!(v.propagate);
    assert_eq!(m.validate_unsigned(&Call::Liquidate(BTC, ALICE), 42, 100, 300, Some(ratio(1, 1))), Err(InvalidTransaction::Stale));
    assert_eq!(m.validate_unsigned(&Call::Settle(BTC, ALICE), 42, 100, 300, None), Err(InvalidTransaction::Stale));
    assert_eq!(m.validate_unsigned(&Call::SetGlobalParams(Fixed::zero()), 42, 0, 0, None), Err(InvalidTransaction::Call));
    m.on_emergency_shutdown();
    assert_eq!(m.validate_unsigned(&Call::Liquidate(BTC, ALICE), 42, 200, 100, Some(ratio(1, 1))), Err(InvalidTransaction::Stale));
    let v = m.validate_unsigned(&Call::Settle(BTC, ALICE), 42, 100, 300, None).unwrap();
    assert_eq!(v.provides, ProvidesTag::Settlement(BTC, ALICE));
    assert_eq!(m.validate_unsigned(&Call::Settle(BTC, ALICE), 42, 0, 300, None), Err(InvalidTransaction::Stale));
}

#[test]
fn fixed_point_arithmetic() {
    assert_eq!(ratio(3, 2).saturating_mul(ratio(1, 10)), ratio(15, 100));
    assert_eq!(fixed(3).saturating_mul(fixed(ACCURACY / 2)), fixed(1));
    assert_eq!(fixed(u128::MAX).saturating_mul(ratio(2, 1)), fixed(u128::MAX));
    assert_eq!(ratio(3, 2).saturating_add(ratio(1, 2)), ratio(2, 1));
    assert_eq!(fixed(u128::MAX).saturating_add(fixed(1)), fixed(u128::MAX));
    assert_eq!(ratio(3, 2).saturating_mul_int(7), 10);
    assert_eq!(ratio(2, 1).saturating_mul_int(u128::MAX), u128::MAX);
    assert_eq!(Fixed::checked_from_rational(1, 3), Some(fixed(333_333_333_333_333_333)));
    assert_eq!(Fixed::checked_from_rational(1, 0), None);
    assert_eq!(Fixed::checked_from_rational(u128::MAX, 1), None);
}

#[test]
fn genesis_seeds_params() {
    let entries = vec![
        (BTC, Some(ratio(1, 100)), Some(ratio(2, 1)), None, None, 10_000),
        (DOT, None, None, Some(ratio(2, 10)), Some(ratio(3, 1)), 500),
        (BTC, None, Some(ratio(5, 2)), None, None, 20_000),
    ];
    let m = Module::genesis(config(), ratio(1, 1000), &entries).unwrap();
    assert_eq!(m.global_stability_fee(), ratio(1, 1000));
    assert_eq!(m.maximum_total_debit_value(BTC), 20_000);
    assert_eq!(m.get_liquidation_ratio(BTC), ratio(5, 2));
    assert_eq!(m.get_stability_fee(BTC), ratio(1, 1000));
    assert_eq!(m.get_liquidation_penalty(DOT), ratio(2, 10));
    assert_eq!(m.required_collateral_ratio(DOT), Some(ratio(3, 1)));
    assert!(!m.is_shutdown());
}

#[test]
fn genesis_rejects_unknown_collateral() {
    let entries = vec![(AUSD, None, None, None, None, 1)];
    assert_eq!(Module::genesis(config(), Fixed::zero(), &entries).err(), Some(Error::InvalidCollateralType));
}
