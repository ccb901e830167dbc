use mango_tcs::fixed_point::Fixed;
use mango_tcs::prepare::{
    close_expired_job, liqor_execution_limits, plan_jupiter_quotes, trigger_job, JupiterMode, LiqorExecution, QuotePlan,
};

const ONE: i128 = 1 << 48;

#[test]
fn liqor_limits_take_the_smallest_bound() {
    // swap source allows 800, the quote cap 1000 at price 2 allows 500, the liqee 600
    let e = liqor_execution_limits(Fixed::from_u64(800), 1000, Fixed::from_u64(2), Fixed::from_u64(1), 600, 900).unwrap();
    assert_eq!(e.max_buy_token_to_liqee, 500);
    assert_eq!(e.max_sell_token_to_liqor, 900);
    // volume: min(500 * 2, 900 * 1)
    assert_eq!(e.volume.bits, 900 * ONE);
}

#[test]
fn liqor_limits_skip_empty_executions() {
    assert!(liqor_execution_limits(Fixed::from_u64(800), 1000, Fixed::from_u64(2), Fixed::from_u64(1), 600, 0).is_none());
    assert!(liqor_execution_limits(Fixed::from_bits(ONE / 2), 1000, Fixed::from_u64(2), Fixed::from_u64(1), 600, 10).is_none());
    assert!(liqor_execution_limits(Fixed::from_u64(800), 1000, Fixed::from_u64(2), Fixed::from_u64(1), 0, 10).is_none());
}

#[test]
fn quote_plans_per_mode() {
    let volume = Fixed::from_u64(1000);
    let sell_price = Fixed::from_u64(4);
    assert_eq!(
        plan_jupiter_quotes(&JupiterMode::NoSwap, volume, sell_price, None),
        QuotePlan::Direct { amount: 250, slippage_bps: 100, execute: false }
    );
    assert_eq!(
        plan_jupiter_quotes(&JupiterMode::SwapBuySell { slippage_bps: 30 }, volume, sell_price, None),
        QuotePlan::Direct { amount: 250, slippage_bps: 30, execute: true }
    );
    assert_eq!(
        plan_jupiter_quotes(
            &JupiterMode::SwapBuy { slippage_bps: 50, collateral_token_index: 7 },
            volume,
            sell_price,
            Some(Fixed::from_bits(ONE / 2)),
        ),
        QuotePlan::ViaCollateral { collateral_token_index: 7, buy_cost: 2000, sell_amount: 250, slippage_bps: 50 }
    );
}

#[test]
fn jobs_for_expired_and_triggered_tcs() {
    let key = [9u8; 32];
    let closing = close_expired_job(key, 4);
    assert_eq!(closing.pubkey, key);
    assert_eq!(closing.tcs_id, 4);
    assert_eq!(closing.volume, 0);
    assert!(closing.token_indexes.is_empty());
    assert_eq!(closing.max_buy_token_to_liqee, 0);
    assert_eq!(closing.max_sell_token_to_liqor, 0);
    assert_eq!(closing.min_buy_token, 0);

    let e = LiqorExecution { max_buy_token_to_liqee: 10, max_sell_token_to_liqor: 20, volume: Fixed::from_bits(55 * ONE / 2) };
    let job = trigger_job(key, 5, 1, 2, &e, 8);
    assert_eq!(job.volume, 27);
    assert_eq!(job.token_indexes, vec![1, 2]);
    assert_eq!(job.max_buy_token_to_liqee, 10);
    assert_eq!(job.max_sell_token_to_liqor, 20);
    assert_eq!(job.min_buy_token, 8);
    assert_eq!(job.tcs_id, 5);
}
