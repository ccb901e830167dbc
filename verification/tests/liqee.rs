use mango_tcs::fixed_point::Fixed;
use mango_tcs::liqee::{available_borrows, tcs_max_liqee_execution, tcs_max_volume, NetBorrowLimits};

const ONE: i128 = 1 << 48;

fn unlimited() -> NetBorrowLimits {
    NetBorrowLimits { net_borrow_limit_per_window_quote: -1, net_borrows_in_window: 0 }
}

#[test]
fn available_borrows_of_unlimited_bank_is_max() {
    assert_eq!(available_borrows(&unlimited(), Fixed::from_u64(5)), u64::MAX);
}

#[test]
fn available_borrows_converts_the_quote_limit() {
    let bank = NetBorrowLimits { net_borrow_limit_per_window_quote: 1000, net_borrows_in_window: 100 };
    assert_eq!(available_borrows(&bank, Fixed::from_u64(2)), 400);
    // 1000 / 3 = 333.33.., rounded down
    let bank = NetBorrowLimits { net_borrow_limit_per_window_quote: 1000, net_borrows_in_window: 0 };
    assert_eq!(available_borrows(&bank, Fixed::from_u64(3)), 333);
    // at a price of 0.5 the limit is 2000 tokens
    assert_eq!(available_borrows(&bank, Fixed::from_bits(ONE / 2)), 2000);
}

#[test]
fn available_borrows_never_negative() {
    let bank = NetBorrowLimits { net_borrow_limit_per_window_quote: 1000, net_borrows_in_window: 5000 };
    assert_eq!(available_borrows(&bank, Fixed::from_u64(1)), 0);
}

#[test]
fn liqee_execution_without_limits_is_the_order_limit() {
    let r = tcs_max_liqee_execution(
        Fixed::from_bits(1500 * ONE + ONE / 3),
        2000,
        700,
        Fixed::from_u64(10_000),
        &unlimited(),
        &unlimited(),
        Fixed::from_u64(1),
        Fixed::from_u64(1),
    );
    // sell: min(floor(1500.33), 2000); buy: 700
    assert_eq!(r, Some((700, 1500)));
}

#[test]
fn liqee_execution_sell_limited_by_position() {
    let r = tcs_max_liqee_execution(
        Fixed::from_u64(5000),
        300,
        700,
        Fixed::from_u64(10_000),
        &unlimited(),
        &unlimited(),
        Fixed::from_u64(1),
        Fixed::from_u64(1),
    );
    assert_eq!(r, Some((700, 300)));
}

#[test]
fn liqee_execution_cut_by_net_borrows_is_skipped() {
    // buy side: 10 tokens may still be borrowed, the threshold is 1_000_000 / 1
    let buy_bank = NetBorrowLimits { net_borrow_limit_per_window_quote: 110, net_borrows_in_window: 100 };
    let r = tcs_max_liqee_execution(
        Fixed::from_u64(5_000_000),
        5_000_000,
        2_000_000,
        Fixed::from_u64(10_000_000),
        &buy_bank,
        &unlimited(),
        Fixed::from_u64(1),
        Fixed::from_u64(1),
    );
    assert_eq!(r, None);
}

#[test]
fn liqee_execution_reduced_but_not_tiny() {
    // buy side may borrow 1_500_000 more, above the threshold
    let buy_bank = NetBorrowLimits { net_borrow_limit_per_window_quote: 1_500_000, net_borrows_in_window: 0 };
    // sell side: the liqee owns 1000 tokens and may borrow 2_000_000 more
    let sell_bank = NetBorrowLimits { net_borrow_limit_per_window_quote: 2_000_000, net_borrows_in_window: 0 };
    let r = tcs_max_liqee_execution(
        Fixed::from_u64(5_000_000),
        5_000_000,
        2_000_000,
        Fixed::from_u64(1000),
        &buy_bank,
        &sell_bank,
        Fixed::from_u64(1),
        Fixed::from_u64(1),
    );
    // sell: 5_000_000 - 4_999_000 borrowed + min(4_999_000, 2_000_000)
    assert_eq!(r, Some((1_500_000, 2_001_000)));
}

#[test]
fn liqee_execution_sell_tiny_due_to_net_borrows() {
    // the liqee owns nothing of the sell token and can borrow only 5 tokens
    let sell_bank = NetBorrowLimits { net_borrow_limit_per_window_quote: 5, net_borrows_in_window: 0 };
    let r = tcs_max_liqee_execution(
        Fixed::from_u64(5_000_000),
        5_000_000,
        2_000_000,
        Fixed::from_i64(-3),
        &unlimited(),
        &sell_bank,
        Fixed::from_u64(1),
        Fixed::from_u64(1),
    );
    assert_eq!(r, None);
}

#[test]
fn max_volume_is_the_smaller_side_value() {
    // buy: 100 tokens at 2.5 = 250; sell: 60 tokens at 4 = 240
    let r = tcs_max_volume(Some((100, 60)), Fixed::from_bits(5 * ONE / 2), Fixed::from_u64(4));
    assert_eq!(r, Some(240));
    // 3 tokens at 1/3 each is 0.99.., rounded down
    let r = tcs_max_volume(Some((3, 1000)), Fixed::from_u64(1).quotient(Fixed::from_u64(3)), Fixed::from_u64(1));
    assert_eq!(r, Some(0));
    assert_eq!(tcs_max_volume(None, Fixed::from_u64(1), Fixed::from_u64(1)), None);
}
