//! How much of a token conditional swap the liqee side allows: the
//! order's own limits, the swap-source limit of the account, and the
//! net borrow limits of both banks.

use vstd::prelude::*;
use crate::fixed_point::{
    lemma_int_floor, lemma_quote_value_exact, lemma_tokens_at_price,
    clamp_i64_spec, clamp_u64_spec, div_bits_spec, fits_i128, int_floor, mul_bits_spec, scale, Fixed,
};

verus! {

/// If a tcs gets limited due to exhausted net borrows, execution is not
/// triggered when the possible value is below this amount (1 USD in native
/// quote units).
pub const NET_BORROW_EXECUTION_THRESHOLD: u64 = 1_000_000;

/// The net borrow state of a bank that the execution limits read.
#[derive(Clone, Copy, PartialEq, Eq, Structural, Debug)]
pub struct NetBorrowLimits {
    /// Borrow limit per window in quote units; negative means unlimited.
    pub net_borrow_limit_per_window_quote: i64,
    /// Native tokens borrowed in the current window.
    pub net_borrows_in_window: i64,
}

/// The token limit that the quote limit of a bank amounts to at `price`.
pub open spec fn borrow_limit_tokens(bank: NetBorrowLimits, price: int) -> int {
    clamp_i64_spec(div_bits_spec(bank.net_borrow_limit_per_window_quote * scale(), price))
}

/// The inputs on which `available_borrows` computes without a panic.
pub open spec fn available_borrows_defined(bank: NetBorrowLimits, price: int) -> bool {
    bank.net_borrow_limit_per_window_quote >= 0 ==> {
        &&& price != 0
        &&& fits_i128(div_bits_spec(bank.net_borrow_limit_per_window_quote * scale(), price))
        &&& i64::MIN <= borrow_limit_tokens(bank, price) - bank.net_borrows_in_window <= i64::MAX
    }
}

/// Native tokens that may still be borrowed from a bank in this window:
/// unlimited (`u64::MAX`) for a negative limit, else the quote limit
/// converted to tokens at `price`, minus what is already borrowed, at
/// least zero.
pub open spec fn available_borrows_spec(bank: NetBorrowLimits, price: int) -> int {
    if bank.net_borrow_limit_per_window_quote < 0 {
        u64::MAX as int
    } else {
        let left = borrow_limit_tokens(bank, price) - bank.net_borrows_in_window;
        if left > 0 { left } else { 0 }
    }
}

/// Native tokens that may still be borrowed from `bank` at `price`.
pub fn available_borrows(bank: &NetBorrowLimits, price: Fixed) -> (r: u64)
    requires
        available_borrows_defined(*bank, price.val()),
    ensures
        r == available_borrows_spec(*bank, price.val()),
        bank.net_borrow_limit_per_window_quote < 0 ==> r == u64::MAX,
        // at a positive price (and a limit of fewer than 2^63 tokens), what is
        // borrowed plus what is left is the most tokens worth at most the limit
        bank.net_borrow_limit_per_window_quote >= 0 && price.val() > 0
            && bank.net_borrow_limit_per_window_quote * scale() < (i64::MAX + 1) * price.val() ==> {
            &&& r > 0 ==> (r + bank.net_borrows_in_window) * price.val() <= bank.net_borrow_limit_per_window_quote * scale()
            &&& r > 0 ==> bank.net_borrow_limit_per_window_quote * scale()
                < (r + bank.net_borrows_in_window + 1) * price.val()
            &&& r == 0 ==> bank.net_borrow_limit_per_window_quote * scale()
                < (bank.net_borrows_in_window + 1) * price.val()
        },
{
    if bank.net_borrow_limit_per_window_quote < 0 {
        u64::MAX
    } else {
        let q = Fixed::from_i64(bank.net_borrow_limit_per_window_quote).quotient(price);
        let floored = q.floor();
        assert(int_floor(int_floor(q.val()) * scale()) == int_floor(q.val())) by (nonlinear_arith)
            requires scale() == 281474976710656;
        let limit = floored.clamp_to_i64();
        let left = limit - bank.net_borrows_in_window;
        proof {
            if price.val() > 0 {
                let n = bank.net_borrow_limit_per_window_quote * scale();
                assert(n >= 0) by (nonlinear_arith)
                    requires bank.net_borrow_limit_per_window_quote >= 0, n == bank.net_borrow_limit_per_window_quote * scale(), scale() > 0;
                lemma_tokens_at_price(n, price.val());
                let a = int_floor(div_bits_spec(n, price.val()));
                if n < (i64::MAX + 1) * price.val() {
                    assert(a <= i64::MAX) by (nonlinear_arith)
                        requires a * price.val() <= n, n < (i64::MAX + 1) * price.val(), price.val() > 0;
                    assert(limit == a);
                    if left <= 0 {
                        assert(n < (bank.net_borrows_in_window + 1) * price.val()) by (nonlinear_arith)
                            requires n < (a + 1) * price.val(), a <= bank.net_borrows_in_window, price.val() > 0;
                    }
                }
            }
        }
        if left > 0 { left as u64 } else { 0 }
    }
}

/// The value with bits `a` is positive or zero: `max(a, 0)`.
pub open spec fn non_negative(a: int) -> int {
    if a > 0 { a } else { 0 }
}

pub open spec fn min_int(a: int, b: int) -> int {
    if a <= b { a } else { b }
}

/// The net borrow threshold in native tokens at `price`.
pub open spec fn threshold_tokens(price: int) -> int {
    div_bits_spec(NET_BORROW_EXECUTION_THRESHOLD * scale(), price)
}

/// The inputs on which `tcs_max_liqee_execution` computes without a panic.
pub open spec fn liqee_execution_defined(
    swap_source_ignoring_net_borrows: int,
    buy_bank: NetBorrowLimits,
    sell_bank: NetBorrowLimits,
    buy_token_price: int,
    sell_token_price: int,
) -> bool {
    &&& 0 <= int_floor(swap_source_ignoring_net_borrows) <= u64::MAX
    &&& available_borrows_defined(buy_bank, buy_token_price)
    &&& available_borrows_defined(sell_bank, sell_token_price)
    &&& buy_token_price != 0
    &&& sell_token_price != 0
    &&& fits_i128(threshold_tokens(buy_token_price))
    &&& fits_i128(threshold_tokens(sell_token_price))
}

/// The most the liqee may sell before net borrow limits are applied.
pub open spec fn max_sell_ignoring_net_borrows(swap_source: int, max_sell_for_position: u64) -> int {
    min_int(int_floor(swap_source), max_sell_for_position as int)
}

/// The part of a sale of `max_sell` tokens that would be borrowed, given the
/// liqee's sell token position (bits).
pub open spec fn sell_borrows(max_sell: int, sell_position: int) -> int {
    clamp_u64_spec(max_sell * scale() - non_negative(sell_position))
}

/// Whether an amount was cut below the threshold by the net borrow limits:
/// below the threshold now, above it without the limits.
pub open spec fn tiny_due_to_limit(limited: int, unlimited: int, threshold: int) -> bool {
    limited * scale() < threshold && unlimited * scale() > threshold
}

/// Comparing an amount with a quote threshold converted to tokens at a
/// positive price agrees with comparing the amount's value with the
/// threshold: below the converted threshold means worth less, above it means
/// worth more.
pub proof fn lemma_threshold_compare(amount: int, price: int, threshold: int)
    requires
        price > 0,
        amount >= 0,
        threshold >= 0,
    ensures
        amount * scale() < div_bits_spec(threshold * scale(), price) ==> amount * price < threshold * scale(),
        amount * scale() > div_bits_spec(threshold * scale(), price) ==> amount * price > threshold * scale(),
        (amount * scale() + 1) * price <= threshold * scale() * scale()
            ==> amount * scale() < div_bits_spec(threshold * scale(), price),
        amount * price > threshold * scale() ==> amount * scale() > div_bits_spec(threshold * scale(), price),
{
    let n = threshold * scale() * scale();
    assert(threshold * scale() * scale() >= 0) by (nonlinear_arith) requires threshold >= 0, scale() == 281474976710656;
    let q = n / price;
    assert(div_bits_spec(threshold * scale(), price) == q);
    vstd::arithmetic::div_mod::lemma_fundamental_div_mod(n, price);
    vstd::arithmetic::div_mod::lemma_mod_bound(n, price);
    let r = n % price;
    assert(amount * scale() < q ==> amount * price < threshold * scale()) by (nonlinear_arith)
        requires
            n == price * q + r, 0 <= r < price, price > 0, n == threshold * scale() * scale(),
            scale() == 281474976710656;
    assert(amount * scale() > q ==> amount * price > threshold * scale()) by (nonlinear_arith)
        requires
            n == price * q + r, 0 <= r < price, price > 0, n == threshold * scale() * scale(),
            scale() == 281474976710656;
    assert((amount * scale() + 1) * price <= n ==> amount * scale() < q) by (nonlinear_arith)
        requires n == price * q + r, 0 <= r < price, price > 0;
    assert(amount * price > threshold * scale() ==> amount * scale() > q) by (nonlinear_arith)
        requires
            n == price * q + r, 0 <= r, price > 0, n == threshold * scale() * scale(),
            scale() == 281474976710656;
}

/// The maximal (buy, sell) execution of the liqee, or `None` when net
/// borrow limits cut it to a tiny size.
pub open spec fn liqee_execution_spec(
    swap_source_ignoring_net_borrows: int,
    max_sell_for_position: u64,
    max_buy_for_position: u64,
    sell_position: int,
    buy_bank: NetBorrowLimits,
    sell_bank: NetBorrowLimits,
    buy_token_price: int,
    sell_token_price: int,
) -> Option<(int, int)> {
    let max_sell_ign = max_sell_ignoring_net_borrows(swap_source_ignoring_net_borrows, max_sell_for_position);
    let max_buy_ign = max_buy_for_position as int;
    let max_buy = min_int(max_buy_ign, available_borrows_spec(buy_bank, buy_token_price));
    let borrows = sell_borrows(max_sell_ign, sell_position);
    let max_sell = max_sell_ign - borrows
        + min_int(borrows, available_borrows_spec(sell_bank, sell_token_price));
    if tiny_due_to_limit(max_buy, max_buy_ign, threshold_tokens(buy_token_price))
        || tiny_due_to_limit(max_sell, max_sell_ign, threshold_tokens(sell_token_price)) {
        None
    } else {
        Some((max_buy, max_sell))
    }
}

/// The maximal viable swap for the liqee, in native (buy, sell) amounts.
///
/// It combines the tcs restrictions (`max_sell_for_position`,
/// `max_buy_for_position`), the liqee's swap-source limit
/// (`swap_source_ignoring_net_borrows`) and the net borrow limits of both
/// banks. Returns `None` when the execution should be skipped because the
/// net borrow limits made it tiny.
pub fn tcs_max_liqee_execution(
    swap_source_ignoring_net_borrows: Fixed,
    max_sell_for_position: u64,
    max_buy_for_position: u64,
    sell_position: Fixed,
    buy_bank: &NetBorrowLimits,
    sell_bank: &NetBorrowLimits,
    buy_token_price: Fixed,
    sell_token_price: Fixed,
) -> (r: Option<(u64, u64)>)
    requires
        liqee_execution_defined(
            swap_source_ignoring_net_borrows.val(),
            *buy_bank,
            *sell_bank,
            buy_token_price.val(),
            sell_token_price.val(),
        ),
    ensures
        // skipped only when a side was cut by its net borrow limit to an amount
        // worth less than the threshold, while it was worth more without it
        buy_token_price.val() > 0 && sell_token_price.val() > 0 && r is None ==> {
            ||| {
                &&& min_int(max_buy_for_position as int, available_borrows_spec(*buy_bank, buy_token_price.val()))
                    * buy_token_price.val() < NET_BORROW_EXECUTION_THRESHOLD * scale()
                &&& max_buy_for_position * buy_token_price.val() > NET_BORROW_EXECUTION_THRESHOLD * scale()
            }
            ||| {
                let unlimited = max_sell_ignoring_net_borrows(swap_source_ignoring_net_borrows.val(), max_sell_for_position);
                let borrowed = sell_borrows(unlimited, sell_position.val());
                &&& (unlimited - borrowed + min_int(borrowed, available_borrows_spec(*sell_bank, sell_token_price.val())))
                    * sell_token_price.val() < NET_BORROW_EXECUTION_THRESHOLD * scale()
                &&& unlimited * sell_token_price.val() > NET_BORROW_EXECUTION_THRESHOLD * scale()
            }
        },
        // and it is skipped when a side cut by its limit is clearly worth less
        // than the threshold (by at least one fractional bit of a token) while
        // it was worth more without the limit
        buy_token_price.val() > 0 && sell_token_price.val() > 0 && ({
            ||| {
                &&& (min_int(max_buy_for_position as int, available_borrows_spec(*buy_bank, buy_token_price.val()))
                    * scale() + 1) * buy_token_price.val() <= NET_BORROW_EXECUTION_THRESHOLD * scale() * scale()
                &&& max_buy_for_position * buy_token_price.val() > NET_BORROW_EXECUTION_THRESHOLD * scale()
            }
            ||| {
                let unlimited = max_sell_ignoring_net_borrows(swap_source_ignoring_net_borrows.val(), max_sell_for_position);
                let borrowed = sell_borrows(unlimited, sell_position.val());
                &&& ((unlimited - borrowed + min_int(borrowed, available_borrows_spec(*sell_bank, sell_token_price.val())))
                    * scale() + 1) * sell_token_price.val() <= NET_BORROW_EXECUTION_THRESHOLD * scale() * scale()
                &&& unlimited * sell_token_price.val() > NET_BORROW_EXECUTION_THRESHOLD * scale()
            }
        }) ==> r is None,
        match r {
            Some((b, s)) => liqee_execution_spec(
                swap_source_ignoring_net_borrows.val(),
                max_sell_for_position,
                max_buy_for_position,
                sell_position.val(),
                *buy_bank,
                *sell_bank,
                buy_token_price.val(),
                sell_token_price.val(),
            ) == Some((b as int, s as int)),
            None => liqee_execution_spec(
                swap_source_ignoring_net_borrows.val(),
                max_sell_for_position,
                max_buy_for_position,
                sell_position.val(),
                *buy_bank,
                *sell_bank,
                buy_token_price.val(),
                sell_token_price.val(),
            ) is None,
        },
{
    let floored = swap_source_ignoring_net_borrows.floor();
    assert(int_floor(int_floor(swap_source_ignoring_net_borrows.val()) * scale())
        == int_floor(swap_source_ignoring_net_borrows.val())) by (nonlinear_arith)
        requires scale() == 281474976710656;
    let source_tokens = floored.to_u64();
    let max_sell_ignoring = if source_tokens <= max_sell_for_position {
        source_tokens
    } else {
        max_sell_for_position
    };
    let max_buy_ignoring = max_buy_for_position;

    let available_buy = available_borrows(buy_bank, buy_token_price);
    let available_sell = available_borrows(sell_bank, sell_token_price);

    let max_buy = if max_buy_ignoring <= available_buy { max_buy_ignoring } else { available_buy };

    let owned = sell_position.max(Fixed::zero());
    let borrowed = Fixed::from_u64(max_sell_ignoring).difference(owned).clamp_to_u64();
    assert(borrowed <= max_sell_ignoring) by {
        assert(max_sell_ignoring * scale() - non_negative(sell_position.val()) <= max_sell_ignoring * scale());
        assert(int_floor(max_sell_ignoring * scale() - non_negative(sell_position.val())) <= max_sell_ignoring)
            by (nonlinear_arith)
            requires
                max_sell_ignoring * scale() - non_negative(sell_position.val()) <= max_sell_ignoring * scale(),
                scale() == 281474976710656;
    }
    let borrowable = if borrowed <= available_sell { borrowed } else { available_sell };
    let max_sell = max_sell_ignoring - borrowed + borrowable;

    proof {
        if buy_token_price.val() > 0 && sell_token_price.val() > 0 {
            lemma_threshold_compare(max_buy as int, buy_token_price.val(), NET_BORROW_EXECUTION_THRESHOLD as int);
            lemma_threshold_compare(max_buy_ignoring as int, buy_token_price.val(), NET_BORROW_EXECUTION_THRESHOLD as int);
            lemma_threshold_compare(max_sell as int, sell_token_price.val(), NET_BORROW_EXECUTION_THRESHOLD as int);
            lemma_threshold_compare(max_sell_ignoring as int, sell_token_price.val(), NET_BORROW_EXECUTION_THRESHOLD as int);
        }
    }
    let threshold = Fixed::from_u64(NET_BORROW_EXECUTION_THRESHOLD);
    let buy_threshold = threshold.quotient(buy_token_price);
    let sell_threshold = threshold.quotient(sell_token_price);
    let tiny_due_to_net_borrows = (buy_threshold.exceeds_u64(max_buy)
        && buy_threshold.below_u64(max_buy_ignoring))
        || (sell_threshold.exceeds_u64(max_sell) && sell_threshold.below_u64(max_sell_ignoring));
    if tiny_due_to_net_borrows {
        None
    } else {
        Some((max_buy, max_sell))
    }
}

} // verus!

verus! {

/// The quote value (bits) of `amount` native tokens at `price` (bits).
pub open spec fn quote_value(amount: int, price: int) -> int {
    mul_bits_spec(amount * scale(), price)
}

/// The inputs on which `tcs_max_volume` computes without a panic.
pub open spec fn max_volume_defined(execution: Option<(u64, u64)>, buy_token_price: int, sell_token_price: int) -> bool {
    match execution {
        Some((b, s)) => fits_i128(quote_value(b as int, buy_token_price))
            && fits_i128(quote_value(s as int, sell_token_price)),
        None => true,
    }
}

/// The maximal quote volume of an execution: the smaller of the values of
/// its buy and its sell side, rounded down and clamped into `u64`.
pub open spec fn max_volume_spec(execution: Option<(u64, u64)>, buy_token_price: int, sell_token_price: int) -> Option<int> {
    match execution {
        Some((b, s)) => Some(clamp_u64_spec(min_int(
            quote_value(b as int, buy_token_price),
            quote_value(s as int, sell_token_price),
        ))),
        None => None,
    }
}

/// The maximum execution size of a tcs order in quote units, given the
/// liqee's maximal execution (see `tcs_max_liqee_execution`); `None` when
/// the execution is to be skipped.
pub fn tcs_max_volume(execution: Option<(u64, u64)>, buy_token_price: Fixed, sell_token_price: Fixed) -> (r: Option<u64>)
    requires
        max_volume_defined(execution, buy_token_price.val(), sell_token_price.val()),
    ensures
        match r {
            Some(v) => max_volume_spec(execution, buy_token_price.val(), sell_token_price.val()) == Some(v as int),
            None => execution is None,
        },
        r is Some <==> execution is Some,
        // the volume is the whole quote amount that neither side's value
        // (tokens times price) falls below
        execution matches Some((b, s)) ==> {
            let v = r->Some_0;
            &&& (b * buy_token_price.val() >= 0 && s * sell_token_price.val() >= 0) ==> {
                &&& v * scale() <= b * buy_token_price.val()
                &&& v * scale() <= s * sell_token_price.val()
            }
            &&& v < u64::MAX ==> ((v + 1) * scale() > b * buy_token_price.val()
                || (v + 1) * scale() > s * sell_token_price.val())
        },
{
    proof {
        if execution is Some {
            let (b, s) = execution->Some_0;
            lemma_quote_value_exact(b as int, buy_token_price.val());
            lemma_quote_value_exact(s as int, sell_token_price.val());
            lemma_int_floor(min_int(b * buy_token_price.val(), s * sell_token_price.val()));
        }
    }
    match execution {
        Some((max_buy, max_sell)) => {
            let buy_value = Fixed::from_u64(max_buy).product(buy_token_price);
            let sell_value = Fixed::from_u64(max_sell).product(sell_token_price);
            let max_quote = buy_value.min(sell_value);
            let floored = max_quote.floor();
            assert(int_floor(int_floor(max_quote.val()) * scale()) == int_floor(max_quote.val())) by (nonlinear_arith)
                requires scale() == 281474976710656;
            Some(floored.clamp_to_u64())
        },
        None => None,
    }
}

} // verus!

verus! {

/// Net borrow limits only ever reduce an execution: the liqee buys no more
/// than the order allows for its position and sells no more than it may
/// without the limits, but at least the part of the sale that it owns.
pub proof fn lemma_net_borrow_limits_only_reduce(
    swap_source_ignoring_net_borrows: int,
    max_sell_for_position: u64,
    max_buy_for_position: u64,
    sell_position: int,
    buy_bank: NetBorrowLimits,
    sell_bank: NetBorrowLimits,
    buy_token_price: int,
    sell_token_price: int,
)
    requires
        liqee_execution_defined(swap_source_ignoring_net_borrows, buy_bank, sell_bank, buy_token_price, sell_token_price),
    ensures
        liqee_execution_spec(
            swap_source_ignoring_net_borrows, max_sell_for_position, max_buy_for_position, sell_position,
            buy_bank, sell_bank, buy_token_price, sell_token_price,
        ) matches Some((b, s)) ==> {
            let max_sell_ign = max_sell_ignoring_net_borrows(swap_source_ignoring_net_borrows, max_sell_for_position);
            &&& 0 <= b <= max_buy_for_position
            &&& b <= available_borrows_spec(buy_bank, buy_token_price)
            &&& max_sell_ign - sell_borrows(max_sell_ign, sell_position) <= s <= max_sell_ign
        },
{
    let max_sell_ign = max_sell_ignoring_net_borrows(swap_source_ignoring_net_borrows, max_sell_for_position);
    lemma_sell_borrows_bounded(max_sell_ign, sell_position);
}

proof fn lemma_sell_borrows_bounded(max_sell: int, sell_position: int)
    requires
        max_sell >= 0,
    ensures
        0 <= sell_borrows(max_sell, sell_position) <= max_sell,
{
    assert(int_floor(max_sell * scale() - non_negative(sell_position)) <= max_sell) by (nonlinear_arith)
        requires
            max_sell * scale() - non_negative(sell_position) <= max_sell * scale(),
            scale() == 281474976710656;
}

/// An execution is skipped only because of the net borrow limits: when the
/// banks still allow borrowing everything the execution needs, it is the
/// full execution that the order and the account allow.
pub proof fn lemma_skip_only_due_to_net_borrows(
    swap_source_ignoring_net_borrows: int,
    max_sell_for_position: u64,
    max_buy_for_position: u64,
    sell_position: int,
    buy_bank: NetBorrowLimits,
    sell_bank: NetBorrowLimits,
    buy_token_price: int,
    sell_token_price: int,
)
    requires
        liqee_execution_defined(swap_source_ignoring_net_borrows, buy_bank, sell_bank, buy_token_price, sell_token_price),
        available_borrows_spec(buy_bank, buy_token_price) >= max_buy_for_position,
        available_borrows_spec(sell_bank, sell_token_price) >= sell_borrows(
            max_sell_ignoring_net_borrows(swap_source_ignoring_net_borrows, max_sell_for_position),
            sell_position,
        ),
    ensures
        liqee_execution_spec(
            swap_source_ignoring_net_borrows, max_sell_for_position, max_buy_for_position, sell_position,
            buy_bank, sell_bank, buy_token_price, sell_token_price,
        ) == Some((
            max_buy_for_position as int,
            max_sell_ignoring_net_borrows(swap_source_ignoring_net_borrows, max_sell_for_position),
        )),
{
}

/// Banks without a net borrow limit never make an execution be skipped.
pub proof fn lemma_unlimited_banks_never_skip(
    swap_source_ignoring_net_borrows: int,
    max_sell_for_position: u64,
    max_buy_for_position: u64,
    sell_position: int,
    buy_bank: NetBorrowLimits,
    sell_bank: NetBorrowLimits,
    buy_token_price: int,
    sell_token_price: int,
)
    requires
        liqee_execution_defined(swap_source_ignoring_net_borrows, buy_bank, sell_bank, buy_token_price, sell_token_price),
        buy_bank.net_borrow_limit_per_window_quote < 0,
        sell_bank.net_borrow_limit_per_window_quote < 0,
    ensures
        liqee_execution_spec(
            swap_source_ignoring_net_borrows, max_sell_for_position, max_buy_for_position, sell_position,
            buy_bank, sell_bank, buy_token_price, sell_token_price,
        ) is Some,
{
    let max_sell_ign = max_sell_ignoring_net_borrows(swap_source_ignoring_net_borrows, max_sell_for_position);
    lemma_sell_borrows_bounded(max_sell_ign, sell_position);
    lemma_skip_only_due_to_net_borrows(
        swap_source_ignoring_net_borrows, max_sell_for_position, max_buy_for_position, sell_position,
        buy_bank, sell_bank, buy_token_price, sell_token_price,
    );
}

/// The volume of an execution is worth no more than either of its sides.
pub proof fn lemma_volume_within_both_sides(max_buy: u64, max_sell: u64, buy_token_price: int, sell_token_price: int)
    ensures
        max_volume_spec(Some((max_buy, max_sell)), buy_token_price, sell_token_price) matches Some(v) ==> {
            &&& v <= clamp_u64_spec(quote_value(max_buy as int, buy_token_price))
            &&& v <= clamp_u64_spec(quote_value(max_sell as int, sell_token_price))
        },
{
    let a = quote_value(max_buy as int, buy_token_price);
    let b = quote_value(max_sell as int, sell_token_price);
    lemma_clamp_monotone(min_int(a, b), a);
    lemma_clamp_monotone(min_int(a, b), b);
}

/// Rounding down and clamping keeps the order.
pub proof fn lemma_clamp_monotone(a: int, b: int)
    requires
        a <= b,
    ensures
        clamp_u64_spec(a) <= clamp_u64_spec(b),
{
    assert(int_floor(a) <= int_floor(b)) by (nonlinear_arith)
        requires a <= b, scale() == 281474976710656;
}

} // verus!

verus! {

/// An execution is skipped only when a side that its net borrow limit cut
/// is worth less than `NET_BORROW_EXECUTION_THRESHOLD` in quote after the
/// cut and was worth more before it (prices positive).
pub proof fn lemma_skip_only_when_cut_below_threshold(
    swap_source_ignoring_net_borrows: int,
    max_sell_for_position: u64,
    max_buy_for_position: u64,
    sell_position: int,
    buy_bank: NetBorrowLimits,
    sell_bank: NetBorrowLimits,
    buy_token_price: int,
    sell_token_price: int,
)
    requires
        liqee_execution_defined(swap_source_ignoring_net_borrows, buy_bank, sell_bank, buy_token_price, sell_token_price),
        buy_token_price > 0,
        sell_token_price > 0,
    ensures
        liqee_execution_spec(
            swap_source_ignoring_net_borrows, max_sell_for_position, max_buy_for_position, sell_position,
            buy_bank, sell_bank, buy_token_price, sell_token_price,
        ) is None ==> {
            ||| {
                &&& min_int(max_buy_for_position as int, available_borrows_spec(buy_bank, buy_token_price))
                    * buy_token_price < NET_BORROW_EXECUTION_THRESHOLD * scale()
                &&& max_buy_for_position * buy_token_price > NET_BORROW_EXECUTION_THRESHOLD * scale()
            }
            ||| {
                let unlimited = max_sell_ignoring_net_borrows(swap_source_ignoring_net_borrows, max_sell_for_position);
                let borrowed = sell_borrows(unlimited, sell_position);
                &&& (unlimited - borrowed + min_int(borrowed, available_borrows_spec(sell_bank, sell_token_price)))
                    * sell_token_price < NET_BORROW_EXECUTION_THRESHOLD * scale()
                &&& unlimited * sell_token_price > NET_BORROW_EXECUTION_THRESHOLD * scale()
            }
        },
{
    let unlimited = max_sell_ignoring_net_borrows(swap_source_ignoring_net_borrows, max_sell_for_position);
    let borrowed = sell_borrows(unlimited, sell_position);
    lemma_sell_borrows_bounded(unlimited, sell_position);
    let cut_sell = unlimited - borrowed + min_int(borrowed, available_borrows_spec(sell_bank, sell_token_price));
    let cut_buy = min_int(max_buy_for_position as int, available_borrows_spec(buy_bank, buy_token_price));
    lemma_threshold_compare(cut_buy, buy_token_price, NET_BORROW_EXECUTION_THRESHOLD as int);
    lemma_threshold_compare(max_buy_for_position as int, buy_token_price, NET_BORROW_EXECUTION_THRESHOLD as int);
    lemma_threshold_compare(cut_sell, sell_token_price, NET_BORROW_EXECUTION_THRESHOLD as int);
    lemma_threshold_compare(unlimited, sell_token_price, NET_BORROW_EXECUTION_THRESHOLD as int);
}

} // verus!
