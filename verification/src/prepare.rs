//! Preparing a token conditional swap execution: the liqor's limits, the
//! volume, which jupiter quotes to request, and the resulting job.

use vstd::prelude::*;
use crate::fixed_point::{
    clamp_u64_spec, div_bits_spec, fits_i128, int_floor, lemma_int_floor, lemma_quote_value_exact,
    lemma_tokens_at_price, scale, Fixed,
};
use crate::liqee::{min_int, quote_value};

verus! {

/// A token index of a mango group.
pub type TokenIndex = u16;

/// A 32-byte account address.
pub type Key = [u8; 32];

/// How the liquidator pairs a tcs trigger with a jupiter swap.
#[derive(Clone, Copy, PartialEq, Eq, Structural, Debug)]
pub enum JupiterMode {
    /// Normal rebalancing will resolve deposits and withdraws created by
    /// trigger execution.
    NoSwap,
    /// Do a jupiter swap in the same tx as the trigger, possibly creating a
    /// buy token deposit and a sell token borrow.
    SwapBuySell { slippage_bps: u64 },
    /// Do a jupiter swap in the same tx as the trigger, buying the buy token
    /// for the collateral token. This way the liquidator won't need to
    /// borrow tokens.
    SwapBuy { slippage_bps: u64, collateral_token_index: TokenIndex },
}

/// The slippage used for a quote that only checks profitability.
pub const CHECK_ONLY_SLIPPAGE_BPS: u64 = 100;

/// What the liqor will trade in one execution.
#[derive(Clone, Copy, PartialEq, Eq, Structural, Debug)]
pub struct LiqorExecution {
    pub max_buy_token_to_liqee: u64,
    pub max_sell_token_to_liqor: u64,
    /// The quote amount the swap could be at.
    pub volume: Fixed,
}

/// The liqor's buy limit before the liqee's: its swap-source limit and its
/// maximal take in quote, converted to buy tokens, rounded down and clamped.
pub open spec fn liqor_buy_limit(max_swap_source: int, max_trigger_quote_amount: u64, buy_token_price: int) -> int {
    clamp_u64_spec(min_int(max_swap_source, div_bits_spec(max_trigger_quote_amount * scale(), buy_token_price)))
}

/// The most buy tokens the liqor hands to the liqee.
pub open spec fn max_buy_to_liqee(
    max_swap_source: int,
    max_trigger_quote_amount: u64,
    buy_token_price: int,
    liqee_max_buy: u64,
) -> int {
    min_int(liqor_buy_limit(max_swap_source, max_trigger_quote_amount, buy_token_price), liqee_max_buy as int)
}

/// The inputs on which `liqor_execution_limits` computes without a panic.
pub open spec fn liqor_execution_defined(
    max_swap_source: int,
    max_trigger_quote_amount: u64,
    buy_token_price: int,
    sell_token_price: int,
    liqee_max_buy: u64,
    liqee_max_sell: u64,
) -> bool {
    &&& buy_token_price != 0
    &&& fits_i128(div_bits_spec(max_trigger_quote_amount * scale(), buy_token_price))
    &&& fits_i128(quote_value(
        max_buy_to_liqee(max_swap_source, max_trigger_quote_amount, buy_token_price, liqee_max_buy),
        buy_token_price,
    ))
    &&& fits_i128(quote_value(liqee_max_sell as int, sell_token_price))
}

/// The liqor's execution, or `None` when either side is zero.
pub open spec fn liqor_execution_spec(
    max_swap_source: int,
    max_trigger_quote_amount: u64,
    buy_token_price: int,
    sell_token_price: int,
    liqee_max_buy: u64,
    liqee_max_sell: u64,
) -> Option<(int, int, int)> {
    let max_buy = max_buy_to_liqee(max_swap_source, max_trigger_quote_amount, buy_token_price, liqee_max_buy);
    if liqee_max_sell == 0 || max_buy == 0 {
        None
    } else {
        Some((
            max_buy,
            liqee_max_sell as int,
            min_int(quote_value(max_buy, buy_token_price), quote_value(liqee_max_sell as int, sell_token_price)),
        ))
    }
}

/// Adds the liqor's requirements to the liqee's maximal execution
/// `(liqee_max_buy, liqee_max_sell)`: the liqor only swaps what its health
/// allows (`max_swap_source`, in buy tokens) and at most
/// `max_trigger_quote_amount` in quote. Returns `None` when nothing would be
/// bought or sold, else the amounts and the quote volume of the swap.
pub fn liqor_execution_limits(
    max_swap_source: Fixed,
    max_trigger_quote_amount: u64,
    buy_token_price: Fixed,
    sell_token_price: Fixed,
    liqee_max_buy: u64,
    liqee_max_sell: u64,
) -> (r: Option<LiqorExecution>)
    requires
        liqor_execution_defined(
            max_swap_source.val(),
            max_trigger_quote_amount,
            buy_token_price.val(),
            sell_token_price.val(),
            liqee_max_buy,
            liqee_max_sell,
        ),
    ensures
        match r {
            Some(e) => liqor_execution_spec(
                max_swap_source.val(),
                max_trigger_quote_amount,
                buy_token_price.val(),
                sell_token_price.val(),
                liqee_max_buy,
                liqee_max_sell,
            ) == Some((e.max_buy_token_to_liqee as int, e.max_sell_token_to_liqor as int, e.volume.val())),
            None => liqor_execution_spec(
                max_swap_source.val(),
                max_trigger_quote_amount,
                buy_token_price.val(),
                sell_token_price.val(),
                liqee_max_buy,
                liqee_max_sell,
            ) is None,
        },
        // the liqor buys a positive whole number of tokens within the liqee's
        // limit, its swap-source limit and (at a positive price) its quote cap,
        // sells what the liqee allows, and the volume is the smaller side value
        r matches Some(e) ==> {
            &&& 0 < e.max_buy_token_to_liqee <= liqee_max_buy
            &&& e.max_buy_token_to_liqee * scale() <= max_swap_source.val()
            &&& buy_token_price.val() > 0 ==> e.max_buy_token_to_liqee * buy_token_price.val()
                <= max_trigger_quote_amount * scale()
            &&& e.max_sell_token_to_liqor == liqee_max_sell > 0
            &&& e.volume.val() == min_int(
                e.max_buy_token_to_liqee * buy_token_price.val(),
                e.max_sell_token_to_liqor * sell_token_price.val(),
            )
        },
        // it buys as much as those limits allow
        r matches Some(e) ==> buy_token_price.val() > 0 ==> {
            ||| e.max_buy_token_to_liqee == liqee_max_buy
            ||| e.max_buy_token_to_liqee == u64::MAX
            ||| (e.max_buy_token_to_liqee + 1) * scale() > max_swap_source.val()
            ||| (e.max_buy_token_to_liqee + 1) * buy_token_price.val() > max_trigger_quote_amount * scale()
        },
        // nothing is traded only when one of the limits allows no whole token
        buy_token_price.val() > 0 && r is None ==> {
            ||| liqee_max_sell == 0
            ||| liqee_max_buy == 0
            ||| max_swap_source.val() < scale()
            ||| max_trigger_quote_amount * scale() < buy_token_price.val()
        },
{
    let max_take_quote = Fixed::from_u64(max_trigger_quote_amount);
    let take_limit = max_take_quote.quotient(buy_token_price);
    let liqor_limit = max_swap_source.min(take_limit).clamp_to_u64();
    let max_buy = if liqor_limit <= liqee_max_buy { liqor_limit } else { liqee_max_buy };
    let max_sell = liqee_max_sell;
    proof {
        lemma_int_floor(max_swap_source.val());
        lemma_int_floor(take_limit.val());
        if buy_token_price.val() > 0 {
            assert(max_trigger_quote_amount * scale() >= 0) by (nonlinear_arith)
                requires scale() > 0;
            lemma_tokens_at_price(max_trigger_quote_amount * scale(), buy_token_price.val());
            let a = int_floor(take_limit.val());
            if max_buy > 0 {
                assert(max_buy <= a);
                assert(max_buy * buy_token_price.val() <= a * buy_token_price.val()) by (nonlinear_arith)
                    requires max_buy <= a, buy_token_price.val() > 0;
            }
            if max_buy < liqee_max_buy && max_buy < u64::MAX && int_floor(take_limit.val()) <= int_floor(max_swap_source.val()) {
                assert(max_buy == a);
            }
            if max_buy == 0 && liqee_max_buy > 0 {
                assert(liqor_limit == 0);
                if take_limit.val() <= max_swap_source.val() {
                    assert(int_floor(take_limit.val()) <= 0);
                    assert(a == 0);
                    assert((a + 1) * buy_token_price.val() == buy_token_price.val()) by (nonlinear_arith)
                        requires a == 0;
                    assert(max_trigger_quote_amount * scale() < buy_token_price.val());
                } else {
                    assert(int_floor(max_swap_source.val()) <= 0);
                    assert(max_swap_source.val() < scale());
                }
            }
        }
    }
    if max_sell == 0 || max_buy == 0 {
        return None;
    }
    proof {
        lemma_quote_value_exact(max_buy as int, buy_token_price.val());
        lemma_quote_value_exact(max_sell as int, sell_token_price.val());
    }
    let buy_value = Fixed::from_u64(max_buy).product(buy_token_price);
    let sell_value = Fixed::from_u64(max_sell).product(sell_token_price);
    Some(LiqorExecution {
        max_buy_token_to_liqee: max_buy,
        max_sell_token_to_liqor: max_sell,
        volume: buy_value.min(sell_value),
    })
}

/// The jupiter quotes to request before an execution.
#[derive(Clone, Copy, PartialEq, Eq, Structural, Debug)]
pub enum QuotePlan {
    /// One quote selling `amount` sell tokens for buy tokens. With
    /// `execute` false the quote only checks profitability.
    Direct { amount: u64, slippage_bps: u64, execute: bool },
    /// Two quotes through the collateral token: collateral for buy tokens,
    /// spending at most `buy_cost` collateral (this one is executed), and
    /// `sell_amount` sell tokens for collateral.
    ViaCollateral { collateral_token_index: TokenIndex, buy_cost: u64, sell_amount: u64, slippage_bps: u64 },
}

/// The inputs on which `plan_jupiter_quotes` computes without a panic.
pub open spec fn quote_plan_defined(mode: JupiterMode, volume: int, sell_token_price: int, collateral_price: Option<Fixed>) -> bool {
    &&& sell_token_price != 0
    &&& fits_i128(div_bits_spec(volume, sell_token_price))
    &&& match mode {
        JupiterMode::SwapBuy { .. } => match collateral_price {
            Some(p) => p.val() != 0 && fits_i128(div_bits_spec(volume, p.val())),
            None => false,
        },
        _ => true,
    }
}

/// The quotes that `mode` asks for at `volume`.
pub open spec fn quote_plan_spec(mode: JupiterMode, volume: int, sell_token_price: int, collateral_price: Option<Fixed>) -> QuotePlan {
    let sell_amount = clamp_u64_spec(div_bits_spec(volume, sell_token_price)) as u64;
    match mode {
        JupiterMode::NoSwap => QuotePlan::Direct { amount: sell_amount, slippage_bps: CHECK_ONLY_SLIPPAGE_BPS, execute: false },
        JupiterMode::SwapBuySell { slippage_bps } => QuotePlan::Direct { amount: sell_amount, slippage_bps, execute: true },
        JupiterMode::SwapBuy { slippage_bps, collateral_token_index } => QuotePlan::ViaCollateral {
            collateral_token_index,
            buy_cost: clamp_u64_spec(div_bits_spec(volume, collateral_price.unwrap().val())) as u64,
            sell_amount,
            slippage_bps,
        },
    }
}

/// The whole tokens an amount buys at a positive price, clamped into `u64`:
/// worth at most the amount, and one more would be worth more unless clamped.
proof fn lemma_whole_tokens(amount: int, price: int)
    requires
        amount >= 0,
        price > 0,
    ensures
        clamp_u64_spec(div_bits_spec(amount, price)) * price <= amount,
        clamp_u64_spec(div_bits_spec(amount, price)) < u64::MAX
            ==> amount < (clamp_u64_spec(div_bits_spec(amount, price)) + 1) * price,
{
    lemma_tokens_at_price(amount, price);
    let a = int_floor(div_bits_spec(amount, price));
    let c = clamp_u64_spec(div_bits_spec(amount, price));
    if a > u64::MAX {
        assert(c * price <= amount) by (nonlinear_arith)
            requires c < a, a * price <= amount, price > 0;
    }
}

/// Which jupiter quotes check (and possibly carry out) the reverse trade
/// of an execution of quote `volume`. `collateral_price` is the price of
/// the collateral token, which only `SwapBuy` reads.
pub fn plan_jupiter_quotes(
    mode: &JupiterMode,
    volume: Fixed,
    sell_token_price: Fixed,
    collateral_price: Option<Fixed>,
) -> (r: QuotePlan)
    requires
        quote_plan_defined(*mode, volume.val(), sell_token_price.val(), collateral_price),
    ensures
        r == quote_plan_spec(*mode, volume.val(), sell_token_price.val(), collateral_price),
        // which quotes each mode asks for
        *mode == JupiterMode::NoSwap ==> (r matches QuotePlan::Direct { slippage_bps, execute, .. }
            && slippage_bps == CHECK_ONLY_SLIPPAGE_BPS && !execute),
        mode matches JupiterMode::SwapBuySell { slippage_bps } ==> (r matches QuotePlan::Direct { slippage_bps: s, execute, .. }
            && s == slippage_bps && execute),
        mode matches JupiterMode::SwapBuy { slippage_bps, collateral_token_index } ==>
            (r matches QuotePlan::ViaCollateral { collateral_token_index: c, slippage_bps: s, .. }
            && c == collateral_token_index && s == slippage_bps),
        // the sell amount is the most whole sell tokens worth at most the volume
        volume.val() >= 0 && sell_token_price.val() > 0 ==> {
            let sold = match r {
                QuotePlan::Direct { amount, .. } => amount,
                QuotePlan::ViaCollateral { sell_amount, .. } => sell_amount,
            };
            &&& sold * sell_token_price.val() <= volume.val()
            &&& sold < u64::MAX ==> volume.val() < (sold + 1) * sell_token_price.val()
        },
        // the collateral spent is the most whole collateral tokens worth at most the volume
        r matches QuotePlan::ViaCollateral { buy_cost, .. } ==> (collateral_price matches Some(p) ==> (
            volume.val() >= 0 && p.val() > 0 ==> {
            &&& buy_cost * p.val() <= volume.val()
            &&& buy_cost < u64::MAX ==> volume.val() < (buy_cost + 1) * p.val()
        })),
{
    let sell_amount = volume.quotient(sell_token_price).clamp_to_u64();
    proof {
        if volume.val() >= 0 && sell_token_price.val() > 0 {
            lemma_whole_tokens(volume.val(), sell_token_price.val());
        }
        if volume.val() >= 0 && collateral_price is Some && collateral_price->Some_0.val() > 0 {
            lemma_whole_tokens(volume.val(), collateral_price->Some_0.val());
        }
    }
    match mode {
        JupiterMode::NoSwap => QuotePlan::Direct {
            amount: sell_amount,
            slippage_bps: CHECK_ONLY_SLIPPAGE_BPS,
            execute: false,
        },
        JupiterMode::SwapBuySell { slippage_bps } => QuotePlan::Direct {
            amount: sell_amount,
            slippage_bps: *slippage_bps,
            execute: true,
        },
        JupiterMode::SwapBuy { slippage_bps, collateral_token_index } => {
            let price = match collateral_price {
                Some(p) => p,
                None => Fixed::zero(),
            };
            QuotePlan::ViaCollateral {
                collateral_token_index: *collateral_token_index,
                buy_cost: volume.quotient(price).clamp_to_u64(),
                sell_amount,
                slippage_bps: *slippage_bps,
            }
        },
    }
}

/// The integer part of a prepared execution: what the scheduler and the
/// trigger instruction read.
#[derive(Clone, PartialEq, Eq, Debug)]
pub struct PreparedJob {
    pub pubkey: Key,
    pub tcs_id: u64,
    pub volume: u64,
    pub token_indexes: Vec<TokenIndex>,
    pub max_buy_token_to_liqee: u64,
    pub max_sell_token_to_liqor: u64,
    pub min_buy_token: u64,
}

/// The job that closes an expired tcs: it trades nothing and does not
/// affect the liqor.
pub fn close_expired_job(pubkey: Key, tcs_id: u64) -> (r: PreparedJob)
    ensures
        r.pubkey == pubkey,
        r.tcs_id == tcs_id,
        r.volume == 0,
        r.token_indexes@.len() == 0,
        r.max_buy_token_to_liqee == 0,
        r.max_sell_token_to_liqor == 0,
        r.min_buy_token == 0,
{
    PreparedJob {
        pubkey,
        tcs_id,
        volume: 0,
        token_indexes: Vec::new(),
        max_buy_token_to_liqee: 0,
        max_sell_token_to_liqor: 0,
        min_buy_token: 0,
    }
}

/// The job that triggers a tcs with the liqor's execution `e`: its volume
/// is the execution's quote volume rounded down and clamped into `u64`, and
/// it touches the buy and the sell token, in that order.
pub fn trigger_job(
    pubkey: Key,
    tcs_id: u64,
    buy_token_index: TokenIndex,
    sell_token_index: TokenIndex,
    e: &LiqorExecution,
    min_buy_token: u64,
) -> (r: PreparedJob)
    ensures
        r.pubkey == pubkey,
        r.tcs_id == tcs_id,
        r.volume == clamp_u64_spec(e.volume.val()),
        r.token_indexes@ == seq![buy_token_index, sell_token_index],
        r.max_buy_token_to_liqee == e.max_buy_token_to_liqee,
        r.max_sell_token_to_liqor == e.max_sell_token_to_liqor,
        r.min_buy_token == min_buy_token,
{
    let mut token_indexes: Vec<TokenIndex> = Vec::new();
    token_indexes.push(buy_token_index);
    token_indexes.push(sell_token_index);
    PreparedJob {
        pubkey,
        tcs_id,
        volume: e.volume.clamp_to_u64(),
        token_indexes,
        max_buy_token_to_liqee: e.max_buy_token_to_liqee,
        max_sell_token_to_liqor: e.max_sell_token_to_liqor,
        min_buy_token,
    }
}

} // verus!

verus! {

/// The liqor never hands the liqee more buy tokens than the liqee's own
/// limit allows, nor more than its swap-source and quote limits allow,
/// and an execution always trades a positive amount on both sides.
pub proof fn lemma_liqor_respects_limits(
    max_swap_source: int,
    max_trigger_quote_amount: u64,
    buy_token_price: int,
    sell_token_price: int,
    liqee_max_buy: u64,
    liqee_max_sell: u64,
)
    ensures
        liqor_execution_spec(
            max_swap_source, max_trigger_quote_amount, buy_token_price, sell_token_price, liqee_max_buy, liqee_max_sell,
        ) matches Some((b, s, v)) ==> {
            &&& 0 < b <= liqee_max_buy
            &&& b <= liqor_buy_limit(max_swap_source, max_trigger_quote_amount, buy_token_price)
            &&& 0 < s == liqee_max_sell
            &&& v <= quote_value(b, buy_token_price)
            &&& v <= quote_value(s, sell_token_price)
        },
{
}

} // verus!
