//! Constant-product quoting for PumpSwap pools, including LP, protocol and
//! coin-creator fees and slippage bounds.

use vstd::prelude::*;

use crate::calc::{
    calculate_with_slippage_buy, calculate_with_slippage_sell, ceil_div, compute_fee,
    spec_ceil_div, spec_compute_fee, spec_slippage_buy, spec_slippage_sell,
};
use crate::pubkey::{zero_key_bytes, Pubkey};

verus! {

/// LP fee of a PumpSwap pool, in basis points.
pub const LP_FEE_BASIS_POINTS: u64 = 20;

/// Protocol fee of a PumpSwap pool, in basis points.
pub const PROTOCOL_FEE_BASIS_POINTS: u64 = 5;

/// Coin-creator fee of a PumpSwap pool, in basis points (charged only when the coin has a creator).
pub const COIN_CREATOR_FEE_BASIS_POINTS: u64 = 5;

/// Upper bound of a fee in basis points (100%).
pub const MAX_FEE_BASIS_POINTS: u64 = 10_000;

/// Result for buying base tokens with base amount input.
#[derive(Clone, Debug)]
pub struct BuyBaseInputResult {
    /// Raw quote amount needed before fees
    pub internal_quote_amount: u64,
    /// Total quote amount including all fees
    pub ui_quote: u64,
    /// Maximum quote amount with slippage protection
    pub max_quote: u64,
}

/// Result for buying base tokens with quote amount input.
#[derive(Clone, Debug)]
pub struct BuyQuoteInputResult {
    /// Amount of base tokens received
    pub base: u64,
    /// Effective quote amount after fee deduction
    pub internal_quote_without_fees: u64,
    /// Maximum quote amount with slippage protection
    pub max_quote: u64,
}

/// Result for selling base tokens with base amount input.
#[derive(Clone, Debug)]
pub struct SellBaseInputResult {
    /// Final quote amount received after fees
    pub ui_quote: u64,
    /// Minimum quote amount with slippage protection
    pub min_quote: u64,
    /// Raw quote amount before fee deduction
    pub internal_quote_amount_out: u64,
}

/// Result for selling base tokens with quote amount input.
#[derive(Clone, Debug)]
pub struct SellQuoteInputResult {
    /// Raw quote amount including fees
    pub internal_raw_quote: u64,
    /// Amount of base tokens needed to sell
    pub base: u64,
    /// Minimum quote amount with slippage protection
    pub min_quote: u64,
}

/// Creator fee rate that applies to a coin: none for the all-zero creator.
pub open spec fn creator_fee_bps(coin_creator: Seq<u8>) -> int {
    if coin_creator == zero_key_bytes() {
        0
    } else {
        COIN_CREATOR_FEE_BASIS_POINTS as int
    }
}

/// All fees charged on a quote amount `q` (each rounded up).
pub open spec fn total_fees_on(q: int, coin_creator: Seq<u8>) -> int {
    spec_compute_fee(q, LP_FEE_BASIS_POINTS as int) + spec_compute_fee(
        q,
        PROTOCOL_FEE_BASIS_POINTS as int,
    ) + spec_compute_fee(q, creator_fee_bps(coin_creator))
}

// ---------------------------------------------------------------- buy base

/// Quote needed (before fees) to take `base` out of the pool, truncated to 64 bits.
pub open spec fn buy_base_quote_in(base: u64, base_reserve: u64, quote_reserve: u64) -> int {
    (spec_ceil_div(quote_reserve * base, base_reserve - base) as u128) as u64 as int
}

/// Quote needed including fees.
pub open spec fn buy_base_total(
    base: u64,
    base_reserve: u64,
    quote_reserve: u64,
    coin_creator: Seq<u8>,
) -> int {
    let q = buy_base_quote_in(base, base_reserve, quote_reserve);
    q + total_fees_on(q, coin_creator)
}

/// The amounts of a base-input buy stay within 64 bits (the quote cannot overflow).
pub open spec fn buy_base_fits(
    base: u64,
    slippage_basis_points: u64,
    base_reserve: u64,
    quote_reserve: u64,
    coin_creator: Seq<u8>,
) -> bool {
    let total = buy_base_total(base, base_reserve, quote_reserve, coin_creator);
    &&& total <= u64::MAX
    &&& total * slippage_basis_points <= u64::MAX
    &&& spec_slippage_buy(total, slippage_basis_points as int) <= u64::MAX
}

/// The product of two 64-bit values, plus a 64-bit value, fits in 128 bits.
pub proof fn lemma_u64_product_fits(a: u64, b: u64)
    ensures
        a * b + u64::MAX <= u128::MAX,
        0 <= a * b,
{
    assert(a * b <= u64::MAX * u64::MAX) by (nonlinear_arith)
        requires
            a <= u64::MAX,
            b <= u64::MAX,
    ;
}

proof fn lemma_fee_small(q: int, bps: int)
    requires
        0 <= q <= u64::MAX,
        0 <= bps <= 10,
    ensures
        0 <= spec_compute_fee(q, bps) <= q / 1000 + 1,
        q * bps + 9_999 <= u128::MAX,
{
    assert(0 <= q * bps <= q * 10) by (nonlinear_arith)
        requires
            0 <= q,
            0 <= bps <= 10,
    ;
    assert(0 <= (q * bps + 9_999) / 10_000 <= q / 1000 + 1) by (nonlinear_arith)
        requires
            0 <= q * bps <= q * 10,
            0 <= q,
    ;
}

proof fn lemma_fee_small_lp(q: int)
    requires
        0 <= q <= u64::MAX,
    ensures
        0 <= spec_compute_fee(q, 20) <= q / 500 + 1,
        q * 20 + 9_999 <= u128::MAX,
{
    assert(0 <= (q * 20 + 9_999) / 10_000 <= q / 500 + 1) by (nonlinear_arith)
        requires
            0 <= q,
    ;
}

/// Calculate quote amount needed to buy a specific amount of base tokens.
pub fn buy_base_input_internal(
    base: u64,
    slippage_basis_points: u64,
    base_reserve: u64,
    quote_reserve: u64,
    coin_creator: &Pubkey,
) -> (r: Result<BuyBaseInputResult, String>)
    requires
        base_reserve != 0 && quote_reserve != 0 && base < base_reserve ==> buy_base_fits(
            base,
            slippage_basis_points,
            base_reserve,
            quote_reserve,
            coin_creator@,
        ),
    ensures
        base_reserve == 0 || quote_reserve == 0 ==> (r matches Err(e)
            && e@ == "Invalid input: 'baseReserve' or 'quoteReserve' cannot be zero."@),
        base_reserve != 0 && quote_reserve != 0 && base > base_reserve ==> (r matches Err(e)
            && e@ == "Cannot buy more base tokens than the pool reserves."@),
        base_reserve != 0 && quote_reserve != 0 && base == base_reserve ==> (r matches Err(e)
            && e@ == "Pool would be depleted; denominator is zero."@),
        base_reserve != 0 && quote_reserve != 0 && base < base_reserve ==> (r matches Ok(v) && {
            let q = buy_base_quote_in(base, base_reserve, quote_reserve);
            let total = buy_base_total(base, base_reserve, quote_reserve, coin_creator@);
            &&& v.internal_quote_amount == q
            &&& v.ui_quote == total
            &&& v.max_quote == spec_slippage_buy(total, slippage_basis_points as int)
        }),
        r matches Ok(v) ==> (quote_reserve * base <= u64::MAX * (base_reserve - base) ==> {
            &&& v.internal_quote_amount * (base_reserve - base) >= quote_reserve * base
            &&& v.internal_quote_amount == 0 || (v.internal_quote_amount - 1) * (base_reserve - base)
                < quote_reserve * base
        }),
{
    proof {
        if base < base_reserve && quote_reserve * base <= u64::MAX * (base_reserve - base) {
            law_buy_base_quote_is_least_cover(base, base_reserve, quote_reserve);
        }
    }
    if base_reserve == 0 || quote_reserve == 0 {
        return Err("Invalid input: 'baseReserve' or 'quoteReserve' cannot be zero.".to_owned());
    }
    if base > base_reserve {
        return Err("Cannot buy more base tokens than the pool reserves.".to_owned());
    }
    proof {
        lemma_u64_product_fits(quote_reserve, base);
    }
    let numerator: u128 = (quote_reserve as u128) * (base as u128);
    let denominator: u64 = base_reserve - base;
    if denominator == 0 {
        return Err("Pool would be depleted; denominator is zero.".to_owned());
    }
    let quote_amount_in: u64 = #[verifier::truncate] (ceil_div(numerator, denominator as u128) as u64);
    proof {
        lemma_fee_small_lp(quote_amount_in as int);
        lemma_fee_small(quote_amount_in as int, 5);
    }
    let lp_fee: u64 = compute_fee(quote_amount_in as u128, LP_FEE_BASIS_POINTS as u128) as u64;
    let protocol_fee: u64 = compute_fee(
        quote_amount_in as u128,
        PROTOCOL_FEE_BASIS_POINTS as u128,
    ) as u64;
    let coin_creator_fee: u64 = if coin_creator.is_default() {
        proof {
            assert(spec_compute_fee(quote_amount_in as int, 0) == 0);
        }
        0
    } else {
        compute_fee(quote_amount_in as u128, COIN_CREATOR_FEE_BASIS_POINTS as u128) as u64
    };
    let total_quote: u64 = quote_amount_in + lp_fee + protocol_fee + coin_creator_fee;
    let max_quote = calculate_with_slippage_buy(total_quote, slippage_basis_points);
    Ok(BuyBaseInputResult { internal_quote_amount: quote_amount_in, ui_quote: total_quote, max_quote })
}

// ---------------------------------------------------------------- buy quote

/// Total fee rate applied to the quote of a buy, in basis points.
pub open spec fn buy_total_fee_bps(coin_creator: Seq<u8>) -> int {
    LP_FEE_BASIS_POINTS + PROTOCOL_FEE_BASIS_POINTS + creator_fee_bps(coin_creator)
}

/// Quote left for the swap once fees are set aside.
pub open spec fn buy_quote_effective(quote: u64, coin_creator: Seq<u8>) -> int {
    (quote * 10_000) / (10_000 + buy_total_fee_bps(coin_creator))
}

/// Base tokens bought for `quote` by the constant-product formula.
pub open spec fn buy_quote_base_out(
    quote: u64,
    base_reserve: u64,
    quote_reserve: u64,
    coin_creator: Seq<u8>,
) -> int {
    let eff = buy_quote_effective(quote, coin_creator);
    (base_reserve * eff) / (quote_reserve + eff)
}

/// Calculate base tokens received for a specific quote amount.
pub fn buy_quote_input_internal(
    quote: u64,
    slippage_basis_points: u64,
    base_reserve: u64,
    quote_reserve: u64,
    coin_creator: &Pubkey,
) -> (r: Result<BuyQuoteInputResult, String>)
    requires
        base_reserve != 0 && quote_reserve != 0 ==> {
            &&& quote * slippage_basis_points <= u64::MAX
            &&& spec_slippage_buy(quote as int, slippage_basis_points as int) <= u64::MAX
        },
    ensures
        base_reserve == 0 || quote_reserve == 0 ==> (r matches Err(e)
            && e@ == "Invalid input: 'baseReserve' or 'quoteReserve' cannot be zero."@),
        base_reserve != 0 && quote_reserve != 0 ==> (r matches Ok(v) && {
            &&& v.base == buy_quote_base_out(quote, base_reserve, quote_reserve, coin_creator@)
            &&& v.internal_quote_without_fees == buy_quote_effective(quote, coin_creator@)
            &&& v.max_quote == spec_slippage_buy(quote as int, slippage_basis_points as int)
        }),
        r matches Ok(v) ==> {
            let eff = v.internal_quote_without_fees;
            &&& eff * (10_000 + buy_total_fee_bps(coin_creator@)) <= quote * 10_000
            &&& quote * 10_000 < (eff + 1) * (10_000 + buy_total_fee_bps(coin_creator@))
            &&& v.base * (quote_reserve + eff) <= base_reserve * eff
            &&& base_reserve * eff < (v.base + 1) * (quote_reserve + eff)
        },
{
    proof {
        if quote_reserve > 0 {
            law_buy_quote_constant_product(quote, base_reserve, quote_reserve, coin_creator@);
        }
    }
    if base_reserve == 0 || quote_reserve == 0 {
        return Err("Invalid input: 'baseReserve' or 'quoteReserve' cannot be zero.".to_owned());
    }
    let creator_bps: u64 = if coin_creator.is_default() {
        0
    } else {
        COIN_CREATOR_FEE_BASIS_POINTS
    };
    let total_fee_bps: u64 = LP_FEE_BASIS_POINTS + PROTOCOL_FEE_BASIS_POINTS + creator_bps;
    let denominator: u64 = 10_000 + total_fee_bps;
    proof {
        lemma_u64_product_fits(quote, 10_000);
    }
    let effective_quote: u128 = (quote as u128 * 10_000) / denominator as u128;
    proof {
        assert(effective_quote <= quote) by (nonlinear_arith)
            requires
                effective_quote == (quote * 10_000) / (denominator as int),
                denominator >= 10_000,
                quote >= 0,
        ;
        lemma_u64_product_fits(base_reserve, effective_quote as u64);
    }
    let numerator: u128 = (base_reserve as u128) * effective_quote;
    let denominator_effective: u128 = (quote_reserve as u128) + effective_quote;
    if denominator_effective == 0 {
        return Err("Pool would be depleted; denominator is zero.".to_owned());
    }
    proof {
        assert(numerator / denominator_effective <= base_reserve) by (nonlinear_arith)
            requires
                numerator == base_reserve * effective_quote,
                denominator_effective >= effective_quote,
                denominator_effective > 0,
                effective_quote >= 0,
                base_reserve >= 0,
        ;
    }
    let base_amount_out: u64 = (numerator / denominator_effective) as u64;
    let max_quote = calculate_with_slippage_buy(quote, slippage_basis_points);
    Ok(BuyQuoteInputResult {
        base: base_amount_out,
        internal_quote_without_fees: effective_quote as u64,
        max_quote,
    })
}

// ---------------------------------------------------------------- sell base

/// Quote paid out (before fees) for `base` by the constant-product formula.
pub open spec fn sell_base_quote_out(base: u64, base_reserve: u64, quote_reserve: u64) -> int {
    (quote_reserve * base) / (base_reserve + base)
}

/// Quote paid out once fees are deducted.
pub open spec fn sell_base_final(
    base: u64,
    base_reserve: u64,
    quote_reserve: u64,
    coin_creator: Seq<u8>,
) -> int {
    let q = sell_base_quote_out(base, base_reserve, quote_reserve);
    q - total_fees_on(q, coin_creator)
}

/// Calculate quote tokens received for selling a specific amount of base tokens.
pub fn sell_base_input_internal(
    base: u64,
    slippage_basis_points: u64,
    base_reserve: u64,
    quote_reserve: u64,
    coin_creator: &Pubkey,
) -> (r: Result<SellBaseInputResult, String>)
    requires
        base_reserve != 0 && quote_reserve != 0 && sell_base_final(
            base,
            base_reserve,
            quote_reserve,
            coin_creator@,
        ) >= 0 ==> ({
            let f = sell_base_final(base, base_reserve, quote_reserve, coin_creator@);
            &&& f * slippage_basis_points <= u64::MAX
            &&& f <= slippage_basis_points / 10_000 || f * slippage_basis_points / 10_000 <= f
        }),
    ensures
        base_reserve == 0 || quote_reserve == 0 ==> (r matches Err(e)
            && e@ == "Invalid input: 'baseReserve' or 'quoteReserve' cannot be zero."@),
        base_reserve != 0 && quote_reserve != 0 && sell_base_final(
            base,
            base_reserve,
            quote_reserve,
            coin_creator@,
        ) < 0 ==> (r matches Err(e) && e@ == "Fees exceed total output; final quote is negative."@),
        base_reserve != 0 && quote_reserve != 0 && sell_base_final(
            base,
            base_reserve,
            quote_reserve,
            coin_creator@,
        ) >= 0 ==> (r matches Ok(v) && {
            let f = sell_base_final(base, base_reserve, quote_reserve, coin_creator@);
            &&& v.internal_quote_amount_out == sell_base_quote_out(base, base_reserve, quote_reserve)
            &&& v.ui_quote == f
            &&& v.min_quote == spec_slippage_sell(f, slippage_basis_points as int)
        }),
        r matches Ok(v) ==> {
            &&& v.internal_quote_amount_out * (base_reserve + base) <= quote_reserve * base
            &&& quote_reserve * base < (v.internal_quote_amount_out + 1) * (base_reserve + base)
        },
{
    proof {
        if base_reserve > 0 {
            law_sell_base_constant_product(base, base_reserve, quote_reserve);
        }
    }
    if base_reserve == 0 || quote_reserve == 0 {
        return Err("Invalid input: 'baseReserve' or 'quoteReserve' cannot be zero.".to_owned());
    }
    proof {
        lemma_u64_product_fits(quote_reserve, base);
    }
    let numerator: u128 = (quote_reserve as u128) * (base as u128);
    let denominator: u128 = (base_reserve as u128) + (base as u128);
    proof {
        assert(numerator / denominator <= quote_reserve) by (nonlinear_arith)
            requires
                numerator == quote_reserve * base,
                denominator >= base,
                denominator > 0,
                base >= 0,
                quote_reserve >= 0,
        ;
    }
    let quote_amount_out: u64 = (numerator / denominator) as u64;
    proof {
        lemma_fee_small_lp(quote_amount_out as int);
        lemma_fee_small(quote_amount_out as int, 5);
    }
    let lp_fee: u64 = compute_fee(quote_amount_out as u128, LP_FEE_BASIS_POINTS as u128) as u64;
    let protocol_fee: u64 = compute_fee(
        quote_amount_out as u128,
        PROTOCOL_FEE_BASIS_POINTS as u128,
    ) as u64;
    let coin_creator_fee: u64 = if coin_creator.is_default() {
        proof {
            assert(spec_compute_fee(quote_amount_out as int, 0) == 0);
        }
        0
    } else {
        compute_fee(quote_amount_out as u128, COIN_CREATOR_FEE_BASIS_POINTS as u128) as u64
    };
    let total_fees: u64 = lp_fee + protocol_fee + coin_creator_fee;
    if total_fees > quote_amount_out {
        return Err("Fees exceed total output; final quote is negative.".to_owned());
    }
    let final_quote: u64 = quote_amount_out - total_fees;
    let min_quote = calculate_with_slippage_sell(final_quote, slippage_basis_points);
    Ok(SellBaseInputResult {
        ui_quote: final_quote,
        min_quote,
        internal_quote_amount_out: quote_amount_out,
    })
}

// ---------------------------------------------------------------- sell quote

/// Gross quote needed so that `user_quote_amount_out` remains after the given fees.
pub open spec fn spec_quote_amount_out(
    user_quote_amount_out: u64,
    lp_fee_basis_points: u64,
    protocol_fee_basis_points: u64,
    coin_creator_fee_basis_points: u64,
) -> int {
    let total = lp_fee_basis_points + protocol_fee_basis_points + coin_creator_fee_basis_points;
    (spec_ceil_div(user_quote_amount_out * 10_000, 10_000 - total) as u128) as u64 as int
}

/// Calculate quote amount out including fees.
fn calculate_quote_amount_out(
    user_quote_amount_out: u64,
    lp_fee_basis_points: u64,
    protocol_fee_basis_points: u64,
    coin_creator_fee_basis_points: u64,
) -> (r: u64)
    requires
        lp_fee_basis_points + protocol_fee_basis_points + coin_creator_fee_basis_points
            < MAX_FEE_BASIS_POINTS,
    ensures
        r == spec_quote_amount_out(
            user_quote_amount_out,
            lp_fee_basis_points,
            protocol_fee_basis_points,
            coin_creator_fee_basis_points,
        ),
{
    let total_fee_basis_points = lp_fee_basis_points + protocol_fee_basis_points
        + coin_creator_fee_basis_points;
    let denominator = MAX_FEE_BASIS_POINTS - total_fee_basis_points;
    proof {
        lemma_u64_product_fits(user_quote_amount_out, 10_000);
    }
    #[verifier::truncate]
    (ceil_div(
        (user_quote_amount_out as u128) * (MAX_FEE_BASIS_POINTS as u128),
        denominator as u128,
    ) as u64)
}

/// Gross quote taken from the pool when selling for `quote`.
pub open spec fn sell_quote_raw(quote: u64, coin_creator: Seq<u8>) -> int {
    spec_quote_amount_out(
        quote,
        LP_FEE_BASIS_POINTS,
        PROTOCOL_FEE_BASIS_POINTS,
        creator_fee_bps(coin_creator) as u64,
    )
}

/// Base tokens to sell so the pool pays out `raw` quote, truncated to 64 bits.
pub open spec fn sell_quote_base_in(raw: int, base_reserve: u64, quote_reserve: u64) -> int {
    (spec_ceil_div(base_reserve * raw, quote_reserve - raw) as u128) as u64 as int
}

/// Calculate base tokens needed to receive a specific amount of quote tokens.
pub fn sell_quote_input_internal(
    quote: u64,
    slippage_basis_points: u64,
    base_reserve: u64,
    quote_reserve: u64,
    coin_creator: &Pubkey,
) -> (r: Result<SellQuoteInputResult, String>)
    requires
        base_reserve != 0 && quote_reserve != 0 && quote <= quote_reserve ==> {
            &&& quote * slippage_basis_points <= u64::MAX
            &&& quote <= slippage_basis_points / 10_000 || quote * slippage_basis_points / 10_000
                <= quote
        },
    ensures
        base_reserve == 0 || quote_reserve == 0 ==> (r matches Err(e)
            && e@ == "Invalid input: 'baseReserve' or 'quoteReserve' cannot be zero."@),
        base_reserve != 0 && quote_reserve != 0 && quote > quote_reserve ==> (r matches Err(e)
            && e@ == "Cannot receive more quote tokens than the pool quote reserves."@),
        base_reserve != 0 && quote_reserve != 0 && quote <= quote_reserve && sell_quote_raw(
            quote,
            coin_creator@,
        ) >= quote_reserve ==> (r matches Err(e)
            && e@ == "Invalid input: Desired quote amount exceeds available reserve."@),
        base_reserve != 0 && quote_reserve != 0 && quote <= quote_reserve && sell_quote_raw(
            quote,
            coin_creator@,
        ) < quote_reserve ==> (r matches Ok(v) && {
            let raw = sell_quote_raw(quote, coin_creator@);
            &&& v.internal_raw_quote == raw
            &&& v.base == sell_quote_base_in(raw, base_reserve, quote_reserve)
            &&& v.min_quote == spec_slippage_sell(quote as int, slippage_basis_points as int)
        }),
        r matches Ok(v) ==> (base_reserve * v.internal_raw_quote <= u64::MAX * (quote_reserve - v.internal_raw_quote)
            ==> {
            &&& v.internal_raw_quote < quote_reserve
            &&& v.base * (quote_reserve - v.internal_raw_quote) >= base_reserve * v.internal_raw_quote
            &&& v.base == 0 || (v.base - 1) * (quote_reserve - v.internal_raw_quote) < base_reserve
                * v.internal_raw_quote
        }),
{
    if base_reserve == 0 || quote_reserve == 0 {
        return Err("Invalid input: 'baseReserve' or 'quoteReserve' cannot be zero.".to_owned());
    }
    if quote > quote_reserve {
        return Err("Cannot receive more quote tokens than the pool quote reserves.".to_owned());
    }
    let creator_bps: u64 = if coin_creator.is_default() {
        0
    } else {
        COIN_CREATOR_FEE_BASIS_POINTS
    };
    let raw_quote = calculate_quote_amount_out(
        quote,
        LP_FEE_BASIS_POINTS,
        PROTOCOL_FEE_BASIS_POINTS,
        creator_bps,
    );
    if raw_quote >= quote_reserve {
        return Err("Invalid input: Desired quote amount exceeds available reserve.".to_owned());
    }
    proof {
        lemma_u64_product_fits(base_reserve, raw_quote);
        if base_reserve * raw_quote <= u64::MAX * (quote_reserve - raw_quote) {
            law_sell_quote_base_is_least_cover(raw_quote as int, base_reserve, quote_reserve);
        }
    }
    let base_amount_in: u64 = #[verifier::truncate] (ceil_div(
        (base_reserve as u128) * (raw_quote as u128),
        (quote_reserve - raw_quote) as u128,
    ) as u64);
    let min_quote = calculate_with_slippage_sell(quote, slippage_basis_points);
    Ok(SellQuoteInputResult { internal_raw_quote: raw_quote, base: base_amount_in, min_quote })
}

// ---------------------------------------------------------------- laws

/// Floor division by its defining inequalities: `x / d` is the largest `f` with
/// `f * d <= x`.
pub proof fn lemma_floor_div_bounds(x: int, d: int)
    requires
        x >= 0,
        d > 0,
    ensures
        x / d >= 0,
        (x / d) * d <= x,
        x < (x / d + 1) * d,
{
    vstd::arithmetic::div_mod::lemma_fundamental_div_mod(x, d);
    vstd::arithmetic::div_mod::lemma_mod_pos_bound(x, d);
    let f = x / d;
    let m = x % d;
    assert(f >= 0 && f * d <= x && x < (f + 1) * d) by (nonlinear_arith)
        requires
            x == d * f + m,
            0 <= m < d,
            x >= 0,
            d > 0,
    ;
}

/// A rounded-up quotient of `a <= u64::MAX * b` fits in 64 bits.
proof fn lemma_ceil_fits_u64(a: int, b: int)
    requires
        a >= 0,
        b > 0,
        a <= u64::MAX * b,
    ensures
        0 <= spec_ceil_div(a, b) <= u64::MAX,
        a == 0 ==> spec_ceil_div(a, b) == 0,
        (spec_ceil_div(a, b) as u128) as u64 as int == spec_ceil_div(a, b),
{
    crate::calc::lemma_ceil_div_bounds(a, b);
    let c = spec_ceil_div(a, b);
    if a > 0 {
        assert(c <= u64::MAX) by (nonlinear_arith)
            requires
                (c - 1) * b < a,
                a <= u64::MAX * b,
                b > 0,
        ;
    } else {
        vstd::arithmetic::div_mod::lemma_basic_div(b - 1, b);
    }
}

/// Buying `base` tokens costs the least quote `q` (before fees) that keeps the pool's
/// constant product: `q * (base_reserve - base) >= quote_reserve * base`, over the
/// exact products, whenever that least `q` fits in 64 bits.
pub proof fn law_buy_base_quote_is_least_cover(base: u64, base_reserve: u64, quote_reserve: u64)
    requires
        base < base_reserve,
        quote_reserve * base <= u64::MAX * (base_reserve - base),
    ensures
        ({
            let q = buy_base_quote_in(base, base_reserve, quote_reserve);
            &&& q >= 0
            &&& q * (base_reserve - base) >= quote_reserve * base
            &&& q == 0 || (q - 1) * (base_reserve - base) < quote_reserve * base
        }),
{
    let a = quote_reserve * base;
    let b = base_reserve - base;
    assert(a >= 0) by (nonlinear_arith)
        requires
            a == quote_reserve * base,
            quote_reserve >= 0,
            base >= 0,
    ;
    lemma_ceil_fits_u64(a, b);
    crate::calc::lemma_ceil_div_bounds(a, b);
    let c = spec_ceil_div(a, b);
    assert(buy_base_quote_in(base, base_reserve, quote_reserve) == c);
}

/// Selling for `raw` quote out of the pool takes the least base `b` that keeps the
/// constant product: `b * (quote_reserve - raw) >= base_reserve * raw`, over the exact
/// products, whenever that least `b` fits in 64 bits.
pub proof fn law_sell_quote_base_is_least_cover(raw: int, base_reserve: u64, quote_reserve: u64)
    requires
        0 <= raw < quote_reserve,
        base_reserve * raw <= u64::MAX * (quote_reserve - raw),
    ensures
        ({
            let b = sell_quote_base_in(raw, base_reserve, quote_reserve);
            &&& b >= 0
            &&& b * (quote_reserve - raw) >= base_reserve * raw
            &&& b == 0 || (b - 1) * (quote_reserve - raw) < base_reserve * raw
        }),
{
    let a = base_reserve * raw;
    let d = quote_reserve - raw;
    assert(a >= 0) by (nonlinear_arith)
        requires
            a == base_reserve * raw,
            base_reserve >= 0,
            raw >= 0,
    ;
    lemma_ceil_fits_u64(a, d);
    crate::calc::lemma_ceil_div_bounds(a, d);
    let c = spec_ceil_div(a, d);
    assert(sell_quote_base_in(raw, base_reserve, quote_reserve) == c);
}

/// A quote-input buy: the quote left after fees is `quote * 10_000 / (10_000 + fee
/// rate)` rounded down, and the base received is the constant-product output rounded
/// down, `base * (quote_reserve + eff) <= base_reserve * eff < (base + 1) * (quote_reserve
/// + eff)`, over the exact products; the pool keeps at least its constant product.
pub proof fn law_buy_quote_constant_product(quote: u64, base_reserve: u64, quote_reserve: u64, coin_creator: Seq<u8>)
    requires
        quote_reserve > 0,
    ensures
        ({
            let eff = buy_quote_effective(quote, coin_creator);
            let fee = buy_total_fee_bps(coin_creator);
            let base = buy_quote_base_out(quote, base_reserve, quote_reserve, coin_creator);
            &&& 0 <= eff <= quote
            &&& eff * (10_000 + fee) <= quote * 10_000 < (eff + 1) * (10_000 + fee)
            &&& 0 <= base <= base_reserve
            &&& base * (quote_reserve + eff) <= base_reserve * eff
            &&& base_reserve * eff < (base + 1) * (quote_reserve + eff)
            &&& (base_reserve - base) * (quote_reserve + eff) >= base_reserve * quote_reserve
        }),
{
    let fee = buy_total_fee_bps(coin_creator);
    assert(25 <= fee <= 30);
    assert(quote * 10_000 >= 0) by (nonlinear_arith)
        requires
            quote >= 0,
    ;
    lemma_floor_div_bounds(quote * 10_000, 10_000 + fee);
    let eff = buy_quote_effective(quote, coin_creator);
    assert(eff <= quote) by (nonlinear_arith)
        requires
            eff * (10_000 + fee) <= quote * 10_000,
            fee >= 0,
            eff >= 0,
            quote >= 0,
    ;
    assert(base_reserve * eff >= 0) by (nonlinear_arith)
        requires
            base_reserve >= 0,
            eff >= 0,
    ;
    lemma_floor_div_bounds(base_reserve * eff, quote_reserve + eff);
    let base = buy_quote_base_out(quote, base_reserve, quote_reserve, coin_creator);
    assert(base <= base_reserve && (base_reserve - base) * (quote_reserve + eff) >= base_reserve * quote_reserve)
        by (nonlinear_arith)
        requires
            base * (quote_reserve + eff) <= base_reserve * eff,
            quote_reserve > 0,
            eff >= 0,
            base >= 0,
            base_reserve >= 0,
    ;
}

/// A base-input sell pays out the constant-product output rounded down:
/// `q * (base_reserve + base) <= quote_reserve * base < (q + 1) * (base_reserve + base)`,
/// over the exact products; the pool keeps at least its constant product.
pub proof fn law_sell_base_constant_product(base: u64, base_reserve: u64, quote_reserve: u64)
    requires
        base_reserve + base > 0,
    ensures
        ({
            let q = sell_base_quote_out(base, base_reserve, quote_reserve);
            &&& 0 <= q <= quote_reserve
            &&& q * (base_reserve + base) <= quote_reserve * base
            &&& quote_reserve * base < (q + 1) * (base_reserve + base)
            &&& (quote_reserve - q) * (base_reserve + base) >= quote_reserve * base_reserve
        }),
{
    assert(quote_reserve * base >= 0) by (nonlinear_arith)
        requires
            quote_reserve >= 0,
            base >= 0,
    ;
    lemma_floor_div_bounds(quote_reserve * base, base_reserve + base);
    let q = sell_base_quote_out(base, base_reserve, quote_reserve);
    assert(q <= quote_reserve && (quote_reserve - q) * (base_reserve + base) >= quote_reserve * base_reserve)
        by (nonlinear_arith)
        requires
            q * (base_reserve + base) <= quote_reserve * base,
            base_reserve + base > 0,
            base_reserve >= 0,
            base >= 0,
            q >= 0,
            quote_reserve >= 0,
    ;
}

} // verus!
