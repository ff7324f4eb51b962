//! Trade planning: which mints a buy or sell swaps between, which accounts it
//! creates or closes, and the checks a trade request must pass first.

use vstd::prelude::*;

use crate::bonding_curve::BondingCurveAccount;
use crate::pubkey::{
    sol_token_account, spec_sol_token_account, spec_usd1_token_account, spec_usdc_token_account,
    spec_wsol_token_account, usd1_token_account, usdc_token_account, wsol_token_account, Pubkey,
};
use crate::swqos::TradeType;

verus! {

/// Token paid in a buy or received in a sell.
#[derive(Clone, Copy, Debug, PartialEq, Eq, Structural)]
pub enum TradeTokenType {
    SOL,
    WSOL,
    USD1,
    USDC,
}

/// Exchange a trade goes through.
#[derive(Clone, Copy, Debug, PartialEq, Eq, Structural)]
pub enum DexType {
    PumpFun,
    PumpSwap,
}

/// The mint that stands for a trade token.
pub open spec fn spec_token_mint(t: TradeTokenType) -> Seq<u8> {
    match t {
        TradeTokenType::SOL => spec_sol_token_account(),
        TradeTokenType::WSOL => spec_wsol_token_account(),
        TradeTokenType::USDC => spec_usdc_token_account(),
        TradeTokenType::USD1 => spec_usd1_token_account(),
    }
}

/// The mint that stands for a trade token.
pub fn trade_token_mint(t: TradeTokenType) -> (r: Pubkey)
    ensures
        r@ == spec_token_mint(t),
{
    match t {
        TradeTokenType::SOL => sol_token_account(),
        TradeTokenType::WSOL => wsol_token_account(),
        TradeTokenType::USDC => usdc_token_account(),
        TradeTokenType::USD1 => usd1_token_account(),
    }
}

/// PumpFun parameters of a trade.
#[derive(Clone, Debug)]
pub struct PumpFunParams {
    pub bonding_curve: BondingCurveAccount,
    pub associated_bonding_curve: Pubkey,
    pub creator_vault: Pubkey,
    pub token_program: Pubkey,
    /// Whether to close the token account when selling (sells only).
    pub close_token_account_when_sell: Option<bool>,
}

/// PumpSwap pool parameters of a trade.
#[derive(Clone, Copy, Debug)]
pub struct PumpSwapParams {
    pub pool: Pubkey,
    pub base_mint: Pubkey,
    pub quote_mint: Pubkey,
    pub pool_base_token_account: Pubkey,
    pub pool_quote_token_account: Pubkey,
    pub pool_base_token_reserves: u64,
    pub pool_quote_token_reserves: u64,
    pub coin_creator_vault_ata: Pubkey,
    pub coin_creator_vault_authority: Pubkey,
    pub base_token_program: Pubkey,
    pub quote_token_program: Pubkey,
    pub is_mayhem_mode: bool,
    pub is_cashback_coin: bool,
}

/// Exchange-specific parameters of a trade.
#[derive(Clone, Debug)]
pub enum DexParamEnum {
    PumpFun(PumpFunParams),
    PumpSwap(PumpSwapParams),
}

/// Whether the parameters belong to the exchange.
pub open spec fn spec_params_match(dex_type: DexType, params: DexParamEnum) -> bool {
    match dex_type {
        DexType::PumpFun => params is PumpFun,
        DexType::PumpSwap => params is PumpSwap,
    }
}

/// Whether the parameters belong to the exchange.
pub fn validate_protocol_params(dex_type: DexType, params: &DexParamEnum) -> (r: bool)
    ensures
        r == spec_params_match(dex_type, *params),
{
    match dex_type {
        DexType::PumpFun => matches!(params, DexParamEnum::PumpFun(_)),
        DexType::PumpSwap => matches!(params, DexParamEnum::PumpSwap(_)),
    }
}

/// What a swap does, as handed to the exchange executor.
#[derive(Clone, Copy, Debug)]
pub struct SwapPlan {
    pub trade_type: TradeType,
    pub input_mint: Pubkey,
    pub output_mint: Pubkey,
    pub input_amount: Option<u64>,
    pub with_tip: bool,
    pub create_input_mint_ata: bool,
    pub close_input_mint_ata: bool,
    pub create_output_mint_ata: bool,
    pub close_output_mint_ata: bool,
    pub use_exact_sol_amount: Option<bool>,
}

/// Answer to a buy paid in USD1.
pub open spec fn usd1_input_error() -> Seq<char> {
    "Current version only supports SOL, WSOL, and USDC input for PumpFun/PumpSwap"@
}

/// Answer to a sell paid out in USD1.
pub open spec fn usd1_output_error() -> Seq<char> {
    "Current version only supports SOL, WSOL, and USDC output for PumpFun/PumpSwap"@
}

/// Answer to parameters of another exchange.
pub open spec fn invalid_params_error() -> Seq<char> {
    "Invalid protocol params for Trade"@
}

/// Plans a buy: pays `input_token_amount` of the input token for `mint`, with a tip.
/// USD1 input is refused, then parameters of another exchange.
pub fn plan_buy(
    dex_type: DexType,
    input_token_type: TradeTokenType,
    mint: Pubkey,
    input_token_amount: u64,
    create_input_token_ata: bool,
    close_input_token_ata: bool,
    create_mint_ata: bool,
    use_exact_sol_amount: Option<bool>,
    params: &DexParamEnum,
) -> (r: Result<SwapPlan, String>)
    ensures
        input_token_type == TradeTokenType::USD1 ==> (r matches Err(e) && e@ == usd1_input_error()),
        input_token_type != TradeTokenType::USD1 && !spec_params_match(dex_type, *params) ==> (r matches Err(
            e,
        ) && e@ == invalid_params_error()),
        input_token_type != TradeTokenType::USD1 && spec_params_match(dex_type, *params) ==> (r matches Ok(p) && {
            &&& p.trade_type == TradeType::Buy
            &&& p.input_mint@ == spec_token_mint(input_token_type)
            &&& p.output_mint == mint
            &&& p.input_amount == Some(input_token_amount)
            &&& p.with_tip
            &&& p.create_input_mint_ata == create_input_token_ata
            &&& p.close_input_mint_ata == close_input_token_ata
            &&& p.create_output_mint_ata == create_mint_ata
            &&& !p.close_output_mint_ata
            &&& p.use_exact_sol_amount == use_exact_sol_amount
        }),
{
    if input_token_type == TradeTokenType::USD1 {
        return Err("Current version only supports SOL, WSOL, and USDC input for PumpFun/PumpSwap".to_owned());
    }
    let input_mint = trade_token_mint(input_token_type);
    if !validate_protocol_params(dex_type, params) {
        return Err("Invalid protocol params for Trade".to_owned());
    }
    Ok(
        SwapPlan {
            trade_type: TradeType::Buy,
            input_mint,
            output_mint: mint,
            input_amount: Some(input_token_amount),
            with_tip: true,
            create_input_mint_ata: create_input_token_ata,
            close_input_mint_ata: close_input_token_ata,
            create_output_mint_ata: create_mint_ata,
            close_output_mint_ata: false,
            use_exact_sol_amount,
        },
    )
}

/// Plans a sell of `input_token_amount` of `mint` for the output token. USD1 output is
/// refused, then parameters of another exchange.
pub fn plan_sell(
    dex_type: DexType,
    output_token_type: TradeTokenType,
    mint: Pubkey,
    input_token_amount: u64,
    with_tip: bool,
    create_output_token_ata: bool,
    close_output_token_ata: bool,
    close_mint_token_ata: bool,
    params: &DexParamEnum,
) -> (r: Result<SwapPlan, String>)
    ensures
        output_token_type == TradeTokenType::USD1 ==> (r matches Err(e) && e@ == usd1_output_error()),
        output_token_type != TradeTokenType::USD1 && !spec_params_match(dex_type, *params) ==> (r matches Err(
            e,
        ) && e@ == invalid_params_error()),
        output_token_type != TradeTokenType::USD1 && spec_params_match(dex_type, *params) ==> (r matches Ok(p) && {
            &&& p.trade_type == TradeType::Sell
            &&& p.input_mint == mint
            &&& p.output_mint@ == spec_token_mint(output_token_type)
            &&& p.input_amount == Some(input_token_amount)
            &&& p.with_tip == with_tip
            &&& !p.create_input_mint_ata
            &&& p.close_input_mint_ata == close_mint_token_ata
            &&& p.create_output_mint_ata == create_output_token_ata
            &&& p.close_output_mint_ata == close_output_token_ata
            &&& p.use_exact_sol_amount is None
        }),
{
    if output_token_type == TradeTokenType::USD1 {
        return Err("Current version only supports SOL, WSOL, and USDC output for PumpFun/PumpSwap".to_owned());
    }
    let output_mint = trade_token_mint(output_token_type);
    if !validate_protocol_params(dex_type, params) {
        return Err("Invalid protocol params for Trade".to_owned());
    }
    Ok(
        SwapPlan {
            trade_type: TradeType::Sell,
            input_mint: mint,
            output_mint,
            input_amount: Some(input_token_amount),
            with_tip,
            create_input_mint_ata: false,
            close_input_mint_ata: close_mint_token_ata,
            create_output_mint_ata: create_output_token_ata,
            close_output_mint_ata: close_output_token_ata,
            use_exact_sol_amount: None,
        },
    )
}

/// Answer to a percentage outside 1..=100.
pub open spec fn percent_error() -> Seq<char> {
    "Percentage must be between 1 and 100"@
}

/// The amount a sell of `percent` percent of `amount_token` sells, rounded down.
pub fn sell_amount_by_percent(amount_token: u64, percent: u64) -> (r: Result<u64, String>)
    requires
        1 <= percent <= 100 ==> amount_token * percent <= u64::MAX,
    ensures
        (percent == 0 || percent > 100) ==> (r matches Err(e) && e@ == percent_error()),
        1 <= percent <= 100 ==> r == Ok::<u64, String>((amount_token * percent / 100) as u64),
{
    if percent == 0 || percent > 100 {
        return Err("Percentage must be between 1 and 100".to_owned());
    }
    Ok(amount_token * percent / 100)
}

/// Token program of `mint` in a PumpSwap pool: the base program when `mint` is the
/// base mint, the quote program otherwise.
pub fn pool_token_program(params: &PumpSwapParams, mint: &Pubkey) -> (r: Pubkey)
    ensures
        r == (if params.base_mint@ == mint@ {
            params.base_token_program
        } else {
            params.quote_token_program
        }),
{
    if params.base_mint.equals(mint) {
        params.base_token_program
    } else {
        params.quote_token_program
    }
}

/// What a sale out of a PumpSwap pool pays out: SOL when either side of the pool is
/// wrapped SOL, USDC otherwise.
pub fn pool_output_token_type(params: &PumpSwapParams) -> (r: TradeTokenType)
    ensures
        r == (if params.base_mint@ == spec_wsol_token_account() || params.quote_mint@
            == spec_wsol_token_account() {
            TradeTokenType::SOL
        } else {
            TradeTokenType::USDC
        }),
{
    let wsol = wsol_token_account();
    if params.base_mint.equals(&wsol) || params.quote_mint.equals(&wsol) {
        TradeTokenType::SOL
    } else {
        TradeTokenType::USDC
    }
}

/// Whether every character is an ASCII decimal digit.
pub open spec fn all_digits(s: Seq<char>) -> bool {
    forall|i: int| 0 <= i < s.len() ==> '0' <= #[trigger] s[i] <= '9'
}

/// Value of a string of decimal digits.
pub open spec fn digits_value(s: Seq<char>) -> int
    decreases s.len(),
{
    if s.len() == 0 {
        0
    } else {
        digits_value(s.drop_last()) * 10 + (s.last() as int - '0' as int)
    }
}

/// What `str::parse::<u64>` gives: an optional `+`, then one or more decimal digits
/// whose value fits in a `u64`.
pub open spec fn spec_parse_u64(s: Seq<char>) -> Option<u64> {
    let body = if s.len() > 0 && s[0] == '+' {
        s.skip(1)
    } else {
        s
    };
    if body.len() > 0 && all_digits(body) && digits_value(body) <= u64::MAX {
        Some(digits_value(body) as u64)
    } else {
        None
    }
}

/// A prefix of a digit string is worth no more than the whole.
proof fn lemma_digits_prefix_le(s: Seq<char>, j: int)
    requires
        all_digits(s),
        0 <= j <= s.len(),
    ensures
        0 <= digits_value(s.take(j)) <= digits_value(s),
    decreases s.len(),
{
    if j == s.len() {
        assert(s.take(j) =~= s);
        lemma_digits_nonneg(s);
    } else {
        let t = s.drop_last();
        assert(all_digits(t));
        lemma_digits_prefix_le(t, j);
        assert(t.take(j) =~= s.take(j));
    }
}

proof fn lemma_digits_nonneg(s: Seq<char>)
    requires
        all_digits(s),
    ensures
        digits_value(s) >= 0,
    decreases s.len(),
{
    if s.len() > 0 {
        assert(all_digits(s.drop_last()));
        lemma_digits_nonneg(s.drop_last());
    }
}

/// Parses a token amount as `str::parse::<u64>` does (see `spec_parse_u64`).
pub fn parse_token_amount(s: &str) -> (r: Option<u64>)
    ensures
        r == spec_parse_u64(s@),
{
    let n = s.unicode_len();
    let mut start: usize = 0;
    if n > 0 && s.get_char(0) == '+' {
        start = 1;
    }
    let ghost body = if s@.len() > 0 && s@[0] == '+' {
        s@.skip(1)
    } else {
        s@
    };
    assert(body =~= s@.skip(start as int));
    if start >= n {
        return None;
    }
    let mut acc: u64 = 0;
    let mut i: usize = start;
    while i < n
        invariant
            n == s@.len(),
            start <= i <= n,
            body =~= s@.skip(start as int),
            body == (if s@.len() > 0 && s@[0] == '+' {
                s@.skip(1)
            } else {
                s@
            }),
            all_digits(body.take(i - start)),
            acc == digits_value(body.take(i - start)),
        decreases n - i,
    {
        let c = s.get_char(i);
        let ghost k = i - start;
        assert(body[k] == c);
        assert(body.take(k + 1).drop_last() =~= body.take(k));
        if c < '0' || c > '9' {
            assert(!all_digits(body)) by {
                assert(!('0' <= body[k] <= '9'));
            }
            assert(spec_parse_u64(s@) is None);
            return None;
        }
        let d: u64 = (c as u32 - '0' as u32) as u64;
        assert(all_digits(body.take(k + 1)));
        if acc > (u64::MAX - d) / 10 {
            proof {
                assert(digits_value(body.take(k + 1)) == acc * 10 + d);
                assert(acc * 10 + d > u64::MAX) by (nonlinear_arith)
                    requires
                        acc > (u64::MAX - d) / 10,
                        d <= 9,
                ;
                if all_digits(body) {
                    lemma_digits_prefix_le(body, k + 1);
                }
                assert(spec_parse_u64(s@) is None);
            }
            return None;
        }
        assert(acc * 10 + d <= u64::MAX) by (nonlinear_arith)
            requires
                acc <= (u64::MAX - d) / 10,
                d <= 9,
        ;
        acc = acc * 10 + d;
        i = i + 1;
    }
    assert(body.take(n - start) =~= body);
    Some(acc)
}

/// Arguments of the sell command: the token's mint and the share of the balance to
/// sell (as written, e.g. "0.1" for ten percent).
pub struct SellArgs {
    pub pump_mint: String,
    pub sell_percent: String,
}

impl SellArgs {
    /// Collects the two arguments.
    pub fn new(pump_mint: String, sell_percent: String) -> (r: Self)
        ensures
            r.pump_mint == pump_mint,
            r.sell_percent == sell_percent,
    {
        SellArgs { pump_mint, sell_percent }
    }
}

} // verus!
