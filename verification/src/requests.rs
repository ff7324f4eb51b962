//! Trade requests: exchange parameters built from observed trades, the market handles
//! that carry them, and the buy and sell requests with their defaults, turned into the
//! parameters a trade is executed with.

use vstd::prelude::*;

use crate::bonding_curve::{curve_address_resolvable, resolved_curve_address, BondingCurveAccount, TOKEN_TOTAL_SUPPLY};
use crate::gas_fee_strategy::GasFeeStrategy;
use crate::pubkey::{zero_key_bytes, Pubkey};
use crate::system_ix::{Blockhash, DurableNonceInfo};
use crate::trading::{DexParamEnum, DexType, PumpFunParams, PumpSwapParams, TradeTokenType};

verus! {

/// An address lookup table: its address and the addresses it lists.
#[derive(Clone, Debug)]
pub struct AddressLookupTableAccount {
    pub key: Pubkey,
    pub addresses: Vec<Pubkey>,
}

/// PumpFun parameters for selling at once, with no curve state known: only the creator
/// vault, the token program and whether to close the token account.
pub fn pumpfun_immediate_sell(
    creator_vault: Pubkey,
    token_program: Pubkey,
    close_token_account_when_sell: bool,
) -> (r: PumpFunParams)
    ensures
        r.bonding_curve.account@ == zero_key_bytes(),
        r.bonding_curve.virtual_token_reserves == 0,
        r.bonding_curve.virtual_sol_reserves == 0,
        r.bonding_curve.real_token_reserves == 0,
        r.bonding_curve.real_sol_reserves == 0,
        r.associated_bonding_curve@ == zero_key_bytes(),
        r.creator_vault == creator_vault,
        r.token_program == token_program,
        r.close_token_account_when_sell == Some(close_token_account_when_sell),
{
    PumpFunParams {
        bonding_curve: BondingCurveAccount::default(),
        associated_bonding_curve: Pubkey::default(),
        creator_vault,
        token_program,
        close_token_account_when_sell: Some(close_token_account_when_sell),
    }
}

/// PumpFun parameters from the reserves seen in a trade; mayhem mode is on exactly when
/// the trade's fee recipient is the mayhem fee recipient. The curve address must be
/// given or derivable from the mint.
pub fn pumpfun_from_trade(
    bonding_curve: Pubkey,
    associated_bonding_curve: Pubkey,
    mint: Pubkey,
    creator: Pubkey,
    creator_vault: Pubkey,
    virtual_token_reserves: u64,
    virtual_sol_reserves: u64,
    real_token_reserves: u64,
    real_sol_reserves: u64,
    close_token_account_when_sell: Option<bool>,
    fee_recipient: Pubkey,
    mayhem_fee_recipient: Pubkey,
    token_program: Pubkey,
    is_cashback_coin: bool,
) -> (r: PumpFunParams)
    requires
        curve_address_resolvable(bonding_curve@, mint@),
    ensures
        r.bonding_curve.account@ == resolved_curve_address(bonding_curve@, mint@),
        r.bonding_curve.virtual_token_reserves == virtual_token_reserves,
        r.bonding_curve.virtual_sol_reserves == virtual_sol_reserves,
        r.bonding_curve.real_token_reserves == real_token_reserves,
        r.bonding_curve.real_sol_reserves == real_sol_reserves,
        r.bonding_curve.token_total_supply == TOKEN_TOTAL_SUPPLY,
        r.bonding_curve.creator == creator,
        r.bonding_curve.is_mayhem_mode == (fee_recipient@ == mayhem_fee_recipient@),
        r.bonding_curve.is_cashback_coin == is_cashback_coin,
        r.associated_bonding_curve == associated_bonding_curve,
        r.creator_vault == creator_vault,
        r.token_program == token_program,
        r.close_token_account_when_sell == close_token_account_when_sell,
{
    let is_mayhem_mode = fee_recipient.equals(&mayhem_fee_recipient);
    let curve = BondingCurveAccount::from_trade(
        bonding_curve,
        mint,
        creator,
        virtual_token_reserves,
        virtual_sol_reserves,
        real_token_reserves,
        real_sol_reserves,
        is_mayhem_mode,
        is_cashback_coin,
    );
    PumpFunParams {
        bonding_curve: curve,
        associated_bonding_curve,
        creator_vault,
        token_program,
        close_token_account_when_sell,
    }
}

/// Like `pumpfun_from_trade`, but `None` when the curve address is neither given nor
/// derivable from the mint.
pub fn try_pumpfun_from_trade(
    bonding_curve: Pubkey,
    associated_bonding_curve: Pubkey,
    mint: Pubkey,
    creator: Pubkey,
    creator_vault: Pubkey,
    virtual_token_reserves: u64,
    virtual_sol_reserves: u64,
    real_token_reserves: u64,
    real_sol_reserves: u64,
    close_token_account_when_sell: Option<bool>,
    fee_recipient: Pubkey,
    mayhem_fee_recipient: Pubkey,
    token_program: Pubkey,
    is_cashback_coin: bool,
) -> (r: Option<PumpFunParams>)
    ensures
        r is Some <==> curve_address_resolvable(bonding_curve@, mint@),
        r matches Some(p) ==> {
            &&& p.bonding_curve.account@ == resolved_curve_address(bonding_curve@, mint@)
            &&& p.bonding_curve.virtual_token_reserves == virtual_token_reserves
            &&& p.bonding_curve.virtual_sol_reserves == virtual_sol_reserves
            &&& p.bonding_curve.real_token_reserves == real_token_reserves
            &&& p.bonding_curve.real_sol_reserves == real_sol_reserves
            &&& p.bonding_curve.creator == creator
            &&& p.bonding_curve.is_mayhem_mode == (fee_recipient@ == mayhem_fee_recipient@)
            &&& p.bonding_curve.is_cashback_coin == is_cashback_coin
            &&& p.associated_bonding_curve == associated_bonding_curve
            &&& p.creator_vault == creator_vault
            &&& p.token_program == token_program
            &&& p.close_token_account_when_sell == close_token_account_when_sell
        },
{
    let is_mayhem_mode = fee_recipient.equals(&mayhem_fee_recipient);
    match BondingCurveAccount::try_from_trade(
        bonding_curve,
        mint,
        creator,
        virtual_token_reserves,
        virtual_sol_reserves,
        real_token_reserves,
        real_sol_reserves,
        is_mayhem_mode,
        is_cashback_coin,
    ) {
        Some(curve) => Some(
            PumpFunParams {
                bonding_curve: curve,
                associated_bonding_curve,
                creator_vault,
                token_program,
                close_token_account_when_sell,
            },
        ),
        None => None,
    }
}

/// PumpSwap pool parameters; mayhem mode is on exactly when the fee recipient is the
/// pool program's mayhem fee recipient.
pub fn pumpswap_params(
    pool: Pubkey,
    base_mint: Pubkey,
    quote_mint: Pubkey,
    pool_base_token_account: Pubkey,
    pool_quote_token_account: Pubkey,
    pool_base_token_reserves: u64,
    pool_quote_token_reserves: u64,
    coin_creator_vault_ata: Pubkey,
    coin_creator_vault_authority: Pubkey,
    base_token_program: Pubkey,
    quote_token_program: Pubkey,
    fee_recipient: Pubkey,
    mayhem_fee_recipient: Pubkey,
    is_cashback_coin: bool,
) -> (r: PumpSwapParams)
    ensures
        r == (PumpSwapParams {
            pool,
            base_mint,
            quote_mint,
            pool_base_token_account,
            pool_quote_token_account,
            pool_base_token_reserves,
            pool_quote_token_reserves,
            coin_creator_vault_ata,
            coin_creator_vault_authority,
            base_token_program,
            quote_token_program,
            is_mayhem_mode: fee_recipient@ == mayhem_fee_recipient@,
            is_cashback_coin,
        }),
{
    let is_mayhem_mode = fee_recipient.equals(&mayhem_fee_recipient);
    PumpSwapParams {
        pool,
        base_mint,
        quote_mint,
        pool_base_token_account,
        pool_quote_token_account,
        pool_base_token_reserves,
        pool_quote_token_reserves,
        coin_creator_vault_ata,
        coin_creator_vault_authority,
        base_token_program,
        quote_token_program,
        is_mayhem_mode,
        is_cashback_coin,
    }
}

/// A PumpFun market: the parameters trades on it use.
#[derive(Clone, Debug)]
pub struct PumpFunMarket {
    inner: PumpFunParams,
}

impl PumpFunMarket {
    /// The market's parameters.
    pub closed spec fn params(&self) -> PumpFunParams {
        self.inner
    }

    /// Wraps parameters.
    pub fn new(inner: PumpFunParams) -> (r: Self)
        ensures
            r.params() == inner,
    {
        PumpFunMarket { inner }
    }

    /// The token program of the market's mint.
    pub fn token_program(&self) -> (r: Pubkey)
        ensures
            r == self.params().token_program,
    {
        self.inner.token_program
    }

    /// The market's parameters.
    pub fn inner(&self) -> (r: &PumpFunParams)
        ensures
            *r == self.params(),
    {
        &self.inner
    }

    /// Gives up the parameters.
    pub fn into_inner(self) -> (r: PumpFunParams)
        ensures
            r == self.params(),
    {
        self.inner
    }
}

/// A PumpSwap market: the pool parameters trades on it use.
#[derive(Clone, Copy, Debug)]
pub struct PumpSwapMarket {
    inner: PumpSwapParams,
}

impl PumpSwapMarket {
    /// The market's parameters.
    pub closed spec fn params(&self) -> PumpSwapParams {
        self.inner
    }

    /// Wraps parameters.
    pub fn new(inner: PumpSwapParams) -> (r: Self)
        ensures
            r.params() == inner,
    {
        PumpSwapMarket { inner }
    }

    /// The base token's program.
    pub fn base_token_program(&self) -> (r: Pubkey)
        ensures
            r == self.params().base_token_program,
    {
        self.inner.base_token_program
    }

    /// The quote token's program.
    pub fn quote_token_program(&self) -> (r: Pubkey)
        ensures
            r == self.params().quote_token_program,
    {
        self.inner.quote_token_program
    }

    /// The market's parameters.
    pub fn inner(&self) -> (r: &PumpSwapParams)
        ensures
            *r == self.params(),
    {
        &self.inner
    }

    /// Gives up the parameters.
    pub fn into_inner(self) -> (r: PumpSwapParams)
        ensures
            r == self.params(),
    {
        self.inner
    }
}

/// Parameters of a buy.
pub struct TradeBuyParams {
    pub dex_type: DexType,
    pub input_token_type: TradeTokenType,
    pub mint: Pubkey,
    pub input_token_amount: u64,
    pub slippage_basis_points: Option<u64>,
    pub recent_blockhash: Option<Blockhash>,
    pub extension_params: DexParamEnum,
    pub address_lookup_table_account: Option<AddressLookupTableAccount>,
    pub wait_transaction_confirmed: bool,
    pub create_input_token_ata: bool,
    pub close_input_token_ata: bool,
    pub create_mint_ata: bool,
    pub durable_nonce: Option<DurableNonceInfo>,
    pub fixed_output_token_amount: Option<u64>,
    pub gas_fee_strategy: GasFeeStrategy,
    pub simulate: bool,
    pub use_exact_sol_amount: Option<bool>,
    pub grpc_recv_us: Option<i64>,
}

/// Parameters of a sell.
pub struct TradeSellParams {
    pub dex_type: DexType,
    pub output_token_type: TradeTokenType,
    pub mint: Pubkey,
    pub input_token_amount: u64,
    pub slippage_basis_points: Option<u64>,
    pub recent_blockhash: Option<Blockhash>,
    pub with_tip: bool,
    pub extension_params: DexParamEnum,
    pub address_lookup_table_account: Option<AddressLookupTableAccount>,
    pub wait_transaction_confirmed: bool,
    pub create_output_token_ata: bool,
    pub close_output_token_ata: bool,
    pub close_mint_token_ata: bool,
    pub durable_nonce: Option<DurableNonceInfo>,
    pub fixed_output_token_amount: Option<u64>,
    pub gas_fee_strategy: GasFeeStrategy,
    pub simulate: bool,
    pub grpc_recv_us: Option<i64>,
}

/// Slippage a request starts with, in basis points.
pub const DEFAULT_SLIPPAGE_BASIS_POINTS: u64 = 100;

/// A buy of a PumpFun token with SOL.
pub struct PumpFunBuyRequest {
    pub mint: Pubkey,
    pub sol_amount: u64,
    pub market: PumpFunMarket,
    pub gas_fee_strategy: GasFeeStrategy,
    pub slippage_basis_points: Option<u64>,
    pub recent_blockhash: Option<Blockhash>,
    pub address_lookup_table_account: Option<AddressLookupTableAccount>,
    pub wait_transaction_confirmed: bool,
    pub create_input_token_ata: bool,
    pub close_input_token_ata: bool,
    pub create_mint_ata: bool,
    pub durable_nonce: Option<DurableNonceInfo>,
    pub fixed_output_token_amount: Option<u64>,
    pub simulate: bool,
    pub use_exact_sol_amount: Option<bool>,
    pub grpc_recv_us: Option<i64>,
}

impl PumpFunBuyRequest {
    /// A request with the defaults: 1% slippage, no blockhash, lookup table or nonce,
    /// no confirmation wait, the mint's account created, the input's left alone, no fixed
    /// output, no simulation.
    pub fn new(mint: Pubkey, sol_amount: u64, market: PumpFunMarket, gas_fee_strategy: GasFeeStrategy) -> (r: Self)
        ensures
            r.mint == mint,
            r.sol_amount == sol_amount,
            r.market == market,
            r.gas_fee_strategy == gas_fee_strategy,
            r.slippage_basis_points == Some(DEFAULT_SLIPPAGE_BASIS_POINTS),
            r.recent_blockhash is None,
            r.address_lookup_table_account is None,
            !r.wait_transaction_confirmed,
            !r.create_input_token_ata,
            !r.close_input_token_ata,
            r.create_mint_ata,
            r.durable_nonce is None,
            r.fixed_output_token_amount is None,
            !r.simulate,
            r.use_exact_sol_amount is None,
            r.grpc_recv_us is None,
    {
        PumpFunBuyRequest {
            mint,
            sol_amount,
            market,
            gas_fee_strategy,
            slippage_basis_points: Some(DEFAULT_SLIPPAGE_BASIS_POINTS),
            recent_blockhash: None,
            address_lookup_table_account: None,
            wait_transaction_confirmed: false,
            create_input_token_ata: false,
            close_input_token_ata: false,
            create_mint_ata: true,
            durable_nonce: None,
            fixed_output_token_amount: None,
            simulate: false,
            use_exact_sol_amount: None,
            grpc_recv_us: None,
        }
    }

    /// The buy parameters: PumpFun, paid in SOL, every option carried over.
    pub fn into_trade_buy_params(self) -> (r: TradeBuyParams)
        ensures
            r.dex_type == DexType::PumpFun,
            r.input_token_type == TradeTokenType::SOL,
            r.mint == self.mint,
            r.input_token_amount == self.sol_amount,
            r.slippage_basis_points == self.slippage_basis_points,
            r.recent_blockhash == self.recent_blockhash,
            r.extension_params == DexParamEnum::PumpFun(self.market.params()),
            r.address_lookup_table_account == self.address_lookup_table_account,
            r.wait_transaction_confirmed == self.wait_transaction_confirmed,
            r.create_input_token_ata == self.create_input_token_ata,
            r.close_input_token_ata == self.close_input_token_ata,
            r.create_mint_ata == self.create_mint_ata,
            r.durable_nonce == self.durable_nonce,
            r.fixed_output_token_amount == self.fixed_output_token_amount,
            r.gas_fee_strategy == self.gas_fee_strategy,
            r.simulate == self.simulate,
            r.use_exact_sol_amount == self.use_exact_sol_amount,
            r.grpc_recv_us == self.grpc_recv_us,
    {
        TradeBuyParams {
            dex_type: DexType::PumpFun,
            input_token_type: TradeTokenType::SOL,
            mint: self.mint,
            input_token_amount: self.sol_amount,
            slippage_basis_points: self.slippage_basis_points,
            recent_blockhash: self.recent_blockhash,
            extension_params: DexParamEnum::PumpFun(self.market.into_inner()),
            address_lookup_table_account: self.address_lookup_table_account,
            wait_transaction_confirmed: self.wait_transaction_confirmed,
            create_input_token_ata: self.create_input_token_ata,
            close_input_token_ata: self.close_input_token_ata,
            create_mint_ata: self.create_mint_ata,
            durable_nonce: self.durable_nonce,
            fixed_output_token_amount: self.fixed_output_token_amount,
            gas_fee_strategy: self.gas_fee_strategy,
            simulate: self.simulate,
            use_exact_sol_amount: self.use_exact_sol_amount,
            grpc_recv_us: self.grpc_recv_us,
        }
    }
}

/// A sell of a PumpFun token for SOL.
pub struct PumpFunSellRequest {
    pub mint: Pubkey,
    pub token_amount: u64,
    pub market: PumpFunMarket,
    pub gas_fee_strategy: GasFeeStrategy,
    pub slippage_basis_points: Option<u64>,
    pub recent_blockhash: Option<Blockhash>,
    pub with_tip: bool,
    pub address_lookup_table_account: Option<AddressLookupTableAccount>,
    pub wait_transaction_confirmed: bool,
    pub create_output_token_ata: bool,
    pub close_output_token_ata: bool,
    pub close_mint_token_ata: bool,
    pub durable_nonce: Option<DurableNonceInfo>,
    pub fixed_output_token_amount: Option<u64>,
    pub simulate: bool,
    pub grpc_recv_us: Option<i64>,
}

impl PumpFunSellRequest {
    /// A request with the defaults: 1% slippage, no tip, no blockhash, lookup table or
    /// nonce, no confirmation wait, the output's account left alone, the mint's account
    /// closed, no fixed output, no simulation.
    pub fn new(mint: Pubkey, token_amount: u64, market: PumpFunMarket, gas_fee_strategy: GasFeeStrategy) -> (r: Self)
        ensures
            r.mint == mint,
            r.token_amount == token_amount,
            r.market == market,
            r.gas_fee_strategy == gas_fee_strategy,
            r.slippage_basis_points == Some(DEFAULT_SLIPPAGE_BASIS_POINTS),
            r.recent_blockhash is None,
            !r.with_tip,
            r.address_lookup_table_account is None,
            !r.wait_transaction_confirmed,
            !r.create_output_token_ata,
            !r.close_output_token_ata,
            r.close_mint_token_ata,
            r.durable_nonce is None,
            r.fixed_output_token_amount is None,
            !r.simulate,
            r.grpc_recv_us is None,
    {
        PumpFunSellRequest {
            mint,
            token_amount,
            market,
            gas_fee_strategy,
            slippage_basis_points: Some(DEFAULT_SLIPPAGE_BASIS_POINTS),
            recent_blockhash: None,
            with_tip: false,
            address_lookup_table_account: None,
            wait_transaction_confirmed: false,
            create_output_token_ata: false,
            close_output_token_ata: false,
            close_mint_token_ata: true,
            durable_nonce: None,
            fixed_output_token_amount: None,
            simulate: false,
            grpc_recv_us: None,
        }
    }

    /// The sell parameters: PumpFun, paid out in SOL, every option carried over.
    pub fn into_trade_sell_params(self) -> (r: TradeSellParams)
        ensures
            r.dex_type == DexType::PumpFun,
            r.output_token_type == TradeTokenType::SOL,
            r.mint == self.mint,
            r.input_token_amount == self.token_amount,
            r.slippage_basis_points == self.slippage_basis_points,
            r.recent_blockhash == self.recent_blockhash,
            r.with_tip == self.with_tip,
            r.extension_params == DexParamEnum::PumpFun(self.market.params()),
            r.address_lookup_table_account == self.address_lookup_table_account,
            r.wait_transaction_confirmed == self.wait_transaction_confirmed,
            r.create_output_token_ata == self.create_output_token_ata,
            r.close_output_token_ata == self.close_output_token_ata,
            r.close_mint_token_ata == self.close_mint_token_ata,
            r.durable_nonce == self.durable_nonce,
            r.fixed_output_token_amount == self.fixed_output_token_amount,
            r.gas_fee_strategy == self.gas_fee_strategy,
            r.simulate == self.simulate,
            r.grpc_recv_us == self.grpc_recv_us,
    {
        TradeSellParams {
            dex_type: DexType::PumpFun,
            output_token_type: TradeTokenType::SOL,
            mint: self.mint,
            input_token_amount: self.token_amount,
            slippage_basis_points: self.slippage_basis_points,
            recent_blockhash: self.recent_blockhash,
            with_tip: self.with_tip,
            extension_params: DexParamEnum::PumpFun(self.market.into_inner()),
            address_lookup_table_account: self.address_lookup_table_account,
            wait_transaction_confirmed: self.wait_transaction_confirmed,
            create_output_token_ata: self.create_output_token_ata,
            close_output_token_ata: self.close_output_token_ata,
            close_mint_token_ata: self.close_mint_token_ata,
            durable_nonce: self.durable_nonce,
            fixed_output_token_amount: self.fixed_output_token_amount,
            gas_fee_strategy: self.gas_fee_strategy,
            simulate: self.simulate,
            grpc_recv_us: self.grpc_recv_us,
        }
    }
}

/// A buy of a PumpSwap pool's token.
pub struct PumpSwapBuyRequest {
    pub mint: Pubkey,
    pub input_token_type: TradeTokenType,
    pub input_token_amount: u64,
    pub market: PumpSwapMarket,
    pub gas_fee_strategy: GasFeeStrategy,
    pub slippage_basis_points: Option<u64>,
    pub recent_blockhash: Option<Blockhash>,
    pub address_lookup_table_account: Option<AddressLookupTableAccount>,
    pub wait_transaction_confirmed: bool,
    pub create_input_token_ata: bool,
    pub close_input_token_ata: bool,
    pub create_mint_ata: bool,
    pub durable_nonce: Option<DurableNonceInfo>,
    pub fixed_output_token_amount: Option<u64>,
    pub simulate: bool,
    pub use_exact_sol_amount: Option<bool>,
    pub grpc_recv_us: Option<i64>,
}

impl PumpSwapBuyRequest {
    /// A request with the same defaults as a PumpFun buy.
    pub fn new(
        mint: Pubkey,
        input_token_type: TradeTokenType,
        input_token_amount: u64,
        market: PumpSwapMarket,
        gas_fee_strategy: GasFeeStrategy,
    ) -> (r: Self)
        ensures
            r.mint == mint,
            r.input_token_type == input_token_type,
            r.input_token_amount == input_token_amount,
            r.market == market,
            r.gas_fee_strategy == gas_fee_strategy,
            r.slippage_basis_points == Some(DEFAULT_SLIPPAGE_BASIS_POINTS),
            r.recent_blockhash is None,
            r.address_lookup_table_account is None,
            !r.wait_transaction_confirmed,
            !r.create_input_token_ata,
            !r.close_input_token_ata,
            r.create_mint_ata,
            r.durable_nonce is None,
            r.fixed_output_token_amount is None,
            !r.simulate,
            r.use_exact_sol_amount is None,
            r.grpc_recv_us is None,
    {
        PumpSwapBuyRequest {
            mint,
            input_token_type,
            input_token_amount,
            market,
            gas_fee_strategy,
            slippage_basis_points: Some(DEFAULT_SLIPPAGE_BASIS_POINTS),
            recent_blockhash: None,
            address_lookup_table_account: None,
            wait_transaction_confirmed: false,
            create_input_token_ata: false,
            close_input_token_ata: false,
            create_mint_ata: true,
            durable_nonce: None,
            fixed_output_token_amount: None,
            simulate: false,
            use_exact_sol_amount: None,
            grpc_recv_us: None,
        }
    }

    /// The buy parameters: PumpSwap, every option carried over.
    pub fn into_trade_buy_params(self) -> (r: TradeBuyParams)
        ensures
            r.dex_type == DexType::PumpSwap,
            r.input_token_type == self.input_token_type,
            r.mint == self.mint,
            r.input_token_amount == self.input_token_amount,
            r.slippage_basis_points == self.slippage_basis_points,
            r.recent_blockhash == self.recent_blockhash,
            r.extension_params == DexParamEnum::PumpSwap(self.market.params()),
            r.address_lookup_table_account == self.address_lookup_table_account,
            r.wait_transaction_confirmed == self.wait_transaction_confirmed,
            r.create_input_token_ata == self.create_input_token_ata,
            r.close_input_token_ata == self.close_input_token_ata,
            r.create_mint_ata == self.create_mint_ata,
            r.durable_nonce == self.durable_nonce,
            r.fixed_output_token_amount == self.fixed_output_token_amount,
            r.gas_fee_strategy == self.gas_fee_strategy,
            r.simulate == self.simulate,
            r.use_exact_sol_amount == self.use_exact_sol_amount,
            r.grpc_recv_us == self.grpc_recv_us,
    {
        TradeBuyParams {
            dex_type: DexType::PumpSwap,
            input_token_type: self.input_token_type,
            mint: self.mint,
            input_token_amount: self.input_token_amount,
            slippage_basis_points: self.slippage_basis_points,
            recent_blockhash: self.recent_blockhash,
            extension_params: DexParamEnum::PumpSwap(self.market.into_inner()),
            address_lookup_table_account: self.address_lookup_table_account,
            wait_transaction_confirmed: self.wait_transaction_confirmed,
            create_input_token_ata: self.create_input_token_ata,
            close_input_token_ata: self.close_input_token_ata,
            create_mint_ata: self.create_mint_ata,
            durable_nonce: self.durable_nonce,
            fixed_output_token_amount: self.fixed_output_token_amount,
            gas_fee_strategy: self.gas_fee_strategy,
            simulate: self.simulate,
            use_exact_sol_amount: self.use_exact_sol_amount,
            grpc_recv_us: self.grpc_recv_us,
        }
    }
}

/// A sell of a PumpSwap pool's token.
pub struct PumpSwapSellRequest {
    pub mint: Pubkey,
    pub output_token_type: TradeTokenType,
    pub token_amount: u64,
    pub market: PumpSwapMarket,
    pub gas_fee_strategy: GasFeeStrategy,
    pub slippage_basis_points: Option<u64>,
    pub recent_blockhash: Option<Blockhash>,
    pub with_tip: bool,
    pub address_lookup_table_account: Option<AddressLookupTableAccount>,
    pub wait_transaction_confirmed: bool,
    pub create_output_token_ata: bool,
    pub close_output_token_ata: bool,
    pub close_mint_token_ata: bool,
    pub durable_nonce: Option<DurableNonceInfo>,
    pub fixed_output_token_amount: Option<u64>,
    pub simulate: bool,
    pub grpc_recv_us: Option<i64>,
}

impl PumpSwapSellRequest {
    /// A request with the same defaults as a PumpFun sell.
    pub fn new(
        mint: Pubkey,
        output_token_type: TradeTokenType,
        token_amount: u64,
        market: PumpSwapMarket,
        gas_fee_strategy: GasFeeStrategy,
    ) -> (r: Self)
        ensures
            r.mint == mint,
            r.output_token_type == output_token_type,
            r.token_amount == token_amount,
            r.market == market,
            r.gas_fee_strategy == gas_fee_strategy,
            r.slippage_basis_points == Some(DEFAULT_SLIPPAGE_BASIS_POINTS),
            r.recent_blockhash is None,
            !r.with_tip,
            r.address_lookup_table_account is None,
            !r.wait_transaction_confirmed,
            !r.create_output_token_ata,
            !r.close_output_token_ata,
            r.close_mint_token_ata,
            r.durable_nonce is None,
            r.fixed_output_token_amount is None,
            !r.simulate,
            r.grpc_recv_us is None,
    {
        PumpSwapSellRequest {
            mint,
            output_token_type,
            token_amount,
            market,
            gas_fee_strategy,
            slippage_basis_points: Some(DEFAULT_SLIPPAGE_BASIS_POINTS),
            recent_blockhash: None,
            with_tip: false,
            address_lookup_table_account: None,
            wait_transaction_confirmed: false,
            create_output_token_ata: false,
            close_output_token_ata: false,
            close_mint_token_ata: true,
            durable_nonce: None,
            fixed_output_token_amount: None,
            simulate: false,
            grpc_recv_us: None,
        }
    }

    /// The sell parameters: PumpSwap, every option carried over.
    pub fn into_trade_sell_params(self) -> (r: TradeSellParams)
        ensures
            r.dex_type == DexType::PumpSwap,
            r.output_token_type == self.output_token_type,
            r.mint == self.mint,
            r.input_token_amount == self.token_amount,
            r.slippage_basis_points == self.slippage_basis_points,
            r.recent_blockhash == self.recent_blockhash,
            r.with_tip == self.with_tip,
            r.extension_params == DexParamEnum::PumpSwap(self.market.params()),
            r.address_lookup_table_account == self.address_lookup_table_account,
            r.wait_transaction_confirmed == self.wait_transaction_confirmed,
            r.create_output_token_ata == self.create_output_token_ata,
            r.close_output_token_ata == self.close_output_token_ata,
            r.close_mint_token_ata == self.close_mint_token_ata,
            r.durable_nonce == self.durable_nonce,
            r.fixed_output_token_amount == self.fixed_output_token_amount,
            r.gas_fee_strategy == self.gas_fee_strategy,
            r.simulate == self.simulate,
            r.grpc_recv_us == self.grpc_recv_us,
    {
        TradeSellParams {
            dex_type: DexType::PumpSwap,
            output_token_type: self.output_token_type,
            mint: self.mint,
            input_token_amount: self.token_amount,
            slippage_basis_points: self.slippage_basis_points,
            recent_blockhash: self.recent_blockhash,
            with_tip: self.with_tip,
            extension_params: DexParamEnum::PumpSwap(self.market.into_inner()),
            address_lookup_table_account: self.address_lookup_table_account,
            wait_transaction_confirmed: self.wait_transaction_confirmed,
            create_output_token_ata: self.create_output_token_ata,
            close_output_token_ata: self.close_output_token_ata,
            close_mint_token_ata: self.close_mint_token_ata,
            durable_nonce: self.durable_nonce,
            fixed_output_token_amount: self.fixed_output_token_amount,
            gas_fee_strategy: self.gas_fee_strategy,
            simulate: self.simulate,
            grpc_recv_us: self.grpc_recv_us,
        }
    }
}

} // verus!
