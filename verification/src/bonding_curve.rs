//! Bonding curve account of the PumpFun program and its pricing formulas.
//!
//! The curve is a constant product over *virtual* reserves; purchases are
//! additionally capped by the *real* token reserves left on the curve.

use vstd::prelude::*;

use crate::pumpswap::lemma_floor_div_bounds;
use crate::pubkey::{find_pda_two_seeds, pda_of, pumpfun_program, spec_pumpfun_program, zero_key_bytes, Pubkey};

verus! {

/// Virtual token reserves of a freshly created curve.
pub const INITIAL_VIRTUAL_TOKEN_RESERVES: u64 = 1_073_000_000_000_000;

/// Virtual SOL reserves of a freshly created curve.
pub const INITIAL_VIRTUAL_SOL_RESERVES: u64 = 30_000_000_000;

/// Real token reserves of a freshly created curve.
pub const INITIAL_REAL_TOKEN_RESERVES: u64 = 793_100_000_000_000;

/// Total token supply of a PumpFun coin.
pub const TOKEN_TOTAL_SUPPLY: u64 = 1_000_000_000_000_000;

/// Seed prefix of the bonding curve PDA.
pub open spec fn spec_bonding_curve_seed() -> Seq<u8> {
    seq![98u8, 111, 110, 100, 105, 110, 103, 45, 99, 117, 114, 118, 101]
}

/// Seed prefix of the creator vault PDA.
pub open spec fn spec_creator_vault_seed() -> Seq<u8> {
    seq![99u8, 114, 101, 97, 116, 111, 114, 45, 118, 97, 117, 108, 116]
}

fn bonding_curve_seed() -> (r: Vec<u8>)
    ensures
        r@ == spec_bonding_curve_seed(),
{
    let r = vec![98u8, 111, 110, 100, 105, 110, 103, 45, 99, 117, 114, 118, 101];
    assert(r@ =~= spec_bonding_curve_seed());
    r
}

fn creator_vault_seed() -> (r: Vec<u8>)
    ensures
        r@ == spec_creator_vault_seed(),
{
    let r = vec![99u8, 114, 101, 97, 116, 111, 114, 45, 118, 97, 117, 108, 116];
    assert(r@ =~= spec_creator_vault_seed());
    r
}

/// The bonding curve PDA of a mint, when it exists.
pub open spec fn spec_bonding_curve_pda(mint: Seq<u8>) -> Option<Seq<u8>> {
    pda_of(spec_bonding_curve_seed(), mint, spec_pumpfun_program())
}

/// The creator vault PDA of a creator, when it exists.
pub open spec fn spec_creator_vault_pda(creator: Seq<u8>) -> Option<Seq<u8>> {
    pda_of(spec_creator_vault_seed(), creator, spec_pumpfun_program())
}

/// Derives the bonding curve account address of `mint`.
pub fn get_bonding_curve_pda(mint: &Pubkey) -> (r: Option<Pubkey>)
    ensures
        r is Some <==> spec_bonding_curve_pda(mint@) is Some,
        r matches Some(k) ==> spec_bonding_curve_pda(mint@) == Some(k@),
{
    find_pda_two_seeds(bonding_curve_seed(), mint.to_seed(), &pumpfun_program())
}

/// Derives the creator vault address of `creator`.
pub fn get_creator_vault_pda(creator: &Pubkey) -> (r: Option<Pubkey>)
    ensures
        r is Some <==> spec_creator_vault_pda(creator@) is Some,
        r matches Some(k) ==> spec_creator_vault_pda(creator@) == Some(k@),
{
    find_pda_two_seeds(creator_vault_seed(), creator.to_seed(), &pumpfun_program())
}

/// Bonding curve account: virtual reserves drive the price, real reserves bound purchases.
#[derive(Clone, Debug)]
pub struct BondingCurveAccount {
    /// Unique identifier for the bonding curve
    pub discriminator: u64,
    /// Account address
    pub account: Pubkey,
    /// Virtual token reserves used for price calculations
    pub virtual_token_reserves: u64,
    /// Virtual SOL reserves used for price calculations
    pub virtual_sol_reserves: u64,
    /// Actual token reserves available for trading
    pub real_token_reserves: u64,
    /// Actual SOL reserves available for trading
    pub real_sol_reserves: u64,
    /// Total supply of tokens
    pub token_total_supply: u64,
    /// Whether the bonding curve is complete/finalized
    pub complete: bool,
    /// Creator of the bonding curve
    pub creator: Pubkey,
    /// Whether this is a mayhem mode token (Token2022)
    pub is_mayhem_mode: bool,
    /// Whether this coin has cashback enabled (creator fee redirected to users)
    pub is_cashback_coin: bool,
}

impl Default for BondingCurveAccount {
    fn default() -> (r: BondingCurveAccount)
        ensures
            r.discriminator == 0,
            r.account@ == zero_key_bytes(),
            r.virtual_token_reserves == 0,
            r.virtual_sol_reserves == 0,
            r.real_token_reserves == 0,
            r.real_sol_reserves == 0,
            r.token_total_supply == 0,
            !r.complete,
            r.creator@ == zero_key_bytes(),
            !r.is_mayhem_mode,
            !r.is_cashback_coin,
    {
        BondingCurveAccount {
            discriminator: 0,
            account: Pubkey::default(),
            virtual_token_reserves: 0,
            virtual_sol_reserves: 0,
            real_token_reserves: 0,
            real_sol_reserves: 0,
            token_total_supply: 0,
            complete: false,
            creator: Pubkey::default(),
            is_mayhem_mode: false,
            is_cashback_coin: false,
        }
    }
}

/// The curve account address used by `from_trade`: the given one, or the mint's PDA
/// when the given one is the all-zero address.
pub open spec fn resolved_curve_address(bonding_curve: Seq<u8>, mint: Seq<u8>) -> Seq<u8> {
    if bonding_curve != zero_key_bytes() {
        bonding_curve
    } else {
        spec_bonding_curve_pda(mint).unwrap()
    }
}

/// The curve address can be resolved: it is given, or the mint's PDA exists.
pub open spec fn curve_address_resolvable(bonding_curve: Seq<u8>, mint: Seq<u8>) -> bool {
    bonding_curve != zero_key_bytes() || spec_bonding_curve_pda(mint) is Some
}

/// Below the real-reserve cap, a buy of `amount > 0` lamports gives the tokens `t` that
/// keep the virtual constant product, rounded in the pool's favour: with
/// `f = vtr - t - 1` tokens left beyond one, `f` is the largest count with
/// `f * (vsr + amount) <= vsr * vtr`. At the cap, the uncapped output would reach the
/// real token reserves. Only the virtual reserves and the amount enter.
pub proof fn law_buy_price_constant_product(c: BondingCurveAccount, amount: u64)
    requires
        amount > 0,
        c.virtual_token_reserves > 0,
    ensures
        ({
            let t = spec_buy_price(c, amount);
            let vsr = c.virtual_sol_reserves as int;
            let vtr = c.virtual_token_reserves as int;
            &&& 0 <= t <= c.real_token_reserves
            &&& t < vtr
            &&& t < c.real_token_reserves ==> (vtr - t - 1) * (vsr + amount) <= vsr * vtr && vsr * vtr < (vtr
                - t) * (vsr + amount)
            &&& t == c.real_token_reserves ==> vsr * vtr < (vtr - c.real_token_reserves) * (vsr + amount)
        }),
{
    let vsr = c.virtual_sol_reserves as int;
    let vtr = c.virtual_token_reserves as int;
    let x = vsr * vtr;
    let d = vsr + amount;
    assert(x >= 0) by (nonlinear_arith)
        requires
            x == vsr * vtr,
            vsr >= 0,
            vtr >= 0,
    ;
    lemma_floor_div_bounds(x, d);
    let f = x / d;
    assert(f < vtr) by (nonlinear_arith)
        requires
            f * d <= x,
            x == vsr * vtr,
            d == vsr + amount,
            amount > 0,
            vtr > 0,
            vsr >= 0,
    ;
    let s = spec_buy_tokens_uncapped(c.virtual_sol_reserves, c.virtual_token_reserves, amount);
    assert(s == vtr - (f + 1));
    if s >= c.real_token_reserves {
        let k = vtr - c.real_token_reserves;
        assert(f <= k - 1);
        assert(x < k * d) by (nonlinear_arith)
            requires
                x < (f + 1) * d,
                f + 1 <= k,
                d > 0,
        ;
    }
}

/// The tokens a buy gives do not depend on the real SOL reserves: two curves that agree
/// on the virtual reserves and the real token reserves price every buy alike.
pub proof fn law_buy_price_ignores_real_sol(c1: BondingCurveAccount, c2: BondingCurveAccount, amount: u64)
    requires
        c1.virtual_sol_reserves == c2.virtual_sol_reserves,
        c1.virtual_token_reserves == c2.virtual_token_reserves,
        c1.real_token_reserves == c2.real_token_reserves,
    ensures
        spec_buy_price(c1, amount) == spec_buy_price(c2, amount),
{
}

// ----------------------------------------------------------------- pricing specs

/// Tokens bought with `amount` lamports before the real-reserve cap.
pub open spec fn spec_buy_tokens_uncapped(vsr: u64, vtr: u64, amount: u64) -> int {
    vtr - ((vsr * vtr) / (vsr + amount) + 1)
}

/// Tokens bought with `amount` lamports (0 for a zero amount).
pub open spec fn spec_buy_price(c: BondingCurveAccount, amount: u64) -> int {
    if amount == 0 {
        0
    } else {
        let s = spec_buy_tokens_uncapped(c.virtual_sol_reserves, c.virtual_token_reserves, amount);
        if s < c.real_token_reserves {
            s
        } else {
            c.real_token_reserves as int
        }
    }
}

/// Lamports paid out for `amount` tokens before fees.
pub open spec fn spec_sell_gross(c: BondingCurveAccount, amount: u64) -> int {
    (amount * c.virtual_sol_reserves) / (c.virtual_token_reserves + amount)
}

/// Lamports paid out for `amount` tokens after a fee of `fee_basis_points`.
pub open spec fn spec_sell_price(c: BondingCurveAccount, amount: u64, fee_basis_points: u64) -> int {
    if amount == 0 {
        0
    } else {
        let n = spec_sell_gross(c, amount);
        n - (n * fee_basis_points) / 10_000
    }
}

/// Market cap in lamports at the current virtual price (truncated to 64 bits).
pub open spec fn spec_market_cap_sol(c: BondingCurveAccount) -> int {
    if c.virtual_token_reserves == 0 {
        0
    } else {
        (((c.token_total_supply * c.virtual_sol_reserves) / (c.virtual_token_reserves as int)) as u128) as u64 as int
    }
}

/// Tokens priced by `get_buy_out_price`: the larger of `amount` and the real SOL reserves.
pub open spec fn buy_out_tokens(c: BondingCurveAccount, amount: u64) -> int {
    if amount < c.real_sol_reserves {
        c.real_sol_reserves as int
    } else {
        amount as int
    }
}

/// Value of the priced tokens before fee.
pub open spec fn buy_out_value(c: BondingCurveAccount, amount: u64) -> int {
    let t = buy_out_tokens(c, amount);
    (t * c.virtual_sol_reserves) / (c.virtual_token_reserves - t) + 1
}

/// Fee on the buy-out value.
pub open spec fn buy_out_fee(c: BondingCurveAccount, amount: u64, fee_basis_points: u64) -> int {
    (buy_out_value(c, amount) * fee_basis_points) / 10_000
}

/// The buy-out computation stays within its 128-bit intermediates.
pub open spec fn buy_out_computable(c: BondingCurveAccount, amount: u64, fee_basis_points: u64) -> bool {
    &&& c.virtual_token_reserves > buy_out_tokens(c, amount)
    &&& buy_out_value(c, amount) * fee_basis_points <= u128::MAX
    &&& buy_out_value(c, amount) + buy_out_fee(c, amount, fee_basis_points) <= u128::MAX
}

/// Price to buy out `amount` tokens including fee (truncated to 64 bits).
pub open spec fn spec_buy_out_price(c: BondingCurveAccount, amount: u64, fee_basis_points: u64) -> int {
    (buy_out_value(c, amount) + buy_out_fee(c, amount, fee_basis_points)) as u128 as u64 as int
}

/// Market cap after the remaining real tokens are bought (truncated to 64 bits).
pub open spec fn spec_final_market_cap_sol(c: BondingCurveAccount, fee_basis_points: u64) -> int {
    let total_virtual_value = c.virtual_sol_reserves + spec_buy_out_price(
        c,
        c.real_token_reserves,
        fee_basis_points,
    );
    let total_virtual_tokens = c.virtual_token_reserves - c.real_token_reserves;
    if total_virtual_tokens == 0 {
        0
    } else {
        ((c.token_total_supply * total_virtual_value) / total_virtual_tokens) as u128 as u64 as int
    }
}

proof fn lemma_u64_mul_fits(a: u64, b: u64)
    ensures
        0 <= a * b <= u64::MAX * u64::MAX,
        a * b + u64::MAX <= u128::MAX,
{
    assert(0 <= a * b <= u64::MAX * u64::MAX) by (nonlinear_arith)
        requires
            a <= u64::MAX,
            b <= u64::MAX,
    ;
}

impl BondingCurveAccount {
    /// Builds the curve state right after a dev buy on a fresh curve.
    pub fn from_dev_trade(
        bonding_curve: Pubkey,
        mint: &Pubkey,
        dev_token_amount: u64,
        dev_sol_amount: u64,
        creator: Pubkey,
        is_mayhem_mode: bool,
        is_cashback_coin: bool,
    ) -> (r: Self)
        requires
            curve_address_resolvable(bonding_curve@, mint@),
            dev_token_amount <= INITIAL_REAL_TOKEN_RESERVES,
            INITIAL_VIRTUAL_SOL_RESERVES + dev_sol_amount <= u64::MAX,
        ensures
            r.discriminator == 0,
            r.account@ == resolved_curve_address(bonding_curve@, mint@),
            r.virtual_token_reserves == INITIAL_VIRTUAL_TOKEN_RESERVES - dev_token_amount,
            r.virtual_sol_reserves == INITIAL_VIRTUAL_SOL_RESERVES + dev_sol_amount,
            r.real_token_reserves == INITIAL_REAL_TOKEN_RESERVES - dev_token_amount,
            r.real_sol_reserves == dev_sol_amount,
            r.token_total_supply == TOKEN_TOTAL_SUPPLY,
            !r.complete,
            r.creator == creator,
            r.is_mayhem_mode == is_mayhem_mode,
            r.is_cashback_coin == is_cashback_coin,
    {
        let account = if !bonding_curve.is_default() {
            bonding_curve
        } else {
            get_bonding_curve_pda(mint).unwrap()
        };
        Self {
            discriminator: 0,
            account: account,
            virtual_token_reserves: INITIAL_VIRTUAL_TOKEN_RESERVES - dev_token_amount,
            virtual_sol_reserves: INITIAL_VIRTUAL_SOL_RESERVES + dev_sol_amount,
            real_token_reserves: INITIAL_REAL_TOKEN_RESERVES - dev_token_amount,
            real_sol_reserves: dev_sol_amount,
            token_total_supply: TOKEN_TOTAL_SUPPLY,
            complete: false,
            creator: creator,
            is_mayhem_mode: is_mayhem_mode,
            is_cashback_coin,
        }
    }

    /// Like `from_dev_trade`, but answers `None` when the curve address is not given
    /// and the mint has no bonding curve PDA; the amounts must fit the fresh curve.
    pub fn try_from_dev_trade(
        bonding_curve: Pubkey,
        mint: &Pubkey,
        dev_token_amount: u64,
        dev_sol_amount: u64,
        creator: Pubkey,
        is_mayhem_mode: bool,
        is_cashback_coin: bool,
    ) -> (r: Option<Self>)
        requires
            dev_token_amount <= INITIAL_REAL_TOKEN_RESERVES,
            INITIAL_VIRTUAL_SOL_RESERVES + dev_sol_amount <= u64::MAX,
        ensures
            r is Some <==> curve_address_resolvable(bonding_curve@, mint@),
            r matches Some(c) ==> {
                &&& c.account@ == resolved_curve_address(bonding_curve@, mint@)
                &&& c.virtual_token_reserves == INITIAL_VIRTUAL_TOKEN_RESERVES - dev_token_amount
                &&& c.virtual_sol_reserves == INITIAL_VIRTUAL_SOL_RESERVES + dev_sol_amount
                &&& c.real_token_reserves == INITIAL_REAL_TOKEN_RESERVES - dev_token_amount
                &&& c.real_sol_reserves == dev_sol_amount
                &&& c.token_total_supply == TOKEN_TOTAL_SUPPLY
                &&& !c.complete
                &&& c.creator == creator
                &&& c.is_mayhem_mode == is_mayhem_mode
                &&& c.is_cashback_coin == is_cashback_coin
            },
    {
        if bonding_curve.is_default() && get_bonding_curve_pda(mint).is_none() {
            return None;
        }
        Some(
            Self::from_dev_trade(
                bonding_curve,
                mint,
                dev_token_amount,
                dev_sol_amount,
                creator,
                is_mayhem_mode,
                is_cashback_coin,
            ),
        )
    }

    /// Builds the curve state from reserves observed in a trade event.
    pub fn from_trade(
        bonding_curve: Pubkey,
        mint: Pubkey,
        creator: Pubkey,
        virtual_token_reserves: u64,
        virtual_sol_reserves: u64,
        real_token_reserves: u64,
        real_sol_reserves: u64,
        is_mayhem_mode: bool,
        is_cashback_coin: bool,
    ) -> (r: Self)
        requires
            curve_address_resolvable(bonding_curve@, mint@),
        ensures
            r.discriminator == 0,
            r.account@ == resolved_curve_address(bonding_curve@, mint@),
            r.virtual_token_reserves == virtual_token_reserves,
            r.virtual_sol_reserves == virtual_sol_reserves,
            r.real_token_reserves == real_token_reserves,
            r.real_sol_reserves == real_sol_reserves,
            r.token_total_supply == TOKEN_TOTAL_SUPPLY,
            !r.complete,
            r.creator == creator,
            r.is_mayhem_mode == is_mayhem_mode,
            r.is_cashback_coin == is_cashback_coin,
    {
        let account = if !bonding_curve.is_default() {
            bonding_curve
        } else {
            get_bonding_curve_pda(&mint).unwrap()
        };
        Self {
            discriminator: 0,
            account: account,
            virtual_token_reserves: virtual_token_reserves,
            virtual_sol_reserves: virtual_sol_reserves,
            real_token_reserves: real_token_reserves,
            real_sol_reserves: real_sol_reserves,
            token_total_supply: TOKEN_TOTAL_SUPPLY,
            complete: false,
            creator: creator,
            is_mayhem_mode: is_mayhem_mode,
            is_cashback_coin,
        }
    }

    /// Like `from_trade`, but answers `None` when the curve address is not given and
    /// the mint has no bonding curve PDA.
    pub fn try_from_trade(
        bonding_curve: Pubkey,
        mint: Pubkey,
        creator: Pubkey,
        virtual_token_reserves: u64,
        virtual_sol_reserves: u64,
        real_token_reserves: u64,
        real_sol_reserves: u64,
        is_mayhem_mode: bool,
        is_cashback_coin: bool,
    ) -> (r: Option<Self>)
        ensures
            r is Some <==> curve_address_resolvable(bonding_curve@, mint@),
            r matches Some(c) ==> {
                &&& c.account@ == resolved_curve_address(bonding_curve@, mint@)
                &&& c.virtual_token_reserves == virtual_token_reserves
                &&& c.virtual_sol_reserves == virtual_sol_reserves
                &&& c.real_token_reserves == real_token_reserves
                &&& c.real_sol_reserves == real_sol_reserves
                &&& c.token_total_supply == TOKEN_TOTAL_SUPPLY
                &&& !c.complete
                &&& c.creator == creator
                &&& c.is_mayhem_mode == is_mayhem_mode
                &&& c.is_cashback_coin == is_cashback_coin
            },
    {
        if bonding_curve.is_default() && get_bonding_curve_pda(&mint).is_none() {
            return None;
        }
        Some(
            Self::from_trade(
                bonding_curve,
                mint,
                creator,
                virtual_token_reserves,
                virtual_sol_reserves,
                real_token_reserves,
                real_sol_reserves,
                is_mayhem_mode,
                is_cashback_coin,
            ),
        )
    }

    /// The creator vault address of this curve's creator.
    pub fn get_creator_vault_pda(&self) -> (r: Pubkey)
        requires
            spec_creator_vault_pda(self.creator@) is Some,
        ensures
            Some(r@) == spec_creator_vault_pda(self.creator@),
    {
        get_creator_vault_pda(&self.creator).unwrap()
    }

    /// The creator vault address, or `None` when the creator has no vault PDA.
    pub fn try_get_creator_vault_pda(&self) -> (r: Option<Pubkey>)
        ensures
            r is Some <==> spec_creator_vault_pda(self.creator@) is Some,
            r matches Some(k) ==> Some(k@) == spec_creator_vault_pda(self.creator@),
    {
        if get_creator_vault_pda(&self.creator).is_none() {
            return None;
        }
        Some(self.get_creator_vault_pda())
    }

    /// Amount of tokens received for `amount` lamports; an error once the curve is complete.
    pub fn get_buy_price(&self, amount: u64) -> (r: Result<u64, &'static str>)
        requires
            !self.complete && amount > 0 ==> self.virtual_token_reserves > 0,
        ensures
            self.complete ==> (r matches Err(e) && e@ == "Curve is complete"@),
            !self.complete ==> r == Ok::<u64, &'static str>(spec_buy_price(*self, amount) as u64),
            !self.complete ==> spec_buy_price(*self, amount) <= self.real_token_reserves,
            !self.complete && amount > 0 ==> (r matches Ok(t) && {
                let vsr = self.virtual_sol_reserves as int;
                let vtr = self.virtual_token_reserves as int;
                &&& t <= self.real_token_reserves
                &&& t < self.real_token_reserves ==> (vtr - t - 1) * (vsr + amount) <= vsr * vtr && vsr * vtr
                    < (vtr - t) * (vsr + amount)
                &&& t == self.real_token_reserves ==> vsr * vtr < (vtr - self.real_token_reserves) * (vsr
                    + amount)
            }),
    {
        proof {
            if !self.complete && amount > 0 {
                law_buy_price_constant_product(*self, amount);
            }
        }
        if self.complete {
            return Err("Curve is complete");
        }
        if amount == 0 {
            return Ok(0);
        }
        let vsr = self.virtual_sol_reserves;
        let vtr = self.virtual_token_reserves;
        proof {
            lemma_u64_mul_fits(vsr, vtr);
        }
        let n: u128 = (vsr as u128) * (vtr as u128);
        let i: u128 = (vsr as u128) + (amount as u128);
        proof {
            assert(n / i < vtr) by (nonlinear_arith)
                requires
                    n == vsr * vtr,
                    i == vsr + amount,
                    amount > 0,
                    vtr > 0,
                    vsr >= 0,
            ;
        }
        let r: u128 = n / i + 1;
        let s: u128 = (vtr as u128) - r;
        let s_u64 = s as u64;
        Ok(if s_u64 < self.real_token_reserves { s_u64 } else { self.real_token_reserves })
    }

    /// Lamports received for selling `amount` tokens after a fee of `fee_basis_points`;
    /// an error once the curve is complete.
    pub fn get_sell_price(&self, amount: u64, fee_basis_points: u64) -> (r: Result<u64, &'static str>)
        requires
            !self.complete && amount > 0 ==> (spec_sell_gross(*self, amount) * fee_basis_points)
                / 10_000 <= spec_sell_gross(*self, amount),
        ensures
            self.complete ==> (r matches Err(e) && e@ == "Curve is complete"@),
            !self.complete ==> r == Ok::<u64, &'static str>(
                spec_sell_price(*self, amount, fee_basis_points) as u64,
            ),
            !self.complete ==> spec_sell_price(*self, amount, fee_basis_points)
                <= self.virtual_sol_reserves,
    {
        if self.complete {
            return Err("Curve is complete");
        }
        if amount == 0 {
            return Ok(0);
        }
        let vsr = self.virtual_sol_reserves;
        let vtr = self.virtual_token_reserves;
        proof {
            lemma_u64_mul_fits(amount, vsr);
        }
        let n: u128 = ((amount as u128) * (vsr as u128)) / ((vtr as u128) + (amount as u128));
        proof {
            assert(n <= vsr) by (nonlinear_arith)
                requires
                    n == (amount * vsr) / (vtr + amount),
                    amount > 0,
                    vtr >= 0,
                    vsr >= 0,
            ;
            lemma_u64_mul_fits(n as u64, fee_basis_points);
        }
        let a: u128 = (n * (fee_basis_points as u128)) / 10000;
        Ok((n - a) as u64)
    }

    /// Current market cap in lamports (0 when there are no virtual token reserves).
    pub fn get_market_cap_sol(&self) -> (r: u64)
        ensures
            r == spec_market_cap_sol(*self),
    {
        if self.virtual_token_reserves == 0 {
            return 0;
        }
        proof {
            lemma_u64_mul_fits(self.token_total_supply, self.virtual_sol_reserves);
        }
        #[verifier::truncate]
        (((self.token_total_supply as u128) * (self.virtual_sol_reserves as u128)
            / (self.virtual_token_reserves as u128)) as u64)
    }

    /// Price to buy out `amount` tokens (at least the real SOL reserves), fee included.
    pub fn get_buy_out_price(&self, amount: u64, fee_basis_points: u64) -> (r: u64)
        requires
            buy_out_computable(*self, amount, fee_basis_points),
        ensures
            r == spec_buy_out_price(*self, amount, fee_basis_points),
    {
        let sol_tokens: u128 = if amount < self.real_sol_reserves {
            self.real_sol_reserves as u128
        } else {
            amount as u128
        };
        proof {
            lemma_u64_mul_fits(sol_tokens as u64, self.virtual_sol_reserves);
        }
        let total_sell_value: u128 = (sol_tokens * (self.virtual_sol_reserves as u128)) / ((
        self.virtual_token_reserves as u128) - sol_tokens) + 1;
        let fee: u128 = (total_sell_value * (fee_basis_points as u128)) / 10000;
        #[verifier::truncate]
        ((total_sell_value + fee) as u64)
    }

    /// Market cap once all remaining real tokens are bought out.
    pub fn get_final_market_cap_sol(&self, fee_basis_points: u64) -> (r: u64)
        requires
            buy_out_computable(*self, self.real_token_reserves, fee_basis_points),
            self.token_total_supply * (self.virtual_sol_reserves + spec_buy_out_price(
                *self,
                self.real_token_reserves,
                fee_basis_points,
            )) <= u128::MAX,
        ensures
            r == spec_final_market_cap_sol(*self, fee_basis_points),
    {
        let total_sell_value: u128 = self.get_buy_out_price(
            self.real_token_reserves,
            fee_basis_points,
        ) as u128;
        let total_virtual_value: u128 = (self.virtual_sol_reserves as u128) + total_sell_value;
        let total_virtual_tokens: u128 = (self.virtual_token_reserves as u128) - (
        self.real_token_reserves as u128);
        if total_virtual_tokens == 0 {
            return 0;
        }
        #[verifier::truncate]
        (((self.token_total_supply as u128) * total_virtual_value / total_virtual_tokens) as u64)
    }
}

/// Global configuration account of the PumpFun program: initial curve reserves, supply
/// and fees.
#[derive(Clone, Debug)]
pub struct GlobalAccount {
    pub discriminator: u64,
    pub account: Pubkey,
    pub initialized: bool,
    pub authority: Pubkey,
    pub fee_recipient: Pubkey,
    pub initial_virtual_token_reserves: u64,
    pub initial_virtual_sol_reserves: u64,
    pub initial_real_token_reserves: u64,
    pub token_total_supply: u64,
    pub fee_basis_points: u64,
    pub withdraw_authority: Pubkey,
    pub enable_migrate: bool,
    pub pool_migration_fee: u64,
    pub creator_fee: u64,
    pub fee_recipients: [Pubkey; 7],
}

/// Tokens the first buy of `amount` lamports on a fresh curve gets: what the constant
/// product of the initial virtual reserves leaves (rounded so as to give fewer), at most
/// the initial real token reserves.
pub open spec fn spec_initial_buy_price(g: GlobalAccount, amount: u64) -> u64 {
    if amount == 0 {
        0
    } else {
        let n = g.initial_virtual_sol_reserves * g.initial_virtual_token_reserves;
        let i = g.initial_virtual_sol_reserves + amount;
        let r = n / i + 1;
        let s = g.initial_virtual_token_reserves - r;
        if s < g.initial_real_token_reserves {
            s as u64
        } else {
            g.initial_real_token_reserves
        }
    }
}

impl GlobalAccount {
    /// Tokens the first buy of `amount` lamports gets (see `spec_initial_buy_price`); the
    /// initial virtual token reserves must be positive for a positive amount.
    pub fn get_initial_buy_price(&self, amount: u64) -> (r: u64)
        requires
            amount > 0 ==> self.initial_virtual_token_reserves > 0,
        ensures
            r == spec_initial_buy_price(*self, amount),
    {
        if amount == 0 {
            return 0;
        }
        let vs = self.initial_virtual_sol_reserves as u128;
        let vt = self.initial_virtual_token_reserves as u128;
        proof {
            assert(vs * vt <= 0xffff_ffff_ffff_ffff * 0xffff_ffff_ffff_ffffu128) by (nonlinear_arith)
                requires
                    vs <= 0xffff_ffff_ffff_ffff,
                    vt <= 0xffff_ffff_ffff_ffff,
            ;
        }
        let n: u128 = vs * vt;
        let i: u128 = vs + (amount as u128);
        proof {
            assert(n / i < vt) by (nonlinear_arith)
                requires
                    n == vs * vt,
                    i == vs + amount,
                    amount > 0,
                    vt > 0,
            {
                assert(n < i * vt);
            }
        }
        let r: u128 = n / i + 1;
        let s: u128 = vt - r;
        if s < (self.initial_real_token_reserves as u128) {
            s as u64
        } else {
            self.initial_real_token_reserves
        }
    }
}

} // verus!
