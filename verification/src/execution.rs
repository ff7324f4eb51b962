//! Trade execution helpers: instruction checks and sizing, byte operations, trade
//! direction, and the decisions of the generic trade executor.

use vstd::prelude::*;

use crate::gas_fee_strategy::{GasFeeStrategy, GasFeeStrategyType};
use crate::hardware::{byte_prefix, BranchOptimizer, SIMDMemoryOps};
use crate::pubkey::{
    spec_sol_token_account, spec_usd1_token_account, spec_usdc_token_account, spec_wsol_token_account,
    sol_token_account, usd1_token_account, usdc_token_account, wsol_token_account, Pubkey,
};
use crate::swqos::{SwqosType, TradeType};
use crate::token_accounts::Instruction;

verus! {

/// Bytes of one account key.
pub const BYTES_PER_ACCOUNT: usize = 32;

/// Instruction count above which a warning is due.
pub const MAX_INSTRUCTIONS_WARN: usize = 64;

/// Cache prefetch hints for data about to be read. They change nothing that can be
/// observed; this build issues none.
pub struct Prefetch;

impl Prefetch {
    /// Hint: the first, middle and last instructions are about to be read.
    pub fn instructions(_instructions: &[Instruction]) {
    }

    /// Hint: the key is about to be read.
    pub fn pubkey(_pubkey: &Pubkey) {
    }
}

/// Byte-block operations.
pub struct MemoryOps;

impl MemoryOps {
    /// Copies the first `len` bytes of `src` over the first `len` bytes of `dst`.
    pub fn copy(dst: &mut [u8], src: &[u8], len: usize)
        requires
            len <= old(dst)@.len(),
            len <= src@.len(),
        ensures
            final(dst)@ == src@.subrange(0, len as int) + old(dst)@.subrange(len as int, old(dst)@.len() as int),
    {
        SIMDMemoryOps::memcpy_simd_optimized(dst, src, len);
    }

    /// Whether the first `len` bytes of `a` and `b` agree.
    pub fn compare(a: &[u8], b: &[u8], len: usize) -> (r: bool)
        requires
            len <= a@.len(),
            len <= b@.len(),
        ensures
            r == (byte_prefix(a@, len) == byte_prefix(b@, len)),
    {
        SIMDMemoryOps::memcmp_simd_optimized(a, b, len)
    }

    /// Zeroes the first `len` bytes of `buf`.
    pub fn zero(buf: &mut [u8], len: usize)
        requires
            len <= old(buf)@.len(),
        ensures
            final(buf)@.len() == old(buf)@.len(),
            forall|j: int| 0 <= j < len ==> final(buf)@[j] == 0,
            forall|j: int| len <= j < old(buf)@.len() ==> final(buf)@[j] == old(buf)@[j],
    {
        SIMDMemoryOps::memzero_simd_optimized(buf, len);
    }
}

/// Error of an empty instruction list.
pub open spec fn empty_instructions_error() -> Seq<char> {
    "Instructions empty"@
}

/// Bytes an instruction list carries: its data plus 32 bytes per account reference.
pub open spec fn instructions_size(ixs: Seq<Instruction>) -> int
    decreases ixs.len(),
{
    if ixs.len() == 0 {
        0
    } else {
        instructions_size(ixs.drop_last()) + ixs.last().data@.len() + ixs.last().accounts@.len()
            * BYTES_PER_ACCOUNT
    }
}

proof fn lemma_size_monotone(ixs: Seq<Instruction>, k: int)
    requires
        0 <= k <= ixs.len(),
    ensures
        0 <= instructions_size(ixs.take(k)) <= instructions_size(ixs),
    decreases ixs.len() - k,
{
    if k < ixs.len() {
        lemma_size_monotone(ixs, k + 1);
        assert(ixs.take(k + 1).drop_last() =~= ixs.take(k));
    } else {
        assert(ixs.take(k) =~= ixs);
    }
    lemma_size_nonneg(ixs.take(k));
}

proof fn lemma_size_nonneg(ixs: Seq<Instruction>)
    ensures
        instructions_size(ixs) >= 0,
    decreases ixs.len(),
{
    if ixs.len() > 0 {
        lemma_size_nonneg(ixs.drop_last());
    }
}

/// Checks and sizing of instruction lists.
pub struct InstructionProcessor;

impl InstructionProcessor {
    /// Refuses an empty instruction list; a long one is accepted.
    pub fn preprocess(instructions: &[Instruction]) -> (r: Result<(), String>)
        ensures
            instructions@.len() == 0 ==> (r matches Err(e) && e@ == empty_instructions_error()),
            instructions@.len() > 0 ==> r is Ok,
    {
        if BranchOptimizer::unlikely(instructions.len() == 0) {
            return Err("Instructions empty".to_owned());
        }
        Prefetch::instructions(instructions);
        Ok(())
    }

    /// Whether the list is long enough to warn about.
    pub fn is_large(instructions: &[Instruction]) -> (r: bool)
        ensures
            r == (instructions@.len() > MAX_INSTRUCTIONS_WARN),
    {
        instructions.len() > MAX_INSTRUCTIONS_WARN
    }

    /// Bytes the list carries (see `instructions_size`).
    pub fn calculate_size(instructions: &[Instruction]) -> (r: usize)
        requires
            instructions_size(instructions@) <= usize::MAX,
        ensures
            r == instructions_size(instructions@),
    {
        let mut total_size: usize = 0;
        let mut i: usize = 0;
        while i < instructions.len()
            invariant
                i <= instructions@.len(),
                instructions_size(instructions@) <= usize::MAX,
                total_size == instructions_size(instructions@.take(i as int)),
            decreases instructions@.len() - i,
        {
            proof {
                lemma_size_monotone(instructions@, i + 1);
                assert(instructions@.take(i + 1).drop_last() =~= instructions@.take(i as int));
            }
            let ix = &instructions[i];
            total_size = total_size + ix.data.len();
            total_size = total_size + ix.accounts.len() * BYTES_PER_ACCOUNT;
            i = i + 1;
        }
        assert(instructions@.take(i as int) =~= instructions@);
        total_size
    }
}

/// Whether a trade pays with `input_mint`, i.e. buys: SOL, wrapped SOL, USD1 or USDC.
pub open spec fn spec_is_buy(input_mint: Seq<u8>) -> bool {
    input_mint == spec_sol_token_account() || input_mint == spec_wsol_token_account() || input_mint
        == spec_usd1_token_account() || input_mint == spec_usdc_token_account()
}

/// Trade direction and branch helpers.
pub struct ExecutionPath;

impl ExecutionPath {
    /// Whether a trade paying with `input_mint` is a buy (see `spec_is_buy`).
    pub fn is_buy(input_mint: &Pubkey) -> (r: bool)
        ensures
            r == spec_is_buy(input_mint@),
    {
        let is_buy = input_mint.equals(&sol_token_account()) || input_mint.equals(&wsol_token_account())
            || input_mint.equals(&usd1_token_account()) || input_mint.equals(&usdc_token_account());
        if BranchOptimizer::likely(is_buy) {
            return true;
        }
        false
    }

    /// Runs `fast_path` when `condition` holds, else `slow_path`.
    pub fn select<T, F: FnOnce() -> T, S: FnOnce() -> T>(condition: bool, fast_path: F, slow_path: S) -> (r: T)
        requires
            condition ==> fast_path.requires(()),
            !condition ==> slow_path.requires(()),
        ensures
            condition ==> fast_path.ensures((), r),
            !condition ==> slow_path.ensures((), r),
    {
        if BranchOptimizer::likely(condition) {
            fast_path()
        } else {
            slow_path()
        }
    }
}

/// Error when no default-service fee strategy exists for a simulation.
pub open spec fn no_default_strategy_error() -> Seq<char> {
    "No default gas fee strategy found"@
}

/// Executes swaps built by an instruction builder for one protocol, deciding what is
/// submitted and how results are folded.
pub struct GenericTradeExecutor<B> {
    instruction_builder: B,
    protocol_name: &'static str,
}

impl<B> GenericTradeExecutor<B> {
    /// The protocol's name.
    pub closed spec fn spec_protocol_name(&self) -> &'static str {
        self.protocol_name
    }

    /// The builder.
    pub closed spec fn spec_builder(&self) -> B {
        self.instruction_builder
    }

    /// An executor for the protocol named `protocol_name`.
    pub fn new(instruction_builder: B, protocol_name: &'static str) -> (r: Self)
        ensures
            r.spec_protocol_name() == protocol_name,
            r.spec_builder() == instruction_builder,
    {
        GenericTradeExecutor { instruction_builder, protocol_name }
    }

    /// The instruction builder.
    pub fn instruction_builder(&self) -> (r: &B)
        ensures
            *r == self.spec_builder(),
    {
        &self.instruction_builder
    }

    /// The protocol's name.
    pub fn protocol_name(&self) -> (r: &'static str)
        ensures
            r == self.spec_protocol_name(),
    {
        self.protocol_name
    }
}

/// Whether a trade type buys (a buy, or a create that buys).
pub fn trade_is_buy(trade_type: TradeType) -> (r: bool)
    ensures
        r == (trade_type == TradeType::Buy || trade_type == TradeType::CreateAndBuy),
{
    trade_type == TradeType::Buy || trade_type == TradeType::CreateAndBuy
}

/// Whether a tip is paid: always on buys, as asked on sells.
pub fn tip_enabled(is_buy: bool, with_tip: bool) -> (r: bool)
    ensures
        r == (is_buy || with_tip),
{
    if is_buy {
        true
    } else {
        with_tip
    }
}

/// The strategy type a simulation takes for the default service: normal if set, else
/// low-tip, else high-tip.
pub open spec fn default_strategy_choice(
    m: Map<(SwqosType, TradeType, GasFeeStrategyType), crate::gas_fee_strategy::GasFeeStrategyValue>,
    t: TradeType,
) -> Option<GasFeeStrategyType> {
    if m.dom().contains((SwqosType::Default, t, GasFeeStrategyType::Normal)) {
        Some(GasFeeStrategyType::Normal)
    } else if m.dom().contains((SwqosType::Default, t, GasFeeStrategyType::LowTipHighCuPrice)) {
        Some(GasFeeStrategyType::LowTipHighCuPrice)
    } else if m.dom().contains((SwqosType::Default, t, GasFeeStrategyType::HighTipLowCuPrice)) {
        Some(GasFeeStrategyType::HighTipLowCuPrice)
    } else {
        None
    }
}

/// Compute-unit limit, compute-unit price and tip (as IEEE-754 bits, zero without a
/// tip) to simulate a trade with: those of the default service's strategy (see
/// `default_strategy_choice`); refused when there is none.
pub fn simulation_fee_config(strategy: &GasFeeStrategy, is_buy: bool, with_tip: bool) -> (r: Result<
    (u32, u64, u64),
    String,
>)
    requires
        strategy.well_formed(),
    ensures
        ({
            let t = if is_buy {
                TradeType::Buy
            } else {
                TradeType::Sell
            };
            match default_strategy_choice(strategy@, t) {
                None => r matches Err(e) && e@ == no_default_strategy_error(),
                Some(g) => {
                    let v = strategy@[(SwqosType::Default, t, g)];
                    r == Ok::<(u32, u64, u64), String>(
                        (v.cu_limit, v.cu_price, if with_tip {
                            v.tip_bits
                        } else {
                            0
                        }),
                    )
                },
            }
        }),
{
    let t = if is_buy {
        TradeType::Buy
    } else {
        TradeType::Sell
    };
    let found = match strategy.get(SwqosType::Default, t, GasFeeStrategyType::Normal) {
        Some(v) => Some(v),
        None => match strategy.get(SwqosType::Default, t, GasFeeStrategyType::LowTipHighCuPrice) {
            Some(v) => Some(v),
            None => strategy.get(SwqosType::Default, t, GasFeeStrategyType::HighTipLowCuPrice),
        },
    };
    match found {
        Some(v) => Ok((v.cu_limit, v.cu_price, if with_tip {
            v.tip_bits
        } else {
            0
        })),
        None => Err("No default gas fee strategy found".to_owned()),
    }
}

/// Whether a submission must be confirmed by polling: confirmation was asked for, an
/// RPC client is at hand, and the submission produced signatures.
pub open spec fn spec_needs_poll<S>(
    need_confirm: bool,
    has_rpc: bool,
    submitted: Result<(bool, Vec<S>, Option<String>), String>,
) -> bool {
    need_confirm && has_rpc && (submitted matches Ok((_, sigs, _)) && sigs@.len() > 0)
}

/// Whether a submission must be confirmed by polling (see `spec_needs_poll`).
pub fn needs_poll<S>(
    need_confirm: bool,
    has_rpc: bool,
    submitted: &Result<(bool, Vec<S>, Option<String>), String>,
) -> (r: bool)
    ensures
        r == spec_needs_poll(need_confirm, has_rpc, *submitted),
{
    if !need_confirm || !has_rpc {
        return false;
    }
    match submitted {
        Ok((_, sigs, _)) => sigs.len() > 0,
        Err(_) => false,
    }
}

/// The outcome of a swap: without confirmation, the submission as it is; with it, a
/// failed submission becomes (false, no signatures, its error), and a poll makes it
/// confirmed (true, no error) or failed (false, the poll's error).
pub fn confirmation_outcome<S>(
    need_confirm: bool,
    has_rpc: bool,
    submitted: Result<(bool, Vec<S>, Option<String>), String>,
    poll: Option<Result<(), String>>,
) -> (r: Result<(bool, Vec<S>, Option<String>), String>)
    requires
        poll is Some <==> spec_needs_poll(need_confirm, has_rpc, submitted),
    ensures
        !need_confirm ==> r == submitted,
        need_confirm ==> match submitted {
            Err(e) => r matches Ok((ok2, v, err2)) && !ok2 && v@.len() == 0 && err2 == Some(e),
            Ok((ok, sigs, err)) => match poll {
                None => r == Ok::<(bool, Vec<S>, Option<String>), String>((ok, sigs, err)),
                Some(Ok(())) => r == Ok::<(bool, Vec<S>, Option<String>), String>((true, sigs, None)),
                Some(Err(pe)) => r == Ok::<(bool, Vec<S>, Option<String>), String>((false, sigs, Some(pe))),
            },
        },
{
    if !need_confirm {
        return submitted;
    }
    match submitted {
        Err(e) => Ok((false, Vec::new(), Some(e))),
        Ok((ok, sigs, err)) => match poll {
            None => Ok((ok, sigs, err)),
            Some(Ok(())) => Ok((true, sigs, None)),
            Some(Err(pe)) => Ok((false, sigs, Some(pe))),
        },
    }
}

} // verus!
