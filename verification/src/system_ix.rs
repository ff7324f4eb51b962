//! System-program and compute-budget instructions, and durable nonces: the advance
//! instruction, the blockhash a transaction signs, and the nonce an account holds.

use vstd::prelude::*;
use vstd::utf8::encode_utf8;

use crate::pubkey::{spec_system_program, Pubkey};
use crate::token_accounts::{ix_view, le_bytes, AccountMeta, Instruction};

use solana_pubkey::Pubkey as SolanaPubkey;

verus! {

/// The compute-budget program.
pub open spec fn spec_compute_budget_program() -> Seq<u8> {
    seq![3u8, 6, 70, 111, 229, 33, 23, 50, 255, 236, 173, 186, 114, 195, 155, 231, 188, 140, 229, 187, 197, 247, 18, 107, 44, 67, 155, 58, 64, 0, 0, 0]
}

/// The recent-blockhashes sysvar.
pub open spec fn spec_recent_blockhashes_sysvar() -> Seq<u8> {
    seq![6u8, 167, 213, 23, 25, 44, 86, 142, 224, 138, 132, 95, 115, 210, 151, 136, 207, 3, 92, 49, 69, 178, 26, 179, 68, 216, 6, 46, 169, 64, 0, 0]
}

/// An instruction as plain values: program, accounts (address, signer, writable), data.
pub type IxView = (Seq<u8>, Seq<(Seq<u8>, bool, bool)>, Seq<u8>);

/// System `Transfer` of `lamports` from `from` (signer) to `to`: variant 2, then the
/// amount, both little-endian.
pub open spec fn spec_system_transfer_ix(from: Seq<u8>, to: Seq<u8>, lamports: u64) -> IxView {
    (spec_system_program(), seq![(from, true, true), (to, false, true)], seq![2u8, 0, 0, 0] + le_bytes(lamports))
}

/// System `CreateAccountWithSeed`: variant 3, base, seed (length as 8 bytes, then its
/// UTF-8 bytes), lamports, space and owner.
pub open spec fn spec_create_account_with_seed_ix(
    from: Seq<u8>,
    to: Seq<u8>,
    base: Seq<u8>,
    seed: Seq<char>,
    lamports: u64,
    space: u64,
    owner: Seq<u8>,
) -> IxView {
    let seed_bytes = encode_utf8(seed);
    (
        spec_system_program(),
        seq![(from, true, true), (to, false, true), (base, true, false)],
        seq![3u8, 0, 0, 0] + base + le_bytes(seed_bytes.len() as u64) + seed_bytes + le_bytes(lamports)
            + le_bytes(space) + owner,
    )
}

/// System `AdvanceNonceAccount` (variant 4) of `nonce`, authorized by `authority`.
pub open spec fn spec_advance_nonce_ix(nonce: Seq<u8>, authority: Seq<u8>) -> IxView {
    (
        spec_system_program(),
        seq![(nonce, false, true), (spec_recent_blockhashes_sysvar(), false, false), (authority, true, false)],
        seq![4u8, 0, 0, 0],
    )
}

/// Compute-budget `SetComputeUnitPrice`: tag 3, then the price (8 bytes little-endian).
pub open spec fn spec_unit_price_ix(micro_lamports: u64) -> IxView {
    (spec_compute_budget_program(), Seq::empty(), seq![3u8] + le_bytes(micro_lamports))
}

/// Compute-budget `SetComputeUnitLimit`: tag 2, then the limit (4 bytes little-endian).
pub open spec fn spec_unit_limit_ix(units: u32) -> IxView {
    (spec_compute_budget_program(), Seq::empty(), seq![2u8] + le_bytes(units as u64).subrange(0, 4))
}

/// Calls `solana_system_interface::instruction::transfer`, which builds the system
/// `Transfer` instruction as `spec_system_transfer_ix` lays it out.
#[verifier::external_body]
pub(crate) fn system_transfer(from: &Pubkey, to: &Pubkey, lamports: u64) -> (r: Instruction)
    ensures
        ix_view(r) == spec_system_transfer_ix(from@, to@, lamports),
{
    let ix = solana_system_interface::instruction::transfer(
        &SolanaPubkey::new_from_array(from.0), &SolanaPubkey::new_from_array(to.0), lamports);
    let accounts = ix.accounts.iter().map(|m| AccountMeta { pubkey: Pubkey(m.pubkey.to_bytes()), is_signer: m.is_signer, is_writable: m.is_writable }).collect();
    Instruction { program_id: Pubkey(ix.program_id.to_bytes()), accounts, data: ix.data }
}

/// Calls `solana_system_interface::instruction::create_account_with_seed`, which builds
/// the system `CreateAccountWithSeed` instruction as `spec_create_account_with_seed_ix`
/// lays it out (bincode of the variant, with the seed as a length-prefixed string).
#[verifier::external_body]
pub(crate) fn system_create_account_with_seed(
    from: &Pubkey,
    to: &Pubkey,
    base: &Pubkey,
    seed: &str,
    lamports: u64,
    space: u64,
    owner: &Pubkey,
) -> (r: Instruction)
    ensures
        ix_view(r) == spec_create_account_with_seed_ix(from@, to@, base@, seed@, lamports, space, owner@),
{
    let k = |p: &Pubkey| SolanaPubkey::new_from_array(p.0);
    let ix = solana_system_interface::instruction::create_account_with_seed(&k(from), &k(to), &k(base), seed, lamports, space, &k(owner));
    let accounts = ix.accounts.iter().map(|m| AccountMeta { pubkey: Pubkey(m.pubkey.to_bytes()), is_signer: m.is_signer, is_writable: m.is_writable }).collect();
    Instruction { program_id: Pubkey(ix.program_id.to_bytes()), accounts, data: ix.data }
}

/// Calls `solana_system_interface::instruction::advance_nonce_account`, which builds the
/// system `AdvanceNonceAccount` instruction as `spec_advance_nonce_ix` lays it out.
#[verifier::external_body]
pub(crate) fn system_advance_nonce_account(nonce: &Pubkey, authority: &Pubkey) -> (r: Instruction)
    ensures
        ix_view(r) == spec_advance_nonce_ix(nonce@, authority@),
{
    let ix = solana_system_interface::instruction::advance_nonce_account(
        &SolanaPubkey::new_from_array(nonce.0), &SolanaPubkey::new_from_array(authority.0));
    let accounts = ix.accounts.iter().map(|m| AccountMeta { pubkey: Pubkey(m.pubkey.to_bytes()), is_signer: m.is_signer, is_writable: m.is_writable }).collect();
    Instruction { program_id: Pubkey(ix.program_id.to_bytes()), accounts, data: ix.data }
}

/// Calls `ComputeBudgetInstruction::set_compute_unit_price`, which builds the
/// instruction `spec_unit_price_ix` lays out.
#[verifier::external_body]
fn unit_price_instruction(micro_lamports: u64) -> (r: Instruction)
    ensures
        ix_view(r) == spec_unit_price_ix(micro_lamports),
{
    let ix = solana_compute_budget_interface::ComputeBudgetInstruction::set_compute_unit_price(micro_lamports);
    Instruction { program_id: Pubkey(ix.program_id.to_bytes()), accounts: Vec::new(), data: ix.data }
}

/// Calls `ComputeBudgetInstruction::set_compute_unit_limit`, which builds the
/// instruction `spec_unit_limit_ix` lays out.
#[verifier::external_body]
fn unit_limit_instruction(units: u32) -> (r: Instruction)
    ensures
        ix_view(r) == spec_unit_limit_ix(units),
{
    let ix = solana_compute_budget_interface::ComputeBudgetInstruction::set_compute_unit_limit(units);
    Instruction { program_id: Pubkey(ix.program_id.to_bytes()), accounts: Vec::new(), data: ix.data }
}

/// Instructions as plain values.
pub open spec fn ix_views(ixs: Seq<Instruction>) -> Seq<IxView> {
    ixs.map_values(|ix: Instruction| ix_view(ix))
}

/// The compute-budget instructions for a price and a limit: the price instruction
/// unless the price is zero, then the limit instruction unless the limit is zero.
pub open spec fn spec_compute_budget_ixs(unit_price: u64, unit_limit: u32) -> Seq<IxView> {
    (if unit_price > 0 {
        seq![spec_unit_price_ix(unit_price)]
    } else {
        Seq::empty()
    }) + (if unit_limit > 0 {
        seq![spec_unit_limit_ix(unit_limit)]
    } else {
        Seq::empty()
    })
}

/// The compute-budget instructions for a price and a limit (see
/// `spec_compute_budget_ixs`).
pub fn compute_budget_instructions(unit_price: u64, unit_limit: u32) -> (r: Vec<Instruction>)
    ensures
        ix_views(r@) == spec_compute_budget_ixs(unit_price, unit_limit),
{
    let mut insts: Vec<Instruction> = Vec::new();
    if unit_price > 0 {
        insts.push(unit_price_instruction(unit_price));
    }
    let ghost mid = insts@;
    if unit_limit > 0 {
        insts.push(unit_limit_instruction(unit_limit));
    }
    assert(ix_views(insts@) =~= spec_compute_budget_ixs(unit_price, unit_limit));
    insts
}

/// A 32-byte blockhash.
#[derive(Clone, Copy, Debug)]
pub struct Blockhash(pub [u8; 32]);

impl View for Blockhash {
    type V = Seq<u8>;

    open spec fn view(&self) -> Seq<u8> {
        self.0@
    }
}

/// A durable nonce: the nonce account and the blockhash it currently holds.
#[derive(Clone, Copy, Debug)]
pub struct DurableNonceInfo {
    pub nonce_account: Option<Pubkey>,
    pub current_nonce: Option<Blockhash>,
}

/// The error for a durable nonce that is not ready: it names no account or holds no
/// nonce value yet.
pub open spec fn nonce_not_ready_error() -> Seq<char> {
    "Nonce is not ready"@
}

/// Appends the advance of the durable nonce, authorized by `payer`, when a nonce is
/// given; leaves the list as it was otherwise. A nonce that is not ready (no account or
/// no nonce value) is refused and the list is left as it was. The nonce is passed by
/// value and carries no lock or use state, so nothing else can refuse it.
pub fn add_nonce_instruction(
    instructions: &mut Vec<Instruction>,
    payer: &Pubkey,
    durable_nonce: Option<DurableNonceInfo>,
) -> (r: Result<(), String>)
    ensures
        durable_nonce is None ==> r is Ok && final(instructions)@ == old(instructions)@,
        durable_nonce matches Some(d) ==> (d.nonce_account is None || d.current_nonce is None) ==> (r matches Err(
            e,
        ) && e@ == nonce_not_ready_error() && final(instructions)@ == old(instructions)@),
        durable_nonce matches Some(d) ==> d.nonce_account is Some && d.current_nonce is Some ==> r is Ok
            && final(instructions)@.len() == old(instructions)@.len() + 1 && final(instructions)@.drop_last()
            == old(instructions)@ && ix_view(final(instructions)@.last()) == spec_advance_nonce_ix(
            d.nonce_account.unwrap()@,
            payer@,
        ),
{
    if let Some(durable_nonce) = durable_nonce {
        match (durable_nonce.nonce_account, durable_nonce.current_nonce) {
            (Some(nonce_account), Some(_)) => {
                let ix = system_advance_nonce_account(&nonce_account, payer);
                instructions.push(ix);
                assert(instructions@.drop_last() =~= old(instructions)@);
            },
            _ => {
                return Err("Nonce is not ready".to_owned());
            },
        }
    }
    Ok(())
}

/// The blockhash a transaction signs: the durable nonce's when one is given (it must
/// hold one), the recent blockhash otherwise (which must then be given).
pub fn get_transaction_blockhash(recent_blockhash: Option<Blockhash>, durable_nonce: Option<DurableNonceInfo>) -> (r: Blockhash)
    requires
        durable_nonce matches Some(d) ==> d.current_nonce is Some,
        durable_nonce is None ==> recent_blockhash is Some,
    ensures
        durable_nonce matches Some(d) ==> r == d.current_nonce.unwrap(),
        durable_nonce is None ==> r == recent_blockhash.unwrap(),
{
    if let Some(durable_nonce) = durable_nonce {
        durable_nonce.current_nonce.unwrap()
    } else {
        recent_blockhash.unwrap()
    }
}

/// The blockhash that nonce-account data holds when it decodes (bincode) as a current,
/// initialized nonce state; none for any other data.
pub uninterp spec fn nonce_account_blockhash(data: Seq<u8>) -> Option<Seq<u8>>;

/// Calls `bincode::deserialize::<solana_nonce::versions::Versions>` on account data and
/// keeps the durable nonce of a `Current` version in the `Initialized` state.
#[verifier::external_body]
fn decode_nonce_blockhash(data: &[u8]) -> (r: Option<Blockhash>)
    ensures
        r is None <==> nonce_account_blockhash(data@) is None,
        r matches Some(h) ==> nonce_account_blockhash(data@) == Some(h@),
{
    match bincode::deserialize::<solana_nonce::versions::Versions>(data) {
        Ok(solana_nonce::versions::Versions::Current(state)) => match *state {
            solana_nonce::state::State::Initialized(d) => Some(Blockhash(d.blockhash().to_bytes())),
            solana_nonce::state::State::Uninitialized => None,
        },
        Ok(solana_nonce::versions::Versions::Legacy(_)) => None,
        Err(_) => None,
    }
}

/// The durable nonce that the data of `nonce_account` holds, if it is an initialized
/// nonce account.
pub fn nonce_info_from_account_data(nonce_account: &Pubkey, data: &[u8]) -> (r: Option<DurableNonceInfo>)
    ensures
        r is None <==> nonce_account_blockhash(data@) is None,
        r matches Some(info) ==> {
            &&& info.nonce_account == Some(*nonce_account)
            &&& info.current_nonce matches Some(h) && nonce_account_blockhash(data@) == Some(h@)
        },
{
    match decode_nonce_blockhash(data) {
        Some(h) => Some(DurableNonceInfo { nonce_account: Some(*nonce_account), current_nonce: Some(h) }),
        None => None,
    }
}

} // verus!
