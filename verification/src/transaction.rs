//! The instruction list and blockhash of a trade transaction, before middlewares run
//! and the message is compiled and signed.

use vstd::prelude::*;

use crate::pubkey::Pubkey;
use crate::system_ix::{
    add_nonce_instruction, compute_budget_instructions, get_transaction_blockhash, ix_views,
    spec_advance_nonce_ix, spec_compute_budget_ixs, spec_system_transfer_ix, system_transfer, DurableNonceInfo, Blockhash,
    IxView,
};
use crate::token_accounts::Instruction;
use crate::requests::AddressLookupTableAccount;

verus! {

/// The kind of message a transaction is compiled into.
#[derive(Clone, Copy, Debug, PartialEq, Eq, Structural)]
pub enum MessageKind {
    /// A legacy message: every account listed in the message.
    Legacy,
    /// A version-0 message: accounts may be looked up in address lookup tables.
    V0,
}

/// The message kind for a transaction: version 0 when an address lookup table is
/// given, legacy otherwise (which every RPC node accepts).
pub fn message_kind(lookup_table: Option<&AddressLookupTableAccount>) -> (r: MessageKind)
    ensures
        lookup_table is Some ==> r == MessageKind::V0,
        lookup_table is None ==> r == MessageKind::Legacy,
{
    match lookup_table {
        Some(_) => MessageKind::V0,
        None => MessageKind::Legacy,
    }
}

/// What a transaction is built from: its instructions in order and the blockhash it signs.
pub struct TransactionPlan {
    pub instructions: Vec<Instruction>,
    pub blockhash: Blockhash,
}

/// The instructions of a transaction: the nonce advance (with a durable nonce), the tip
/// transfer (with a tip), the compute-budget instructions, then the business ones.
pub open spec fn spec_transaction_ixs(
    payer: Seq<u8>,
    unit_limit: u32,
    unit_price: u64,
    business: Seq<IxView>,
    durable_nonce: Option<DurableNonceInfo>,
    tip: Option<(Pubkey, u64)>,
) -> Seq<IxView> {
    let nonce_part = match durable_nonce {
        Some(d) => seq![spec_advance_nonce_ix(d.nonce_account.unwrap()@, payer)],
        None => Seq::empty(),
    };
    let tip_part = match tip {
        Some((account, lamports)) => seq![spec_system_transfer_ix(payer, account@, lamports)],
        None => Seq::empty(),
    };
    nonce_part + tip_part + spec_compute_budget_ixs(unit_price, unit_limit) + business
}

/// Copies one instruction.
pub(crate) fn copy_instruction(ix: &Instruction) -> (r: Instruction)
    ensures
        ix_view_of(r) == ix_view_of(*ix),
{
    Instruction { program_id: ix.program_id, accounts: copy_metas(&ix.accounts), data: copy_data(&ix.data) }
}

/// Copies a list of instructions.
fn copy_instructions(src: &Vec<Instruction>) -> (r: Vec<Instruction>)
    ensures
        ix_views(r@) == ix_views(src@),
{
    let mut out: Vec<Instruction> = Vec::new();
    let mut i: usize = 0;
    while i < src.len()
        invariant
            i <= src@.len(),
            ix_views(out@) == ix_views(src@.take(i as int)),
        decreases src@.len() - i,
    {
        let copy = copy_instruction(&src[i]);
        out.push(copy);
        proof {
            assert(src@.take(i + 1) =~= src@.take(i as int).push(src@[i as int]));
            assert(ix_views(out@) =~= ix_views(src@.take(i as int)).push(ix_view_of(src@[i as int])));
        }
        i = i + 1;
    }
    assert(src@.take(src@.len() as int) =~= src@);
    out
}

pub(crate) open spec fn ix_view_of(ix: Instruction) -> IxView {
    crate::token_accounts::ix_view(ix)
}

fn copy_metas(src: &Vec<crate::token_accounts::AccountMeta>) -> (r: Vec<crate::token_accounts::AccountMeta>)
    ensures
        r@ == src@,
{
    let mut out: Vec<crate::token_accounts::AccountMeta> = Vec::new();
    let mut i: usize = 0;
    while i < src.len()
        invariant
            i <= src@.len(),
            out@ == src@.take(i as int),
        decreases src@.len() - i,
    {
        out.push(src[i]);
        proof {
            assert(src@.take(i + 1) =~= src@.take(i as int).push(src@[i as int]));
        }
        i = i + 1;
    }
    assert(src@.take(src@.len() as int) =~= src@);
    out
}

fn copy_data(src: &Vec<u8>) -> (r: Vec<u8>)
    ensures
        r@ == src@,
{
    let mut out: Vec<u8> = Vec::new();
    let mut i: usize = 0;
    while i < src.len()
        invariant
            i <= src@.len(),
            out@ == src@.take(i as int),
        decreases src@.len() - i,
    {
        out.push(src[i]);
        proof {
            assert(src@.take(i + 1) =~= src@.take(i as int).push(src@[i as int]));
        }
        i = i + 1;
    }
    assert(src@.take(src@.len() as int) =~= src@);
    out
}

/// The instructions and blockhash of a trade transaction (see `spec_transaction_ixs`);
/// the blockhash is the durable nonce's when one is given, the recent one otherwise.
pub fn build_transaction(
    payer: &Pubkey,
    unit_limit: u32,
    unit_price: u64,
    business_instructions: &Vec<Instruction>,
    recent_blockhash: Option<Blockhash>,
    durable_nonce: Option<DurableNonceInfo>,
    tip: Option<(Pubkey, u64)>,
) -> (r: Result<TransactionPlan, String>)
    requires
        durable_nonce matches Some(d) ==> d.nonce_account is Some && d.current_nonce is Some,
        durable_nonce is None ==> recent_blockhash is Some,
    ensures
        r matches Ok(plan) && {
            &&& ix_views(plan.instructions@) == spec_transaction_ixs(
                payer@,
                unit_limit,
                unit_price,
                ix_views(business_instructions@),
                durable_nonce,
                tip,
            )
            &&& durable_nonce matches Some(d) ==> plan.blockhash == d.current_nonce.unwrap()
            &&& durable_nonce is None ==> plan.blockhash == recent_blockhash.unwrap()
        },
{
    let mut instructions: Vec<Instruction> = Vec::new();
    match add_nonce_instruction(&mut instructions, payer, durable_nonce) {
        Ok(()) => {},
        Err(e) => {
            return Err(e);
        },
    }
    let ghost after_nonce = instructions@;
    proof {
        if durable_nonce is Some {
            assert(ix_views(after_nonce) =~= seq![
                spec_advance_nonce_ix(durable_nonce.unwrap().nonce_account.unwrap()@, payer@),
            ]);
        } else {
            assert(ix_views(after_nonce) =~= Seq::<IxView>::empty());
        }
    }
    if let Some((tip_account, lamports)) = tip {
        instructions.push(system_transfer(payer, &tip_account, lamports));
    }
    let ghost after_tip = instructions@;
    let mut budget = compute_budget_instructions(unit_price, unit_limit);
    let ghost budget_view = budget@;
    instructions.append(&mut budget);
    let ghost after_budget = instructions@;
    let mut business = copy_instructions(business_instructions);
    let ghost business_view = business@;
    instructions.append(&mut business);
    proof {
        assert(after_budget =~= after_tip + budget_view);
        assert(instructions@ =~= after_budget + business_view);
        assert(ix_views(after_budget) =~= ix_views(after_tip) + ix_views(budget_view));
        assert(ix_views(instructions@) =~= ix_views(after_budget) + ix_views(business_view));
        if tip is Some {
            assert(ix_views(after_tip) =~= ix_views(after_nonce).push(
                spec_system_transfer_ix(payer@, tip.unwrap().0@, tip.unwrap().1),
            ));
        } else {
            assert(after_tip == after_nonce);
        }
        assert(ix_views(instructions@) =~= spec_transaction_ixs(
            payer@,
            unit_limit,
            unit_price,
            ix_views(business_instructions@),
            durable_nonce,
            tip,
        ));
    }
    let blockhash = get_transaction_blockhash(recent_blockhash, durable_nonce);
    Ok(TransactionPlan { instructions, blockhash })
}

} // verus!
