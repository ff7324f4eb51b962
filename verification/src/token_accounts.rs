//! Token accounts: associated-token-account and seed-derived addresses, and the
//! instructions that create, fund, move and close token accounts.

use vstd::prelude::*;

use crate::pubkey::{
    associated_token_program_id, program_address, seed_bytes, sol_token_account,
    spec_associated_token_program_id, spec_sol_token_account, spec_system_program,
    spec_token_program, spec_token_program_2022, spec_wsol_token_account, system_program,
    token_program, token_program_2022, try_find_program_address, wsol_token_account, Pubkey,
};

use solana_pubkey::Pubkey as SolanaPubkey;

verus! {

/// An account an instruction reads or writes.
#[derive(Clone, Copy, Debug)]
pub struct AccountMeta {
    pub pubkey: Pubkey,
    pub is_signer: bool,
    pub is_writable: bool,
}

impl AccountMeta {
    /// A writable account.
    pub fn new(pubkey: Pubkey, is_signer: bool) -> (r: Self)
        ensures
            r == (AccountMeta { pubkey, is_signer, is_writable: true }),
    {
        AccountMeta { pubkey, is_signer, is_writable: true }
    }

    /// A read-only account.
    pub fn new_readonly(pubkey: Pubkey, is_signer: bool) -> (r: Self)
        ensures
            r == (AccountMeta { pubkey, is_signer, is_writable: false }),
    {
        AccountMeta { pubkey, is_signer, is_writable: false }
    }
}

/// A program call: the program, the accounts it touches, and its input bytes.
#[derive(Clone, Debug)]
pub struct Instruction {
    pub program_id: Pubkey,
    pub accounts: Vec<AccountMeta>,
    pub data: Vec<u8>,
}

/// An account reference as plain values: address bytes, signer, writable.
pub open spec fn meta_view(m: AccountMeta) -> (Seq<u8>, bool, bool) {
    (m.pubkey@, m.is_signer, m.is_writable)
}

/// Account references as plain values.
pub open spec fn metas(accounts: Seq<AccountMeta>) -> Seq<(Seq<u8>, bool, bool)> {
    accounts.map_values(|m: AccountMeta| meta_view(m))
}

/// Signer accounts of a multisig owner, as plain values.
pub open spec fn signer_metas(signers: Seq<Pubkey>) -> Seq<(Seq<u8>, bool, bool)> {
    signers.map_values(|s: Pubkey| (s@, true, false))
}

/// What an instruction is, as plain values: program id, accounts and data.
pub open spec fn ix_view(ix: Instruction) -> (Seq<u8>, Seq<(Seq<u8>, bool, bool)>, Seq<u8>) {
    (ix.program_id@, metas(ix.accounts@), ix.data@)
}

/// The program-derived address alone, if one exists.
pub open spec fn derived_address(seeds: Seq<Seq<u8>>, program_id: Seq<u8>) -> Option<Seq<u8>> {
    match program_address(seeds, program_id) {
        Some(found) => Some(found.0),
        None => None,
    }
}

/// The associated token account of `wallet` for `mint` under `token_program`: the
/// address derived from (wallet, token program, mint) under the associated token
/// account program.
pub open spec fn spec_ata(wallet: Seq<u8>, mint: Seq<u8>, token_program: Seq<u8>) -> Option<Seq<u8>> {
    derived_address(seq![wallet, token_program, mint], spec_associated_token_program_id())
}

/// The associated token account of `wallet` for `mint` under `token_program`; none
/// only when no bump seed yields an address off the curve.
pub fn get_associated_token_address_with_program_id(
    wallet_address: &Pubkey,
    token_mint_address: &Pubkey,
    token_program_id: &Pubkey,
) -> (r: Option<Pubkey>)
    ensures
        r is Some <==> spec_ata(wallet_address@, token_mint_address@, token_program_id@) is Some,
        r matches Some(k) ==> spec_ata(wallet_address@, token_mint_address@, token_program_id@)
            == Some(k@),
{
    let seeds = vec![wallet_address.to_seed(), token_program_id.to_seed(), token_mint_address.to_seed()];
    proof {
        assert(seed_bytes(seeds@) =~= seq![wallet_address@, token_program_id@, token_mint_address@]);
    }
    let program = associated_token_program_id();
    match try_find_program_address(&seeds, &program) {
        Some(found) => Some(found.0),
        None => None,
    }
}

/// The associated token account of `wallet` for `mint` under the token program.
pub fn get_associated_token_address(wallet_address: &Pubkey, token_mint_address: &Pubkey) -> (r: Option<
    Pubkey,
>)
    ensures
        r is Some <==> spec_ata(wallet_address@, token_mint_address@, spec_token_program()) is Some,
        r matches Some(k) ==> spec_ata(wallet_address@, token_mint_address@, spec_token_program())
            == Some(k@),
{
    get_associated_token_address_with_program_id(wallet_address, token_mint_address, &token_program())
}

/// The instruction that creates the associated token account of `wallet` for `mint`
/// if it does not exist yet, paid by `funding`.
pub open spec fn spec_create_ata_ix(
    funding: Seq<u8>,
    wallet: Seq<u8>,
    mint: Seq<u8>,
    token_program: Seq<u8>,
    ata: Seq<u8>,
) -> (Seq<u8>, Seq<(Seq<u8>, bool, bool)>, Seq<u8>) {
    (
        spec_associated_token_program_id(),
        seq![
            (funding, true, true),
            (ata, false, true),
            (wallet, false, false),
            (mint, false, false),
            (spec_system_program(), false, false),
            (token_program, false, false),
        ],
        seq![1u8],
    )
}

/// Builds the idempotent create-ATA instruction for an address already derived.
pub(crate) fn create_ata_instruction(
    funding: &Pubkey,
    wallet: &Pubkey,
    mint: &Pubkey,
    token_program: &Pubkey,
    ata: Pubkey,
) -> (r: Instruction)
    ensures
        ix_view(r) == spec_create_ata_ix(funding@, wallet@, mint@, token_program@, ata@),
{
    let system = system_program();
    let accounts = vec![
        AccountMeta::new(*funding, true),
        AccountMeta::new(ata, false),
        AccountMeta::new_readonly(*wallet, false),
        AccountMeta::new_readonly(*mint, false),
        AccountMeta::new_readonly(system, false),
        AccountMeta::new_readonly(*token_program, false),
    ];
    let r = Instruction { program_id: associated_token_program_id(), accounts, data: vec![1u8] };
    assert(ix_view(r).1 =~= spec_create_ata_ix(funding@, wallet@, mint@, token_program@, ata@).1);
    assert(ix_view(r).2 =~= seq![1u8]);
    r
}

/// The idempotent create-ATA instruction for `wallet` and `mint`, paid by `funding`;
/// none only when the account address cannot be derived.
pub fn create_associated_token_account_idempotent(
    funding_address: &Pubkey,
    wallet_address: &Pubkey,
    token_mint_address: &Pubkey,
    token_program_id: &Pubkey,
) -> (r: Option<Instruction>)
    ensures
        r is Some <==> spec_ata(wallet_address@, token_mint_address@, token_program_id@) is Some,
        r matches Some(ix) ==> spec_ata(wallet_address@, token_mint_address@, token_program_id@) matches Some(
            ata,
        ) && ix_view(ix) == spec_create_ata_ix(
            funding_address@,
            wallet_address@,
            token_mint_address@,
            token_program_id@,
            ata,
        ),
{
    match get_associated_token_address_with_program_id(wallet_address, token_mint_address, token_program_id) {
        Some(ata) => Some(
            create_ata_instruction(funding_address, wallet_address, token_mint_address, token_program_id, ata),
        ),
        None => None,
    }
}

/// Data of a token-program `CloseAccount`.
pub open spec fn close_account_data() -> Seq<u8> {
    seq![9u8]
}

/// The token-program instruction that closes `account`, sending its lamports to
/// `destination`; `owner` signs unless extra signers are given (a multisig).
pub open spec fn spec_close_account_ix(
    token_program: Seq<u8>,
    account: Seq<u8>,
    destination: Seq<u8>,
    owner: Seq<u8>,
    signers: Seq<Pubkey>,
) -> (Seq<u8>, Seq<(Seq<u8>, bool, bool)>, Seq<u8>) {
    (
        token_program,
        seq![
            (account, false, true),
            (destination, false, true),
            (owner, signers.len() == 0, false),
        ] + signer_metas(signers),
        close_account_data(),
    )
}

/// Appends the signer accounts of a multisig owner.
fn push_signers(accounts: &mut Vec<AccountMeta>, signers: &Vec<Pubkey>)
    ensures
        metas(final(accounts)@) == metas(old(accounts)@) + signer_metas(signers@),
{
    let ghost start = accounts@;
    let mut i: usize = 0;
    while i < signers.len()
        invariant
            i <= signers@.len(),
            metas(accounts@) == metas(start) + signer_metas(signers@.take(i as int)),
        decreases signers@.len() - i,
    {
        let ghost before = accounts@;
        accounts.push(AccountMeta::new_readonly(signers[i], true));
        proof {
            assert(signers@.take(i + 1) =~= signers@.take(i as int).push(signers@[i as int]));
            assert(signer_metas(signers@.take(i + 1)) =~= signer_metas(signers@.take(i as int)).push(
                (signers@[i as int]@, true, false),
            ));
            assert(metas(accounts@) =~= metas(before).push((signers@[i as int]@, true, false)));
        }
        i = i + 1;
    }
    assert(signers@.take(signers@.len() as int) =~= signers@);
}

/// The token-program `CloseAccount` instruction (see `spec_close_account_ix`).
pub fn close_account(
    token_program_id: &Pubkey,
    account_pubkey: &Pubkey,
    destination_pubkey: &Pubkey,
    owner_pubkey: &Pubkey,
    signer_pubkeys: &Vec<Pubkey>,
) -> (r: Instruction)
    ensures
        ix_view(r) == spec_close_account_ix(
            token_program_id@,
            account_pubkey@,
            destination_pubkey@,
            owner_pubkey@,
            signer_pubkeys@,
        ),
{
    let mut accounts: Vec<AccountMeta> = Vec::new();
    accounts.push(AccountMeta::new(*account_pubkey, false));
    accounts.push(AccountMeta::new(*destination_pubkey, false));
    accounts.push(AccountMeta::new_readonly(*owner_pubkey, signer_pubkeys.len() == 0));
    let ghost head = accounts@;
    push_signers(&mut accounts, signer_pubkeys);
    let r = Instruction { program_id: *token_program_id, accounts, data: vec![9u8] };
    assert(metas(head) =~= seq![
        (account_pubkey@, false, true),
        (destination_pubkey@, false, true),
        (owner_pubkey@, signer_pubkeys@.len() == 0, false),
    ]);
    assert(r.data@ =~= close_account_data());
    r
}

/// Little-endian bytes of a `u64`.
pub open spec fn le_bytes(v: u64) -> Seq<u8> {
    Seq::new(8, |i: int| ((v as int / pow256(i)) % 256) as u8)
}

/// 256 to the power `i`.
pub open spec fn pow256(i: int) -> int
    decreases i,
{
    if i <= 0 {
        1
    } else {
        256 * pow256(i - 1)
    }
}

/// Appends the little-endian bytes of `v`.
fn push_le_bytes(out: &mut Vec<u8>, v: u64)
    ensures
        final(out)@ == old(out)@ + le_bytes(v),
{
    push_le_prefix(out, v, 8);
    assert(le_bytes(v).subrange(0, 8) =~= le_bytes(v));
}

/// Appends the lowest `width` little-endian bytes of `v`.
pub fn push_le_prefix(out: &mut Vec<u8>, v: u64, width: usize)
    requires
        width <= 8,
    ensures
        final(out)@ == old(out)@ + le_bytes(v).subrange(0, width as int),
{
    let ghost start = out@;
    let mut x: u64 = v;
    let mut i: usize = 0;
    while i < width
        invariant
            i <= width <= 8,
            out@.len() == start.len() + i,
            out@.subrange(0, start.len() as int) == start,
            forall|j: int| 0 <= j < i ==> #[trigger] out@[start.len() + j] == le_bytes(v)[j],
            x as int == v as int / pow256(i as int),
        decreases width - i,
    {
        let byte = (x % 256) as u8;
        proof {
            assert(pow256(i + 1) == 256 * pow256(i as int));
            assert(pow256(i as int) > 0) by {
                lemma_pow256_positive(i as int);
            }
            vstd::arithmetic::div_mod::lemma_div_denominator(v as int, pow256(i as int), 256);
        }
        out.push(byte);
        x = x / 256;
        i = i + 1;
    }
    let ghost tail = le_bytes(v).subrange(0, width as int);
    assert forall|k: int| 0 <= k < out@.len() implies out@[k] == (start + tail)[k] by {
        if k < start.len() {
            assert(out@.subrange(0, start.len() as int)[k] == start[k]);
        } else {
            assert(out@[start.len() + (k - start.len())] == le_bytes(v)[k - start.len()]);
        }
    }
    assert(out@ =~= start + tail);
}

pub(crate) proof fn lemma_pow256_positive(i: int)
    ensures
        pow256(i) > 0,
    decreases i,
{
    if i > 0 {
        lemma_pow256_positive(i - 1);
    }
}

/// The token-program `Transfer` of `amount` from `source` to `destination`, signed by
/// `owner` unless extra signers are given.
pub open spec fn spec_token_transfer_ix(
    token_program: Seq<u8>,
    source: Seq<u8>,
    destination: Seq<u8>,
    owner: Seq<u8>,
    amount: u64,
    signers: Seq<Pubkey>,
) -> (Seq<u8>, Seq<(Seq<u8>, bool, bool)>, Seq<u8>) {
    (
        token_program,
        seq![
            (source, false, true),
            (destination, false, true),
            (owner, signers.len() == 0, false),
        ] + signer_metas(signers),
        seq![3u8] + le_bytes(amount),
    )
}

/// The token-program `Transfer` instruction (see `spec_token_transfer_ix`).
pub fn transfer(
    token_program_id: &Pubkey,
    source_pubkey: &Pubkey,
    destination_pubkey: &Pubkey,
    owner_pubkey: &Pubkey,
    amount: u64,
    signers: &Vec<Pubkey>,
) -> (r: Instruction)
    ensures
        ix_view(r) == spec_token_transfer_ix(
            token_program_id@,
            source_pubkey@,
            destination_pubkey@,
            owner_pubkey@,
            amount,
            signers@,
        ),
{
    let mut data: Vec<u8> = Vec::new();
    data.push(3u8);
    push_le_bytes(&mut data, amount);
    let mut accounts: Vec<AccountMeta> = Vec::new();
    accounts.push(AccountMeta::new(*source_pubkey, false));
    accounts.push(AccountMeta::new(*destination_pubkey, false));
    accounts.push(AccountMeta::new_readonly(*owner_pubkey, signers.len() == 0));
    let ghost head = accounts@;
    push_signers(&mut accounts, signers);
    assert(metas(head) =~= seq![
        (source_pubkey@, false, true),
        (destination_pubkey@, false, true),
        (owner_pubkey@, signers@.len() == 0, false),
    ]);
    assert(data@ =~= seq![3u8] + le_bytes(amount));
    Instruction { program_id: *token_program_id, accounts, data }
}

/// The `InitializeAccount3` instruction (of the token program or Token-2022, same
/// layout) that makes `account` a token account of `mint` owned by `owner`.
pub open spec fn spec_initialize_account3_ix(
    token_program: Seq<u8>,
    account: Seq<u8>,
    mint: Seq<u8>,
    owner: Seq<u8>,
) -> (Seq<u8>, Seq<(Seq<u8>, bool, bool)>, Seq<u8>) {
    (token_program, seq![(account, false, true), (mint, false, false)], seq![18u8] + owner)
}

/// The `InitializeAccount3` instruction (see `spec_initialize_account3_ix`).
pub fn initialize_account3(
    token_program_id: &Pubkey,
    account_pubkey: &Pubkey,
    mint_pubkey: &Pubkey,
    owner_pubkey: &Pubkey,
) -> (r: Instruction)
    ensures
        ix_view(r) == spec_initialize_account3_ix(
            token_program_id@,
            account_pubkey@,
            mint_pubkey@,
            owner_pubkey@,
        ),
{
    let mut data: Vec<u8> = Vec::new();
    data.push(18u8);
    let owner_bytes = owner_pubkey.to_seed();
    let mut i: usize = 0;
    while i < 32
        invariant
            i <= 32,
            owner_bytes@ == owner_pubkey@,
            owner_pubkey@.len() == 32,
            data@ == seq![18u8] + owner_pubkey@.take(i as int),
        decreases 32 - i,
    {
        data.push(owner_bytes[i]);
        proof {
            assert(owner_pubkey@.take(i + 1) =~= owner_pubkey@.take(i as int).push(owner_pubkey@[i as int]));
        }
        i = i + 1;
    }
    assert(owner_pubkey@.take(32) =~= owner_pubkey@);
    let accounts = vec![AccountMeta::new(*account_pubkey, false), AccountMeta::new_readonly(*mint_pubkey, false)];
    let r = Instruction { program_id: *token_program_id, accounts, data };
    assert(ix_view(r).1 =~= spec_initialize_account3_ix(
        token_program_id@,
        account_pubkey@,
        mint_pubkey@,
        owner_pubkey@,
    ).1);
    r
}

// ----------------------------------------------------------------------------
// Seed-derived token accounts

/// One FNV-1a step: xor in the byte, multiply by the FNV prime (wrapping).
pub open spec fn fnv1a_step(h: u64, b: u8) -> u64 {
    vstd::wrapping::u64_specs::wrapping_mul(h ^ (b as u64), 0x100000001b3)
}

/// FNV-1a over `bytes`, starting from the hash `h`.
pub open spec fn fnv1a_from(h: u64, bytes: Seq<u8>) -> u64
    decreases bytes.len(),
{
    if bytes.len() == 0 {
        h
    } else {
        fnv1a_from(fnv1a_step(h, bytes[0]), bytes.skip(1))
    }
}

/// 64-bit FNV-1a hash of `bytes`.
pub open spec fn fnv1a(bytes: Seq<u8>) -> u64 {
    fnv1a_from(0xcbf29ce484222325, bytes)
}

/// 64-bit FNV-1a hash of `bytes` (the hash `fnv::FnvHasher` gives after one `write`).
fn fnv_hash(bytes: &[u8]) -> (r: u64)
    ensures
        r == fnv1a(bytes@),
{
    let mut h: u64 = 0xcbf29ce484222325;
    let mut i: usize = 0;
    assert(bytes@.skip(0) =~= bytes@);
    while i < bytes.len()
        invariant
            i <= bytes@.len(),
            fnv1a_from(h, bytes@.skip(i as int)) == fnv1a(bytes@),
        decreases bytes@.len() - i,
    {
        proof {
            assert(bytes@.skip(i as int).skip(1) =~= bytes@.skip(i + 1));
            assert(bytes@.skip(i as int)[0] == bytes@[i as int]);
        }
        h = (h ^ (bytes[i] as u64)).wrapping_mul(0x100000001b3);
        i = i + 1;
    }
    assert(bytes@.skip(i as int).len() == 0);
    h
}

/// The lower-case hex digit of `n` (below 16).
pub open spec fn hex_char(n: u32) -> char {
    if n < 10 {
        ('0' as u32 + n) as char
    } else {
        ('a' as u32 + n - 10) as char
    }
}

/// The seed of a mint's seed-derived account: the low 32 bits of the FNV-1a hash of
/// the mint, as eight lower-case hex digits, most significant first.
pub open spec fn spec_mint_seed(mint: Seq<u8>) -> Seq<char> {
    let v = (fnv1a(mint) & 0xffff_ffff) as u32;
    Seq::new(8, |i: int| hex_char((v >> ((28 - i * 4) as u32)) & 0xf))
}

fn hex_digit_str(n: u32) -> (r: &'static str)
    requires
        n < 16,
    ensures
        r@ == seq![hex_char(n)],
{
    proof {
        reveal_strlit("0");
        reveal_strlit("1");
        reveal_strlit("2");
        reveal_strlit("3");
        reveal_strlit("4");
        reveal_strlit("5");
        reveal_strlit("6");
        reveal_strlit("7");
        reveal_strlit("8");
        reveal_strlit("9");
        reveal_strlit("a");
        reveal_strlit("b");
        reveal_strlit("c");
        reveal_strlit("d");
        reveal_strlit("e");
        reveal_strlit("f");
    }
    let r = match n {
        0 => "0",
        1 => "1",
        2 => "2",
        3 => "3",
        4 => "4",
        5 => "5",
        6 => "6",
        7 => "7",
        8 => "8",
        9 => "9",
        10 => "a",
        11 => "b",
        12 => "c",
        13 => "d",
        14 => "e",
        _ => "f",
    };
    assert(r@ =~= seq![hex_char(n)]);
    r
}

/// The seed of a mint's seed-derived account (see `spec_mint_seed`).
pub fn mint_seed(mint: &Pubkey) -> (r: String)
    ensures
        r@ == spec_mint_seed(mint@),
{
    let bytes = mint.to_seed();
    let hash = fnv_hash(bytes.as_slice());
    let v = (hash & 0xffff_ffff) as u32;
    let mut seed = String::new();
    let mut i: u32 = 0;
    while i < 8
        invariant
            i <= 8,
            v == (fnv1a(mint@) & 0xffff_ffff) as u32,
            seed@ == spec_mint_seed(mint@).take(i as int),
        decreases 8 - i,
    {
        let shift: u32 = 28 - i * 4;
        let nibble = (v >> shift) & 0xf;
        assert(nibble < 16) by (bit_vector)
            requires
                nibble == (v >> shift) & 0xf,
        ;
        let digit = hex_digit_str(nibble);
        seed.append(digit);
        proof {
            assert(spec_mint_seed(mint@).take(i + 1) =~= spec_mint_seed(mint@).take(i as int).push(
                hex_char(nibble),
            ));
        }
        i = i + 1;
    }
    assert(spec_mint_seed(mint@).take(8) =~= spec_mint_seed(mint@));
    seed
}

/// The marker that ends the owner ids `create_with_seed` refuses.
pub open spec fn pda_marker() -> Seq<u8> {
    "ProgramDerivedAddress"@.map_values(|c: char| c as u8)
}

/// The address `solana_pubkey::Pubkey::create_with_seed` derives: the SHA-256 of base,
/// seed and owner.
pub uninterp spec fn seeded_address(base: Seq<u8>, seed: Seq<char>, owner: Seq<u8>) -> Seq<u8>;

/// Calls `solana_pubkey::Pubkey::create_with_seed`, which refuses a seed over 32 bytes
/// and an owner id ending with "ProgramDerivedAddress", and otherwise returns the
/// SHA-256 of base, seed and owner. Only eight-character ASCII seeds are passed.
#[verifier::external_body]
pub(crate) fn create_with_seed(base: &Pubkey, seed: &str, owner: &Pubkey) -> (r: Option<Pubkey>)
    requires
        seed@.len() == 8,
        seed.is_ascii(),
    ensures
        r is None <==> owner@.subrange(11, 32) == pda_marker(),
        r matches Some(k) ==> k@ == seeded_address(base@, seed@, owner@),
{
    match SolanaPubkey::create_with_seed(
        &SolanaPubkey::new_from_array(base.0),
        seed,
        &SolanaPubkey::new_from_array(owner.0),
    ) {
        Ok(k) => Some(Pubkey(k.to_bytes())),
        Err(_) => None,
    }
}

/// The seed-derived account of `wallet` for `mint`: the address created from the
/// wallet with the mint's seed under the token program.
pub open spec fn spec_seed_ata(wallet: Seq<u8>, mint: Seq<u8>, token_program: Seq<u8>) -> Option<Seq<u8>> {
    if token_program.subrange(11, 32) == pda_marker() {
        None
    } else {
        Some(seeded_address(wallet, spec_mint_seed(mint), token_program))
    }
}

proof fn lemma_nibble_small(v: u32, sh: u32)
    ensures
        (v >> sh) & 0xf < 16,
{
    assert((v >> sh) & 0xf < 16) by (bit_vector);
}

pub(crate) proof fn lemma_seed_ascii(mint: Seq<u8>, s: String)
    requires
        s@ == spec_mint_seed(mint),
    ensures
        s.is_ascii(),
{
    assert forall|i: int| 0 <= i < s@.len() implies '\0' <= #[trigger] s@[i] <= '\u{7f}' by {
        let v = (fnv1a(mint) & 0xffff_ffff) as u32;
        lemma_nibble_small(v, (28 - i * 4) as u32);
    }
    assert(vstd::utf8::is_ascii_chars(s@));
}

/// Error of an owner id `create_with_seed` refuses (the text `PubkeyError::IllegalOwner`
/// displays).
pub open spec fn illegal_owner_error() -> Seq<char> {
    "Provided owner is not allowed"@
}

/// The seed-derived account of `wallet` for `mint` under `token_program`; refused for
/// a token program id that ends like a program-derived address.
pub fn get_associated_token_address_with_program_id_use_seed(
    wallet_address: &Pubkey,
    token_mint_address: &Pubkey,
    token_program_id: &Pubkey,
) -> (r: Result<Pubkey, String>)
    ensures
        spec_seed_ata(wallet_address@, token_mint_address@, token_program_id@) is None ==> (r matches Err(
            e,
        ) && e@ == illegal_owner_error()),
        r matches Ok(k) ==> spec_seed_ata(wallet_address@, token_mint_address@, token_program_id@)
            == Some(k@),
        spec_seed_ata(wallet_address@, token_mint_address@, token_program_id@) is Some ==> r is Ok,
{
    let seed = mint_seed(token_mint_address);
    proof {
        lemma_seed_ascii(token_mint_address@, seed);
    }
    match create_with_seed(wallet_address, seed.as_str(), token_program_id) {
        Some(k) => Ok(k),
        None => Err("Provided owner is not allowed".to_owned()),
    }
}

/// Whether the seed-derived account is used: asked for, the mint is neither wrapped
/// nor native SOL, and the token program is the token program or Token-2022.
pub open spec fn spec_use_seed_path(use_seed: bool, mint: Seq<u8>, token_program: Seq<u8>) -> bool {
    &&& use_seed
    &&& mint != spec_wsol_token_account()
    &&& mint != spec_sol_token_account()
    &&& (token_program == spec_token_program() || token_program == spec_token_program_2022())
}

pub(crate) fn use_seed_path(use_seed: bool, mint: &Pubkey, token_program_id: &Pubkey) -> (r: bool)
    ensures
        r == spec_use_seed_path(use_seed, mint@, token_program_id@),
{
    use_seed && !mint.equals(&wsol_token_account()) && !mint.equals(&sol_token_account()) && (
    token_program_id.equals(&token_program()) || token_program_id.equals(&token_program_2022()))
}

/// The token account a wallet trades `mint` from: the seed-derived account on the
/// seed path (see `spec_use_seed_path`), the associated token account otherwise.
pub open spec fn spec_trade_account(
    wallet: Seq<u8>,
    mint: Seq<u8>,
    token_program: Seq<u8>,
    use_seed: bool,
) -> Option<Seq<u8>> {
    if spec_use_seed_path(use_seed, mint, token_program) {
        spec_seed_ata(wallet, mint, token_program)
    } else {
        spec_ata(wallet, mint, token_program)
    }
}

/// The token account a wallet trades `mint` from (see `spec_trade_account`); none when
/// no address can be derived.
pub fn get_associated_token_address_with_program_id_fast_use_seed(
    wallet_address: &Pubkey,
    token_mint_address: &Pubkey,
    token_program_id: &Pubkey,
    use_seed: bool,
) -> (r: Option<Pubkey>)
    ensures
        r is Some <==> spec_trade_account(wallet_address@, token_mint_address@, token_program_id@, use_seed) is Some,
        r matches Some(k) ==> spec_trade_account(
            wallet_address@,
            token_mint_address@,
            token_program_id@,
            use_seed,
        ) == Some(k@),
{
    if use_seed_path(use_seed, token_mint_address, token_program_id) {
        match get_associated_token_address_with_program_id_use_seed(
            wallet_address,
            token_mint_address,
            token_program_id,
        ) {
            Ok(k) => Some(k),
            Err(_) => None,
        }
    } else {
        get_associated_token_address_with_program_id(wallet_address, token_mint_address, token_program_id)
    }
}

/// The associated token account of `wallet` for `mint` (no seed path).
pub fn get_associated_token_address_with_program_id_fast(
    wallet_address: &Pubkey,
    token_mint_address: &Pubkey,
    token_program_id: &Pubkey,
) -> (r: Option<Pubkey>)
    ensures
        r is Some <==> spec_ata(wallet_address@, token_mint_address@, token_program_id@) is Some,
        r matches Some(k) ==> spec_ata(wallet_address@, token_mint_address@, token_program_id@)
            == Some(k@),
{
    get_associated_token_address_with_program_id_fast_use_seed(
        wallet_address,
        token_mint_address,
        token_program_id,
        false,
    )
}

} // verus!
