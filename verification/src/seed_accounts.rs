//! Token accounts created from a seed instead of as associated token accounts, the
//! rent cache they are funded from, and the create-if-missing instructions that pick
//! between the two kinds.

use vstd::prelude::*;

use crate::pubkey::{
    spec_token_program, spec_token_program_2022, token_program_2022, Pubkey,
};
use crate::system_ix::{ix_views, spec_create_account_with_seed_ix, system_create_account_with_seed, IxView};
use crate::token_accounts::{
    create_ata_instruction, create_with_seed, get_associated_token_address_with_program_id, illegal_owner_error,
    initialize_account3, ix_view, lemma_seed_ascii, mint_seed, pda_marker, spec_ata, spec_create_ata_ix,
    spec_initialize_account3_ix, spec_mint_seed, spec_seed_ata, spec_use_seed_path, use_seed_path, Instruction,
};

verus! {

/// Marks a rent that has not been fetched yet.
pub const RENT_UNSET: u64 = 0xffff_ffff_ffff_ffff;

/// Bytes of a token account.
pub const TOKEN_ACCOUNT_LEN: u64 = 165;

/// Rent-exempt minimums of token accounts, as last fetched.
pub struct RentCache {
    spl_token_rent: u64,
    spl_token_2022_rent: u64,
}

/// Error of a rent that has not been fetched yet.
pub open spec fn rent_not_initialized() -> Seq<char> {
    "Rent not initialized"@
}

impl RentCache {
    /// Rent stored for token-program accounts (`RENT_UNSET` before the first fetch).
    pub closed spec fn token_rent(&self) -> u64 {
        self.spl_token_rent
    }

    /// Rent stored for Token-2022 accounts (`RENT_UNSET` before the first fetch).
    pub closed spec fn token_2022_rent(&self) -> u64 {
        self.spl_token_2022_rent
    }

    /// The rent that applies to an account of `token_program`, if fetched.
    pub open spec fn spec_rent_for(&self, token_program: Seq<u8>) -> Option<u64> {
        let v = if token_program == spec_token_program_2022() {
            self.token_2022_rent()
        } else {
            self.token_rent()
        };
        if v == RENT_UNSET {
            None
        } else {
            Some(v)
        }
    }

    /// A cache with no rent fetched.
    pub fn new() -> (r: Self)
        ensures
            r.token_rent() == RENT_UNSET,
            r.token_2022_rent() == RENT_UNSET,
    {
        RentCache { spl_token_rent: RENT_UNSET, spl_token_2022_rent: RENT_UNSET }
    }

    /// Stores freshly fetched rents.
    pub fn update_rents(&mut self, token_rent: u64, token_2022_rent: u64)
        ensures
            final(self).token_rent() == token_rent,
            final(self).token_2022_rent() == token_2022_rent,
    {
        self.spl_token_rent = token_rent;
        self.spl_token_2022_rent = token_2022_rent;
    }

    /// The rent that applies to an account of `token_program`.
    pub fn rent_for(&self, token_program: &Pubkey) -> (r: Result<u64, String>)
        ensures
            self.spec_rent_for(token_program@) matches Some(v) ==> r == Ok::<u64, String>(v),
            self.spec_rent_for(token_program@) is None ==> (r matches Err(e) && e@ == rent_not_initialized()),
    {
        let v = if token_program.equals(&token_program_2022()) {
            self.spl_token_2022_rent
        } else {
            self.spl_token_rent
        };
        if v == RENT_UNSET {
            return Err("Rent not initialized".to_owned());
        }
        Ok(v)
    }
}

/// The two instructions that create and initialize the seed-derived token account
/// `account` of `owner` for `mint`: an account created from `owner` as base with the
/// mint's seed, funded by `payer` with `rent`, then `InitializeAccount3`.
pub open spec fn spec_seed_account_ixs(
    payer: Seq<u8>,
    owner: Seq<u8>,
    mint: Seq<u8>,
    token_program: Seq<u8>,
    account: Seq<u8>,
    rent: u64,
) -> Seq<IxView> {
    seq![
        spec_create_account_with_seed_ix(payer, account, owner, spec_mint_seed(mint), rent, TOKEN_ACCOUNT_LEN, token_program),
        spec_initialize_account3_ix(token_program, account, mint, owner),
    ]
}

/// Instructions that create the seed-derived token account of `payer` for `mint` and
/// make `owner` its owner. Refused while the rent for `token_program` is not fetched,
/// and for a token program id that ends like a program-derived address.
pub fn create_associated_token_account_use_seed(
    rents: &RentCache,
    payer: &Pubkey,
    owner: &Pubkey,
    mint: &Pubkey,
    token_program: &Pubkey,
) -> (r: Result<Vec<Instruction>, String>)
    ensures
        rents.spec_rent_for(token_program@) is None ==> (r matches Err(e) && e@ == rent_not_initialized()),
        rents.spec_rent_for(token_program@) is Some && spec_seed_ata(payer@, mint@, token_program@) is None ==> (
        r matches Err(e) && e@ == illegal_owner_error()),
        r matches Ok(v) ==> (rents.spec_rent_for(token_program@) matches Some(rent) && spec_seed_ata(
            payer@,
            mint@,
            token_program@,
        ) matches Some(account) && ix_views(v@) == spec_seed_account_ixs(
            payer@,
            owner@,
            mint@,
            token_program@,
            account,
            rent,
        )),
        rents.spec_rent_for(token_program@) is Some && spec_seed_ata(payer@, mint@, token_program@) is Some
            ==> r is Ok,
{
    let rent = match rents.rent_for(token_program) {
        Ok(v) => v,
        Err(e) => {
            return Err(e);
        },
    };
    let seed = mint_seed(mint);
    proof {
        lemma_seed_ascii(mint@, seed);
    }
    let account = match create_with_seed(payer, seed.as_str(), token_program) {
        Some(k) => k,
        None => {
            return Err("Provided owner is not allowed".to_owned());
        },
    };
    let create_acc = system_create_account_with_seed(
        payer,
        &account,
        owner,
        seed.as_str(),
        rent,
        TOKEN_ACCOUNT_LEN,
        token_program,
    );
    let init_acc = initialize_account3(token_program, &account, mint, owner);
    let v = vec![create_acc, init_acc];
    assert(ix_views(v@) =~= spec_seed_account_ixs(payer@, owner@, mint@, token_program@, account@, rent));
    Ok(v)
}

/// The token program ids do not end like a program-derived address.
proof fn lemma_token_programs_not_pda_owned()
    ensures
        spec_token_program().subrange(11, 32) != pda_marker(),
        spec_token_program_2022().subrange(11, 32) != pda_marker(),
{
    reveal_strlit("ProgramDerivedAddress");
    assert(pda_marker()[0] == 80u8);
    assert(spec_token_program().subrange(11, 32)[0] == 70u8);
    assert(spec_token_program_2022().subrange(11, 32)[0] == 188u8);
}

/// The create-if-missing instructions of `owner`'s token account for `mint`, paid by
/// `payer`: on the seed path (see `spec_use_seed_path`) the seed-derived account's two
/// instructions, whose rent must have been fetched; otherwise the idempotent
/// create-ATA instruction, none when that address cannot be derived.
pub open spec fn spec_create_token_account_ixs(
    rents: RentCache,
    payer: Seq<u8>,
    owner: Seq<u8>,
    mint: Seq<u8>,
    token_program: Seq<u8>,
    use_seed: bool,
) -> Option<Seq<IxView>> {
    if spec_use_seed_path(use_seed, mint, token_program) {
        Some(
            spec_seed_account_ixs(
                payer,
                owner,
                mint,
                token_program,
                spec_seed_ata(payer, mint, token_program).unwrap(),
                rents.spec_rent_for(token_program).unwrap(),
            ),
        )
    } else {
        match spec_ata(owner, mint, token_program) {
            Some(ata) => Some(seq![spec_create_ata_ix(payer, owner, mint, token_program, ata)]),
            None => None,
        }
    }
}

/// Create-if-missing instructions of `owner`'s token account (see
/// `spec_create_token_account_ixs`).
pub fn _create_associated_token_account_idempotent_fast(
    rents: &RentCache,
    payer: &Pubkey,
    owner: &Pubkey,
    mint: &Pubkey,
    token_program: &Pubkey,
    use_seed: bool,
) -> (r: Option<Vec<Instruction>>)
    requires
        spec_use_seed_path(use_seed, mint@, token_program@) ==> rents.spec_rent_for(token_program@) is Some,
    ensures
        r is Some <==> spec_create_token_account_ixs(*rents, payer@, owner@, mint@, token_program@, use_seed) is Some,
        r matches Some(v) ==> spec_create_token_account_ixs(*rents, payer@, owner@, mint@, token_program@, use_seed)
            == Some(ix_views(v@)),
{
    if use_seed_path(use_seed, mint, token_program) {
        proof {
            lemma_token_programs_not_pda_owned();
        }
        match create_associated_token_account_use_seed(rents, payer, owner, mint, token_program) {
            Ok(v) => Some(v),
            Err(_) => None,
        }
    } else {
        match get_associated_token_address_with_program_id(owner, mint, token_program) {
            Some(ata) => {
                let ix = create_ata_instruction(payer, owner, mint, token_program, ata);
                let v = vec![ix];
                assert(ix_views(v@) =~= seq![spec_create_ata_ix(payer@, owner@, mint@, token_program@, ata@)]);
                Some(v)
            },
            None => None,
        }
    }
}

/// Create-if-missing instructions of `owner`'s token account, on the seed path when
/// `use_seed` asks for it (see `spec_create_token_account_ixs`).
pub fn create_associated_token_account_idempotent_fast_use_seed(
    rents: &RentCache,
    payer: &Pubkey,
    owner: &Pubkey,
    mint: &Pubkey,
    token_program: &Pubkey,
    use_seed: bool,
) -> (r: Option<Vec<Instruction>>)
    requires
        spec_use_seed_path(use_seed, mint@, token_program@) ==> rents.spec_rent_for(token_program@) is Some,
    ensures
        r is Some <==> spec_create_token_account_ixs(*rents, payer@, owner@, mint@, token_program@, use_seed) is Some,
        r matches Some(v) ==> spec_create_token_account_ixs(*rents, payer@, owner@, mint@, token_program@, use_seed)
            == Some(ix_views(v@)),
{
    _create_associated_token_account_idempotent_fast(rents, payer, owner, mint, token_program, use_seed)
}

/// The idempotent create-ATA instruction of `owner`'s associated token account for
/// `mint`, paid by `payer`; none when the address cannot be derived.
pub fn create_associated_token_account_idempotent_fast(
    payer: &Pubkey,
    owner: &Pubkey,
    mint: &Pubkey,
    token_program: &Pubkey,
) -> (r: Option<Vec<Instruction>>)
    ensures
        r is Some <==> spec_ata(owner@, mint@, token_program@) is Some,
        r matches Some(v) ==> spec_ata(owner@, mint@, token_program@) matches Some(ata) && ix_views(v@) == seq![
            spec_create_ata_ix(payer@, owner@, mint@, token_program@, ata),
        ],
{
    let rents = RentCache::new();
    _create_associated_token_account_idempotent_fast(&rents, payer, owner, mint, token_program, false)
}

} // verus!
