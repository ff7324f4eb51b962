//! 32-byte account addresses.

use vstd::prelude::*;

use solana_pubkey::Pubkey as SolanaPubkey;

verus! {

/// A Solana account address: 32 raw bytes.
#[derive(Clone, Copy, Debug, Hash)]
pub struct Pubkey(pub [u8; 32]);

impl View for Pubkey {
    type V = Seq<u8>;

    open spec fn view(&self) -> Seq<u8> {
        self.0@
    }
}

/// The bytes of the all-zero address, used as "no address".
pub open spec fn zero_key_bytes() -> Seq<u8> {
    Seq::new(32, |i: int| 0u8)
}

impl Pubkey {
    /// Wraps 32 raw bytes as an address.
    pub fn new_from_array(bytes: [u8; 32]) -> (r: Pubkey)
        ensures
            r@ == bytes@,
    {
        Pubkey(bytes)
    }

    /// The raw bytes of the address.
    pub fn to_bytes(&self) -> (r: [u8; 32])
        ensures
            r@ == self@,
    {
        self.0
    }

    /// Byte-wise equality of two addresses.
    pub fn equals(&self, other: &Pubkey) -> (r: bool)
        ensures
            r == (self@ == other@),
    {
        let mut i: usize = 0;
        while i < 32
            invariant
                0 <= i <= 32,
                self@.len() == 32,
                other@.len() == 32,
                forall|j: int| 0 <= j < i ==> self@[j] == other@[j],
            decreases 32 - i,
        {
            if self.0[i] != other.0[i] {
                return false;
            }
            i = i + 1;
        }
        assert(self@ =~= other@);
        true
    }

    /// Whether this is the all-zero address.
    pub fn is_default(&self) -> (r: bool)
        ensures
            r == (self@ == zero_key_bytes()),
    {
        let zero = Pubkey::default();
        self.equals(&zero)
    }
}

impl Default for Pubkey {
    fn default() -> (r: Pubkey)
        ensures
            r@ == zero_key_bytes(),
    {
        let r = Pubkey([0u8; 32]);
        assert(r@ =~= zero_key_bytes());
        r
    }
}

impl PartialEq for Pubkey {
    fn eq(&self, other: &Pubkey) -> (r: bool) {
        self.equals(other)
    }
}

impl vstd::std_specs::cmp::PartialEqSpecImpl for Pubkey {
    open spec fn obeys_eq_spec() -> bool {
        true
    }

    open spec fn eq_spec(&self, other: &Pubkey) -> bool {
        self@ == other@
    }
}

impl Eq for Pubkey {}

/// Program id of the PumpFun bonding-curve program.
pub open spec fn spec_pumpfun_program() -> Seq<u8> {
    seq![1u8, 86, 224, 246, 147, 102, 90, 207, 68, 219, 21, 104, 191, 23, 91, 170, 81, 137, 203, 151, 245, 210, 255, 59, 101, 93, 43, 182, 253, 109, 24, 176]
}

/// Program id of the PumpFun bonding-curve program.
pub fn pumpfun_program() -> (r: Pubkey)
    ensures
        r@ == spec_pumpfun_program(),
{
    let r = Pubkey([1u8, 86, 224, 246, 147, 102, 90, 207, 68, 219, 21, 104, 191, 23, 91, 170, 81, 137, 203, 151, 245, 210, 255, 59, 101, 93, 43, 182, 253, 109, 24, 176]);
    assert(r@ =~= spec_pumpfun_program());
    r
}


/// The SPL token program.
pub open spec fn spec_token_program() -> Seq<u8> {
    seq![6u8, 221, 246, 225, 215, 101, 161, 147, 217, 203, 225, 70, 206, 235, 121, 172, 28, 180, 133, 237, 95, 91, 55, 145, 58, 140, 245, 133, 126, 255, 0, 169]
}

/// The SPL token program.
pub fn token_program() -> (r: Pubkey)
    ensures
        r@ == spec_token_program(),
{
    let r = Pubkey([6u8, 221, 246, 225, 215, 101, 161, 147, 217, 203, 225, 70, 206, 235, 121, 172, 28, 180, 133, 237, 95, 91, 55, 145, 58, 140, 245, 133, 126, 255, 0, 169]);
    assert(r@ =~= spec_token_program());
    r
}


/// The SPL token-2022 program.
pub open spec fn spec_token_program_2022() -> Seq<u8> {
    seq![6u8, 221, 246, 225, 238, 117, 143, 222, 24, 66, 93, 188, 228, 108, 205, 218, 182, 26, 252, 77, 131, 185, 13, 39, 254, 189, 249, 40, 216, 161, 139, 252]
}

/// The SPL token-2022 program.
pub fn token_program_2022() -> (r: Pubkey)
    ensures
        r@ == spec_token_program_2022(),
{
    let r = Pubkey([6u8, 221, 246, 225, 238, 117, 143, 222, 24, 66, 93, 188, 228, 108, 205, 218, 182, 26, 252, 77, 131, 185, 13, 39, 254, 189, 249, 40, 216, 161, 139, 252]);
    assert(r@ =~= spec_token_program_2022());
    r
}


/// The associated token account program.
pub open spec fn spec_associated_token_program_id() -> Seq<u8> {
    seq![140u8, 151, 37, 143, 78, 36, 137, 241, 187, 61, 16, 41, 20, 142, 13, 131, 11, 90, 19, 153, 218, 255, 16, 132, 4, 142, 123, 216, 219, 233, 248, 89]
}

/// The associated token account program.
pub fn associated_token_program_id() -> (r: Pubkey)
    ensures
        r@ == spec_associated_token_program_id(),
{
    let r = Pubkey([140u8, 151, 37, 143, 78, 36, 137, 241, 187, 61, 16, 41, 20, 142, 13, 131, 11, 90, 19, 153, 218, 255, 16, 132, 4, 142, 123, 216, 219, 233, 248, 89]);
    assert(r@ =~= spec_associated_token_program_id());
    r
}


/// The system program.
pub open spec fn spec_system_program() -> Seq<u8> {
    Seq::new(32, |i: int| 0u8)
}

/// The system program.
pub fn system_program() -> (r: Pubkey)
    ensures
        r@ == spec_system_program(),
{
    let r = Pubkey([0u8; 32]);
    assert(r@ =~= spec_system_program());
    r
}


/// Pseudo-mint standing for native SOL.
pub open spec fn spec_sol_token_account() -> Seq<u8> {
    seq![6u8, 155, 136, 87, 254, 171, 129, 132, 251, 104, 127, 99, 70, 24, 192, 53, 218, 196, 57, 220, 26, 235, 59, 85, 152, 160, 240, 0, 0, 0, 0, 0]
}

/// Pseudo-mint standing for native SOL.
pub fn sol_token_account() -> (r: Pubkey)
    ensures
        r@ == spec_sol_token_account(),
{
    let r = Pubkey([6u8, 155, 136, 87, 254, 171, 129, 132, 251, 104, 127, 99, 70, 24, 192, 53, 218, 196, 57, 220, 26, 235, 59, 85, 152, 160, 240, 0, 0, 0, 0, 0]);
    assert(r@ =~= spec_sol_token_account());
    r
}


/// The wrapped-SOL mint.
pub open spec fn spec_wsol_token_account() -> Seq<u8> {
    seq![6u8, 155, 136, 87, 254, 171, 129, 132, 251, 104, 127, 99, 70, 24, 192, 53, 218, 196, 57, 220, 26, 235, 59, 85, 152, 160, 240, 0, 0, 0, 0, 1]
}

/// The wrapped-SOL mint.
pub fn wsol_token_account() -> (r: Pubkey)
    ensures
        r@ == spec_wsol_token_account(),
{
    let r = Pubkey([6u8, 155, 136, 87, 254, 171, 129, 132, 251, 104, 127, 99, 70, 24, 192, 53, 218, 196, 57, 220, 26, 235, 59, 85, 152, 160, 240, 0, 0, 0, 0, 1]);
    assert(r@ =~= spec_wsol_token_account());
    r
}


/// The USD1 mint.
pub open spec fn spec_usd1_token_account() -> Seq<u8> {
    seq![7u8, 7, 47, 5, 74, 180, 141, 152, 125, 164, 229, 150, 158, 99, 44, 221, 243, 141, 214, 65, 65, 52, 157, 164, 27, 11, 105, 91, 145, 209, 92, 58]
}

/// The USD1 mint.
pub fn usd1_token_account() -> (r: Pubkey)
    ensures
        r@ == spec_usd1_token_account(),
{
    let r = Pubkey([7u8, 7, 47, 5, 74, 180, 141, 152, 125, 164, 229, 150, 158, 99, 44, 221, 243, 141, 214, 65, 65, 52, 157, 164, 27, 11, 105, 91, 145, 209, 92, 58]);
    assert(r@ =~= spec_usd1_token_account());
    r
}


/// The USDC (mainnet) mint.
pub open spec fn spec_usdc_token_account() -> Seq<u8> {
    seq![198u8, 250, 122, 243, 190, 219, 173, 58, 61, 101, 243, 106, 171, 201, 116, 49, 177, 187, 228, 194, 210, 246, 224, 228, 124, 166, 2, 3, 69, 47, 93, 97]
}

/// The USDC (mainnet) mint.
pub fn usdc_token_account() -> (r: Pubkey)
    ensures
        r@ == spec_usdc_token_account(),
{
    let r = Pubkey([198u8, 250, 122, 243, 190, 219, 173, 58, 61, 101, 243, 106, 171, 201, 116, 49, 177, 187, 228, 194, 210, 246, 224, 228, 124, 166, 2, 3, 69, 47, 93, 97]);
    assert(r@ =~= spec_usdc_token_account());
    r
}


/// The program-derived address (and bump seed) that `try_find_program_address`
/// of `solana_pubkey` finds for the given seeds and program id, if any.
pub uninterp spec fn program_address(seeds: Seq<Seq<u8>>, program_id: Seq<u8>) -> Option<(Seq<u8>, u8)>;

/// The byte contents of a list of seeds.
pub open spec fn seed_bytes(seeds: Seq<Vec<u8>>) -> Seq<Seq<u8>> {
    seeds.map_values(|s: Vec<u8>| s@)
}

/// Calls `solana_pubkey::Pubkey::try_find_program_address`: tries bump seeds from 255
/// down to 1 for a seed list whose hash is off the ed25519 curve. The result is a
/// function of the seeds and the program id alone; it is `None` when no bump works, and
/// also when a seed is longer than 32 bytes or there are more than 15 seeds besides
/// the bump (the crate stops at the first such refusal).
#[verifier::external_body]
pub(crate) fn try_find_program_address(seeds: &Vec<Vec<u8>>, program_id: &Pubkey) -> (r: Option<(Pubkey, u8)>)
    ensures
        r is Some <==> program_address(seed_bytes(seeds@), program_id@) is Some,
        r matches Some(v) ==> program_address(seed_bytes(seeds@), program_id@) == Some((v.0@, v.1)),
{
    let slices: Vec<&[u8]> = seeds.iter().map(|s| s.as_slice()).collect();
    SolanaPubkey::try_find_program_address(&slices, &SolanaPubkey::new_from_array(program_id.0))
        .map(|(k, bump)| (Pubkey(k.to_bytes()), bump))
}

impl Pubkey {
    /// The address bytes as a growable buffer (a PDA seed).
    pub fn to_seed(&self) -> (r: Vec<u8>)
        ensures
            r@ == self@,
    {
        let mut out: Vec<u8> = Vec::new();
        let mut i: usize = 0;
        while i < 32
            invariant
                0 <= i <= 32,
                self@.len() == 32,
                out@ == self@.subrange(0, i as int),
            decreases 32 - i,
        {
            out.push(self.0[i]);
            i = i + 1;
            assert(out@ =~= self@.subrange(0, i as int));
        }
        assert(self@.subrange(0, 32) =~= self@);
        out
    }
}

/// Program-derived address for two seeds: the address part only.
pub open spec fn pda_of(seed0: Seq<u8>, seed1: Seq<u8>, program_id: Seq<u8>) -> Option<Seq<u8>> {
    match program_address(seq![seed0, seed1], program_id) {
        Some(found) => Some(found.0),
        None => None,
    }
}

/// Finds the program-derived address of two seeds under `program_id`, if one exists.
pub fn find_pda_two_seeds(seed0: Vec<u8>, seed1: Vec<u8>, program_id: &Pubkey) -> (r: Option<Pubkey>)
    ensures
        r is Some <==> pda_of(seed0@, seed1@, program_id@) is Some,
        r matches Some(k) ==> pda_of(seed0@, seed1@, program_id@) == Some(k@),
{
    let ghost s0 = seed0@;
    let ghost s1 = seed1@;
    let seeds = vec![seed0, seed1];
    proof {
        assert(seed_bytes(seeds@) =~= seq![s0, s1]);
    }
    match try_find_program_address(&seeds, program_id) {
        Some(found) => Some(found.0),
        None => None,
    }
}

} // verus!
