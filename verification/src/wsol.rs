//! Wrapped SOL accounts: the instructions that create and close a wallet's wSOL
//! account, and the retry policy that makes sure the account exists at start-up.

use vstd::prelude::*;

use crate::pubkey::{spec_token_program, spec_wsol_token_account, token_program, wsol_token_account, Pubkey};
use crate::seed_accounts::{create_associated_token_account_use_seed, spec_seed_account_ixs, RentCache};
use crate::system_ix::{ix_views, spec_system_transfer_ix, system_transfer, IxView};
use crate::token_accounts::{
    close_account, create_ata_instruction, create_associated_token_account_idempotent,
    get_associated_token_address_with_program_id, get_associated_token_address_with_program_id_use_seed, ix_view,
    spec_ata, spec_close_account_ix, spec_create_ata_ix, spec_seed_ata, spec_token_transfer_ix, transfer,
    AccountMeta, Instruction,
};

verus! {

/// The wallet's wrapped-SOL associated token account.
pub open spec fn spec_wsol_ata(payer: Seq<u8>) -> Option<Seq<u8>> {
    spec_ata(payer, spec_wsol_token_account(), spec_token_program())
}

/// Instructions that create the wallet's wSOL account if it is missing (idempotent),
/// paid by the wallet: one instruction, or none when the address cannot be derived.
pub fn create_wsol_ata(payer: &Pubkey) -> (r: Vec<Instruction>)
    ensures
        spec_wsol_ata(payer@) is None ==> r@.len() == 0,
        spec_wsol_ata(payer@) matches Some(ata) ==> r@.len() == 1 && ix_view(r@[0]) == spec_create_ata_ix(
            payer@,
            payer@,
            spec_wsol_token_account(),
            spec_token_program(),
            ata,
        ),
{
    let wsol = wsol_token_account();
    let program = token_program();
    match create_associated_token_account_idempotent(payer, payer, &wsol, &program) {
        Some(ix) => vec![ix],
        None => Vec::new(),
    }
}

/// Instructions that close the wallet's wSOL account, sending its lamports back to
/// the wallet: one instruction, or none when the address cannot be derived.
pub fn close_wsol(payer: &Pubkey) -> (r: Vec<Instruction>)
    ensures
        spec_wsol_ata(payer@) is None ==> r@.len() == 0,
        spec_wsol_ata(payer@) matches Some(ata) ==> r@.len() == 1 && ix_view(r@[0])
            == spec_close_account_ix(spec_token_program(), ata, payer@, payer@, Seq::empty()),
{
    let wsol = wsol_token_account();
    let program = token_program();
    match get_associated_token_address_with_program_id(payer, &wsol, &program) {
        Some(ata) => {
            let no_signers: Vec<Pubkey> = Vec::new();
            let ix = close_account(&program, &ata, payer, payer, &no_signers);
            assert(no_signers@ =~= Seq::<Pubkey>::empty());
            vec![ix]
        },
        None => Vec::new(),
    }
}

/// Token-program `SyncNative` of a wrapped-SOL account: its token balance catches up
/// with its lamports.
pub open spec fn spec_sync_native_ix(account: Seq<u8>) -> IxView {
    (spec_token_program(), seq![(account, false, true)], seq![17u8])
}

fn sync_native(account: &Pubkey) -> (r: Instruction)
    ensures
        ix_view(r) == spec_sync_native_ix(account@),
{
    let r = Instruction { program_id: token_program(), accounts: vec![AccountMeta::new(*account, false)], data: vec![17u8] };
    assert(ix_view(r).1 =~= spec_sync_native_ix(account@).1);
    assert(ix_view(r).2 =~= seq![17u8]);
    r
}

/// Moving `amount` lamports into the wSOL account `ata` and syncing it.
pub open spec fn spec_fund_wsol_ixs(payer: Seq<u8>, ata: Seq<u8>, amount: u64) -> Seq<IxView> {
    seq![spec_system_transfer_ix(payer, ata, amount), spec_sync_native_ix(ata)]
}

/// Instructions that create the wallet's wSOL account if missing, move `amount`
/// lamports into it and sync it; none when the account address cannot be derived.
pub fn handle_wsol(payer: &Pubkey, amount_in: u64) -> (r: Option<Vec<Instruction>>)
    ensures
        r is Some <==> spec_wsol_ata(payer@) is Some,
        r matches Some(v) ==> spec_wsol_ata(payer@) matches Some(ata) && ix_views(v@) == seq![
            spec_create_ata_ix(payer@, payer@, spec_wsol_token_account(), spec_token_program(), ata),
        ] + spec_fund_wsol_ixs(payer@, ata, amount_in),
{
    let wsol = wsol_token_account();
    let program = token_program();
    match get_associated_token_address_with_program_id(payer, &wsol, &program) {
        Some(ata) => {
            let mut v: Vec<Instruction> = Vec::new();
            v.push(create_ata_instruction(payer, payer, &wsol, &program, ata));
            v.push(system_transfer(payer, &ata, amount_in));
            v.push(sync_native(&ata));
            assert(ix_views(v@) =~= seq![
                spec_create_ata_ix(payer@, payer@, spec_wsol_token_account(), spec_token_program(), ata@),
            ] + spec_fund_wsol_ixs(payer@, ata@, amount_in));
            Some(v)
        },
        None => None,
    }
}

/// Instructions that move `amount` lamports into the wallet's existing wSOL account
/// and sync it; none when the account address cannot be derived.
pub fn wrap_sol_only(payer: &Pubkey, amount_in: u64) -> (r: Option<Vec<Instruction>>)
    ensures
        r is Some <==> spec_wsol_ata(payer@) is Some,
        r matches Some(v) ==> spec_wsol_ata(payer@) matches Some(ata) && ix_views(v@) == spec_fund_wsol_ixs(
            payer@,
            ata,
            amount_in,
        ),
{
    let wsol = wsol_token_account();
    let program = token_program();
    match get_associated_token_address_with_program_id(payer, &wsol, &program) {
        Some(ata) => {
            let v = vec![system_transfer(payer, &ata, amount_in), sync_native(&ata)];
            assert(ix_views(v@) =~= spec_fund_wsol_ixs(payer@, ata@, amount_in));
            Some(v)
        },
        None => None,
    }
}

/// Error of a wallet whose wSOL account address cannot be derived.
pub open spec fn no_wsol_account_error() -> Seq<char> {
    "wSOL account address cannot be derived"@
}

/// Moving `amount` wSOL from the wallet's wSOL account to the seed-derived wSOL account
/// `seed_ata`, then closing that account into the wallet (which unwraps it).
pub open spec fn spec_unwrap_ixs(payer: Seq<u8>, wsol_ata: Seq<u8>, seed_ata: Seq<u8>, amount: u64) -> Seq<IxView> {
    seq![
        spec_token_transfer_ix(spec_token_program(), wsol_ata, seed_ata, payer, amount, Seq::empty()),
        spec_close_account_ix(spec_token_program(), seed_ata, payer, payer, Seq::empty()),
    ]
}

/// Instructions that unwrap `amount` wSOL through the seed-derived wSOL account, which
/// must exist already (see `spec_unwrap_ixs`).
pub fn wrap_wsol_to_sol_without_create(payer: &Pubkey, amount: u64) -> (r: Result<Vec<Instruction>, String>)
    ensures
        spec_wsol_ata(payer@) is None ==> (r matches Err(e) && e@ == no_wsol_account_error()),
        spec_wsol_ata(payer@) is Some ==> (r matches Ok(v) && spec_wsol_ata(payer@) matches Some(wsol_ata)
            && spec_seed_ata(payer@, spec_wsol_token_account(), spec_token_program()) matches Some(seed_ata)
            && ix_views(v@) == spec_unwrap_ixs(payer@, wsol_ata, seed_ata, amount)),
{
    let wsol = wsol_token_account();
    let program = token_program();
    proof {
        lemma_token_program_not_pda_owned();
    }
    let seed_ata = match get_associated_token_address_with_program_id_use_seed(payer, &wsol, &program) {
        Ok(k) => k,
        Err(e) => {
            return Err(e);
        },
    };
    let user_wsol_ata = match get_associated_token_address_with_program_id(payer, &wsol, &program) {
        Some(k) => k,
        None => {
            return Err("wSOL account address cannot be derived".to_owned());
        },
    };
    let no_signers: Vec<Pubkey> = Vec::new();
    let v = vec![
        transfer(&program, &user_wsol_ata, &seed_ata, payer, amount, &no_signers),
        close_account(&program, &seed_ata, payer, payer, &no_signers),
    ];
    assert(no_signers@ =~= Seq::<Pubkey>::empty());
    assert(ix_views(v@) =~= spec_unwrap_ixs(payer@, user_wsol_ata@, seed_ata@, amount));
    Ok(v)
}

/// Instructions that create the seed-derived wSOL account and then unwrap `amount`
/// wSOL through it. Refused while the token-account rent is not fetched.
pub fn wrap_wsol_to_sol(rents: &RentCache, payer: &Pubkey, amount: u64) -> (r: Result<Vec<Instruction>, String>)
    ensures
        rents.spec_rent_for(spec_token_program()) is None ==> (r matches Err(e) && e@
            == crate::seed_accounts::rent_not_initialized()),
        rents.spec_rent_for(spec_token_program()) is Some && spec_wsol_ata(payer@) is None ==> (r matches Err(e)
            && e@ == no_wsol_account_error()),
        rents.spec_rent_for(spec_token_program()) matches Some(rent) ==> (spec_wsol_ata(payer@) is Some ==> (
        r matches Ok(v) && spec_wsol_ata(payer@) matches Some(wsol_ata) && spec_seed_ata(
            payer@,
            spec_wsol_token_account(),
            spec_token_program(),
        ) matches Some(seed_ata) && ix_views(v@) == spec_seed_account_ixs(
            payer@,
            payer@,
            spec_wsol_token_account(),
            spec_token_program(),
            seed_ata,
            rent,
        ) + spec_unwrap_ixs(payer@, wsol_ata, seed_ata, amount))),
{
    let wsol = wsol_token_account();
    let program = token_program();
    proof {
        lemma_token_program_not_pda_owned();
    }
    let mut instructions = match create_associated_token_account_use_seed(rents, payer, payer, &wsol, &program) {
        Ok(v) => v,
        Err(e) => {
            return Err(e);
        },
    };
    let rest = match wrap_wsol_to_sol_without_create(payer, amount) {
        Ok(v) => v,
        Err(e) => {
            return Err(e);
        },
    };
    let ghost head = instructions@;
    let ghost tail = rest@;
    let mut rest = rest;
    instructions.append(&mut rest);
    assert(instructions@ =~= head + tail);
    assert(ix_views(instructions@) =~= ix_views(head) + ix_views(tail));
    Ok(instructions)
}

/// The token program id does not end like a program-derived address.
proof fn lemma_token_program_not_pda_owned()
    ensures
        spec_token_program().subrange(11, 32) != crate::token_accounts::pda_marker(),
{
    reveal_strlit("ProgramDerivedAddress");
    assert(crate::token_accounts::pda_marker()[0] == 80u8);
    assert(spec_token_program().subrange(11, 32)[0] == 70u8);
}

/// Attempts to create the wSOL account before giving up.
pub const WSOL_SETUP_MAX_RETRIES: u64 = 3;

/// Seconds to wait for a creation transaction to confirm.
pub const WSOL_SETUP_TIMEOUT_SECS: u64 = 10;

/// Seconds to wait before a retry.
pub const WSOL_SETUP_RETRY_DELAY_SECS: u64 = 2;

/// Seconds to wait before giving up for good.
pub const WSOL_SETUP_ABORT_DELAY_SECS: u64 = 5;

/// What the caller does next while making sure the wSOL account exists.
#[derive(Debug, Clone, PartialEq, Eq)]
pub enum WsolSetupAction {
    /// Look the account up.
    CheckAccount,
    /// Wait `delay_secs` seconds, then fetch a recent blockhash.
    FetchBlockhash { delay_secs: u64 },
    /// Sign and send the creation transaction; wait at most `timeout_secs` for it.
    SendAndConfirm { timeout_secs: u64 },
    /// Look the account up again after a failed transaction.
    RecheckAccount,
    /// The account exists (or nothing had to be done).
    Done,
    /// Creation failed every time: wait `delay_secs`, then stop with `error`.
    Abort { delay_secs: u64, error: String },
}

/// What the caller observed after an action.
#[derive(Debug, Clone, PartialEq, Eq)]
pub enum WsolSetupEvent {
    AccountFound,
    AccountMissing,
    BlockhashReady,
    BlockhashFailed(String),
    Confirmed,
    SendFailed(String),
    TimedOut,
}

/// The stage the policy is in: which action it is waiting on.
#[derive(Debug, Clone, Copy, PartialEq, Eq, Structural)]
pub enum WsolSetupStage {
    Checking,
    Fetching,
    Sending,
    Rechecking,
    Finished,
}

/// Retry policy for creating the wSOL account: check, then up to three rounds of
/// (blockhash, send with a timeout, recheck on failure), two seconds apart.
#[derive(Debug, Clone)]
pub struct WsolAtaSetup {
    stage: WsolSetupStage,
    attempt: u64,
    has_instructions: bool,
    last_error: Option<String>,
}

/// Error recorded when no blockhash could be fetched.
pub open spec fn blockhash_error(e: Seq<char>) -> Seq<char> {
    "Failed to get blockhash: "@ + e
}

/// Error recorded when a transaction did not confirm in time.
pub open spec fn timeout_error() -> Seq<char> {
    "Transaction confirmation timeout (10s)"@
}

impl WsolAtaSetup {
    /// The stage the policy is in.
    pub closed spec fn spec_stage(&self) -> WsolSetupStage {
        self.stage
    }

    /// The current round (1 to 3 once creation started).
    pub closed spec fn spec_attempt(&self) -> u64 {
        self.attempt
    }

    /// The last error seen.
    pub closed spec fn spec_last_error(&self) -> Option<String> {
        self.last_error
    }

    /// Whether there are instructions to send.
    pub closed spec fn spec_has_instructions(&self) -> bool {
        self.has_instructions
    }

    /// Rounds stay within the limit.
    pub closed spec fn well_formed(&self) -> bool {
        &&& self.attempt <= WSOL_SETUP_MAX_RETRIES
        &&& (self.stage == WsolSetupStage::Fetching || self.stage == WsolSetupStage::Sending
            || self.stage == WsolSetupStage::Rechecking) ==> 1 <= self.attempt
        &&& self.stage == WsolSetupStage::Rechecking ==> self.last_error is Some
    }

    /// Creation transactions the policy may still send: three before the first round,
    /// one per round not yet sent, none once finished.
    pub open spec fn send_budget(&self) -> nat {
        let left = if self.spec_attempt() <= WSOL_SETUP_MAX_RETRIES {
            (WSOL_SETUP_MAX_RETRIES - self.spec_attempt()) as nat
        } else {
            0
        };
        match self.spec_stage() {
            WsolSetupStage::Checking => WSOL_SETUP_MAX_RETRIES as nat,
            WsolSetupStage::Fetching => left + 1,
            WsolSetupStage::Sending => left,
            WsolSetupStage::Rechecking => left,
            WsolSetupStage::Finished => 0,
        }
    }

    /// Whether the event answers the action the policy is waiting on.
    pub open spec fn accepts(&self, event: WsolSetupEvent) -> bool {
        match self.spec_stage() {
            WsolSetupStage::Checking => event is AccountFound || event is AccountMissing,
            WsolSetupStage::Fetching => event is BlockhashReady || event is BlockhashFailed,
            WsolSetupStage::Sending => event is Confirmed || event is SendFailed || event is TimedOut,
            WsolSetupStage::Rechecking => event is AccountFound || event is AccountMissing,
            WsolSetupStage::Finished => false,
        }
    }

    /// Starts the policy; `has_instructions` says whether a creation transaction can be
    /// built. The first action looks the account up.
    pub fn start(has_instructions: bool) -> (r: (Self, WsolSetupAction))
        ensures
            r.0.well_formed(),
            r.0.spec_stage() == WsolSetupStage::Checking,
            r.0.spec_attempt() == 0,
            r.0.spec_last_error() is None,
            r.0.spec_has_instructions() == has_instructions,
            r.1 == WsolSetupAction::CheckAccount,
            r.0.send_budget() == WSOL_SETUP_MAX_RETRIES,
    {
        (
            WsolAtaSetup { stage: WsolSetupStage::Checking, attempt: 0, has_instructions, last_error: None },
            WsolSetupAction::CheckAccount,
        )
    }

    /// After a failed round: the next round two seconds later, or, after the third,
    /// giving up with the last error.
    fn next_round(&mut self) -> (r: WsolSetupAction)
        requires
            old(self).well_formed(),
            old(self).attempt >= 1,
        ensures
            final(self).well_formed(),
            final(self).has_instructions == old(self).has_instructions,
            final(self).last_error == old(self).last_error,
            old(self).attempt < WSOL_SETUP_MAX_RETRIES ==> {
                &&& final(self).attempt == old(self).attempt + 1
                &&& final(self).stage == WsolSetupStage::Fetching
                &&& r == (WsolSetupAction::FetchBlockhash { delay_secs: WSOL_SETUP_RETRY_DELAY_SECS })
            },
            old(self).attempt >= WSOL_SETUP_MAX_RETRIES ==> {
                &&& final(self).attempt == old(self).attempt
                &&& final(self).stage == WsolSetupStage::Finished
                &&& r matches WsolSetupAction::Abort { delay_secs, error } && delay_secs
                    == WSOL_SETUP_ABORT_DELAY_SECS && (old(self).last_error matches Some(e) ==> error
                    == e) && (old(self).last_error is None ==> error@ == Seq::<char>::empty())
            },
    {
        if self.attempt < WSOL_SETUP_MAX_RETRIES {
            self.attempt = self.attempt + 1;
            self.stage = WsolSetupStage::Fetching;
            WsolSetupAction::FetchBlockhash { delay_secs: WSOL_SETUP_RETRY_DELAY_SECS }
        } else {
            self.stage = WsolSetupStage::Finished;
            let error = match &self.last_error {
                Some(e) => e.clone(),
                None => String::new(),
            };
            WsolSetupAction::Abort { delay_secs: WSOL_SETUP_ABORT_DELAY_SECS, error }
        }
    }

    /// Takes what the caller observed and says what to do next. Each creation
    /// transaction it asks for spends one unit of `send_budget`, which `start` sets to
    /// three and no event refills: the creation transaction is sent at most three times.
    pub fn on_event(&mut self, event: WsolSetupEvent) -> (r: WsolSetupAction)
        requires
            old(self).well_formed(),
            old(self).accepts(event),
        ensures
            final(self).well_formed(),
            final(self).spec_has_instructions() == old(self).spec_has_instructions(),
            r is SendAndConfirm ==> final(self).send_budget() + 1 == old(self).send_budget(),
            !(r is SendAndConfirm) ==> final(self).send_budget() <= old(self).send_budget(),
            match (old(self).spec_stage(), event) {
                (WsolSetupStage::Checking, WsolSetupEvent::AccountFound) => r == WsolSetupAction::Done
                    && final(self).spec_stage() == WsolSetupStage::Finished,
                (WsolSetupStage::Checking, WsolSetupEvent::AccountMissing) => if old(self).spec_has_instructions() {
                    &&& r == (WsolSetupAction::FetchBlockhash { delay_secs: 0 })
                    &&& final(self).spec_stage() == WsolSetupStage::Fetching
                    &&& final(self).spec_attempt() == 1
                } else {
                    r == WsolSetupAction::Done && final(self).spec_stage() == WsolSetupStage::Finished
                },
                (WsolSetupStage::Fetching, WsolSetupEvent::BlockhashReady) => {
                    &&& r == (WsolSetupAction::SendAndConfirm { timeout_secs: WSOL_SETUP_TIMEOUT_SECS })
                    &&& final(self).spec_stage() == WsolSetupStage::Sending
                    &&& final(self).spec_attempt() == old(self).spec_attempt()
                },
                (WsolSetupStage::Fetching, WsolSetupEvent::BlockhashFailed(e)) => {
                    &&& final(self).spec_last_error() matches Some(le) && le@ == blockhash_error(e@)
                    &&& Self::after_failure(*old(self), *final(self), r)
                },
                (WsolSetupStage::Sending, WsolSetupEvent::Confirmed) => r == WsolSetupAction::Done
                    && final(self).spec_stage() == WsolSetupStage::Finished,
                (WsolSetupStage::Sending, WsolSetupEvent::SendFailed(e)) => {
                    &&& final(self).spec_last_error() == Some(e)
                    &&& r == WsolSetupAction::RecheckAccount
                    &&& final(self).spec_stage() == WsolSetupStage::Rechecking
                    &&& final(self).spec_attempt() == old(self).spec_attempt()
                },
                (WsolSetupStage::Sending, WsolSetupEvent::TimedOut) => {
                    &&& final(self).spec_last_error() matches Some(le) && le@ == timeout_error()
                    &&& Self::after_failure(*old(self), *final(self), r)
                },
                (WsolSetupStage::Rechecking, WsolSetupEvent::AccountFound) => r == WsolSetupAction::Done
                    && final(self).spec_stage() == WsolSetupStage::Finished,
                (WsolSetupStage::Rechecking, WsolSetupEvent::AccountMissing) => {
                    &&& final(self).spec_last_error() == old(self).spec_last_error()
                    &&& Self::after_failure(*old(self), *final(self), r)
                },
                _ => false,
            },
    {
        let stage = self.stage;
        match stage {
            WsolSetupStage::Checking => {
                match event {
                    WsolSetupEvent::AccountFound => {
                        self.stage = WsolSetupStage::Finished;
                        WsolSetupAction::Done
                    },
                    _ => {
                        if self.has_instructions {
                            self.attempt = 1;
                            self.stage = WsolSetupStage::Fetching;
                            WsolSetupAction::FetchBlockhash { delay_secs: 0 }
                        } else {
                            self.stage = WsolSetupStage::Finished;
                            WsolSetupAction::Done
                        }
                    },
                }
            },
            WsolSetupStage::Fetching => {
                match event {
                    WsolSetupEvent::BlockhashReady => {
                        self.stage = WsolSetupStage::Sending;
                        WsolSetupAction::SendAndConfirm { timeout_secs: WSOL_SETUP_TIMEOUT_SECS }
                    },
                    WsolSetupEvent::BlockhashFailed(e) => {
                        let mut msg = "Failed to get blockhash: ".to_owned();
                        msg.append(e.as_str());
                        proof {
                            reveal_strlit("Failed to get blockhash: ");
                        }
                        self.last_error = Some(msg);
                        self.next_round()
                    },
                    _ => WsolSetupAction::Done,
                }
            },
            WsolSetupStage::Sending => {
                match event {
                    WsolSetupEvent::Confirmed => {
                        self.stage = WsolSetupStage::Finished;
                        WsolSetupAction::Done
                    },
                    WsolSetupEvent::SendFailed(e) => {
                        self.last_error = Some(e);
                        self.stage = WsolSetupStage::Rechecking;
                        WsolSetupAction::RecheckAccount
                    },
                    _ => {
                        self.last_error = Some("Transaction confirmation timeout (10s)".to_owned());
                        self.next_round()
                    },
                }
            },
            WsolSetupStage::Rechecking => {
                match event {
                    WsolSetupEvent::AccountFound => {
                        self.stage = WsolSetupStage::Finished;
                        WsolSetupAction::Done
                    },
                    _ => self.next_round(),
                }
            },
            WsolSetupStage::Finished => WsolSetupAction::Done,
        }
    }

    /// After a failed round: another round while fewer than three were tried, else
    /// giving up with the recorded error.
    pub open spec fn after_failure(before: Self, after: Self, r: WsolSetupAction) -> bool {
        if before.spec_attempt() < WSOL_SETUP_MAX_RETRIES {
            &&& after.spec_attempt() == before.spec_attempt() + 1
            &&& after.spec_stage() == WsolSetupStage::Fetching
            &&& r == (WsolSetupAction::FetchBlockhash { delay_secs: WSOL_SETUP_RETRY_DELAY_SECS })
        } else {
            &&& after.spec_stage() == WsolSetupStage::Finished
            &&& r matches WsolSetupAction::Abort { delay_secs, error } && delay_secs
                == WSOL_SETUP_ABORT_DELAY_SECS && after.spec_last_error() == Some(error)
        }
    }
}

} // verus!
