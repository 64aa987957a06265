//! The purchase handler and the authority derivation it depends on.

use vstd::prelude::*;
use crate::address::Address;
use crate::error::PredictChainError;
use crate::instruction::{parse_instruction, PredictChainInstruction};
use crate::state::{parse_event, EventAccount};

verus! {

/// The state of one host-ledger account, as the host hands it to the module:
/// its address, its owning program, whether the transaction carries its
/// signature, its balance, and its stored bytes.
pub struct AccountState {
    /// The account's address.
    pub key: Address,
    /// The program that owns the account.
    pub owner: Address,
    /// Whether the transaction carries this account's signature.
    pub is_signer: bool,
    /// The account's balance of payment currency.
    pub lamports: u64,
    /// The account's stored bytes.
    pub data: Vec<u8>,
}

impl AccountState {
    /// The two addresses hold 32 bytes each.
    pub open spec fn wf(&self) -> bool {
        &&& self.key.wf()
        &&& self.owner.wf()
    }

    /// Nothing observable about the account differs from `other`.
    pub open spec fn same_as(&self, other: &AccountState) -> bool {
        &&& self.key@ == other.key@
        &&& self.owner@ == other.owner@
        &&& self.is_signer == other.is_signer
        &&& self.lamports == other.lamports
        &&& self.data@ == other.data@
    }
}

/// The one token-mint effect a successful purchase asks the host to
/// perform: mint `amount` units of `mint` to `destination`, authorized by
/// the derived `authority`, whose implicit signature the host reconstructs
/// from `seed` and `bump_seed`.
#[derive(Debug, PartialEq, Eq)]
pub struct MintAction {
    /// The token program that executes the mint.
    pub token_program: Address,
    /// The outcome-token mint drawn from.
    pub mint: Address,
    /// The token account that receives the minted units.
    pub destination: Address,
    /// The derived authority under which the mint is signed.
    pub authority: Address,
    /// Number of units to mint.
    pub amount: u64,
    /// The market address: the seed the implicit signature is derived from.
    pub seed: Address,
    /// The bump value completing the signature seeds.
    pub bump_seed: u8,
}

/// The address that `Pubkey::create_program_address` derives from the seeds
/// `[seed, [bump_seed]]` and the program id, or `None` where the derivation
/// fails.  The result depends on these inputs alone.
pub uninterp spec fn derive_address(program_id: Seq<u8>, seed: Seq<u8>, bump_seed: u8) -> Option<
    Seq<u8>,
>;

/// Relies on `solana_program::pubkey::Pubkey::create_program_address`, called
/// with the two seeds `[seed, [bump_seed]]`: a pure, deterministic function
/// of the seeds and the program id, returning a 32-byte off-curve address on
/// success and an error where the candidate lands on the curve.
#[verifier::external_body]
fn create_program_address(program_id: &Address, seed: &Address, bump_seed: u8) -> (r: Option<
    Address,
>)
    requires
        program_id.wf(),
        seed.wf(),
    ensures
        r is Some <==> derive_address(program_id@, seed@, bump_seed) is Some,
        r is Some ==> r->0@ == derive_address(program_id@, seed@, bump_seed)->0 && r->0.wf(),
{
    let pid = match solana_program::pubkey::Pubkey::try_from(program_id.as_bytes().as_slice()) {
        Ok(p) => p,
        Err(_) => return None,
    };
    let derived = solana_program::pubkey::Pubkey::create_program_address(
        &[seed.as_bytes().as_slice(), &[bump_seed]],
        &pid,
    );
    match derived {
        Ok(pk) => Address::from_bytes(pk.to_bytes().to_vec()),
        Err(_) => None,
    }
}

/// Whether a purchase request passes every validation step: a valid side
/// index, a positive token count, module ownership of the market-state and
/// payment accounts, an authenticated signer, a decodable market entry, a
/// caller-supplied authority equal to the derived one, and balances whose
/// updates fit the machine word.
pub open spec fn purchase_accepted(
    program_id: Address,
    user_signer: AccountState,
    authority: AccountState,
    event: AccountState,
    payment_account: AccountState,
    side_index: u8,
    num_tokens: u64,
) -> bool {
    &&& side_index <= 1
    &&& num_tokens > 0
    &&& event.owner@ == program_id@
    &&& payment_account.owner@ == program_id@
    &&& user_signer.is_signer
    &&& parse_event(event.data@) is Some
    &&& {
        let e = parse_event(event.data@)->0;
        &&& derive_address(program_id@, event.key@, e.bump_seed) is Some
        &&& authority.key@ == derive_address(program_id@, event.key@, e.bump_seed)->0
        &&& e.volume + payment_account.lamports <= u64::MAX
        &&& event.lamports + payment_account.lamports <= u64::MAX
    }
}

/// The state change a successful purchase applies: the market entry's
/// volume grows by the payment account's whole balance, that balance moves
/// into the market account, and the payment account is left empty.  Nothing
/// else about either account changes.
pub open spec fn purchase_applied(
    pre_event: AccountState,
    post_event: AccountState,
    pre_pay: AccountState,
    post_pay: AccountState,
) -> bool {
    let e0 = parse_event(pre_event.data@)->0;
    let pay = pre_pay.lamports;
    &&& post_event.data@ == e0.with_volume((e0.volume + pay) as u64).to_bytes()
    &&& parse_event(post_event.data@) == Some(e0.with_volume((e0.volume + pay) as u64))
    &&& post_event.lamports == pre_event.lamports + pay
    &&& post_event.key@ == pre_event.key@
    &&& post_event.owner@ == pre_event.owner@
    &&& post_event.is_signer == pre_event.is_signer
    &&& post_pay.lamports == 0
    &&& post_pay.key@ == pre_pay.key@
    &&& post_pay.owner@ == pre_pay.owner@
    &&& post_pay.is_signer == pre_pay.is_signer
    &&& post_pay.data@ == pre_pay.data@
}

/// The mint effect a successful purchase reports: exactly `num_tokens`
/// units of the selected mint — the "yes" mint for side 0, the "no" mint
/// for side 1 — to the destination account, signed under the caller-supplied
/// authority with the market's own seed and stored bump value.
pub open spec fn action_reported(
    action: MintAction,
    side_index: u8,
    num_tokens: u64,
    yes_mint: Address,
    no_mint: Address,
    user_token_account: Address,
    token_program_id: Address,
    authority: AccountState,
    pre_event: AccountState,
) -> bool {
    let e0 = parse_event(pre_event.data@)->0;
    &&& action.amount == num_tokens
    &&& action.mint@ == if side_index == 0 {
        yes_mint@
    } else {
        no_mint@
    }
    &&& action.destination@ == user_token_account@
    &&& action.authority@ == authority.key@
    &&& action.token_program@ == token_program_id@
    &&& action.seed@ == pre_event.key@
    &&& action.bump_seed == e0.bump_seed
}

/// The market entry's recorded volume, where the stored bytes decode.
pub open spec fn volume_of(data: Seq<u8>) -> int {
    match parse_event(data) {
        Some(e) => e.volume as int,
        None => 0,
    }
}

/// The market's recorded volume is non-decreasing across any sequence of
/// purchases on the same market: given the chain of market-account states a
/// run of purchase requests leaves behind — each step of which, successful
/// or failed, is proved by `purchase_shares` not to decrease the recorded
/// volume — any later state's volume is at least any earlier state's.
pub proof fn lemma_volume_monotonic(states: Seq<AccountState>, i: int, j: int)
    requires
        forall|k: int|
            0 <= k && k + 1 < states.len() ==> volume_of(#[trigger] states[k + 1].data@)
                >= volume_of(states[k].data@),
        0 <= i <= j < states.len(),
    ensures
        volume_of(states[j].data@) >= volume_of(states[i].data@),
    decreases j - i,
{
    if i < j {
        lemma_volume_monotonic(states, i, j - 1);
        assert(volume_of(states[(j - 1) + 1].data@) >= volume_of(states[j - 1].data@));
    }
}

/// Program state handler.
pub struct Processor {}

impl Processor {
    /// Calculates the authority id by generating a program address.
    pub fn authority_id(program_id: &Address, seed: &Address, bump_seed: u8) -> (r: Result<
        Address,
        PredictChainError,
    >)
        requires
            program_id.wf(),
            seed.wf(),
        ensures
            r is Ok <==> derive_address(program_id@, seed@, bump_seed) is Some,
            r is Ok ==> r->Ok_0@ == derive_address(program_id@, seed@, bump_seed)->0
                && r->Ok_0.wf(),
            r is Err ==> r->Err_0 == PredictChainError::GenericError,
    {
        match create_program_address(program_id, seed, bump_seed) {
            Some(a) => Ok(a),
            None => Err(PredictChainError::GenericError),
        }
    }

    /// Handles a purchase request: validates it, updates the market state
    /// atomically, and reports the one mint effect the host must perform.
    ///
    /// Every failure leaves both accounts exactly as they were; the request
    /// succeeds precisely on the inputs `purchase_accepted` admits.  The
    /// market's recorded volume never decreases, whatever the outcome.
    #[allow(clippy::too_many_arguments)]
    pub fn purchase_shares(
        program_id: &Address,
        user_signer: &AccountState,
        authority: &AccountState,
        event: &mut AccountState,
        yes_mint: &Address,
        no_mint: &Address,
        user_token_account: &Address,
        payment_account: &mut AccountState,
        token_program_id: &Address,
        side_index: u8,
        num_tokens: u64,
    ) -> (r: Result<MintAction, PredictChainError>)
        requires
            program_id.wf(),
            old(event).wf(),
        ensures
            r is Ok <==> purchase_accepted(
                *program_id,
                *user_signer,
                *authority,
                *old(event),
                *old(payment_account),
                side_index,
                num_tokens,
            ),
            r is Err ==> final(event).same_as(old(event)) && final(payment_account).same_as(
                old(payment_account),
            ) && r->Err_0 == PredictChainError::GenericError,
            r is Ok ==> purchase_applied(
                *old(event),
                *final(event),
                *old(payment_account),
                *final(payment_account),
            ) && action_reported(
                r->Ok_0,
                side_index,
                num_tokens,
                *yes_mint,
                *no_mint,
                *user_token_account,
                *token_program_id,
                *authority,
                *old(event),
            ),
            volume_of(final(event).data@) >= volume_of(old(event).data@),
    {
        if side_index > 1 {
            return Err(PredictChainError::GenericError);
        }
        if num_tokens == 0 {
            return Err(PredictChainError::GenericError);
        }
        if !event.owner.eq_addr(program_id) {
            return Err(PredictChainError::GenericError);
        }
        if !payment_account.owner.eq_addr(program_id) {
            return Err(PredictChainError::GenericError);
        }
        if !user_signer.is_signer {
            return Err(PredictChainError::GenericError);
        }

        let mut event_data = match EventAccount::unpack(event.data.as_slice()) {
            Ok(e) => e,
            Err(e) => return Err(e),
        };

        let authority_pub_key = match Self::authority_id(
            program_id,
            &event.key,
            event_data.bump_seed,
        ) {
            Ok(a) => a,
            Err(e) => return Err(e),
        };
        if !authority.key.eq_addr(&authority_pub_key) {
            return Err(PredictChainError::GenericError);
        }

        let pay = payment_account.lamports;
        let new_volume = match event_data.volume.checked_add(pay) {
            Some(v) => v,
            None => return Err(PredictChainError::GenericError),
        };
        let new_event_lamports = match event.lamports.checked_add(pay) {
            Some(v) => v,
            None => return Err(PredictChainError::GenericError),
        };

        let mint_to_use = if side_index == 0 {
            yes_mint
        } else {
            no_mint
        };

        let bump_seed = event_data.bump_seed;
        event_data.volume = new_volume;
        let packed = event_data.pack();
        proof {
            crate::state::lemma_event_encode_decode(event_data@);
        }
        event.data = packed;
        event.lamports = new_event_lamports;
        payment_account.lamports = 0;

        Ok(
            MintAction {
                token_program: token_program_id.dup(),
                mint: mint_to_use.dup(),
                destination: user_token_account.dup(),
                authority: authority.key.dup(),
                amount: num_tokens,
                seed: event.key.dup(),
                bump_seed,
            },
        )
    }

    /// Processes an opcode-tagged payload: decodes it and routes it to the
    /// purchase handler.  An undecodable payload is rejected with both
    /// accounts left exactly as they were.
    #[allow(clippy::too_many_arguments)]
    pub fn process_instruction(
        program_id: &Address,
        user_signer: &AccountState,
        authority: &AccountState,
        event: &mut AccountState,
        yes_mint: &Address,
        no_mint: &Address,
        user_token_account: &Address,
        payment_account: &mut AccountState,
        token_program_id: &Address,
        input: &[u8],
    ) -> (r: Result<MintAction, PredictChainError>)
        requires
            program_id.wf(),
            old(event).wf(),
        ensures
            r is Ok <==> (parse_instruction(input@) matches Some(
                PredictChainInstruction::PurchaseShares(args),
            ) && purchase_accepted(
                *program_id,
                *user_signer,
                *authority,
                *old(event),
                *old(payment_account),
                args.side_index,
                args.num_tokens,
            )),
            r is Err ==> final(event).same_as(old(event)) && final(payment_account).same_as(
                old(payment_account),
            ) && r->Err_0 == PredictChainError::GenericError,
            r is Ok ==> (parse_instruction(input@) matches Some(
                PredictChainInstruction::PurchaseShares(args),
            ) && purchase_applied(
                *old(event),
                *final(event),
                *old(payment_account),
                *final(payment_account),
            ) && action_reported(
                r->Ok_0,
                args.side_index,
                args.num_tokens,
                *yes_mint,
                *no_mint,
                *user_token_account,
                *token_program_id,
                *authority,
                *old(event),
            )),
            volume_of(final(event).data@) >= volume_of(old(event).data@),
    {
        let instruction = match PredictChainInstruction::unpack(input) {
            Ok(i) => i,
            Err(e) => return Err(e),
        };
        match instruction {
            PredictChainInstruction::PurchaseShares(args) => Self::purchase_shares(
                program_id,
                user_signer,
                authority,
                event,
                yes_mint,
                no_mint,
                user_token_account,
                payment_account,
                token_program_id,
                args.side_index,
                args.num_tokens,
            ),
        }
    }
}

} // verus!
