//! Instruction types and their opcode-tagged wire format.

use vstd::prelude::*;
use vstd::bytes::{
    lemma_auto_spec_u64_to_from_le_bytes, spec_u64_from_le_bytes, spec_u64_to_le_bytes,
    u64_from_le_bytes, u64_to_le_bytes,
};
use vstd::slice::{slice_index_get, slice_subrange};
use crate::address::Address;
use crate::error::PredictChainError;

verus! {

/// Length in bytes of a serialized instruction:
/// `opcode:1 || side_index:1 || num_tokens:8`.
pub const INSTRUCTION_LEN: usize = 10;

/// Arguments for a share purchase.
#[derive(Clone, Copy, Debug, PartialEq, Eq, Structural)]
pub struct PurchaseSharesArgs {
    /// Index of the purchaser's desired event side: 0 for "yes", 1 for "no".
    pub side_index: u8,
    /// Number of outcome tokens to mint.
    pub num_tokens: u64,
}

/// Instruction definition.
#[derive(Clone, Copy, Debug, PartialEq, Eq, Structural)]
pub enum PredictChainInstruction {
    /// Purchase shares, which mints outcome tokens to a purchaser.
    ///
    /// Ordered account list:
    /// 0. user signer (signer, readonly)
    /// 1. authority, the program-derived address (readonly)
    /// 2. event account (writable)
    /// 3. "yes" token mint (writable)
    /// 4. "no" token mint (writable)
    /// 5. token account that receives the shares (writable)
    /// 6. payment account (writable)
    /// 7. token program id (readonly)
    PurchaseShares(PurchaseSharesArgs),
}

impl PredictChainInstruction {
    /// The serialized form: a leading opcode byte, then the payload.  The
    /// purchase instruction carries opcode 1; opcode 0 is reserved for the
    /// market initializer, which this module leaves to an outside
    /// collaborator.
    pub open spec fn to_bytes(self) -> Seq<u8> {
        match self {
            PredictChainInstruction::PurchaseShares(args) => seq![1u8, args.side_index]
                + spec_u64_to_le_bytes(args.num_tokens),
        }
    }

    /// Encodes the instruction into its serialized form.
    pub fn pack(&self) -> (r: Vec<u8>)
        ensures
            r@ == self.to_bytes(),
            r@.len() == INSTRUCTION_LEN,
    {
        match self {
            PredictChainInstruction::PurchaseShares(args) => {
                let mut out: Vec<u8> = Vec::new();
                out.push(1u8);
                out.push(args.side_index);
                let mut amount = u64_to_le_bytes(args.num_tokens);
                out.append(&mut amount);
                proof {
                    lemma_auto_spec_u64_to_from_le_bytes();
                    assert(out@ =~= self.to_bytes());
                }
                out
            },
        }
    }

    /// Decodes an instruction from its serialized form.
    pub fn unpack(data: &[u8]) -> (r: Result<PredictChainInstruction, PredictChainError>)
        ensures
            r is Ok <==> parse_instruction(data@) is Some,
            r is Ok ==> r->Ok_0 == parse_instruction(data@)->0,
            r is Err ==> r->Err_0 == PredictChainError::GenericError,
    {
        if data.len() != INSTRUCTION_LEN {
            return Err(PredictChainError::GenericError);
        }
        let opcode = *slice_index_get(data, 0);
        if opcode != 1 {
            return Err(PredictChainError::GenericError);
        }
        let side_index = *slice_index_get(data, 1);
        let num_tokens = u64_from_le_bytes(slice_subrange(data, 2, 10));
        Ok(PredictChainInstruction::PurchaseShares(PurchaseSharesArgs { side_index, num_tokens }))
    }
}

/// Decodes an opcode-tagged payload; only a 10-byte string with the
/// purchase opcode decodes.
pub open spec fn parse_instruction(data: Seq<u8>) -> Option<PredictChainInstruction> {
    if data.len() == INSTRUCTION_LEN && data[0] == 1 {
        Some(
            PredictChainInstruction::PurchaseShares(
                PurchaseSharesArgs {
                    side_index: data[1],
                    num_tokens: spec_u64_from_le_bytes(data.subrange(2, 10)),
                },
            ),
        )
    } else {
        None
    }
}

/// Encoding then decoding an instruction gives the instruction back.
pub proof fn lemma_instruction_encode_decode(i: PredictChainInstruction)
    ensures
        parse_instruction(i.to_bytes()) == Some(i),
{
    lemma_auto_spec_u64_to_from_le_bytes();
    let b = i.to_bytes();
    match i {
        PredictChainInstruction::PurchaseShares(args) => {
            assert(b.subrange(2, 10) =~= spec_u64_to_le_bytes(args.num_tokens));
        },
    }
}

/// Decoding then re-encoding gives the input bytes back: the encoding is
/// canonical.
pub proof fn lemma_instruction_decode_encode(data: Seq<u8>)
    requires
        parse_instruction(data) is Some,
    ensures
        parse_instruction(data)->0.to_bytes() == data,
{
    lemma_auto_spec_u64_to_from_le_bytes();
    assert(spec_u64_to_le_bytes(spec_u64_from_le_bytes(data.subrange(2, 10))) == data.subrange(
        2,
        10,
    ));
    assert(parse_instruction(data)->0.to_bytes() =~= data);
}

/// One entry of the ordered account list attached to an instruction.
pub struct AccountRole {
    /// The account's address.
    pub address: Address,
    /// Whether the transaction must carry this account's signature.
    pub is_signer: bool,
    /// Whether the instruction may mutate the account.
    pub is_writable: bool,
}

/// A host-ledger instruction, described in the module's own terms: the
/// target program, the ordered account list with its roles, and the
/// serialized payload.
pub struct LedgerInstruction {
    /// The program asked to execute the instruction.
    pub program_id: Address,
    /// The ordered account list, with each account's role.
    pub accounts: Vec<AccountRole>,
    /// The opcode-tagged payload.
    pub data: Vec<u8>,
}

/// Builds the `PurchaseShares` instruction: the fixed eight-account list in
/// its fixed order, with the fixed roles, and the serialized arguments.
#[allow(clippy::too_many_arguments)]
pub fn purchase_shares(
    program_id: &Address,
    user_signer: &Address,
    authority: &Address,
    event: &Address,
    yes_mint: &Address,
    no_mint: &Address,
    user_token_account: &Address,
    payment_account: &Address,
    token_program_id: &Address,
    args: PurchaseSharesArgs,
) -> (r: LedgerInstruction)
    ensures
        r.program_id@ == program_id@,
        r.data@ == PredictChainInstruction::PurchaseShares(args).to_bytes(),
        r.accounts@.len() == 8,
        r.accounts@[0].address@ == user_signer@ && r.accounts@[0].is_signer && !r.accounts@[0].is_writable,
        r.accounts@[1].address@ == authority@ && !r.accounts@[1].is_signer && !r.accounts@[1].is_writable,
        r.accounts@[2].address@ == event@ && !r.accounts@[2].is_signer && r.accounts@[2].is_writable,
        r.accounts@[3].address@ == yes_mint@ && !r.accounts@[3].is_signer && r.accounts@[3].is_writable,
        r.accounts@[4].address@ == no_mint@ && !r.accounts@[4].is_signer && r.accounts@[4].is_writable,
        r.accounts@[5].address@ == user_token_account@ && !r.accounts@[5].is_signer && r.accounts@[5].is_writable,
        r.accounts@[6].address@ == payment_account@ && !r.accounts@[6].is_signer && r.accounts@[6].is_writable,
        r.accounts@[7].address@ == token_program_id@ && !r.accounts@[7].is_signer && !r.accounts@[7].is_writable,
{
    let data = PredictChainInstruction::PurchaseShares(args).pack();
    let mut accounts: Vec<AccountRole> = Vec::new();
    accounts.push(AccountRole { address: user_signer.dup(), is_signer: true, is_writable: false });
    accounts.push(AccountRole { address: authority.dup(), is_signer: false, is_writable: false });
    accounts.push(AccountRole { address: event.dup(), is_signer: false, is_writable: true });
    accounts.push(AccountRole { address: yes_mint.dup(), is_signer: false, is_writable: true });
    accounts.push(AccountRole { address: no_mint.dup(), is_signer: false, is_writable: true });
    accounts.push(
        AccountRole { address: user_token_account.dup(), is_signer: false, is_writable: true },
    );
    accounts.push(
        AccountRole { address: payment_account.dup(), is_signer: false, is_writable: true },
    );
    accounts.push(
        AccountRole { address: token_program_id.dup(), is_signer: false, is_writable: false },
    );
    LedgerInstruction { program_id: program_id.dup(), accounts, data }
}

} // verus!
