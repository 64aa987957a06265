use predictchain::address::Address;
use predictchain::error::PredictChainError;
use predictchain::instruction::{PredictChainInstruction, PurchaseSharesArgs};
use predictchain::processor::{AccountState, Processor};
use predictchain::state::EventAccount;
use solana_program::pubkey::Pubkey;

fn addr(byte: u8) -> Address {
    Address::from_bytes(vec![byte; 32]).unwrap()
}

fn addr_from(bytes: Vec<u8>) -> Address {
    Address::from_bytes(bytes).unwrap()
}

struct Market {
    program_id: Address,
    user_signer: AccountState,
    authority: AccountState,
    event: AccountState,
    yes_mint: Address,
    no_mint: Address,
    user_token_account: Address,
    payment_account: AccountState,
    token_program_id: Address,
}

/// A consistent purchase setup: a module-owned market with a real derived
/// authority, a funded module-owned payment account, and a signing payer.
fn market(payment: u64, volume: u64) -> Market {
    let program_bytes = vec![10u8; 32];
    let event_bytes = vec![20u8; 32];
    let pid = Pubkey::try_from(program_bytes.as_slice()).unwrap();
    let (authority_key, bump_seed) =
        Pubkey::find_program_address(&[event_bytes.as_slice()], &pid);

    let program_id = addr_from(program_bytes);
    let event_key = addr_from(event_bytes);
    let authority_addr = addr_from(authority_key.to_bytes().to_vec());

    let entry = EventAccount {
        bump_seed,
        resolve_authority: addr(9),
        yes_mint_address: addr(3),
        no_mint_address: addr(4),
        volume,
    };

    Market {
        user_signer: AccountState {
            key: addr(1),
            owner: addr(0),
            is_signer: true,
            lamports: 0,
            data: Vec::new(),
        },
        authority: AccountState {
            key: authority_addr,
            owner: addr(0),
            is_signer: false,
            lamports: 0,
            data: Vec::new(),
        },
        event: AccountState {
            key: event_key,
            owner: program_id.dup(),
            is_signer: false,
            lamports: 1_614_820,
            data: entry.pack(),
        },
        yes_mint: addr(3),
        no_mint: addr(4),
        user_token_account: addr(5),
        payment_account: AccountState {
            key: addr(6),
            owner: program_id.dup(),
            is_signer: false,
            lamports: payment,
            data: Vec::new(),
        },
        token_program_id: addr(8),
        program_id,
    }
}

fn run_purchase(
    m: &mut Market,
    side_index: u8,
    num_tokens: u64,
) -> Result<predictchain::processor::MintAction, PredictChainError> {
    Processor::purchase_shares(
        &m.program_id,
        &m.user_signer,
        &m.authority,
        &mut m.event,
        &m.yes_mint,
        &m.no_mint,
        &m.user_token_account,
        &mut m.payment_account,
        &m.token_program_id,
        side_index,
        num_tokens,
    )
}

fn assert_unchanged(m: &Market, payment: u64, volume: u64) {
    assert_eq!(m.payment_account.lamports, payment);
    assert_eq!(m.event.lamports, 1_614_820);
    let entry = EventAccount::unpack(m.event.data.as_slice()).unwrap();
    assert_eq!(entry.volume, volume);
}

#[test]
fn test_purchase_shares() {
    let cost = 50_000_000;
    let num_tokens = 17;
    let mut m = market(cost, 0);
    let event_balance_before = m.event.lamports;

    let action = run_purchase(&mut m, 0, num_tokens).unwrap();

    // the mint effect: exactly num_tokens units of the YES mint to the user
    assert_eq!(action.amount, num_tokens);
    assert_eq!(action.mint, m.yes_mint);
    assert_eq!(action.destination, m.user_token_account);
    assert_eq!(action.authority, m.authority.key);
    assert_eq!(action.seed, m.event.key);
    assert_eq!(action.token_program, m.token_program_id);

    // payment drained into the market account
    assert_eq!(m.payment_account.lamports, 0);
    assert_eq!(m.event.lamports, event_balance_before + cost);

    // volume grew by the whole payment balance
    let entry = EventAccount::unpack(m.event.data.as_slice()).unwrap();
    assert_eq!(entry.volume, cost);
}

#[test]
fn test_purchase_shares_no_side() {
    let mut m = market(1_000, 5);
    let action = run_purchase(&mut m, 1, 2).unwrap();
    assert_eq!(action.mint, m.no_mint);
    assert_eq!(action.amount, 2);
    let entry = EventAccount::unpack(m.event.data.as_slice()).unwrap();
    assert_eq!(entry.volume, 1_005);
}

#[test]
fn test_invalid_side_index_rejected() {
    let mut m = market(50_000_000, 12);
    for num_tokens in [0u64, 1, 17, u64::MAX] {
        let r = run_purchase(&mut m, 2, num_tokens);
        assert_eq!(r, Err(PredictChainError::GenericError));
        assert_unchanged(&m, 50_000_000, 12);
    }
    let r = run_purchase(&mut m, 255, 17);
    assert_eq!(r, Err(PredictChainError::GenericError));
    assert_unchanged(&m, 50_000_000, 12);
}

#[test]
fn test_zero_tokens_rejected() {
    let mut m = market(50_000_000, 12);
    let r = run_purchase(&mut m, 0, 0);
    assert_eq!(r, Err(PredictChainError::GenericError));
    assert_unchanged(&m, 50_000_000, 12);
}

#[test]
fn test_wrong_authority_rejected() {
    let mut m = market(50_000_000, 12);
    // flip one bit of the supplied authority key
    let mut bytes = m.authority.key.as_bytes().clone();
    bytes[0] ^= 1;
    m.authority.key = Address::from_bytes(bytes).unwrap();
    let r = run_purchase(&mut m, 0, 17);
    assert_eq!(r, Err(PredictChainError::GenericError));
    assert_unchanged(&m, 50_000_000, 12);
}

#[test]
fn test_missing_signer_rejected() {
    let mut m = market(50_000_000, 12);
    m.user_signer.is_signer = false;
    let r = run_purchase(&mut m, 0, 17);
    assert_eq!(r, Err(PredictChainError::GenericError));
    assert_unchanged(&m, 50_000_000, 12);
}

#[test]
fn test_event_not_owned_rejected() {
    let mut m = market(50_000_000, 12);
    m.event.owner = addr(99);
    let r = run_purchase(&mut m, 0, 17);
    assert_eq!(r, Err(PredictChainError::GenericError));
    assert_unchanged(&m, 50_000_000, 12);
}

#[test]
fn test_payment_not_owned_rejected() {
    let mut m = market(50_000_000, 12);
    m.payment_account.owner = addr(99);
    let r = run_purchase(&mut m, 0, 17);
    assert_eq!(r, Err(PredictChainError::GenericError));
    assert_unchanged(&m, 50_000_000, 12);
}

#[test]
fn test_undecodable_event_rejected() {
    let mut m = market(50_000_000, 12);
    m.event.data.push(0);
    let r = run_purchase(&mut m, 0, 17);
    assert_eq!(r, Err(PredictChainError::GenericError));
    assert_eq!(m.payment_account.lamports, 50_000_000);
    assert_eq!(m.event.lamports, 1_614_820);
}

#[test]
fn test_volume_overflow_rejected() {
    let mut m = market(50_000_000, u64::MAX - 10);
    let r = run_purchase(&mut m, 0, 17);
    assert_eq!(r, Err(PredictChainError::GenericError));
    assert_unchanged(&m, 50_000_000, u64::MAX - 10);
}

#[test]
fn test_volume_accumulates_over_purchases() {
    let mut m = market(1_000, 0);
    run_purchase(&mut m, 0, 1).unwrap();
    let v1 = EventAccount::unpack(m.event.data.as_slice()).unwrap().volume;
    assert_eq!(v1, 1_000);

    // a failed purchase in between leaves the volume alone
    let r = run_purchase(&mut m, 2, 1);
    assert_eq!(r, Err(PredictChainError::GenericError));

    // refill the payment account and purchase the other side
    m.payment_account.lamports = 250;
    run_purchase(&mut m, 1, 3).unwrap();
    let v2 = EventAccount::unpack(m.event.data.as_slice()).unwrap().volume;
    assert_eq!(v2, 1_250);
    assert!(v2 >= v1);
}

#[test]
fn test_process_instruction_dispatches_purchase() {
    let mut m = market(50_000_000, 0);
    let input = PredictChainInstruction::PurchaseShares(PurchaseSharesArgs {
        side_index: 0,
        num_tokens: 17,
    })
    .pack();
    let action = Processor::process_instruction(
        &m.program_id,
        &m.user_signer,
        &m.authority,
        &mut m.event,
        &m.yes_mint,
        &m.no_mint,
        &m.user_token_account,
        &mut m.payment_account,
        &m.token_program_id,
        input.as_slice(),
    )
    .unwrap();
    assert_eq!(action.amount, 17);
    assert_eq!(action.mint, m.yes_mint);
    assert_eq!(m.payment_account.lamports, 0);
    let entry = EventAccount::unpack(m.event.data.as_slice()).unwrap();
    assert_eq!(entry.volume, 50_000_000);
}

#[test]
fn test_process_instruction_rejects_bad_payload() {
    let mut m = market(50_000_000, 12);
    let r = Processor::process_instruction(
        &m.program_id,
        &m.user_signer,
        &m.authority,
        &mut m.event,
        &m.yes_mint,
        &m.no_mint,
        &m.user_token_account,
        &mut m.payment_account,
        &m.token_program_id,
        vec![9u8, 9, 9].as_slice(),
    );
    assert_eq!(r, Err(PredictChainError::GenericError));
    assert_unchanged(&m, 50_000_000, 12);
}
