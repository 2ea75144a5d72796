//! End-to-end tests of the three handlers against the real external crates.

use escrow::account::{AccountId, AccountView};
use escrow::error::EscrowError;
use escrow::processor::{Effects, Processor};
use escrow::state::Escrow;
use escrow::token::{RentParams, TokenAction};
use solana_program::program_pack::Pack;
use solana_program::pubkey::Pubkey;
use spl_token::state::{Account as TokenAccount, AccountState};

fn id(byte: u8) -> AccountId {
    AccountId::new(vec![byte; 32]).unwrap()
}

fn account(byte: u8, signer: bool, lamports: u64, data: Vec<u8>) -> AccountView {
    AccountView {
        id: id(byte),
        owner: id(0),
        is_signer: signer,
        is_writable: true,
        lamports,
        data,
    }
}

fn token_account_data(amount: u64) -> Vec<u8> {
    let account = TokenAccount {
        mint: Pubkey::new_from_array([9u8; 32]),
        owner: Pubkey::new_from_array([8u8; 32]),
        amount,
        delegate: solana_program::program_option::COption::None,
        state: AccountState::Initialized,
        is_native: solana_program::program_option::COption::None,
        delegated_amount: 0,
        close_authority: solana_program::program_option::COption::None,
    };
    let mut data = vec![0u8; TokenAccount::LEN];
    TokenAccount::pack(account, &mut data).unwrap();
    data
}

fn program_id() -> AccountId {
    id(250)
}

fn free_params() -> RentParams {
    RentParams {
        lamports_per_byte: 0,
        exemption_threshold: 2.0f64.to_le_bytes().to_vec(),
        burn_percent: 0,
    }
}

fn charging_params() -> RentParams {
    RentParams {
        lamports_per_byte: 6_960,
        exemption_threshold: 2.0f64.to_le_bytes().to_vec(),
        burn_percent: 0,
    }
}

/// Initialize's account list: initializer 10, custody 11, receive 12
/// (owned by the token program), escrow record 13, fee oracle 14, token
/// program 15.
fn init_accounts(escrow_lamports: u64, escrow_data: Vec<u8>) -> Vec<AccountView> {
    let mut accounts = vec![
        account(10, true, 1_000, vec![]),
        account(11, false, 2_039_280, token_account_data(500)),
        account(12, false, 2_039_280, vec![]),
        account(13, false, escrow_lamports, escrow_data),
        account(14, false, 1, vec![]),
        account(15, false, 1, vec![]),
    ];
    accounts[2].owner = AccountId::new(spl_token::id().to_bytes().to_vec()).unwrap();
    accounts[4].id =
        AccountId::new(solana_program::sysvar::rent::id().to_bytes().to_vec()).unwrap();
    accounts
}

fn derived_authority() -> AccountId {
    let pid = Pubkey::new_from_array([250u8; 32]);
    let (pda, _bump) = Pubkey::find_program_address(&[b"escrow"], &pid);
    AccountId::new(pda.to_bytes().to_vec()).unwrap()
}

fn run_init(accounts: &Vec<AccountView>, amount: u64) -> Result<Effects, EscrowError> {
    Processor::process_init_escrow(accounts, amount, &program_id(), &free_params())
}

/// Exchange's account list: taker 20, taker sending 21, taker receive 22,
/// custody 11, initializer main 10, initializer receive 12, escrow record
/// 13, token program 15, derived authority 16.
fn exchange_accounts(
    custody_amount: u64,
    escrow_data: Vec<u8>,
    escrow_lamports: u64,
) -> Vec<AccountView> {
    vec![
        account(20, true, 1_000, vec![]),
        account(21, false, 2_039_280, token_account_data(500)),
        account(22, false, 2_039_280, vec![]),
        account(11, false, 2_039_280, token_account_data(custody_amount)),
        account(10, false, 5_000, vec![]),
        account(12, false, 2_039_280, vec![]),
        account(13, false, escrow_lamports, escrow_data),
        account(15, false, 1, vec![]),
        account(16, false, 1, vec![]),
    ]
}

fn open_record(expected_amount: u64, highest_bid: u64) -> Vec<u8> {
    Escrow {
        is_initialized: true,
        initializer_pubkey: id(10),
        temp_token_account_pubkey: id(11),
        initializer_token_to_receive_account_pubkey: id(12),
        expected_amount,
        highest_bid,
    }
    .pack()
}

#[test]
fn initialize_writes_open_record_and_delegates_custody() {
    let accounts = init_accounts(10_000, vec![0u8; 113]);
    let effects = run_init(&accounts, 500).unwrap();
    let record = Escrow::unpack(&effects.escrow_data).unwrap();
    assert!(record.is_initialized);
    assert_eq!(record.expected_amount, 500);
    assert_eq!(record.highest_bid, 0);
    assert_eq!(record.initializer_pubkey.bytes, vec![10u8; 32]);
    assert_eq!(record.temp_token_account_pubkey.bytes, vec![11u8; 32]);
    assert_eq!(record.initializer_token_to_receive_account_pubkey.bytes, vec![12u8; 32]);
    assert_eq!(effects.escrow_lamports, 10_000);
    assert!(effects.initializer_main_lamports.is_none());
    assert_eq!(effects.actions.len(), 1);
    match &effects.actions[0] {
        TokenAction::SetAuthority { account, new_authority, current_authority } => {
            assert_eq!(account.bytes, vec![11u8; 32]);
            assert_eq!(new_authority.bytes, derived_authority().bytes);
            assert_eq!(current_authority.bytes, vec![10u8; 32]);
        },
        other => panic!("expected SetAuthority, got {:?}", other),
    }
}

#[test]
fn initialize_requires_signer() {
    let mut accounts = init_accounts(10_000, vec![0u8; 113]);
    accounts[0].is_signer = false;
    assert!(matches!(run_init(&accounts, 500), Err(EscrowError::MissingRequiredSignature)));
}

#[test]
fn initialize_requires_token_program_owner() {
    let mut accounts = init_accounts(10_000, vec![0u8; 113]);
    accounts[2].owner = id(99);
    assert!(matches!(run_init(&accounts, 500), Err(EscrowError::IncorrectProgramId)));
}

#[test]
fn initialize_requires_the_real_fee_oracle() {
    let mut accounts = init_accounts(10_000, vec![0u8; 113]);
    accounts[4].id = id(77);
    assert!(matches!(run_init(&accounts, 500), Err(EscrowError::IncorrectProgramId)));
}

#[test]
fn initialize_rejects_unsupported_threshold_encoding() {
    let accounts = init_accounts(10_000, vec![0u8; 113]);
    let params = RentParams {
        lamports_per_byte: 0,
        exemption_threshold: 3.5f64.to_le_bytes().to_vec(),
        burn_percent: 0,
    };
    let result = Processor::process_init_escrow(&accounts, 500, &program_id(), &params);
    assert!(matches!(result, Err(EscrowError::NotRentExempt)));
}

#[test]
fn initialize_requires_rent_exemption() {
    let accounts = init_accounts(10, vec![0u8; 113]);
    let result = Processor::process_init_escrow(&accounts, 500, &program_id(), &charging_params());
    assert!(matches!(result, Err(EscrowError::NotRentExempt)));
}

#[test]
fn initialize_requires_all_accounts() {
    let mut accounts = init_accounts(10_000, vec![0u8; 113]);
    accounts.truncate(4);
    assert!(matches!(run_init(&accounts, 500), Err(EscrowError::NotEnoughAccountKeys)));
    accounts.truncate(0);
    assert!(matches!(run_init(&accounts, 500), Err(EscrowError::NotEnoughAccountKeys)));
}

#[test]
fn initialize_rejects_open_record() {
    let accounts = init_accounts(10_000, vec![0u8; 113]);
    let effects = run_init(&accounts, 500).unwrap();
    let accounts2 = init_accounts(10_000, effects.escrow_data);
    assert!(matches!(run_init(&accounts2, 500), Err(EscrowError::AccountAlreadyInitialized)));
    assert!(matches!(run_init(&accounts2, 9_999), Err(EscrowError::AccountAlreadyInitialized)));
}

#[test]
fn exchange_settles_and_closes() {
    let accounts = exchange_accounts(500, open_record(500, 0), 7_000);
    let effects = Processor::process_exchange(&accounts, 500, &program_id()).unwrap();
    assert_eq!(effects.escrow_data.len(), 0);
    assert_eq!(effects.escrow_lamports, 0);
    assert_eq!(effects.initializer_main_lamports, Some(12_000));
    assert_eq!(effects.actions.len(), 3);
    match &effects.actions[0] {
        TokenAction::Transfer { source, destination, authority, amount } => {
            assert_eq!(source.bytes, vec![21u8; 32]);
            assert_eq!(destination.bytes, vec![12u8; 32]);
            assert_eq!(authority.bytes, vec![20u8; 32]);
            assert_eq!(*amount, 500);
        },
        other => panic!("expected Transfer, got {:?}", other),
    }
    match &effects.actions[1] {
        TokenAction::Transfer { source, destination, authority, amount } => {
            assert_eq!(source.bytes, vec![11u8; 32]);
            assert_eq!(destination.bytes, vec![22u8; 32]);
            assert_eq!(authority.bytes, derived_authority().bytes);
            assert_eq!(*amount, 500);
        },
        other => panic!("expected Transfer, got {:?}", other),
    }
    match &effects.actions[2] {
        TokenAction::CloseAccount { account, destination, authority } => {
            assert_eq!(account.bytes, vec![11u8; 32]);
            assert_eq!(destination.bytes, vec![10u8; 32]);
            assert_eq!(authority.bytes, derived_authority().bytes);
        },
        other => panic!("expected CloseAccount, got {:?}", other),
    }
}

#[test]
fn exchange_rejects_amount_mismatch() {
    let accounts = exchange_accounts(500, open_record(500, 0), 7_000);
    let result = Processor::process_exchange(&accounts, 400, &program_id());
    assert!(matches!(result, Err(EscrowError::ExpectedAmountMismatch)));
}

#[test]
fn exchange_rejects_substituted_accounts() {
    let mut accounts = exchange_accounts(500, open_record(500, 0), 7_000);
    accounts[4].id = id(66);
    let result = Processor::process_exchange(&accounts, 500, &program_id());
    assert!(matches!(result, Err(EscrowError::InvalidAccountData)));
}

#[test]
fn exchange_rejects_uninitialized_record() {
    let accounts = exchange_accounts(500, vec![0u8; 113], 7_000);
    let result = Processor::process_exchange(&accounts, 500, &program_id());
    assert!(matches!(result, Err(EscrowError::InvalidAccountData)));
}

#[test]
fn exchange_rejects_amount_not_above_best_bid() {
    let accounts = exchange_accounts(500, open_record(500, 500), 7_000);
    let result = Processor::process_exchange(&accounts, 500, &program_id());
    assert!(matches!(result, Err(EscrowError::BidTooLow)));
}

#[test]
fn exchange_rejects_deposit_overflow() {
    let mut accounts = exchange_accounts(500, open_record(500, 0), 7_000);
    accounts[4].lamports = u64::MAX - 6_999;
    let result = Processor::process_exchange(&accounts, 500, &program_id());
    assert!(matches!(result, Err(EscrowError::AmountOverflow)));
}

#[test]
fn exchange_requires_signer() {
    let mut accounts = exchange_accounts(500, open_record(500, 0), 7_000);
    accounts[0].is_signer = false;
    let result = Processor::process_exchange(&accounts, 500, &program_id());
    assert!(matches!(result, Err(EscrowError::MissingRequiredSignature)));
}

#[test]
fn exchange_rejects_malformed_custody_account() {
    let mut accounts = exchange_accounts(500, open_record(500, 0), 7_000);
    accounts[3].data = vec![1u8; 10];
    let result = Processor::process_exchange(&accounts, 500, &program_id());
    assert!(matches!(result, Err(EscrowError::InvalidAccountData)));
}

#[test]
fn bid_updates_highest_bid() {
    let accounts = exchange_accounts(500, open_record(500, 300), 7_000);
    let effects = Processor::process_bid(&accounts, 500, 400).unwrap();
    assert!(effects.actions.is_empty());
    assert_eq!(effects.escrow_lamports, 7_000);
    assert!(effects.initializer_main_lamports.is_none());
    let record = Escrow::unpack(&effects.escrow_data).unwrap();
    assert_eq!(record.highest_bid, 400);
    assert_eq!(record.expected_amount, 500);
    assert!(record.is_initialized);
}

#[test]
fn bid_rejects_equal_or_lower_offers() {
    let accounts = exchange_accounts(500, open_record(500, 300), 7_000);
    assert!(matches!(Processor::process_bid(&accounts, 500, 300), Err(EscrowError::BidTooLow)));
    assert!(matches!(Processor::process_bid(&accounts, 500, 299), Err(EscrowError::BidTooLow)));
}

#[test]
fn bid_rejects_amount_mismatch() {
    let accounts = exchange_accounts(500, open_record(500, 300), 7_000);
    let result = Processor::process_bid(&accounts, 499, 400);
    assert!(matches!(result, Err(EscrowError::ExpectedAmountMismatch)));
}

/// The concrete lifecycle scenario: a fresh record is initialized for 500,
/// a matching exchange closes it, and a mismatched exchange leaves it open.
#[test]
fn lifecycle_scenario() {
    let accounts = init_accounts(10_000, vec![0u8; 113]);
    let effects = run_init(&accounts, 500).unwrap();
    let record = Escrow::unpack(&effects.escrow_data).unwrap();
    assert!(record.is_initialized);
    assert_eq!(record.expected_amount, 500);
    assert_eq!(record.highest_bid, 0);

    let stored = effects.escrow_data;
    let good = exchange_accounts(500, stored.clone(), 10_000);
    let settled = Processor::process_exchange(&good, 500, &program_id()).unwrap();
    assert_eq!(settled.escrow_lamports, 0);
    assert_eq!(settled.escrow_data.len(), 0);

    let bad = exchange_accounts(500, stored.clone(), 10_000);
    let rejected = Processor::process_exchange(&bad, 400, &program_id());
    assert!(matches!(rejected, Err(EscrowError::ExpectedAmountMismatch)));
    let still_open = Escrow::unpack(&stored).unwrap();
    assert!(still_open.is_initialized);
    assert_eq!(still_open.expected_amount, 500);
}

#[test]
fn dispatcher_routes_by_tag() {
    let accounts = init_accounts(10_000, vec![0u8; 113]);
    let mut data = vec![0u8];
    data.extend_from_slice(&500u64.to_le_bytes());
    let effects =
        Processor::process(&program_id(), &accounts, &data, &free_params()).unwrap();
    assert_eq!(effects.actions.len(), 1);
    let swap = exchange_accounts(500, open_record(500, 0), 7_000);
    let mut exchange_data = vec![1u8];
    exchange_data.extend_from_slice(&500u64.to_le_bytes());
    let settled =
        Processor::process(&program_id(), &swap, &exchange_data, &free_params()).unwrap();
    assert_eq!(settled.actions.len(), 3);
    let mut bid_data = vec![2u8];
    bid_data.extend_from_slice(&500u64.to_le_bytes());
    bid_data.extend_from_slice(&100u64.to_le_bytes());
    let bid = Processor::process(&program_id(), &swap, &bid_data, &free_params()).unwrap();
    let record = Escrow::unpack(&bid.escrow_data).unwrap();
    assert_eq!(record.highest_bid, 100);
    assert!(matches!(
        Processor::process(&program_id(), &accounts, &[7u8; 17], &free_params()),
        Err(EscrowError::InvalidInstruction)
    ));
    assert!(matches!(
        Processor::process(&program_id(), &accounts, &[], &free_params()),
        Err(EscrowError::InvalidInstruction)
    ));
}
