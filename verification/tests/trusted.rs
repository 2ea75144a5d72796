//! Tests holding the trusted declarations against the real external crates.

use escrow::account::AccountId;
use escrow::authority::derive_custody_authority;
use escrow::error::EscrowError;
use escrow::token::{rent_minimum_balance, token_program_id, unpack_token_amount, RentParams};
use solana_program::program_pack::Pack;
use solana_program::pubkey::Pubkey;
use solana_program::rent::Rent;
use spl_token::state::{Account as TokenAccount, AccountState};

#[test]
fn token_program_id_matches_external_crate() {
    assert_eq!(token_program_id().bytes, spl_token::id().to_bytes().to_vec());
}

#[test]
fn token_amount_reads_real_account_image() {
    let account = TokenAccount {
        mint: Pubkey::new_from_array([1u8; 32]),
        owner: Pubkey::new_from_array([2u8; 32]),
        amount: 123_456_789,
        delegate: solana_program::program_option::COption::None,
        state: AccountState::Initialized,
        is_native: solana_program::program_option::COption::None,
        delegated_amount: 0,
        close_authority: solana_program::program_option::COption::None,
    };
    let mut data = vec![0u8; TokenAccount::LEN];
    TokenAccount::pack(account, &mut data).unwrap();
    assert_eq!(unpack_token_amount(&data), Ok(123_456_789));
}

#[test]
fn token_amount_rejects_wrong_length_and_uninitialized() {
    assert_eq!(unpack_token_amount(&vec![0u8; 10]), Err(EscrowError::InvalidAccountData));
    assert_eq!(unpack_token_amount(&vec![0u8; 165]), Err(EscrowError::InvalidAccountData));
}

#[test]
fn token_amount_rejects_malformed_optional_fields() {
    let account = TokenAccount {
        mint: Pubkey::new_from_array([1u8; 32]),
        owner: Pubkey::new_from_array([2u8; 32]),
        amount: 42,
        delegate: solana_program::program_option::COption::None,
        state: AccountState::Initialized,
        is_native: solana_program::program_option::COption::None,
        delegated_amount: 0,
        close_authority: solana_program::program_option::COption::None,
    };
    let mut data = vec![0u8; TokenAccount::LEN];
    TokenAccount::pack(account, &mut data).unwrap();
    data[72] = 2;
    assert_eq!(unpack_token_amount(&data), Err(EscrowError::InvalidAccountData));
    data[72] = 0;
    data[108] = 3;
    assert_eq!(unpack_token_amount(&data), Err(EscrowError::InvalidAccountData));
    data[108] = 2;
    assert_eq!(unpack_token_amount(&data), Ok(42));
    data[109] = 9;
    assert_eq!(unpack_token_amount(&data), Err(EscrowError::InvalidAccountData));
    data[109] = 0;
    data[129] = 9;
    assert_eq!(unpack_token_amount(&data), Err(EscrowError::InvalidAccountData));
    data[129] = 1;
    assert_eq!(unpack_token_amount(&data), Ok(42));
}

#[test]
fn derived_authority_matches_external_derivation() {
    let pid_bytes = [250u8; 32];
    let program_id = AccountId::new(pid_bytes.to_vec()).unwrap();
    let derived = derive_custody_authority(&program_id).unwrap();
    let (expected, _bump) =
        Pubkey::find_program_address(&[b"escrow"], &Pubkey::new_from_array(pid_bytes));
    assert_eq!(derived.bytes, expected.to_bytes().to_vec());
}

#[test]
fn rent_oracle_id_matches_external_crate() {
    assert_eq!(
        escrow::token::rent_oracle_id().bytes,
        solana_program::sysvar::rent::id().to_bytes().to_vec()
    );
}

#[allow(deprecated)]
fn params_of(rent: &Rent) -> RentParams {
    RentParams {
        lamports_per_byte: rent.lamports_per_byte,
        exemption_threshold: rent.exemption_threshold.to_vec(),
        burn_percent: rent.burn_percent,
    }
}

#[test]
fn rent_floor_matches_external_crate() {
    assert_eq!(rent_minimum_balance(&params_of(&Rent::free()), 113), Some(0));
    let rent = Rent::default();
    assert_eq!(rent_minimum_balance(&params_of(&rent), 113), Some(rent.minimum_balance(113)));
    assert!(rent_minimum_balance(&params_of(&rent), 113).unwrap() > 0);
    assert_eq!(rent_minimum_balance(&params_of(&rent), 11 * 1024 * 1024), None);
}
