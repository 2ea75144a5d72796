//! The external token transfer interface and fee oracle, seen through
//! trusted declarations: the library reads token-account balances and the
//! storage-fee floor through these, and emits `TokenAction` values for the
//! unverified boundary to perform.

use crate::account::AccountId;
use crate::error::EscrowError;
use solana_program::program_pack::Pack;
use vstd::bytes::spec_u64_from_le_bytes;
use vstd::prelude::*;

verus! {

/// The identity of the external token program, byte for byte.
pub open spec fn token_program_id_spec() -> Seq<u8> {
    seq![
        6u8, 221u8, 246u8, 225u8, 215u8, 101u8, 161u8, 147u8, 217u8, 203u8, 225u8, 70u8, 206u8,
        235u8, 121u8, 172u8, 28u8, 180u8, 133u8, 237u8, 95u8, 91u8, 55u8, 145u8, 58u8, 140u8,
        245u8, 133u8, 126u8, 255u8, 0u8, 169u8,
    ]
}

/// Relies on `spl_token::id`: the token program's fixed, documented identity
/// (the base58 address TokenkegQfeZyiNwAJbNbGKPFXCWuBvf9Ss623VQ5DA, whose
/// bytes `token_program_id_spec` spells out).
#[verifier::external_body]
pub fn token_program_id() -> (r: AccountId)
    ensures
        r@ == token_program_id_spec(),
{
    AccountId { bytes: spl_token::id().to_bytes().to_vec() }
}

/// The balance stored in a token account's 165-byte image: bytes 64..72 as
/// a little-endian integer.
pub open spec fn token_amount_of(data: Seq<u8>) -> u64 {
    spec_u64_from_le_bytes(data.subrange(64, 72))
}

/// Whether the four bytes at `i` encode an optional field's presence: all
/// zero for absent, or a one followed by three zeroes for present.
pub open spec fn coption_tag_valid(data: Seq<u8>, i: int) -> bool {
    &&& (data[i] == 0 || data[i] == 1)
    &&& data[i + 1] == 0
    &&& data[i + 2] == 0
    &&& data[i + 3] == 0
}

/// Whether a stored buffer is a readable, initialized token account: exactly
/// 165 bytes; a valid delegate tag at 72..76; the state byte at 108 either 1
/// (initialized) or 2 (frozen), never 0 (uninitialized) or more; a valid
/// native-balance tag at 109..113; and a valid close-authority tag at
/// 129..133.
pub open spec fn token_account_valid(data: Seq<u8>) -> bool {
    &&& data.len() == 165
    &&& coption_tag_valid(data, 72)
    &&& (data[108] == 1 || data[108] == 2)
    &&& coption_tag_valid(data, 109)
    &&& coption_tag_valid(data, 129)
}

/// Relies on `spl_token::state::Account::unpack` (via
/// `solana_program_pack::Pack`): a token account's stored form is exactly
/// 165 bytes with its balance at bytes 64..72 as a little-endian integer,
/// and the call succeeds exactly on the images `token_account_valid`
/// describes.  Failures of the call (wrong length, uninitialized account,
/// malformed optional fields) all map to `InvalidAccountData`.
#[verifier::external_body]
pub fn unpack_token_amount(data: &Vec<u8>) -> (r: Result<u64, EscrowError>)
    ensures
        r is Ok <==> token_account_valid(data@),
        r is Err ==> r->Err_0 == EscrowError::InvalidAccountData,
        r is Ok ==> r->Ok_0 == token_amount_of(data@),
{
    match spl_token::state::Account::unpack(data.as_slice()) {
        Ok(account) => Ok(account.amount),
        Err(_) => Err(EscrowError::InvalidAccountData),
    }
}

/// The fee oracle's parameters, as plain values: the rental rate in native
/// units per byte, the 8-byte encoding of the legacy exemption threshold,
/// and the legacy burn percent.  This is the full serialized content of the
/// oracle's sysvar account, in order.
#[derive(Debug)]
pub struct RentParams {
    pub lamports_per_byte: u64,
    pub exemption_threshold: Vec<u8>,
    pub burn_percent: u8,
}

impl RentParams {
    /// The threshold encoding is 8 bytes.
    pub open spec fn wf(&self) -> bool {
        self.exemption_threshold@.len() == 8
    }
}

/// Whether an 8-byte exemption-threshold encoding is one of the two the fee
/// oracle's own validation covers: the encodings of 1.0 and of 2.0.  Only
/// for these does the oracle bound the rate before multiplying, so only
/// these are handed to it; any other encoding is rejected by the handlers.
pub open spec fn threshold_encoding_valid(t: Seq<u8>) -> bool {
    &&& t.len() == 8
    &&& t[0] == 0
    &&& t[1] == 0
    &&& t[2] == 0
    &&& t[3] == 0
    &&& t[4] == 0
    &&& t[5] == 0
    &&& ((t[6] == 240 && t[7] == 63) || (t[6] == 0 && t[7] == 64))
}

/// Whether these fee parameters carry a threshold encoding the oracle's own
/// validation covers.
pub fn threshold_encoding_supported(params: &RentParams) -> (r: bool)
    ensures
        r == threshold_encoding_valid(params.exemption_threshold@),
{
    let t = &params.exemption_threshold;
    if t.len() != 8 {
        return false;
    }
    t[0] == 0 && t[1] == 0 && t[2] == 0 && t[3] == 0 && t[4] == 0 && t[5] == 0 && ((t[6] == 240
        && t[7] == 63) || (t[6] == 0 && t[7] == 64))
}

/// The storage-fee floor that the fee oracle computes for an account of
/// `data_len` bytes under the given parameters, or `None` when the length
/// exceeds the ledger's permitted maximum or the parameters would overflow
/// the calculation.  A pure function of its arguments.
pub uninterp spec fn rent_floor_of(
    rate: u64,
    threshold: Seq<u8>,
    burn_percent: u8,
    data_len: int,
) -> Option<u64>;

/// Relies on `Rent::try_minimum_balance` (solana-rent): the minimum balance
/// at which an account of `data_len` bytes is storage-fee exempt, a pure
/// function of the fee parameters and the length; `None` when `data_len`
/// exceeds the permitted maximum of 10 MiB or the rate would overflow the
/// calculation.  The source validates the rate only for the two standard
/// threshold encodings and computes unchecked (or, on the deployment target
/// without floating point, panics) for every other, so only the validated
/// encodings are admitted here; the handlers test the bytes first.
#[verifier::external_body]
#[allow(deprecated)]
pub fn rent_minimum_balance(params: &RentParams, data_len: usize) -> (r: Option<u64>)
    requires
        params.wf(),
        threshold_encoding_valid(params.exemption_threshold@),
    ensures
        r == rent_floor_of(
            params.lamports_per_byte,
            params.exemption_threshold@,
            params.burn_percent,
            data_len as int,
        ),
        data_len > 10485760 ==> r is None,
{
    let mut threshold = [0u8; 8];
    threshold.copy_from_slice(params.exemption_threshold.as_slice());
    let rent = solana_program::rent::Rent {
        lamports_per_byte: params.lamports_per_byte,
        exemption_threshold: threshold,
        burn_percent: params.burn_percent,
    };
    rent.try_minimum_balance(data_len)
}

/// The fixed identity of the fee oracle's sysvar account, byte for byte.
pub open spec fn rent_oracle_id_spec() -> Seq<u8> {
    seq![
        6u8, 167u8, 213u8, 23u8, 25u8, 44u8, 92u8, 81u8, 33u8, 140u8, 201u8, 76u8, 61u8, 74u8,
        241u8, 127u8, 88u8, 218u8, 238u8, 8u8, 155u8, 161u8, 253u8, 68u8, 227u8, 219u8, 217u8,
        138u8, 0u8, 0u8, 0u8, 0u8,
    ]
}

/// Relies on `solana_sdk_ids::sysvar::rent::id`: the fee oracle's fixed,
/// documented identity (the base58 address
/// SysvarRent111111111111111111111111111111111, whose bytes
/// `rent_oracle_id_spec` spells out).
#[verifier::external_body]
pub fn rent_oracle_id() -> (r: AccountId)
    ensures
        r@ == rent_oracle_id_spec(),
{
    AccountId { bytes: solana_program::sysvar::rent::id().to_bytes().to_vec() }
}

/// One call the library asks the external token program to perform.  The
/// host applies the whole list of actions of an operation, together with the
/// operation's direct account writes, as one all-or-nothing unit.
#[derive(Debug)]
pub enum TokenAction {
    /// Move `amount` tokens from `source` to `destination`, authorized by
    /// `authority`.
    Transfer { source: AccountId, destination: AccountId, authority: AccountId, amount: u64 },
    /// Hand ownership of the token account `account` from
    /// `current_authority` to `new_authority`.
    SetAuthority { account: AccountId, new_authority: AccountId, current_authority: AccountId },
    /// Close the empty token account `account`, returning its storage-fee
    /// deposit to `destination`, authorized by `authority`.
    CloseAccount { account: AccountId, destination: AccountId, authority: AccountId },
}

} // verus!
