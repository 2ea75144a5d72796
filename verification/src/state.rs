//! The escrow record store: the fixed-layout persisted record describing an
//! open escrow, with its pack and unpack routines.
//!
//! The record is 113 bytes: one initialization byte, three 32-byte account
//! identities, and two little-endian 8-byte amounts, in the order of the
//! fields below.  An all-zero buffer unpacks as valid but uninitialized;
//! a buffer of any other length, or one whose first byte is neither 0 nor 1,
//! is rejected.

use crate::account::AccountId;
use crate::error::EscrowError;
use vstd::bytes::{
    lemma_auto_spec_u64_to_from_le_bytes, spec_u64_from_le_bytes, spec_u64_to_le_bytes,
    u64_from_le_bytes, u64_to_le_bytes,
};
use vstd::prelude::*;
use vstd::slice::{slice_subrange, slice_to_vec};

verus! {

/// The packed size of an escrow record, in bytes.
pub const ESCROW_RECORD_LEN: usize = 113;

/// The mathematical image of an escrow record: what the stored bytes mean.
pub struct EscrowModel {
    pub is_initialized: bool,
    pub initializer_pubkey: Seq<u8>,
    pub temp_token_account_pubkey: Seq<u8>,
    pub initializer_token_to_receive_account_pubkey: Seq<u8>,
    pub expected_amount: u64,
    pub highest_bid: u64,
}

impl EscrowModel {
    /// All three stored identities are 32 bytes.
    pub open spec fn wf(self) -> bool {
        &&& self.initializer_pubkey.len() == 32
        &&& self.temp_token_account_pubkey.len() == 32
        &&& self.initializer_token_to_receive_account_pubkey.len() == 32
    }

    /// The packed 113-byte image of this record.
    pub open spec fn pack_spec(self) -> Seq<u8> {
        seq![if self.is_initialized { 1u8 } else { 0u8 }] + self.initializer_pubkey
            + self.temp_token_account_pubkey + self.initializer_token_to_receive_account_pubkey
            + spec_u64_to_le_bytes(self.expected_amount) + spec_u64_to_le_bytes(self.highest_bid)
    }

    /// What `Escrow::unpack_unchecked` makes of any stored buffer.
    pub open spec fn unpack_spec(data: Seq<u8>) -> Result<EscrowModel, EscrowError> {
        if data.len() != ESCROW_RECORD_LEN {
            Err(EscrowError::InvalidAccountData)
        } else if data[0] != 0 && data[0] != 1 {
            Err(EscrowError::InvalidAccountData)
        } else {
            Ok(
                EscrowModel {
                    is_initialized: data[0] == 1,
                    initializer_pubkey: data.subrange(1, 33),
                    temp_token_account_pubkey: data.subrange(33, 65),
                    initializer_token_to_receive_account_pubkey: data.subrange(65, 97),
                    expected_amount: spec_u64_from_le_bytes(data.subrange(97, 105)),
                    highest_bid: spec_u64_from_le_bytes(data.subrange(105, 113)),
                },
            )
        }
    }
}

/// The persisted description of one escrow.
#[derive(Debug)]
pub struct Escrow {
    /// Whether this record describes an open escrow.  It turns from false to
    /// true exactly once, at initialization, and never back while the record
    /// exists; closing the escrow destroys the record.
    pub is_initialized: bool,
    /// The party that opened the escrow.
    pub initializer_pubkey: AccountId,
    /// The custody account holding the offered funds.
    pub temp_token_account_pubkey: AccountId,
    /// Where the initializer wants to receive the counter-asset.
    pub initializer_token_to_receive_account_pubkey: AccountId,
    /// The amount of the counter-asset the initializer demands.
    pub expected_amount: u64,
    /// The best competing offer seen so far; 0 if none.  Monotonically
    /// non-decreasing while the escrow is open.
    pub highest_bid: u64,
}

impl View for Escrow {
    type V = EscrowModel;

    open spec fn view(&self) -> EscrowModel {
        EscrowModel {
            is_initialized: self.is_initialized,
            initializer_pubkey: self.initializer_pubkey@,
            temp_token_account_pubkey: self.temp_token_account_pubkey@,
            initializer_token_to_receive_account_pubkey:
                self.initializer_token_to_receive_account_pubkey@,
            expected_amount: self.expected_amount,
            highest_bid: self.highest_bid,
        }
    }
}

impl Escrow {
    pub open spec fn wf(&self) -> bool {
        self@.wf()
    }

    /// Packs this record into its 113-byte stored form.
    pub fn pack(&self) -> (r: Vec<u8>)
        requires
            self.wf(),
        ensures
            r@ == self@.pack_spec(),
            r@.len() == ESCROW_RECORD_LEN,
    {
        proof {
            lemma_auto_spec_u64_to_from_le_bytes();
        }
        let mut out: Vec<u8> = Vec::new();
        out.push(if self.is_initialized {
            1
        } else {
            0
        });
        out.extend_from_slice(self.initializer_pubkey.bytes.as_slice());
        out.extend_from_slice(self.temp_token_account_pubkey.bytes.as_slice());
        out.extend_from_slice(self.initializer_token_to_receive_account_pubkey.bytes.as_slice());
        let mut amt = u64_to_le_bytes(self.expected_amount);
        out.append(&mut amt);
        let mut bid = u64_to_le_bytes(self.highest_bid);
        out.append(&mut bid);
        proof {
            assert(out@ =~= self@.pack_spec());
        }
        out
    }

    /// Unpacks a stored buffer, accepting an uninitialized (first byte 0)
    /// record as valid.
    pub fn unpack_unchecked(data: &[u8]) -> (r: Result<Escrow, EscrowError>)
        ensures
            r matches Ok(e) ==> EscrowModel::unpack_spec(data@) == Ok::<EscrowModel, EscrowError>(
                e@,
            ) && e.wf(),
            r matches Err(er) ==> EscrowModel::unpack_spec(data@) == Err::<EscrowModel, EscrowError>(
                er,
            ),
    {
        if data.len() != ESCROW_RECORD_LEN {
            return Err(EscrowError::InvalidAccountData);
        }
        let tag = data[0];
        if tag != 0 && tag != 1 {
            return Err(EscrowError::InvalidAccountData);
        }
        let initializer = slice_to_vec(slice_subrange(data, 1, 33));
        let temp = slice_to_vec(slice_subrange(data, 33, 65));
        let receive = slice_to_vec(slice_subrange(data, 65, 97));
        let expected_amount = u64_from_le_bytes(slice_subrange(data, 97, 105));
        let highest_bid = u64_from_le_bytes(slice_subrange(data, 105, 113));
        Ok(
            Escrow {
                is_initialized: tag == 1,
                initializer_pubkey: AccountId { bytes: initializer },
                temp_token_account_pubkey: AccountId { bytes: temp },
                initializer_token_to_receive_account_pubkey: AccountId { bytes: receive },
                expected_amount,
                highest_bid,
            },
        )
    }

    /// Unpacks a stored buffer and requires it to describe an open escrow;
    /// a record that is valid but uninitialized is rejected, since no
    /// operation but Initialize accepts one.
    pub fn unpack(data: &[u8]) -> (r: Result<Escrow, EscrowError>)
        ensures
            r matches Ok(e) ==> EscrowModel::unpack_spec(data@) == Ok::<EscrowModel, EscrowError>(
                e@,
            ) && e.wf() && e.is_initialized,
            r matches Err(er) ==> (EscrowModel::unpack_spec(data@) == Err::<
                EscrowModel,
                EscrowError,
            >(er) || (er == EscrowError::InvalidAccountData && (EscrowModel::unpack_spec(data@)
                matches Ok(m) && !m.is_initialized))),
            (EscrowModel::unpack_spec(data@) matches Ok(m) && !m.is_initialized) ==> r == Err::<
                Escrow,
                EscrowError,
            >(EscrowError::InvalidAccountData),
    {
        match Self::unpack_unchecked(data) {
            Ok(e) => {
                if e.is_initialized {
                    Ok(e)
                } else {
                    Err(EscrowError::InvalidAccountData)
                }
            },
            Err(er) => Err(er),
        }
    }
}

/// Round trip: unpacking the packed image of any well-formed record yields
/// that record's meaning back.
pub proof fn lemma_record_round_trip(m: EscrowModel)
    requires
        m.wf(),
    ensures
        EscrowModel::unpack_spec(m.pack_spec()) == Ok::<EscrowModel, EscrowError>(m),
{
    lemma_auto_spec_u64_to_from_le_bytes();
    let enc = m.pack_spec();
    assert(enc.subrange(1, 33) =~= m.initializer_pubkey);
    assert(enc.subrange(33, 65) =~= m.temp_token_account_pubkey);
    assert(enc.subrange(65, 97) =~= m.initializer_token_to_receive_account_pubkey);
    assert(enc.subrange(97, 105) =~= spec_u64_to_le_bytes(m.expected_amount));
    assert(enc.subrange(105, 113) =~= spec_u64_to_le_bytes(m.highest_bid));
}

} // verus!
