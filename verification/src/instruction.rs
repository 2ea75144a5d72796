//! The operation codec: an opaque byte buffer in, a typed operation out.
//!
//! The first byte is a discriminant tag; the remaining bytes are
//! little-endian fixed-width integers specific to the tag.  Tag 0 opens an
//! escrow, tag 1 completes a swap, tag 2 places a competing offer.  Any
//! other tag, or a payload too short for its tag, is rejected with
//! `InvalidInstruction`.  Bytes past what a tag consumes are ignored.

use crate::error::EscrowError;
use vstd::bytes::{
    lemma_auto_spec_u64_to_from_le_bytes, spec_u64_from_le_bytes, spec_u64_to_le_bytes,
    u64_from_le_bytes, u64_to_le_bytes,
};
use vstd::prelude::*;
use vstd::slice::slice_subrange;

verus! {

/// A decoded operation and its numeric parameters.
#[derive(Clone, Copy, Debug, PartialEq, Eq, Structural)]
pub enum EscrowInstruction {
    /// Opens an escrow: the initializer demands `amount` of the
    /// counter-asset for the funds held in custody.
    InitializeEscrow { amount: u64 },
    /// Completes a swap: the taker declares the custody balance it expects
    /// to receive.
    Exchange { amount: u64 },
    /// Places a competing offer of `bid_amount` while declaring the custody
    /// balance `amount` it expects.
    Bid { amount: u64, bid_amount: u64 },
}

impl EscrowInstruction {
    /// What `unpack` returns for any byte buffer.
    pub open spec fn unpack_spec(input: Seq<u8>) -> Result<EscrowInstruction, EscrowError> {
        if input.len() < 1 {
            Err(EscrowError::InvalidInstruction)
        } else if input[0] == 0 {
            if input.len() >= 9 {
                Ok(
                    EscrowInstruction::InitializeEscrow {
                        amount: spec_u64_from_le_bytes(input.subrange(1, 9)),
                    },
                )
            } else {
                Err(EscrowError::InvalidInstruction)
            }
        } else if input[0] == 1 {
            if input.len() >= 9 {
                Ok(
                    EscrowInstruction::Exchange {
                        amount: spec_u64_from_le_bytes(input.subrange(1, 9)),
                    },
                )
            } else {
                Err(EscrowError::InvalidInstruction)
            }
        } else if input[0] == 2 {
            if input.len() >= 17 {
                Ok(
                    EscrowInstruction::Bid {
                        amount: spec_u64_from_le_bytes(input.subrange(1, 9)),
                        bid_amount: spec_u64_from_le_bytes(input.subrange(9, 17)),
                    },
                )
            } else {
                Err(EscrowError::InvalidInstruction)
            }
        } else {
            Err(EscrowError::InvalidInstruction)
        }
    }

    /// The encoding of this operation: its tag byte followed by its
    /// parameters as little-endian 8-byte integers.
    pub open spec fn pack_spec(self) -> Seq<u8> {
        match self {
            EscrowInstruction::InitializeEscrow { amount } => seq![0u8] + spec_u64_to_le_bytes(
                amount,
            ),
            EscrowInstruction::Exchange { amount } => seq![1u8] + spec_u64_to_le_bytes(amount),
            EscrowInstruction::Bid { amount, bid_amount } => seq![2u8] + spec_u64_to_le_bytes(
                amount,
            ) + spec_u64_to_le_bytes(bid_amount),
        }
    }

    /// Decodes a byte buffer into an operation.
    pub fn unpack(input: &[u8]) -> (r: Result<EscrowInstruction, EscrowError>)
        ensures
            r == Self::unpack_spec(input@),
    {
        if input.len() < 1 {
            return Err(EscrowError::InvalidInstruction);
        }
        let tag = input[0];
        if tag == 0 {
            let rest = slice_subrange(input, 1, input.len());
            proof {
                if input@.len() >= 9 {
                    assert(rest@.subrange(0, 8) =~= input@.subrange(1, 9));
                }
            }
            match Self::unpack_amount(rest) {
                Ok(amount) => Ok(EscrowInstruction::InitializeEscrow { amount }),
                Err(e) => Err(e),
            }
        } else if tag == 1 {
            let rest = slice_subrange(input, 1, input.len());
            proof {
                if input@.len() >= 9 {
                    assert(rest@.subrange(0, 8) =~= input@.subrange(1, 9));
                }
            }
            match Self::unpack_amount(rest) {
                Ok(amount) => Ok(EscrowInstruction::Exchange { amount }),
                Err(e) => Err(e),
            }
        } else if tag == 2 {
            if input.len() < 17 {
                return Err(EscrowError::InvalidInstruction);
            }
            let amount = u64_from_le_bytes(slice_subrange(input, 1, 9));
            let bid_amount = u64_from_le_bytes(slice_subrange(input, 9, 17));
            Ok(EscrowInstruction::Bid { amount, bid_amount })
        } else {
            Err(EscrowError::InvalidInstruction)
        }
    }

    /// Reads one amount: the first 8 bytes of `input` as a little-endian
    /// integer; fewer than 8 bytes fail with `InvalidInstruction`.
    pub fn unpack_amount(input: &[u8]) -> (r: Result<u64, EscrowError>)
        ensures
            input@.len() >= 8 ==> r == Ok::<u64, EscrowError>(
                spec_u64_from_le_bytes(input@.subrange(0, 8)),
            ),
            input@.len() < 8 ==> r == Err::<u64, EscrowError>(EscrowError::InvalidInstruction),
    {
        if input.len() < 8 {
            return Err(EscrowError::InvalidInstruction);
        }
        Ok(u64_from_le_bytes(slice_subrange(input, 0, 8)))
    }

    /// Encodes this operation; `unpack` recovers it exactly (see
    /// `lemma_unpack_pack_round_trip`).
    pub fn pack(&self) -> (r: Vec<u8>)
        ensures
            r@ == self.pack_spec(),
    {
        let mut out: Vec<u8> = Vec::new();
        match self {
            EscrowInstruction::InitializeEscrow { amount } => {
                out.push(0);
                let mut amt = u64_to_le_bytes(*amount);
                out.append(&mut amt);
            },
            EscrowInstruction::Exchange { amount } => {
                out.push(1);
                let mut amt = u64_to_le_bytes(*amount);
                out.append(&mut amt);
            },
            EscrowInstruction::Bid { amount, bid_amount } => {
                out.push(2);
                let mut amt = u64_to_le_bytes(*amount);
                out.append(&mut amt);
                let mut bid = u64_to_le_bytes(*bid_amount);
                out.append(&mut bid);
            },
        }
        proof {
            assert(out@ =~= self.pack_spec());
        }
        out
    }
}

/// Round trip: decoding the encoding of any operation yields that operation.
pub proof fn lemma_unpack_pack_round_trip(op: EscrowInstruction)
    ensures
        EscrowInstruction::unpack_spec(op.pack_spec()) == Ok::<EscrowInstruction, EscrowError>(op),
{
    lemma_auto_spec_u64_to_from_le_bytes();
    match op {
        EscrowInstruction::InitializeEscrow { amount } => {
            let enc = op.pack_spec();
            assert(enc.subrange(1, 9) =~= spec_u64_to_le_bytes(amount));
        },
        EscrowInstruction::Exchange { amount } => {
            let enc = op.pack_spec();
            assert(enc.subrange(1, 9) =~= spec_u64_to_le_bytes(amount));
        },
        EscrowInstruction::Bid { amount, bid_amount } => {
            let enc = op.pack_spec();
            assert(enc.subrange(1, 9) =~= spec_u64_to_le_bytes(amount));
            assert(enc.subrange(9, 17) =~= spec_u64_to_le_bytes(bid_amount));
        },
    }
}

/// Any buffer shorter than the minimum length for its tag is rejected with
/// `InvalidInstruction`; so is the empty buffer.
pub proof fn lemma_short_input_rejected(input: Seq<u8>)
    requires
        input.len() == 0 || (input[0] == 0 && input.len() < 9) || (input[0] == 1 && input.len() < 9)
            || (input[0] == 2 && input.len() < 17),
    ensures
        EscrowInstruction::unpack_spec(input) == Err::<EscrowInstruction, EscrowError>(
            EscrowError::InvalidInstruction,
        ),
{
}

} // verus!
