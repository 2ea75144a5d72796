//! The closed set of errors the escrow program can report.

use vstd::prelude::*;

verus! {

/// Every way an operation can be rejected.  A failing operation aborts in
/// full: the hosting runtime discards all intermediate effects, so a caller
/// only ever observes one of these kinds, never a partial state.
#[derive(Clone, Copy, Debug, PartialEq, Eq, Structural)]
pub enum EscrowError {
    /// The operation bytes are malformed: unknown tag or truncated payload.
    InvalidInstruction,
    /// A role that must sign the transaction did not.
    MissingRequiredSignature,
    /// An account is not owned by the expected external token program, or a
    /// fixed-identity account (the fee oracle) is not the expected one.
    IncorrectProgramId,
    /// The escrow-record account lacks the storage-fee deposit required for
    /// it to be persisted indefinitely.
    NotRentExempt,
    /// Initialize targeted an escrow record that is already open.
    AccountAlreadyInitialized,
    /// The declared amount does not match the custody account's balance.
    ExpectedAmountMismatch,
    /// A competing offer does not strictly exceed the best offer seen so far.
    BidTooLow,
    /// A bound account does not match what the escrow record says, or stored
    /// account data cannot be read as the record or token account it should
    /// hold.
    InvalidAccountData,
    /// Returning a storage-fee deposit would overflow the receiving balance.
    AmountOverflow,
    /// The supplied account list is shorter than the operation's schema; this
    /// generic account-resolution error is distinct from every
    /// schema-violation error above.
    NotEnoughAccountKeys,
    /// No custody authority could be derived for the program identity (a
    /// statistically improbable outcome of the host's addressing scheme).
    AuthorityUnavailable,
}

impl EscrowError {
    /// The stable numeric code reported for this error at the program
    /// boundary.
    pub open spec fn code_spec(self) -> u32 {
        match self {
            EscrowError::InvalidInstruction => 0,
            EscrowError::MissingRequiredSignature => 1,
            EscrowError::IncorrectProgramId => 2,
            EscrowError::NotRentExempt => 3,
            EscrowError::AccountAlreadyInitialized => 4,
            EscrowError::ExpectedAmountMismatch => 5,
            EscrowError::BidTooLow => 6,
            EscrowError::InvalidAccountData => 7,
            EscrowError::AmountOverflow => 8,
            EscrowError::NotEnoughAccountKeys => 9,
            EscrowError::AuthorityUnavailable => 10,
        }
    }

    /// Maps the error to its stable numeric code.
    pub fn code(&self) -> (c: u32)
        ensures
            c == self.code_spec(),
    {
        match self {
            EscrowError::InvalidInstruction => 0,
            EscrowError::MissingRequiredSignature => 1,
            EscrowError::IncorrectProgramId => 2,
            EscrowError::NotRentExempt => 3,
            EscrowError::AccountAlreadyInitialized => 4,
            EscrowError::ExpectedAmountMismatch => 5,
            EscrowError::BidTooLow => 6,
            EscrowError::InvalidAccountData => 7,
            EscrowError::AmountOverflow => 8,
            EscrowError::NotEnoughAccountKeys => 9,
            EscrowError::AuthorityUnavailable => 10,
        }
    }
}

} // verus!
