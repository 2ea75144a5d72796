//! A custodial atomic-swap (escrow) library.
//!
//! Two parties exchange ownership of two fungible-token balances without a
//! trusted intermediary: the initializer delegates custody of the offered
//! funds to a deterministically derived program authority, and a taker later
//! completes the swap atomically.  The library holds the operation codec, the
//! escrow record store, the account binder and the three operation handlers;
//! every handler is a pure function from the supplied account list to either
//! an error or the effects (token actions and account writes) that the
//! hosting runtime is to apply as one all-or-nothing unit.

pub mod account;
pub mod authority;
pub mod error;
pub mod instruction;
pub mod ledger;
pub mod processor;
pub mod state;
pub mod token;
