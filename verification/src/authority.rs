//! The custody authority deriver: a deterministic, non-secret identifier
//! computed from a fixed domain-separation tag and the program's own
//! identity, used purely as an authorization credential.

use crate::account::AccountId;
use vstd::prelude::*;

verus! {

/// The identifier that the host's addressing scheme derives for a seed and a
/// program identity, if one exists; the derivation is a pure function of the
/// two arguments, re-derivable by anyone.
pub uninterp spec fn derived_authority_of(seed: Seq<u8>, program_id: Seq<u8>) -> Option<Seq<u8>>;

/// Relies on `Pubkey::try_find_program_address` (solana-address): for fixed
/// seeds and program identity the derivation is deterministic, the returned
/// address is 32 bytes, and `None` comes only in the statistically
/// improbable case that no bump seed yields a valid address.
#[verifier::external_body]
fn find_derived_authority(seed: &Vec<u8>, program_id: &AccountId) -> (r: Option<AccountId>)
    requires
        program_id.wf(),
    ensures
        r matches Some(a) ==> derived_authority_of(seed@, program_id@) == Some(a@) && a.wf(),
        r is None ==> derived_authority_of(seed@, program_id@) is None,
{
    let mut id_bytes = [0u8; 32];
    id_bytes.copy_from_slice(program_id.bytes.as_slice());
    let pk = solana_program::pubkey::Pubkey::new_from_array(id_bytes);
    match solana_program::pubkey::Pubkey::try_find_program_address(&[seed.as_slice()], &pk) {
        Some((address, _bump)) => Some(AccountId { bytes: address.to_bytes().to_vec() }),
        None => None,
    }
}

/// The fixed domain-separation tag under which custody authorities are
/// derived: the bytes of "escrow".
pub open spec fn custody_seed_spec() -> Seq<u8> {
    seq![101u8, 115u8, 99u8, 114u8, 111u8, 119u8]
}

/// Builds the fixed domain-separation tag.
pub fn custody_seed() -> (r: Vec<u8>)
    ensures
        r@ == custody_seed_spec(),
{
    let mut seed: Vec<u8> = Vec::new();
    seed.push(101);
    seed.push(115);
    seed.push(99);
    seed.push(114);
    seed.push(111);
    seed.push(119);
    proof {
        assert(seed@ =~= custody_seed_spec());
    }
    seed
}

/// The custody authority for a program identity, if the host's addressing
/// scheme admits one.
pub open spec fn custody_authority_of(program_id: Seq<u8>) -> Option<Seq<u8>> {
    derived_authority_of(custody_seed_spec(), program_id)
}

/// Derives the custody authority for this program: the identifier that
/// receives delegated custody at initialization and authorizes release at
/// exchange.
pub fn derive_custody_authority(program_id: &AccountId) -> (r: Option<AccountId>)
    requires
        program_id.wf(),
    ensures
        r matches Some(a) ==> custody_authority_of(program_id@) == Some(a@) && a.wf(),
        r is None ==> custody_authority_of(program_id@) is None,
{
    let seed = custody_seed();
    find_derived_authority(&seed, program_id)
}

} // verus!
