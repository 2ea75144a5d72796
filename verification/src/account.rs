//! Account identities and the host-supplied view of an account.

use crate::error::EscrowError;
use vstd::prelude::*;

verus! {

/// The number of bytes in an account identity.
pub const ID_LEN: usize = 32;

/// An account identity: the 32-byte address under which the hosting ledger
/// reaches an account.
#[derive(Clone, Debug)]
pub struct AccountId {
    pub bytes: Vec<u8>,
}

impl View for AccountId {
    type V = Seq<u8>;

    open spec fn view(&self) -> Seq<u8> {
        self.bytes@
    }
}

impl AccountId {
    /// A well-formed identity holds exactly 32 bytes.
    pub open spec fn wf(&self) -> bool {
        self@.len() == ID_LEN
    }

    /// Builds an identity from its 32 bytes.
    pub fn new(bytes: Vec<u8>) -> (r: Result<AccountId, EscrowError>)
        ensures
            bytes@.len() == ID_LEN ==> (r matches Ok(id) && id@ == bytes@ && id.wf()),
            bytes@.len() != ID_LEN ==> r == Err::<AccountId, EscrowError>(
                EscrowError::InvalidAccountData,
            ),
    {
        if bytes.len() == ID_LEN {
            Ok(AccountId { bytes })
        } else {
            Err(EscrowError::InvalidAccountData)
        }
    }

    /// An independent copy of the identity.
    pub fn duplicate(&self) -> (r: AccountId)
        ensures
            r@ == self@,
    {
        let mut out: Vec<u8> = Vec::new();
        let mut i: usize = 0;
        while i < self.bytes.len()
            invariant
                i <= self.bytes@.len(),
                out@ == self.bytes@.subrange(0, i as int),
            decreases self.bytes@.len() - i,
        {
            out.push(self.bytes[i]);
            i = i + 1;
        }
        proof {
            assert(out@ =~= self.bytes@);
        }
        AccountId { bytes: out }
    }

    /// Whether two identities are the same address.
    pub fn eq_id(&self, other: &AccountId) -> (r: bool)
        ensures
            r == (self@ == other@),
    {
        if self.bytes.len() != other.bytes.len() {
            proof {
                assert(self@ != other@);
            }
            return false;
        }
        let mut i: usize = 0;
        while i < self.bytes.len()
            invariant
                i <= self.bytes@.len(),
                self.bytes@.len() == other.bytes@.len(),
                forall|j: int| 0 <= j < i ==> self.bytes@[j] == other.bytes@[j],
            decreases self.bytes@.len() - i,
        {
            if self.bytes[i] != other.bytes[i] {
                return false;
            }
            i = i + 1;
        }
        proof {
            assert(self@ =~= other@);
        }
        true
    }
}

/// What an operation sees of one account the host handed it: its identity,
/// who owns it, whether it signed, whether it may be written, its native
/// balance and its stored data.
#[derive(Debug)]
pub struct AccountView {
    pub id: AccountId,
    pub owner: AccountId,
    pub is_signer: bool,
    pub is_writable: bool,
    pub lamports: u64,
    pub data: Vec<u8>,
}

impl AccountView {
    pub open spec fn wf(&self) -> bool {
        self.id.wf() && self.owner.wf()
    }
}

/// Binds position `i` of the supplied account list to a role.  A list
/// shorter than the schema fails with the generic account-resolution error,
/// distinct from every schema-violation error.  Signature and ownership
/// constraints are checked by the handlers after binding; write access is
/// granted and enforced by the hosting runtime's account loader, which the
/// schema's writability marks address.
pub fn bind_account<'a>(accounts: &'a Vec<AccountView>, i: usize) -> (r: Result<
    &'a AccountView,
    EscrowError,
>)
    ensures
        i < accounts@.len() ==> (r matches Ok(a) && *a == accounts@[i as int]),
        i >= accounts@.len() ==> r == Err::<&'a AccountView, EscrowError>(
            EscrowError::NotEnoughAccountKeys,
        ),
{
    if i < accounts.len() {
        Ok(&accounts[i])
    } else {
        Err(EscrowError::NotEnoughAccountKeys)
    }
}

} // verus!
