//! A mathematical model of the external token ledger and the host's native
//! balances, used to state what applying an accepted operation's effects
//! settles to.
//!
//! The model is the library's reading of the token interface's documented
//! behaviour — a transfer moves its amount, closing an account moves its
//! whole native balance to the destination — and lets the settlement law be
//! proved, not assumed: nothing here is trusted.

use crate::token::TokenAction;
use vstd::prelude::*;

verus! {

/// Balances by account identity: token balances kept by the external token
/// program, and native balances (storage-fee deposits) kept by the host.
pub struct LedgerModel {
    pub token: Map<Seq<u8>, int>,
    pub native: Map<Seq<u8>, int>,
}

/// What one token action does to the ledger.
pub open spec fn apply_action(l: LedgerModel, a: TokenAction) -> LedgerModel {
    match a {
        TokenAction::Transfer { source, destination, authority, amount } => {
            let debited = l.token.insert(source@, l.token[source@] - amount);
            LedgerModel {
                token: debited.insert(destination@, debited[destination@] + amount),
                native: l.native,
            }
        },
        TokenAction::SetAuthority { .. } => l,
        TokenAction::CloseAccount { account, destination, authority } => {
            let deposit = l.native[account@];
            let refunded = l.native.insert(destination@, l.native[destination@] + deposit);
            LedgerModel { token: l.token, native: refunded.insert(account@, 0) }
        },
    }
}

/// What a list of token actions, applied in order, does to the ledger.
pub open spec fn apply_actions(l: LedgerModel, actions: Seq<TokenAction>) -> LedgerModel
    decreases actions.len(),
{
    if actions.len() == 0 {
        l
    } else {
        apply_actions(apply_action(l, actions[0]), actions.skip(1))
    }
}

/// Settlement of a successful Exchange: applying its three token actions to
/// any ledger in which the custody account holds `custody_balance` leaves
/// the custody account with zero token balance and zero native balance, the
/// taker's receive account holding the custody account's former balance, the
/// initializer's receive account holding the taker's transferred `expected`,
/// and the custody account's storage deposit moved to the initializer's main
/// account.  (The escrow record's own deposit moves by the direct account
/// write the handler returns beside these actions.)  The identities must be
/// pairwise distinct where stated, as they name distinct parties' accounts.
pub proof fn lemma_exchange_settlement(
    l: LedgerModel,
    actions: Seq<TokenAction>,
    taker_send: Seq<u8>,
    taker_receive: Seq<u8>,
    custody: Seq<u8>,
    init_main: Seq<u8>,
    init_receive: Seq<u8>,
    expected: u64,
    custody_balance: u64,
)
    requires
        actions.len() == 3,
        actions[0] matches TokenAction::Transfer { source, destination, amount, .. } && source@
            == taker_send && destination@ == init_receive && amount == expected,
        actions[1] matches TokenAction::Transfer { source, destination, amount, .. } && source@
            == custody && destination@ == taker_receive && amount == custody_balance,
        actions[2] matches TokenAction::CloseAccount { account, destination, .. } && account@
            == custody && destination@ == init_main,
        l.token.dom().contains(taker_send),
        l.token.dom().contains(taker_receive),
        l.token.dom().contains(init_receive),
        l.token.dom().contains(custody),
        l.native.dom().contains(custody),
        l.native.dom().contains(init_main),
        l.token[custody] == custody_balance,
        taker_send != custody,
        taker_send != taker_receive,
        taker_send != init_receive,
        taker_receive != custody,
        taker_receive != init_receive,
        init_receive != custody,
        init_main != custody,
    ensures
        apply_actions(l, actions).token[custody] == 0,
        apply_actions(l, actions).native[custody] == 0,
        apply_actions(l, actions).token[taker_receive] == l.token[taker_receive]
            + custody_balance,
        apply_actions(l, actions).token[init_receive] == l.token[init_receive] + expected,
        apply_actions(l, actions).token[taker_send] == l.token[taker_send] - expected,
        apply_actions(l, actions).native[init_main] == l.native[init_main] + l.native[custody],
{
    let s1 = actions.skip(1);
    let s2 = s1.skip(1);
    let s3 = s2.skip(1);
    assert(s1[0] == actions[1]);
    assert(s2[0] == actions[2]);
    assert(s3.len() == 0);
    let l1 = apply_action(l, actions[0]);
    let l2 = apply_action(l1, actions[1]);
    let l3 = apply_action(l2, actions[2]);
    assert(apply_actions(l, actions) == apply_actions(l1, s1));
    assert(apply_actions(l1, s1) == apply_actions(l2, s2));
    assert(apply_actions(l2, s2) == apply_actions(l3, s3));
    assert(apply_actions(l3, s3) == l3);
}

} // verus!
