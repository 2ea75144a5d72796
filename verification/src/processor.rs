//! The three operation handlers and their dispatcher.
//!
//! Every handler is a pure function: it reads the supplied account list and
//! either rejects the whole operation with one specific error, or returns
//! the effects — token actions for the external token program, and direct
//! account writes — that the host is to apply as one all-or-nothing unit.
//! No partial state ever escapes a rejected operation.

use crate::account::{bind_account, AccountId, AccountView};
use crate::authority::{custody_authority_of, derive_custody_authority};
use crate::error::EscrowError;
use crate::instruction::EscrowInstruction;
use crate::state::{Escrow, EscrowModel};
use crate::token::{
    rent_floor_of, rent_minimum_balance, rent_oracle_id, rent_oracle_id_spec,
    threshold_encoding_supported, threshold_encoding_valid, token_account_valid, token_amount_of,
    token_program_id, token_program_id_spec, unpack_token_amount, RentParams, TokenAction,
};
use vstd::prelude::*;

verus! {

/// What one accepted operation asks the host to do: the token actions to
/// perform in order, and the direct writes to the escrow-record account and
/// the initializer's main account.
#[derive(Debug)]
pub struct Effects {
    /// Calls for the external token program, in order.
    pub actions: Vec<TokenAction>,
    /// The bytes to store in the escrow-record account (empty when the
    /// record is destroyed).
    pub escrow_data: Vec<u8>,
    /// The escrow-record account's native balance afterwards.
    pub escrow_lamports: u64,
    /// The initializer's main-account balance afterwards, where the
    /// operation moves a storage-fee deposit there.
    pub initializer_main_lamports: Option<u64>,
}

/// Whether the escrow-record account's balance meets the fee oracle's floor.
pub open spec fn rent_ok(min_balance: Option<u64>, lamports: u64) -> bool {
    min_balance matches Some(m) && lamports >= m
}

/// The record a successful Initialize writes: open, bound to the supplied
/// identities, demanding `amount`, with no bid seen yet.
pub open spec fn init_record_model(accounts: Seq<AccountView>, amount: u64) -> EscrowModel {
    EscrowModel {
        is_initialized: true,
        initializer_pubkey: accounts[0].id@,
        temp_token_account_pubkey: accounts[1].id@,
        initializer_token_to_receive_account_pubkey: accounts[2].id@,
        expected_amount: amount,
        highest_bid: 0,
    }
}

/// The Initialize decision cascade, in the order the checks run: account
/// roles are `[0 signer initializer] [1 custody] [2 initializer receive]
/// [3 escrow record] [4 fee oracle] [5 token program]`.  The account
/// standing in the fee oracle's place must be the oracle itself: fee
/// parameters are read from it, so a substituted account could fabricate
/// them.
pub open spec fn init_error(
    accounts: Seq<AccountView>,
    amount: u64,
    min_balance: Option<u64>,
) -> Result<(), EscrowError> {
    if accounts.len() < 1 {
        Err(EscrowError::NotEnoughAccountKeys)
    } else if !accounts[0].is_signer {
        Err(EscrowError::MissingRequiredSignature)
    } else if accounts.len() < 3 {
        Err(EscrowError::NotEnoughAccountKeys)
    } else if accounts[2].owner@ != token_program_id_spec() {
        Err(EscrowError::IncorrectProgramId)
    } else if accounts.len() < 5 {
        Err(EscrowError::NotEnoughAccountKeys)
    } else if accounts[4].id@ != rent_oracle_id_spec() {
        Err(EscrowError::IncorrectProgramId)
    } else if !rent_ok(min_balance, accounts[3].lamports) {
        Err(EscrowError::NotRentExempt)
    } else if EscrowModel::unpack_spec(accounts[3].data@) is Err {
        Err(EscrowError::InvalidAccountData)
    } else if EscrowModel::unpack_spec(accounts[3].data@)->Ok_0.is_initialized {
        Err(EscrowError::AccountAlreadyInitialized)
    } else if accounts.len() < 6 {
        Err(EscrowError::NotEnoughAccountKeys)
    } else {
        Ok(())
    }
}

/// The Exchange decision cascade, in the order the checks run, for a given
/// custody balance: account roles are `[0 signer taker] [1 taker sending]
/// [2 taker receive] [3 custody] [4 initializer main] [5 initializer
/// receive] [6 escrow record] [7 token program] [8 derived authority]`.
pub open spec fn exchange_error(
    accounts: Seq<AccountView>,
    amount: u64,
    custody_balance: u64,
) -> Result<(), EscrowError> {
    if accounts.len() < 1 {
        Err(EscrowError::NotEnoughAccountKeys)
    } else if !accounts[0].is_signer {
        Err(EscrowError::MissingRequiredSignature)
    } else if accounts.len() < 4 {
        Err(EscrowError::NotEnoughAccountKeys)
    } else if amount != custody_balance {
        Err(EscrowError::ExpectedAmountMismatch)
    } else if accounts.len() < 7 {
        Err(EscrowError::NotEnoughAccountKeys)
    } else if EscrowModel::unpack_spec(accounts[6].data@) is Err {
        Err(EscrowError::InvalidAccountData)
    } else if !EscrowModel::unpack_spec(accounts[6].data@)->Ok_0.is_initialized {
        Err(EscrowError::InvalidAccountData)
    } else if amount <= EscrowModel::unpack_spec(accounts[6].data@)->Ok_0.highest_bid {
        Err(EscrowError::BidTooLow)
    } else if EscrowModel::unpack_spec(accounts[6].data@)->Ok_0.temp_token_account_pubkey
        != accounts[3].id@ {
        Err(EscrowError::InvalidAccountData)
    } else if EscrowModel::unpack_spec(accounts[6].data@)->Ok_0.initializer_pubkey
        != accounts[4].id@ {
        Err(EscrowError::InvalidAccountData)
    } else if EscrowModel::unpack_spec(accounts[6].data@)->Ok_0.initializer_token_to_receive_account_pubkey
        != accounts[5].id@ {
        Err(EscrowError::InvalidAccountData)
    } else if accounts.len() < 9 {
        Err(EscrowError::NotEnoughAccountKeys)
    } else if accounts[4].lamports + accounts[6].lamports > u64::MAX {
        Err(EscrowError::AmountOverflow)
    } else {
        Ok(())
    }
}

/// The Bid decision cascade, in the order the checks run: the account
/// layout is the same as Exchange's, with the competing offer `bid_amount`
/// carried in the payload.
pub open spec fn bid_error(
    accounts: Seq<AccountView>,
    amount: u64,
    bid_amount: u64,
    custody_balance: u64,
) -> Result<(), EscrowError> {
    if accounts.len() < 1 {
        Err(EscrowError::NotEnoughAccountKeys)
    } else if !accounts[0].is_signer {
        Err(EscrowError::MissingRequiredSignature)
    } else if accounts.len() < 4 {
        Err(EscrowError::NotEnoughAccountKeys)
    } else if amount != custody_balance {
        Err(EscrowError::ExpectedAmountMismatch)
    } else if accounts.len() < 7 {
        Err(EscrowError::NotEnoughAccountKeys)
    } else if EscrowModel::unpack_spec(accounts[6].data@) is Err {
        Err(EscrowError::InvalidAccountData)
    } else if !EscrowModel::unpack_spec(accounts[6].data@)->Ok_0.is_initialized {
        Err(EscrowError::InvalidAccountData)
    } else if bid_amount <= EscrowModel::unpack_spec(accounts[6].data@)->Ok_0.highest_bid {
        Err(EscrowError::BidTooLow)
    } else if EscrowModel::unpack_spec(accounts[6].data@)->Ok_0.temp_token_account_pubkey
        != accounts[3].id@ {
        Err(EscrowError::InvalidAccountData)
    } else if EscrowModel::unpack_spec(accounts[6].data@)->Ok_0.initializer_pubkey
        != accounts[4].id@ {
        Err(EscrowError::InvalidAccountData)
    } else if EscrowModel::unpack_spec(accounts[6].data@)->Ok_0.initializer_token_to_receive_account_pubkey
        != accounts[5].id@ {
        Err(EscrowError::InvalidAccountData)
    } else if accounts.len() < 9 {
        Err(EscrowError::NotEnoughAccountKeys)
    } else {
        Ok(())
    }
}

/// The storage-fee floor the oracle computes for the escrow-record
/// account's current storage size under the given fee parameters.
pub open spec fn escrow_rent_floor(accounts: Seq<AccountView>, params: RentParams) -> Option<u64> {
    rent_floor_of(
        params.lamports_per_byte,
        params.exemption_threshold@,
        params.burn_percent,
        accounts[3].data@.len() as int,
    )
}

/// The floor Initialize works with: the oracle's answer where the threshold
/// encoding is one the oracle validates, and no floor at all otherwise —
/// parameters the oracle cannot be asked about never establish exemption.
pub open spec fn oracle_floor(accounts: Seq<AccountView>, params: RentParams) -> Option<u64> {
    if threshold_encoding_valid(params.exemption_threshold@) {
        escrow_rent_floor(accounts, params)
    } else {
        None
    }
}

/// The effects of an accepted Initialize: the packed new record, the escrow
/// account's unchanged balance, and one action delegating the custody
/// account to the derived authority `pda`.
pub open spec fn init_success_effects(
    e: Effects,
    accounts: Seq<AccountView>,
    amount: u64,
    pda: Seq<u8>,
) -> bool {
    &&& e.escrow_data@ == init_record_model(accounts, amount).pack_spec()
    &&& e.escrow_lamports == accounts[3].lamports
    &&& e.initializer_main_lamports is None
    &&& e.actions@.len() == 1
    &&& (e.actions@[0] matches TokenAction::SetAuthority {
        account,
        new_authority,
        current_authority,
    } && account@ == accounts[1].id@ && new_authority@ == pda && current_authority@ == accounts[0].id@)
}

/// The effects of an accepted Exchange: pay the initializer's receive
/// account from the taker's sending account, drain the custody account to
/// the taker's receive account, close the custody account to the
/// initializer's main account — all authorized as spec'd — and destroy the
/// record while moving its deposit to the initializer's main account.
pub open spec fn exchange_success_effects(
    e: Effects,
    accounts: Seq<AccountView>,
    custody_balance: u64,
    pda: Seq<u8>,
) -> bool {
    let record = EscrowModel::unpack_spec(accounts[6].data@)->Ok_0;
    &&& e.actions@.len() == 3
    &&& (e.actions@[0] matches TokenAction::Transfer { source, destination, authority, amount }
        && source@ == accounts[1].id@ && destination@ == accounts[5].id@ && authority@
        == accounts[0].id@ && amount == record.expected_amount)
    &&& (e.actions@[1] matches TokenAction::Transfer { source, destination, authority, amount }
        && source@ == accounts[3].id@ && destination@ == accounts[2].id@ && authority@ == pda
        && amount == custody_balance)
    &&& (e.actions@[2] matches TokenAction::CloseAccount { account, destination, authority }
        && account@ == accounts[3].id@ && destination@ == accounts[4].id@ && authority@ == pda)
    &&& e.escrow_data@.len() == 0
    &&& e.escrow_lamports == 0
    &&& e.initializer_main_lamports == Some((accounts[4].lamports + accounts[6].lamports) as u64)
}

/// The effects of an accepted Bid: no token action at all, only the record
/// written back with its best bid advanced to the strictly higher offer.
pub open spec fn bid_success_effects(
    e: Effects,
    accounts: Seq<AccountView>,
    bid_amount: u64,
) -> bool {
    let record = EscrowModel::unpack_spec(accounts[6].data@)->Ok_0;
    &&& e.escrow_data@ == EscrowModel { highest_bid: bid_amount, ..record }.pack_spec()
    &&& EscrowModel::unpack_spec(e.escrow_data@) == Ok::<EscrowModel, EscrowError>(
        EscrowModel { highest_bid: bid_amount, ..record },
    )
    &&& bid_amount > record.highest_bid
    &&& e.actions@.len() == 0
    &&& e.escrow_lamports == accounts[6].lamports
    &&& e.initializer_main_lamports is None
}

/// The escrow program.
pub struct Processor;

impl Processor {
    /// Opens an escrow once the custody balance's storage-fee floor is
    /// known: writes the new record and asks the token program to hand the
    /// custody account to the derived authority `pda`.
    ///
    /// The decision is exactly `init_error`; on success the effects are the
    /// packed new record, the escrow account's unchanged balance, and one
    /// `SetAuthority` action delegating the custody account.
    pub fn init_escrow_checked(
        accounts: &Vec<AccountView>,
        amount: u64,
        min_balance: Option<u64>,
        pda: &AccountId,
    ) -> (r: Result<Effects, EscrowError>)
        requires
            forall|i: int| 0 <= i < accounts@.len() ==> (#[trigger] accounts@[i]).wf(),
        ensures
            r matches Err(e) ==> init_error(accounts@, amount, min_balance) == Err::<
                (),
                EscrowError,
            >(e),
            r is Ok ==> init_error(accounts@, amount, min_balance) == Ok::<(), EscrowError>(()),
            r matches Ok(e) ==> init_success_effects(e, accounts@, amount, pda@),
    {
        let initializer = bind_account(accounts, 0)?;
        if !initializer.is_signer {
            return Err(EscrowError::MissingRequiredSignature);
        }
        let temp_token_account = bind_account(accounts, 1)?;
        let token_to_receive_account = bind_account(accounts, 2)?;
        let expected_owner = token_program_id();
        if !token_to_receive_account.owner.eq_id(&expected_owner) {
            return Err(EscrowError::IncorrectProgramId);
        }
        let escrow_account = bind_account(accounts, 3)?;
        let fee_oracle = bind_account(accounts, 4)?;
        let expected_oracle = rent_oracle_id();
        if !fee_oracle.id.eq_id(&expected_oracle) {
            return Err(EscrowError::IncorrectProgramId);
        }
        let exempt = match min_balance {
            Some(m) => escrow_account.lamports >= m,
            None => false,
        };
        if !exempt {
            return Err(EscrowError::NotRentExempt);
        }
        let escrow_info = Escrow::unpack_unchecked(escrow_account.data.as_slice())?;
        if escrow_info.is_initialized {
            return Err(EscrowError::AccountAlreadyInitialized);
        }
        let _token_program = bind_account(accounts, 5)?;
        let record = Escrow {
            is_initialized: true,
            initializer_pubkey: initializer.id.duplicate(),
            temp_token_account_pubkey: temp_token_account.id.duplicate(),
            initializer_token_to_receive_account_pubkey: token_to_receive_account.id.duplicate(),
            expected_amount: amount,
            highest_bid: 0,
        };
        let escrow_data = record.pack();
        let mut actions: Vec<TokenAction> = Vec::new();
        actions.push(
            TokenAction::SetAuthority {
                account: temp_token_account.id.duplicate(),
                new_authority: pda.duplicate(),
                current_authority: initializer.id.duplicate(),
            },
        );
        Ok(
            Effects {
                actions,
                escrow_data,
                escrow_lamports: escrow_account.lamports,
                initializer_main_lamports: None,
            },
        )
    }

    /// Opens an escrow: checks the account schema, the storage-fee floor
    /// from the supplied fee-oracle parameters and the record's freshness,
    /// then delegates custody to the derived authority.  Once the authority
    /// exists, the result is exactly what `init_error` decides for the
    /// oracle's floor: every acceptance owed, every rejection pinned.
    pub fn process_init_escrow(
        accounts: &Vec<AccountView>,
        amount: u64,
        program_id: &AccountId,
        params: &RentParams,
    ) -> (r: Result<Effects, EscrowError>)
        requires
            program_id.wf(),
            params.wf(),
            forall|i: int| 0 <= i < accounts@.len() ==> (#[trigger] accounts@[i]).wf(),
        ensures
            r matches Ok(e) ==> custody_authority_of(program_id@) is Some && init_success_effects(
                e,
                accounts@,
                amount,
                custody_authority_of(program_id@)->0,
            ),
            r is Ok ==> init_error(accounts@, amount, oracle_floor(accounts@, *params)) == Ok::<
                (),
                EscrowError,
            >(()),
            custody_authority_of(program_id@) is Some && init_error(
                accounts@,
                amount,
                oracle_floor(accounts@, *params),
            ) == Ok::<(), EscrowError>(()) ==> r is Ok,
            r matches Err(e) ==> (custody_authority_of(program_id@) is Some ==> init_error(
                accounts@,
                amount,
                oracle_floor(accounts@, *params),
            ) == Err::<(), EscrowError>(e)),
            accounts@.len() == 0 ==> r == Err::<Effects, EscrowError>(
                EscrowError::NotEnoughAccountKeys,
            ),
            accounts@.len() >= 1 && !accounts@[0].is_signer ==> r == Err::<Effects, EscrowError>(
                EscrowError::MissingRequiredSignature,
            ),
            accounts@.len() >= 1 && accounts@[0].is_signer && custody_authority_of(program_id@)
                is None ==> r == Err::<Effects, EscrowError>(EscrowError::AuthorityUnavailable),
    {
        let initializer = bind_account(accounts, 0)?;
        if !initializer.is_signer {
            return Err(EscrowError::MissingRequiredSignature);
        }
        let pda = match derive_custody_authority(program_id) {
            Some(pda) => pda,
            None => {
                return Err(EscrowError::AuthorityUnavailable);
            },
        };
        let min_balance = match bind_account(accounts, 3) {
            Ok(escrow_account) => {
                if threshold_encoding_supported(params) {
                    rent_minimum_balance(params, escrow_account.data.len())
                } else {
                    None
                }
            },
            Err(_) => None,
        };
        Self::init_escrow_checked(accounts, amount, min_balance, &pda)
    }

    /// Completes a swap for a known custody balance.
    ///
    /// The decision is exactly `exchange_error`: the swap succeeds if and
    /// only if the taker signed, the custody balance equals the declared
    /// `amount`, the record is open with `amount` strictly above its best
    /// bid, all three stored identities match the bound accounts, the full
    /// schema is present and the deposit return does not overflow — each
    /// violation failing with its own error and no effects at all.  On
    /// success the effects pay the initializer, drain the custody account to
    /// the taker, close the custody account, and destroy the record while
    /// moving its deposit to the initializer's main account.  What applying
    /// those actions settles to is proved in
    /// `crate::ledger::lemma_exchange_settlement`.
    pub fn exchange_with_custody_balance(
        accounts: &Vec<AccountView>,
        amount: u64,
        custody_balance: u64,
        pda: &AccountId,
    ) -> (r: Result<Effects, EscrowError>)
        ensures
            r matches Err(e) ==> exchange_error(accounts@, amount, custody_balance) == Err::<
                (),
                EscrowError,
            >(e),
            r is Ok ==> exchange_error(accounts@, amount, custody_balance) == Ok::<
                (),
                EscrowError,
            >(()),
            r matches Ok(e) ==> exchange_success_effects(e, accounts@, custody_balance, pda@),
    {
        let taker = bind_account(accounts, 0)?;
        if !taker.is_signer {
            return Err(EscrowError::MissingRequiredSignature);
        }
        let takers_sending_token_account = bind_account(accounts, 1)?;
        let takers_token_to_receive_account = bind_account(accounts, 2)?;
        let pdas_temp_token_account = bind_account(accounts, 3)?;
        if amount != custody_balance {
            return Err(EscrowError::ExpectedAmountMismatch);
        }
        let initializers_main_account = bind_account(accounts, 4)?;
        let initializers_token_to_receive_account = bind_account(accounts, 5)?;
        let escrow_account = bind_account(accounts, 6)?;
        let escrow_info = Escrow::unpack(escrow_account.data.as_slice())?;
        if amount <= escrow_info.highest_bid {
            return Err(EscrowError::BidTooLow);
        }
        if !escrow_info.temp_token_account_pubkey.eq_id(&pdas_temp_token_account.id) {
            return Err(EscrowError::InvalidAccountData);
        }
        if !escrow_info.initializer_pubkey.eq_id(&initializers_main_account.id) {
            return Err(EscrowError::InvalidAccountData);
        }
        if !escrow_info.initializer_token_to_receive_account_pubkey.eq_id(
            &initializers_token_to_receive_account.id,
        ) {
            return Err(EscrowError::InvalidAccountData);
        }
        let _token_program = bind_account(accounts, 7)?;
        let _pda_account = bind_account(accounts, 8)?;
        if initializers_main_account.lamports > u64::MAX - escrow_account.lamports {
            return Err(EscrowError::AmountOverflow);
        }
        let mut actions: Vec<TokenAction> = Vec::new();
        actions.push(
            TokenAction::Transfer {
                source: takers_sending_token_account.id.duplicate(),
                destination: initializers_token_to_receive_account.id.duplicate(),
                authority: taker.id.duplicate(),
                amount: escrow_info.expected_amount,
            },
        );
        actions.push(
            TokenAction::Transfer {
                source: pdas_temp_token_account.id.duplicate(),
                destination: takers_token_to_receive_account.id.duplicate(),
                authority: pda.duplicate(),
                amount: custody_balance,
            },
        );
        actions.push(
            TokenAction::CloseAccount {
                account: pdas_temp_token_account.id.duplicate(),
                destination: initializers_main_account.id.duplicate(),
                authority: pda.duplicate(),
            },
        );
        Ok(
            Effects {
                actions,
                escrow_data: Vec::new(),
                escrow_lamports: 0,
                initializer_main_lamports: Some(
                    initializers_main_account.lamports + escrow_account.lamports,
                ),
            },
        )
    }

    /// Completes a swap: reads the custody account's balance through the
    /// external token interface, derives the custody authority, and settles
    /// as `exchange_with_custody_balance` decides.
    pub fn process_exchange(
        accounts: &Vec<AccountView>,
        amount: u64,
        program_id: &AccountId,
    ) -> (r: Result<Effects, EscrowError>)
        requires
            program_id.wf(),
        ensures
            accounts@.len() == 0 ==> r == Err::<Effects, EscrowError>(
                EscrowError::NotEnoughAccountKeys,
            ),
            accounts@.len() >= 1 && !accounts@[0].is_signer ==> r == Err::<Effects, EscrowError>(
                EscrowError::MissingRequiredSignature,
            ),
            accounts@.len() >= 1 && accounts@[0].is_signer && 1 <= accounts@.len() < 4 ==> r
                == Err::<Effects, EscrowError>(EscrowError::NotEnoughAccountKeys),
            accounts@.len() >= 4 && accounts@[0].is_signer && !token_account_valid(
                accounts@[3].data@,
            ) ==> r == Err::<Effects, EscrowError>(EscrowError::InvalidAccountData),
            accounts@.len() >= 4 && accounts@[0].is_signer && token_account_valid(
                accounts@[3].data@,
            ) && custody_authority_of(program_id@) is None ==> r == Err::<Effects, EscrowError>(
                EscrowError::AuthorityUnavailable,
            ),
            r matches Err(e) ==> (token_account_valid(accounts@[3].data@)
                && custody_authority_of(program_id@) is Some ==> exchange_error(
                accounts@,
                amount,
                token_amount_of(accounts@[3].data@),
            ) == Err::<(), EscrowError>(e)),
            token_account_valid(accounts@[3].data@) && custody_authority_of(program_id@) is Some
                && exchange_error(accounts@, amount, token_amount_of(accounts@[3].data@)) == Ok::<
                (),
                EscrowError,
            >(()) ==> r is Ok,
            r is Ok ==> custody_authority_of(program_id@) is Some,
            r matches Ok(e) ==> exchange_error(
                accounts@,
                amount,
                token_amount_of(accounts@[3].data@),
            ) == Ok::<(), EscrowError>(()),
            r matches Ok(e) ==> exchange_success_effects(
                e,
                accounts@,
                token_amount_of(accounts@[3].data@),
                custody_authority_of(program_id@)->0,
            ),
    {
        let taker = bind_account(accounts, 0)?;
        if !taker.is_signer {
            return Err(EscrowError::MissingRequiredSignature);
        }
        let _takers_sending_token_account = bind_account(accounts, 1)?;
        let _takers_token_to_receive_account = bind_account(accounts, 2)?;
        let pdas_temp_token_account = bind_account(accounts, 3)?;
        let custody_balance = unpack_token_amount(&pdas_temp_token_account.data)?;
        let pda = match derive_custody_authority(program_id) {
            Some(pda) => pda,
            None => {
                return Err(EscrowError::AuthorityUnavailable);
            },
        };
        Self::exchange_with_custody_balance(accounts, amount, custody_balance, &pda)
    }

    /// Evaluates a competing offer for a known custody balance.
    ///
    /// The decision is exactly `bid_error`.  A bid records state and defers
    /// every transfer to a later Exchange: on success the only effect is the
    /// updated record, whose `highest_bid` becomes `bid_amount` — persisted
    /// before the call returns, so that all later Bid and Exchange calls
    /// compare against it.  An offer not strictly above the recorded best
    /// fails with `BidTooLow` and changes nothing.
    pub fn bid_with_custody_balance(
        accounts: &Vec<AccountView>,
        amount: u64,
        bid_amount: u64,
        custody_balance: u64,
    ) -> (r: Result<Effects, EscrowError>)
        ensures
            r matches Err(e) ==> bid_error(accounts@, amount, bid_amount, custody_balance) == Err::<
                (),
                EscrowError,
            >(e),
            r is Ok ==> bid_error(accounts@, amount, bid_amount, custody_balance) == Ok::<
                (),
                EscrowError,
            >(()),
            r matches Ok(e) ==> bid_success_effects(e, accounts@, bid_amount),
    {
        let taker = bind_account(accounts, 0)?;
        if !taker.is_signer {
            return Err(EscrowError::MissingRequiredSignature);
        }
        let _takers_sending_token_account = bind_account(accounts, 1)?;
        let _takers_token_to_receive_account = bind_account(accounts, 2)?;
        let pdas_temp_token_account = bind_account(accounts, 3)?;
        if amount != custody_balance {
            return Err(EscrowError::ExpectedAmountMismatch);
        }
        let initializers_main_account = bind_account(accounts, 4)?;
        let initializers_token_to_receive_account = bind_account(accounts, 5)?;
        let escrow_account = bind_account(accounts, 6)?;
        let escrow_info = Escrow::unpack(escrow_account.data.as_slice())?;
        if bid_amount <= escrow_info.highest_bid {
            return Err(EscrowError::BidTooLow);
        }
        if !escrow_info.temp_token_account_pubkey.eq_id(&pdas_temp_token_account.id) {
            return Err(EscrowError::InvalidAccountData);
        }
        if !escrow_info.initializer_pubkey.eq_id(&initializers_main_account.id) {
            return Err(EscrowError::InvalidAccountData);
        }
        if !escrow_info.initializer_token_to_receive_account_pubkey.eq_id(
            &initializers_token_to_receive_account.id,
        ) {
            return Err(EscrowError::InvalidAccountData);
        }
        let _token_program = bind_account(accounts, 7)?;
        let _pda_account = bind_account(accounts, 8)?;
        let updated = Escrow { highest_bid: bid_amount, ..escrow_info };
        let escrow_data = updated.pack();
        proof {
            crate::state::lemma_record_round_trip(updated@);
        }
        Ok(
            Effects {
                actions: Vec::new(),
                escrow_data,
                escrow_lamports: escrow_account.lamports,
                initializer_main_lamports: None,
            },
        )
    }

    /// Evaluates a competing offer: reads the custody account's balance
    /// through the external token interface, then records the new best bid
    /// as `bid_with_custody_balance` decides.
    pub fn process_bid(accounts: &Vec<AccountView>, amount: u64, bid_amount: u64) -> (r: Result<
        Effects,
        EscrowError,
    >)
        ensures
            accounts@.len() == 0 ==> r == Err::<Effects, EscrowError>(
                EscrowError::NotEnoughAccountKeys,
            ),
            accounts@.len() >= 1 && !accounts@[0].is_signer ==> r == Err::<Effects, EscrowError>(
                EscrowError::MissingRequiredSignature,
            ),
            accounts@.len() >= 1 && accounts@[0].is_signer && 1 <= accounts@.len() < 4 ==> r
                == Err::<Effects, EscrowError>(EscrowError::NotEnoughAccountKeys),
            accounts@.len() >= 4 && accounts@[0].is_signer && !token_account_valid(
                accounts@[3].data@,
            ) ==> r == Err::<Effects, EscrowError>(EscrowError::InvalidAccountData),
            r matches Err(e) ==> (token_account_valid(accounts@[3].data@) ==> bid_error(
                accounts@,
                amount,
                bid_amount,
                token_amount_of(accounts@[3].data@),
            ) == Err::<(), EscrowError>(e)),
            token_account_valid(accounts@[3].data@) && bid_error(
                accounts@,
                amount,
                bid_amount,
                token_amount_of(accounts@[3].data@),
            ) == Ok::<(), EscrowError>(()) ==> r is Ok,
            r matches Ok(e) ==> bid_error(
                accounts@,
                amount,
                bid_amount,
                token_amount_of(accounts@[3].data@),
            ) == Ok::<(), EscrowError>(()),
            r matches Ok(e) ==> bid_success_effects(e, accounts@, bid_amount),
    {
        let taker = bind_account(accounts, 0)?;
        if !taker.is_signer {
            return Err(EscrowError::MissingRequiredSignature);
        }
        let _takers_sending_token_account = bind_account(accounts, 1)?;
        let _takers_token_to_receive_account = bind_account(accounts, 2)?;
        let pdas_temp_token_account = bind_account(accounts, 3)?;
        let custody_balance = unpack_token_amount(&pdas_temp_token_account.data)?;
        Self::bid_with_custody_balance(accounts, amount, bid_amount, custody_balance)
    }

    /// Decodes an operation and routes it to its handler; the dispatch is
    /// exhaustive over the closed set of operations, a decode failure is
    /// returned as it is, and each decoded operation that its handler's
    /// decision cascade accepts is owed success.
    pub fn process(
        program_id: &AccountId,
        accounts: &Vec<AccountView>,
        instruction_data: &[u8],
        params: &RentParams,
    ) -> (r: Result<Effects, EscrowError>)
        requires
            program_id.wf(),
            params.wf(),
            forall|i: int| 0 <= i < accounts@.len() ==> (#[trigger] accounts@[i]).wf(),
        ensures
            EscrowInstruction::unpack_spec(instruction_data@) matches Err(e) ==> r == Err::<
                Effects,
                EscrowError,
            >(e),
            r is Ok ==> EscrowInstruction::unpack_spec(instruction_data@) is Ok,
            EscrowInstruction::unpack_spec(instruction_data@) is Ok && accounts@.len() == 0 ==> r
                == Err::<Effects, EscrowError>(EscrowError::NotEnoughAccountKeys),
            EscrowInstruction::unpack_spec(instruction_data@) is Ok && accounts@.len() >= 1
                && !accounts@[0].is_signer ==> r == Err::<Effects, EscrowError>(
                EscrowError::MissingRequiredSignature,
            ),
            EscrowInstruction::unpack_spec(instruction_data@) matches Ok(
                EscrowInstruction::InitializeEscrow { amount },
            ) && custody_authority_of(program_id@) is Some && init_error(
                accounts@,
                amount,
                oracle_floor(accounts@, *params),
            ) == Ok::<(), EscrowError>(()) ==> r is Ok,
            EscrowInstruction::unpack_spec(instruction_data@) matches Ok(
                EscrowInstruction::Exchange { amount },
            ) && token_account_valid(accounts@[3].data@) && custody_authority_of(program_id@)
                is Some && exchange_error(accounts@, amount, token_amount_of(accounts@[3].data@))
                == Ok::<(), EscrowError>(()) ==> r is Ok,
            EscrowInstruction::unpack_spec(instruction_data@) matches Ok(
                EscrowInstruction::Bid { amount, bid_amount },
            ) && token_account_valid(accounts@[3].data@) && bid_error(
                accounts@,
                amount,
                bid_amount,
                token_amount_of(accounts@[3].data@),
            ) == Ok::<(), EscrowError>(()) ==> r is Ok,
            EscrowInstruction::unpack_spec(instruction_data@) matches Ok(
                EscrowInstruction::InitializeEscrow { amount },
            ) ==> (r matches Ok(eff) ==> custody_authority_of(program_id@) is Some
                && init_success_effects(
                eff,
                accounts@,
                amount,
                custody_authority_of(program_id@)->0,
            )),
            EscrowInstruction::unpack_spec(instruction_data@) matches Ok(
                EscrowInstruction::Exchange { amount },
            ) ==> (r matches Ok(eff) ==> exchange_error(
                accounts@,
                amount,
                token_amount_of(accounts@[3].data@),
            ) == Ok::<(), EscrowError>(()) && exchange_success_effects(
                eff,
                accounts@,
                token_amount_of(accounts@[3].data@),
                custody_authority_of(program_id@)->0,
            )),
            EscrowInstruction::unpack_spec(instruction_data@) matches Ok(
                EscrowInstruction::Bid { amount, bid_amount },
            ) ==> (r matches Ok(eff) ==> bid_error(
                accounts@,
                amount,
                bid_amount,
                token_amount_of(accounts@[3].data@),
            ) == Ok::<(), EscrowError>(()) && bid_success_effects(eff, accounts@, bid_amount)),
    {
        let instruction = EscrowInstruction::unpack(instruction_data)?;
        match instruction {
            EscrowInstruction::InitializeEscrow { amount } => Self::process_init_escrow(
                accounts,
                amount,
                program_id,
                params,
            ),
            EscrowInstruction::Exchange { amount } => Self::process_exchange(
                accounts,
                amount,
                program_id,
            ),
            EscrowInstruction::Bid { amount, bid_amount } => Self::process_bid(
                accounts,
                amount,
                bid_amount,
            ),
        }
    }
}

/// Initialize is idempotent-rejecting: once an Initialize has succeeded and
/// its record is stored, a second Initialize against the same escrow-record
/// account — same signer flag, same receive-account owner, same balance and
/// same fee floor, any amount whatsoever — always fails with
/// `AccountAlreadyInitialized`.
pub proof fn lemma_initialize_rejects_reinit(
    accounts: Seq<AccountView>,
    amount: u64,
    min_balance: Option<u64>,
    accounts2: Seq<AccountView>,
    amount2: u64,
)
    requires
        init_error(accounts, amount, min_balance) == Ok::<(), EscrowError>(()),
        accounts[0].id@.len() == 32,
        accounts[1].id@.len() == 32,
        accounts[2].id@.len() == 32,
        accounts2.len() == accounts.len(),
        accounts2[0].is_signer == accounts[0].is_signer,
        accounts2[2].owner@ == accounts[2].owner@,
        accounts2[3].lamports == accounts[3].lamports,
        accounts2[3].data@ == init_record_model(accounts, amount).pack_spec(),
        accounts2[4].id@ == accounts[4].id@,
    ensures
        init_error(accounts2, amount2, min_balance) == Err::<(), EscrowError>(
            EscrowError::AccountAlreadyInitialized,
        ),
{
    crate::state::lemma_record_round_trip(init_record_model(accounts, amount));
}

/// Exchange succeeds exactly when the custody balance equals the declared
/// amount, the record is open, the declared amount strictly exceeds the
/// recorded best bid, all three stored identities match the bound accounts,
/// the full nine-account schema with a signing taker is present, and the
/// deposit return does not overflow.
pub proof fn lemma_exchange_success_iff(accounts: Seq<AccountView>, amount: u64, balance: u64)
    ensures
        exchange_error(accounts, amount, balance) is Ok <==> {
            let rec = EscrowModel::unpack_spec(accounts[6].data@);
            &&& accounts.len() >= 9
            &&& accounts[0].is_signer
            &&& amount == balance
            &&& rec matches Ok(m)
            &&& m.is_initialized
            &&& amount > m.highest_bid
            &&& m.temp_token_account_pubkey == accounts[3].id@
            &&& m.initializer_pubkey == accounts[4].id@
            &&& m.initializer_token_to_receive_account_pubkey == accounts[5].id@
            &&& accounts[4].lamports + accounts[6].lamports <= u64::MAX
        },
{
}

} // verus!

