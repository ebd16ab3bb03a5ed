//! Properties of the engine that hold of every state and every record,
//! proved from the contracts of the engine's operations.
use crate::amount::Amount;
use crate::clients::account_of;
use crate::dtos::{TransactionRecord, TransactionType};
use crate::engine::{applied, outcome, LedgerView};
use crate::errors::Error;
use crate::transactions::{lookup_error, Kind};
use crate::ClientID;
use vstd::prelude::*;

verus! {

/// Whether `record` gets past the checks on its own fields and on the log,
/// so that the account store decides it.
pub open spec fn reaches_account(pre: LedgerView, record: TransactionRecord) -> bool {
    let id = record.transaction_id;
    match record.transaction_type {
        TransactionType::Deposit | TransactionType::Withdrawal => record.amount is Some
            && !pre.log.contains_key(id),
        TransactionType::Dispute => lookup_error(pre.log, id, record.client_id) is None
            && pre.log[id].kind == Kind::Deposit && !pre.log[id].disputed,
        TransactionType::Resolve | TransactionType::Chargeback => lookup_error(
            pre.log,
            id,
            record.client_id,
        ) is None && pre.log[id].disputed,
    }
}

/// Every account holds a non-negative available and a non-negative held
/// balance, whatever the state. (That its total is their exact sum is the
/// contract of `Client::total`.)
pub proof fn law_balances_nonnegative(s: LedgerView, id: ClientID)
    requires
        s.accounts.contains_key(id),
    ensures
        s.accounts[id].available_amount.value() >= 0,
        s.accounts[id].held_amount.value() >= 0,
{
    s.accounts[id].available_amount.lemma_value_nonnegative();
    s.accounts[id].held_amount.lemma_value_nonnegative();
}

/// A deposit or withdrawal under a transaction id that is already logged is
/// rejected, and neither the logged entry nor anything else changes.
pub proof fn law_duplicate_id_rejected(pre: LedgerView, record: TransactionRecord, post: LedgerView)
    requires
        record.transaction_type == TransactionType::Deposit || record.transaction_type
            == TransactionType::Withdrawal,
        record.amount is Some,
        pre.log.contains_key(record.transaction_id),
        applied(pre, record, post),
    ensures
        outcome(pre, record) == Err::<(), Error>(
            Error::TransactionIdAlreadyExists(record.transaction_id),
        ),
        post == pre,
{
}

/// A logged transaction stays logged, with its kind, client and amount,
/// whatever record comes next.
pub proof fn law_logged_entries_persist(
    pre: LedgerView,
    record: TransactionRecord,
    post: LedgerView,
    id: u32,
)
    requires
        pre.log.contains_key(id),
        applied(pre, record, post),
    ensures
        post.log.contains_key(id),
        post.log[id].kind == pre.log[id].kind,
        post.log[id].client_id == pre.log[id].client_id,
        post.log[id].amount == pre.log[id].amount,
{
}

/// A successful deposit raises the available funds of its client by exactly
/// its amount (strictly, for a positive amount) and leaves the held funds
/// as they were; the first deposit of a client opens its account with
/// exactly that amount available and nothing held.
pub proof fn law_deposit_credits(pre: LedgerView, record: TransactionRecord, post: LedgerView)
    requires
        record.transaction_type == TransactionType::Deposit,
        applied(pre, record, post),
        outcome(pre, record) is Ok,
    ensures
        record.amount is Some,
        post.accounts.contains_key(record.client_id),
        post.accounts[record.client_id].available_amount.value() == account_of(
            pre.accounts,
            record.client_id,
        ).available_amount.value() + record.amount->Some_0.value(),
        record.amount->Some_0.value() > 0 ==> post.accounts[record.client_id].available_amount.value()
            > account_of(pre.accounts, record.client_id).available_amount.value(),
        post.accounts[record.client_id].held_amount == account_of(
            pre.accounts,
            record.client_id,
        ).held_amount,
        !pre.accounts.contains_key(record.client_id) ==> {
            &&& post.accounts[record.client_id].available_amount.value()
                == record.amount->Some_0.value()
            &&& post.accounts[record.client_id].held_amount.value() == 0
            &&& !post.accounts[record.client_id].locked
        },
{
    Amount::lemma_zero();
}

/// Replaying a deposit that succeeded is rejected and changes nothing.
pub proof fn law_deposit_replay_rejected(
    s0: LedgerView,
    record: TransactionRecord,
    s1: LedgerView,
    s2: LedgerView,
)
    requires
        record.transaction_type == TransactionType::Deposit,
        applied(s0, record, s1),
        outcome(s0, record) is Ok,
        applied(s1, record, s2),
    ensures
        outcome(s1, record) == Err::<(), Error>(
            Error::TransactionIdAlreadyExists(record.transaction_id),
        ),
        s2 == s1,
{
}

/// A dispute followed by a resolve of the same transaction, both
/// successful, gives the account back its available and held funds exactly,
/// and the transaction is no longer disputed.
pub proof fn law_resolve_undoes_dispute(
    s0: LedgerView,
    dispute: TransactionRecord,
    s1: LedgerView,
    resolve: TransactionRecord,
    s2: LedgerView,
)
    requires
        dispute.transaction_type == TransactionType::Dispute,
        resolve.transaction_type == TransactionType::Resolve,
        resolve.client_id == dispute.client_id,
        resolve.transaction_id == dispute.transaction_id,
        applied(s0, dispute, s1),
        outcome(s0, dispute) is Ok,
        applied(s1, resolve, s2),
        outcome(s1, resolve) is Ok,
    ensures
        s2.accounts.contains_key(dispute.client_id),
        s2.accounts[dispute.client_id].available_amount.value()
            == s0.accounts[dispute.client_id].available_amount.value(),
        s2.accounts[dispute.client_id].held_amount.value()
            == s0.accounts[dispute.client_id].held_amount.value(),
        s2.accounts[dispute.client_id].locked == s0.accounts[dispute.client_id].locked,
        !s2.log[dispute.transaction_id].disputed,
{
}

/// A dispute followed by a chargeback of the same transaction, both
/// successful, takes the disputed amount out of the held funds, leaves the
/// available funds as the dispute left them, and locks the account.
pub proof fn law_chargeback_after_dispute(
    s0: LedgerView,
    dispute: TransactionRecord,
    s1: LedgerView,
    chargeback: TransactionRecord,
    s2: LedgerView,
)
    requires
        dispute.transaction_type == TransactionType::Dispute,
        chargeback.transaction_type == TransactionType::Chargeback,
        chargeback.client_id == dispute.client_id,
        chargeback.transaction_id == dispute.transaction_id,
        applied(s0, dispute, s1),
        outcome(s0, dispute) is Ok,
        applied(s1, chargeback, s2),
        outcome(s1, chargeback) is Ok,
    ensures
        s2.accounts.contains_key(dispute.client_id),
        s2.accounts[dispute.client_id].held_amount.value() == s1.accounts[dispute.client_id].held_amount.value()
            - s0.log[dispute.transaction_id].amount.value(),
        s2.accounts[dispute.client_id].held_amount.value()
            == s0.accounts[dispute.client_id].held_amount.value(),
        s2.accounts[dispute.client_id].available_amount
            == s1.accounts[dispute.client_id].available_amount,
        s2.accounts[dispute.client_id].locked,
{
}

/// A locked account stays locked with the same balances, and every record
/// for its client is rejected: with `ClientLocked` wherever the account
/// store decides it.
pub proof fn law_locked_account_frozen(
    pre: LedgerView,
    record: TransactionRecord,
    post: LedgerView,
)
    requires
        pre.accounts.contains_key(record.client_id),
        pre.accounts[record.client_id].locked,
        applied(pre, record, post),
    ensures
        outcome(pre, record) is Err,
        post == pre,
        reaches_account(pre, record) ==> outcome(pre, record) == Err::<(), Error>(
            Error::ClientLocked(record.client_id),
        ),
{
}

/// Every record leaves a locked account locked, with its balances.
pub proof fn law_lock_is_permanent(
    pre: LedgerView,
    record: TransactionRecord,
    post: LedgerView,
    id: ClientID,
)
    requires
        pre.accounts.contains_key(id),
        pre.accounts[id].locked,
        applied(pre, record, post),
    ensures
        post.accounts.contains_key(id),
        post.accounts[id] == pre.accounts[id],
{
}

/// A withdrawal of more than the available funds is rejected and changes
/// nothing.
pub proof fn law_overdraft_rejected(pre: LedgerView, record: TransactionRecord, post: LedgerView)
    requires
        record.transaction_type == TransactionType::Withdrawal,
        record.amount is Some,
        record.amount->Some_0.value() > account_of(pre.accounts, record.client_id).available_amount.value(),
        applied(pre, record, post),
    ensures
        outcome(pre, record) is Err,
        post == pre,
{
}

/// A dispute of a logged withdrawal is rejected whatever the balances, and
/// changes nothing.
pub proof fn law_withdrawal_not_disputable(
    pre: LedgerView,
    record: TransactionRecord,
    post: LedgerView,
)
    requires
        record.transaction_type == TransactionType::Dispute,
        pre.log.contains_key(record.transaction_id),
        pre.log[record.transaction_id].client_id == record.client_id,
        pre.log[record.transaction_id].kind == Kind::Withdrawal,
        applied(pre, record, post),
    ensures
        outcome(pre, record) == Err::<(), Error>(
            Error::DisputeNonDepositTransaction(record.transaction_id),
        ),
        post == pre,
{
}

} // verus!
