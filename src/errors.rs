//! The ways in which applying a record can fail.
use crate::amount::Amount;
use crate::{ClientID, TransactionID};
use vstd::prelude::*;

verus! {

/// Why a record was rejected. A rejected record leaves the ledger as it was,
/// except for the lock that a chargeback sets before its balance check.
#[derive(Debug, PartialEq)]
pub enum Error {
    CSVRowReadFailure(String),
    CSVRowWriteFailure(String),
    ClientLocked(ClientID),
    ClientNotExist(ClientID),
    ClientCannotWithdrawl { id: ClientID, amount: Amount, available: Amount },
    ClientCannotDispute { id: ClientID, amount: Amount, available: Amount },
    ClientCannotResolve { id: ClientID, amount: Amount, held: Amount },
    ClientCannotChargeBack { id: ClientID, amount: Amount, held: Amount },
    /// The exact new balance of the client is outside the range of an amount.
    AmountOutOfRange(ClientID),
    TransactionIdAlreadyExists(TransactionID),
    TransactionNotExists(TransactionID),
    TransactionWithWrongClientId(TransactionID, ClientID),
    DepositTransactionMissingAmount(TransactionID),
    WithdrawalTransactionMissingAmount(TransactionID),
    DisputeAlreadyDisputedTransaction(TransactionID),
    DisputeNonDepositTransaction(TransactionID),
    ResolveNonDisputedTransaction(TransactionID),
    ChargeBackNonDisputedTransaction(TransactionID),
}

} // verus!
