//! A decoded input record.
use crate::amount::Amount;
use crate::{ClientID, TransactionID};
use vstd::prelude::*;

verus! {

/// The kind of a record.
#[derive(Clone, Copy, PartialEq, Eq, Structural, Debug)]
pub enum TransactionType {
    Deposit,
    Withdrawal,
    Dispute,
    Resolve,
    Chargeback,
}

/// One record of the input stream. `amount` is present for deposits and
/// withdrawals, absent for the other kinds.
#[derive(Clone, Copy, Debug)]
pub struct TransactionRecord {
    pub transaction_type: TransactionType,
    pub client_id: ClientID,
    pub transaction_id: TransactionID,
    pub amount: Option<Amount>,
}

} // verus!
