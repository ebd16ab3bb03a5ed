//! The transaction log: one entry per transaction id, never removed.
use crate::amount::Amount;
use crate::errors::Error;
use crate::{ClientID, TransactionID};
use std::collections::hash_map::Entry;
use std::collections::HashMap;
use vstd::prelude::*;

verus! {

broadcast use vstd::std_specs::hash::group_hash_axioms;

/// The two kinds of transaction that the log keeps.
#[derive(Clone, Copy, PartialEq, Eq, Structural, Debug)]
pub enum Kind {
    Deposit,
    Withdrawal,
}

/// A logged deposit or withdrawal. Only `disputed` changes after it is logged.
#[derive(Clone, Copy, Debug)]
pub struct Transaction {
    pub kind: Kind,
    pub client_id: ClientID,
    pub amount: Amount,
    pub disputed: bool,
}

/// What looking up `id` on behalf of `client_id` fails with, if anything.
pub open spec fn lookup_error(
    log: Map<TransactionID, Transaction>,
    id: TransactionID,
    client_id: ClientID,
) -> Option<Error> {
    if !log.contains_key(id) {
        Some(Error::TransactionNotExists(id))
    } else if log[id].client_id != client_id {
        Some(Error::TransactionWithWrongClientId(id, client_id))
    } else {
        None
    }
}

/// One entry per transaction id.
pub struct Transactions {
    database: HashMap<TransactionID, Transaction>,
}

impl View for Transactions {
    type V = Map<TransactionID, Transaction>;

    closed spec fn view(&self) -> Map<TransactionID, Transaction> {
        self.database@
    }
}

impl Default for Transactions {
    fn default() -> (r: Transactions)
        ensures
            r@ == Map::<TransactionID, Transaction>::empty(),
    {
        Transactions::new()
    }
}

impl Transactions {
    /// An empty log.
    pub fn new() -> (r: Transactions)
        ensures
            r@ == Map::<TransactionID, Transaction>::empty(),
    {
        Transactions { database: HashMap::new() }
    }

    /// The number of logged transactions.
    pub fn len(&self) -> (r: usize)
        ensures
            r == self@.len(),
    {
        self.database.len()
    }

    /// Whether `transaction_id` is logged.
    pub fn has_id(&self, transaction_id: TransactionID) -> (r: bool)
        ensures
            r == self@.contains_key(transaction_id),
    {
        self.database.contains_key(&transaction_id)
    }

    /// The entry of `transaction_id`, if it is logged.
    pub fn get(&self, transaction_id: TransactionID) -> (r: Option<&Transaction>)
        ensures
            match r {
                Some(t) => self@.contains_key(transaction_id) && *t == self@[transaction_id],
                None => !self@.contains_key(transaction_id),
            },
    {
        self.database.get(&transaction_id)
    }

    /// Logs `transaction` under a new id. An id that is already logged is
    /// refused and its entry kept as it was.
    pub fn save_new_transaction(
        &mut self,
        transaction_id: TransactionID,
        transaction: Transaction,
    ) -> (r: Result<(), Error>)
        ensures
            old(self)@.contains_key(transaction_id) ==> r == Err::<(), Error>(
                Error::TransactionIdAlreadyExists(transaction_id),
            ) && final(self)@ == old(self)@,
            !old(self)@.contains_key(transaction_id) ==> r == Ok::<(), Error>(()) && final(self)@ == old(self)@.insert(
                transaction_id,
                transaction,
            ),
    {
        if self.database.contains_key(&transaction_id) {
            return Err(Error::TransactionIdAlreadyExists(transaction_id));
        }
        self.database.insert(transaction_id, transaction);
        Ok(())
    }

    /// The entry of `transaction_id`, open for change, where it belongs to
    /// `client_id`.
    pub fn get_mut_transaction(
        &mut self,
        transaction_id: TransactionID,
        client_id: ClientID,
    ) -> (r: Result<&mut Transaction, Error>)
        ensures
            match r {
                Ok(t) => {
                    &&& lookup_error(old(self)@, transaction_id, client_id) is None
                    &&& *t == old(self)@[transaction_id]
                    &&& final(self)@ == old(self)@.insert(transaction_id, *final(t))
                    &&& *final(t) == *t ==> final(self)@ == old(self)@
                },
                Err(e) => {
                    &&& lookup_error(old(self)@, transaction_id, client_id) == Some(e)
                    &&& final(self)@ == old(self)@
                },
            },
    {
        match self.database.entry(transaction_id) {
            Entry::Occupied(o) => {
                proof {
                    assert(old(self)@.insert(transaction_id, old(self)@[transaction_id]) =~= old(
                        self,
                    )@);
                }
                let t = o.into_mut();
                if t.client_id != client_id {
                    return Err(Error::TransactionWithWrongClientId(transaction_id, client_id));
                }
                Ok(t)
            },
            Entry::Vacant(_) => Err(Error::TransactionNotExists(transaction_id)),
        }
    }
}

} // verus!
