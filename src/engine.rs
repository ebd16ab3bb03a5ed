//! The engine: applies records one at a time to the account store and the
//! transaction log.
use crate::amount::Amount;
use crate::clients::{
    charged_back, chargeback_result, deposit_result, deposited, held,
    hold_result, release_result, released, withdrawal_result, withdrawn, Client, Clients,
};
use crate::dtos::{TransactionRecord, TransactionType};
use crate::errors::Error;
use crate::transactions::{lookup_error, Kind, Transaction, Transactions};
use crate::{ClientID, TransactionID};
use vstd::prelude::*;

verus! {

/// The state of a ledger: the accounts and the transaction log.
pub struct LedgerView {
    pub accounts: Map<ClientID, Client>,
    pub log: Map<TransactionID, Transaction>,
}

/// The entry that a successful deposit or withdrawal logs.
pub open spec fn logged(kind: Kind, record: TransactionRecord, amount: Amount) -> Transaction {
    Transaction { kind, client_id: record.client_id, amount, disputed: false }
}

/// `t` with its dispute flag set to `disputed`.
pub open spec fn with_disputed(t: Transaction, disputed: bool) -> Transaction {
    Transaction { kind: t.kind, client_id: t.client_id, amount: t.amount, disputed }
}

/// What a deposit record returns.
pub open spec fn deposit_outcome(pre: LedgerView, record: TransactionRecord) -> Result<(), Error> {
    match record.amount {
        None => Err(Error::DepositTransactionMissingAmount(record.transaction_id)),
        Some(amount) => if pre.log.contains_key(record.transaction_id) {
            Err(Error::TransactionIdAlreadyExists(record.transaction_id))
        } else {
            deposit_result(pre.accounts, record.client_id, amount)
        },
    }
}

/// What a withdrawal record returns.
pub open spec fn withdrawal_outcome(pre: LedgerView, record: TransactionRecord) -> Result<(), Error> {
    match record.amount {
        None => Err(Error::WithdrawalTransactionMissingAmount(record.transaction_id)),
        Some(amount) => if pre.log.contains_key(record.transaction_id) {
            Err(Error::TransactionIdAlreadyExists(record.transaction_id))
        } else {
            withdrawal_result(pre.accounts, record.client_id, amount)
        },
    }
}

/// What a dispute record returns.
pub open spec fn dispute_outcome(pre: LedgerView, record: TransactionRecord) -> Result<(), Error> {
    let id = record.transaction_id;
    match lookup_error(pre.log, id, record.client_id) {
        Some(e) => Err(e),
        None => if pre.log[id].kind != Kind::Deposit {
            Err(Error::DisputeNonDepositTransaction(id))
        } else if pre.log[id].disputed {
            Err(Error::DisputeAlreadyDisputedTransaction(id))
        } else {
            hold_result(pre.accounts, record.client_id, pre.log[id].amount)
        },
    }
}

/// What a resolve record returns.
pub open spec fn resolve_outcome(pre: LedgerView, record: TransactionRecord) -> Result<(), Error> {
    let id = record.transaction_id;
    match lookup_error(pre.log, id, record.client_id) {
        Some(e) => Err(e),
        None => if !pre.log[id].disputed {
            Err(Error::ResolveNonDisputedTransaction(id))
        } else {
            release_result(pre.accounts, record.client_id, pre.log[id].amount)
        },
    }
}

/// Whether a chargeback record reaches the account store.
pub open spec fn chargeback_reaches_account(pre: LedgerView, record: TransactionRecord) -> bool {
    lookup_error(pre.log, record.transaction_id, record.client_id) is None
        && pre.log[record.transaction_id].disputed
}

/// What a chargeback record returns.
pub open spec fn chargeback_outcome(pre: LedgerView, record: TransactionRecord) -> Result<(), Error> {
    let id = record.transaction_id;
    match lookup_error(pre.log, id, record.client_id) {
        Some(e) => Err(e),
        None => if !pre.log[id].disputed {
            Err(Error::ChargeBackNonDisputedTransaction(id))
        } else {
            chargeback_result(pre.accounts, record.client_id, pre.log[id].amount)
        },
    }
}

/// What applying `record` returns.
pub open spec fn outcome(pre: LedgerView, record: TransactionRecord) -> Result<(), Error> {
    match record.transaction_type {
        TransactionType::Deposit => deposit_outcome(pre, record),
        TransactionType::Withdrawal => withdrawal_outcome(pre, record),
        TransactionType::Dispute => dispute_outcome(pre, record),
        TransactionType::Resolve => resolve_outcome(pre, record),
        TransactionType::Chargeback => chargeback_outcome(pre, record),
    }
}

/// `post` is `pre` after a deposit record; a rejected one changes nothing.
pub open spec fn deposit_applied(pre: LedgerView, record: TransactionRecord, post: LedgerView) -> bool {
    if deposit_outcome(pre, record) is Ok {
        let amount = record.amount->Some_0;
        &&& deposited(pre.accounts, post.accounts, record.client_id, amount)
        &&& post.log == pre.log.insert(
            record.transaction_id,
            logged(Kind::Deposit, record, amount),
        )
    } else {
        post == pre
    }
}

/// `post` is `pre` after a withdrawal record; a rejected one changes nothing.
pub open spec fn withdrawal_applied(pre: LedgerView, record: TransactionRecord, post: LedgerView) -> bool {
    if withdrawal_outcome(pre, record) is Ok {
        let amount = record.amount->Some_0;
        &&& withdrawn(pre.accounts, post.accounts, record.client_id, amount)
        &&& post.log == pre.log.insert(
            record.transaction_id,
            logged(Kind::Withdrawal, record, amount),
        )
    } else {
        post == pre
    }
}

/// `post` is `pre` after a dispute record; a rejected one changes nothing.
pub open spec fn dispute_applied(pre: LedgerView, record: TransactionRecord, post: LedgerView) -> bool {
    if dispute_outcome(pre, record) is Ok {
        let t = pre.log[record.transaction_id];
        &&& held(pre.accounts, post.accounts, record.client_id, t.amount)
        &&& post.log == pre.log.insert(record.transaction_id, with_disputed(t, true))
    } else {
        post == pre
    }
}

/// `post` is `pre` after a resolve record; a rejected one changes nothing.
pub open spec fn resolve_applied(pre: LedgerView, record: TransactionRecord, post: LedgerView) -> bool {
    if resolve_outcome(pre, record) is Ok {
        let t = pre.log[record.transaction_id];
        &&& released(pre.accounts, post.accounts, record.client_id, t.amount)
        &&& post.log == pre.log.insert(record.transaction_id, with_disputed(t, false))
    } else {
        post == pre
    }
}

/// `post` is `pre` after a chargeback record. Once the record reaches the
/// account store the account is locked, whatever the store returns; the
/// transaction leaves dispute only on success.
pub open spec fn chargeback_applied(pre: LedgerView, record: TransactionRecord, post: LedgerView) -> bool {
    if chargeback_reaches_account(pre, record) {
        let t = pre.log[record.transaction_id];
        let r = chargeback_outcome(pre, record);
        &&& charged_back(pre.accounts, post.accounts, record.client_id, t.amount, r)
        &&& post.log == if r is Ok {
            pre.log.insert(record.transaction_id, with_disputed(t, false))
        } else {
            pre.log
        }
    } else {
        post == pre
    }
}

/// `post` is `pre` after applying `record`.
pub open spec fn applied(pre: LedgerView, record: TransactionRecord, post: LedgerView) -> bool {
    match record.transaction_type {
        TransactionType::Deposit => deposit_applied(pre, record, post),
        TransactionType::Withdrawal => withdrawal_applied(pre, record, post),
        TransactionType::Dispute => dispute_applied(pre, record, post),
        TransactionType::Resolve => resolve_applied(pre, record, post),
        TransactionType::Chargeback => chargeback_applied(pre, record, post),
    }
}

/// Owns the account store and the transaction log, and applies records to
/// them in order.
pub struct Engine {
    clients_store: Clients,
    transactions_store: Transactions,
}

impl View for Engine {
    type V = LedgerView;

    closed spec fn view(&self) -> LedgerView {
        LedgerView { accounts: self.clients_store@, log: self.transactions_store@ }
    }
}

impl Default for Engine {
    fn default() -> (r: Engine)
        ensures
            r@.accounts == Map::<ClientID, Client>::empty(),
            r@.log == Map::<TransactionID, Transaction>::empty(),
    {
        Engine::new()
    }
}

impl Engine {
    /// An engine with no account and an empty log.
    pub fn new() -> (r: Engine)
        ensures
            r@.accounts == Map::<ClientID, Client>::empty(),
            r@.log == Map::<TransactionID, Transaction>::empty(),
    {
        Engine { clients_store: Clients::new(), transactions_store: Transactions::new() }
    }

    /// The account store.
    pub fn clients(&self) -> (r: &Clients)
        ensures
            r@ == self@.accounts,
    {
        &self.clients_store
    }

    /// The transaction log.
    pub fn transactions(&self) -> (r: &Transactions)
        ensures
            r@ == self@.log,
    {
        &self.transactions_store
    }

    /// Every account with its client id, in ascending order of id.
    pub fn get_clients(&self) -> (r: Vec<(ClientID, Client)>)
        ensures
            forall|i: int|
                0 <= i < r.len() ==> self@.accounts.contains_key(#[trigger] r@[i].0)
                    && self@.accounts[r@[i].0] == r@[i].1,
            forall|i: int, j: int| 0 <= i < j < r.len() ==> r@[i].0 < r@[j].0,
            forall|k: ClientID| #[trigger]
                self@.accounts.contains_key(k) ==> exists|i: int| 0 <= i < r.len() && r@[i].0 == k,
    {
        self.clients_store.get_all()
    }

    /// Applies one record.
    pub fn handle(&mut self, record: &TransactionRecord) -> (r: Result<(), Error>)
        ensures
            r == outcome(old(self)@, *record),
            applied(old(self)@, *record, final(self)@),
    {
        match record.transaction_type {
            TransactionType::Deposit => self.process_deposit(record),
            TransactionType::Withdrawal => self.process_withdrawal(record),
            TransactionType::Dispute => self.process_dispute(record),
            TransactionType::Resolve => self.process_resolve(record),
            TransactionType::Chargeback => self.process_chargeback(record),
        }
    }

    /// Credits a deposit and logs it.
    pub fn process_deposit(&mut self, record: &TransactionRecord) -> (r: Result<(), Error>)
        requires
            record.transaction_type == TransactionType::Deposit,
        ensures
            r == deposit_outcome(old(self)@, *record),
            deposit_applied(old(self)@, *record, final(self)@),
    {
        let amount = match record.amount {
            Some(a) => a,
            None => return Err(Error::DepositTransactionMissingAmount(record.transaction_id)),
        };
        if self.transactions_store.has_id(record.transaction_id) {
            return Err(Error::TransactionIdAlreadyExists(record.transaction_id));
        }
        self.clients_store.deposit(record.client_id, amount)?;
        self.transactions_store.save_new_transaction(
            record.transaction_id,
            Transaction {
                kind: Kind::Deposit,
                client_id: record.client_id,
                amount,
                disputed: false,
            },
        )
    }

    /// Debits a withdrawal and logs it.
    pub fn process_withdrawal(&mut self, record: &TransactionRecord) -> (r: Result<(), Error>)
        requires
            record.transaction_type == TransactionType::Withdrawal,
        ensures
            r == withdrawal_outcome(old(self)@, *record),
            withdrawal_applied(old(self)@, *record, final(self)@),
    {
        let amount = match record.amount {
            Some(a) => a,
            None => return Err(Error::WithdrawalTransactionMissingAmount(record.transaction_id)),
        };
        if self.transactions_store.has_id(record.transaction_id) {
            return Err(Error::TransactionIdAlreadyExists(record.transaction_id));
        }
        self.clients_store.withdrawal(record.client_id, amount)?;
        self.transactions_store.save_new_transaction(
            record.transaction_id,
            Transaction {
                kind: Kind::Withdrawal,
                client_id: record.client_id,
                amount,
                disputed: false,
            },
        )
    }

    /// Holds the funds of a logged deposit of the client.
    pub fn process_dispute(&mut self, record: &TransactionRecord) -> (r: Result<(), Error>)
        requires
            record.transaction_type == TransactionType::Dispute,
        ensures
            r == dispute_outcome(old(self)@, *record),
            dispute_applied(old(self)@, *record, final(self)@),
    {
        let transaction = self.transactions_store.get_mut_transaction(
            record.transaction_id,
            record.client_id,
        )?;
        if transaction.kind != Kind::Deposit {
            return Err(Error::DisputeNonDepositTransaction(record.transaction_id));
        }
        if transaction.disputed {
            return Err(Error::DisputeAlreadyDisputedTransaction(record.transaction_id));
        }
        self.clients_store.move_to_held(record.client_id, transaction.amount)?;
        transaction.disputed = true;
        Ok(())
    }

    /// Releases the held funds of a disputed transaction.
    pub fn process_resolve(&mut self, record: &TransactionRecord) -> (r: Result<(), Error>)
        requires
            record.transaction_type == TransactionType::Resolve,
        ensures
            r == resolve_outcome(old(self)@, *record),
            resolve_applied(old(self)@, *record, final(self)@),
    {
        let transaction = self.transactions_store.get_mut_transaction(
            record.transaction_id,
            record.client_id,
        )?;
        if !transaction.disputed {
            return Err(Error::ResolveNonDisputedTransaction(record.transaction_id));
        }
        self.clients_store.move_to_available(record.client_id, transaction.amount)?;
        transaction.disputed = false;
        Ok(())
    }

    /// Takes the held funds of a disputed transaction out of the account and
    /// locks it. The transaction then reads as undisputed, as before its
    /// dispute: it is not marked as charged back. A later dispute of it is
    /// still rejected, by the lock on its account.
    pub fn process_chargeback(&mut self, record: &TransactionRecord) -> (r: Result<(), Error>)
        requires
            record.transaction_type == TransactionType::Chargeback,
        ensures
            r == chargeback_outcome(old(self)@, *record),
            chargeback_applied(old(self)@, *record, final(self)@),
    {
        let transaction = self.transactions_store.get_mut_transaction(
            record.transaction_id,
            record.client_id,
        )?;
        if !transaction.disputed {
            return Err(Error::ChargeBackNonDisputedTransaction(record.transaction_id));
        }
        self.clients_store.chargeback(record.client_id, transaction.amount)?;
        transaction.disputed = false;
        Ok(())
    }
}

} // verus!
