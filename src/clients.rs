//! The account store: one account per client, changed only by the
//! operations below.
use crate::amount::Amount;
use crate::errors::Error;
use crate::ClientID;
use std::collections::HashMap;
use vstd::prelude::*;

verus! {

broadcast use vstd::std_specs::hash::group_hash_axioms;

/// The balances of one client.
#[derive(Clone, Copy, Debug)]
pub struct Client {
    /// Funds the client may withdraw or have held.
    pub available_amount: Amount,
    /// Funds frozen while a dispute is open.
    pub held_amount: Amount,
    /// Set by a chargeback; a locked account takes no further operation.
    pub locked: bool,
}

impl Client {
    /// The account that a first deposit opens: zero balances, unlocked.
    pub open spec fn spec_fresh() -> Client {
        Client {
            available_amount: Amount::spec_zero(),
            held_amount: Amount::spec_zero(),
            locked: false,
        }
    }

    /// `available + held`, in units of 10^-28.
    pub open spec fn total_value(self) -> int {
        self.available_amount.value() + self.held_amount.value()
    }

    pub fn new() -> (r: Client)
        ensures
            r == Client::spec_fresh(),
    {
        Client { available_amount: Amount::zero(), held_amount: Amount::zero(), locked: false }
    }

    /// `available + held`, exact, where it is in the range of an amount.
    pub fn total(&self) -> (r: Option<Amount>)
        ensures
            r.is_some() <==> Amount::can_add(self.available_amount, self.held_amount),
            r matches Some(t) ==> t.is_sum_of(self.available_amount, self.held_amount),
            r matches Some(t) ==> t.value() == self.total_value(),
    {
        self.available_amount.checked_add(&self.held_amount)
    }
}

/// The account of `id` in `m`, or the one a first deposit would open.
pub open spec fn account_of(m: Map<ClientID, Client>, id: ClientID) -> Client {
    if m.contains_key(id) {
        m[id]
    } else {
        Client::spec_fresh()
    }
}

/// `post` holds an account for `id` and is `pre` in every other account.
pub open spec fn only_changes(pre: Map<ClientID, Client>, post: Map<ClientID, Client>, id: ClientID) -> bool {
    post.contains_key(id) && post == pre.insert(id, post[id])
}

/// What `deposit(id, amount)` returns.
pub open spec fn deposit_result(pre: Map<ClientID, Client>, id: ClientID, amount: Amount) -> Result<(), Error> {
    let c = account_of(pre, id);
    if c.locked {
        Err(Error::ClientLocked(id))
    } else if !Amount::can_add(c.available_amount, amount) {
        Err(Error::AmountOutOfRange(id))
    } else {
        Ok(())
    }
}

/// `post` is `pre` after a successful `deposit(id, amount)`.
pub open spec fn deposited(pre: Map<ClientID, Client>, post: Map<ClientID, Client>, id: ClientID, amount: Amount) -> bool {
    let c = account_of(pre, id);
    &&& only_changes(pre, post, id)
    &&& post[id].available_amount.is_sum_of(c.available_amount, amount)
    &&& post[id].held_amount == c.held_amount
    &&& post[id].locked == c.locked
}

/// What `withdrawal(id, amount)` returns.
pub open spec fn withdrawal_result(pre: Map<ClientID, Client>, id: ClientID, amount: Amount) -> Result<(), Error> {
    if !pre.contains_key(id) {
        Err(Error::ClientNotExist(id))
    } else if pre[id].locked {
        Err(Error::ClientLocked(id))
    } else if pre[id].available_amount.value() < amount.value() {
        Err(Error::ClientCannotWithdrawl { id, amount, available: pre[id].available_amount })
    } else if !Amount::can_sub(pre[id].available_amount, amount) {
        Err(Error::AmountOutOfRange(id))
    } else {
        Ok(())
    }
}

/// `post` is `pre` after a successful `withdrawal(id, amount)`.
pub open spec fn withdrawn(pre: Map<ClientID, Client>, post: Map<ClientID, Client>, id: ClientID, amount: Amount) -> bool {
    &&& only_changes(pre, post, id)
    &&& post[id].available_amount.is_difference_of(pre[id].available_amount, amount)
    &&& post[id].held_amount == pre[id].held_amount
    &&& post[id].locked == pre[id].locked
}

/// What `move_to_held(id, amount)` returns.
pub open spec fn hold_result(pre: Map<ClientID, Client>, id: ClientID, amount: Amount) -> Result<(), Error> {
    if !pre.contains_key(id) {
        Err(Error::ClientNotExist(id))
    } else if pre[id].locked {
        Err(Error::ClientLocked(id))
    } else if pre[id].available_amount.value() < amount.value() {
        Err(Error::ClientCannotDispute { id, amount, available: pre[id].available_amount })
    } else if !Amount::can_sub(pre[id].available_amount, amount) || !Amount::can_add(
        pre[id].held_amount,
        amount,
    ) {
        Err(Error::AmountOutOfRange(id))
    } else {
        Ok(())
    }
}

/// `post` is `pre` after a successful `move_to_held(id, amount)`.
pub open spec fn held(pre: Map<ClientID, Client>, post: Map<ClientID, Client>, id: ClientID, amount: Amount) -> bool {
    &&& only_changes(pre, post, id)
    &&& post[id].available_amount.is_difference_of(pre[id].available_amount, amount)
    &&& post[id].held_amount.is_sum_of(pre[id].held_amount, amount)
    &&& post[id].locked == pre[id].locked
}

/// What `move_to_available(id, amount)` returns.
pub open spec fn release_result(pre: Map<ClientID, Client>, id: ClientID, amount: Amount) -> Result<(), Error> {
    if !pre.contains_key(id) {
        Err(Error::ClientNotExist(id))
    } else if pre[id].locked {
        Err(Error::ClientLocked(id))
    } else if pre[id].held_amount.value() < amount.value() {
        Err(Error::ClientCannotResolve { id, amount, held: pre[id].held_amount })
    } else if !Amount::can_sub(pre[id].held_amount, amount) || !Amount::can_add(
        pre[id].available_amount,
        amount,
    ) {
        Err(Error::AmountOutOfRange(id))
    } else {
        Ok(())
    }
}

/// `post` is `pre` after a successful `move_to_available(id, amount)`.
pub open spec fn released(pre: Map<ClientID, Client>, post: Map<ClientID, Client>, id: ClientID, amount: Amount) -> bool {
    &&& only_changes(pre, post, id)
    &&& post[id].available_amount.is_sum_of(pre[id].available_amount, amount)
    &&& post[id].held_amount.is_difference_of(pre[id].held_amount, amount)
    &&& post[id].locked == pre[id].locked
}

/// What `chargeback(id, amount)` returns.
pub open spec fn chargeback_result(pre: Map<ClientID, Client>, id: ClientID, amount: Amount) -> Result<(), Error> {
    if !pre.contains_key(id) {
        Err(Error::ClientNotExist(id))
    } else if pre[id].locked {
        Err(Error::ClientLocked(id))
    } else if pre[id].held_amount.value() < amount.value() {
        Err(Error::ClientCannotChargeBack { id, amount, held: pre[id].held_amount })
    } else if !Amount::can_sub(pre[id].held_amount, amount) {
        Err(Error::AmountOutOfRange(id))
    } else {
        Ok(())
    }
}

/// Whether a chargeback got past the existence and lock checks, so that it
/// locked the account.
pub open spec fn chargeback_locks(pre: Map<ClientID, Client>, id: ClientID) -> bool {
    pre.contains_key(id) && !pre[id].locked
}

/// `post` is `pre` after `chargeback(id, amount)` returned `r`: the account is
/// locked once it was found unlocked, and its held funds fall by `amount` only
/// on success.
pub open spec fn charged_back(
    pre: Map<ClientID, Client>,
    post: Map<ClientID, Client>,
    id: ClientID,
    amount: Amount,
    r: Result<(), Error>,
) -> bool {
    if !chargeback_locks(pre, id) {
        post == pre
    } else {
        &&& only_changes(pre, post, id)
        &&& post[id].locked
        &&& post[id].available_amount == pre[id].available_amount
        &&& if r is Ok {
            post[id].held_amount.is_difference_of(pre[id].held_amount, amount)
        } else {
            post[id].held_amount == pre[id].held_amount
        }
    }
}

/// One account per client id.
pub struct Clients {
    database: HashMap<ClientID, Client>,
}

impl View for Clients {
    type V = Map<ClientID, Client>;

    closed spec fn view(&self) -> Map<ClientID, Client> {
        self.database@
    }
}

impl Default for Clients {
    fn default() -> (r: Clients)
        ensures
            r@ == Map::<ClientID, Client>::empty(),
    {
        Clients::new()
    }
}

impl Clients {
    /// A store with no account.
    pub fn new() -> (r: Clients)
        ensures
            r@ == Map::<ClientID, Client>::empty(),
    {
        Clients { database: HashMap::new() }
    }

    /// The number of accounts.
    pub fn len(&self) -> (r: usize)
        ensures
            r == self@.len(),
    {
        self.database.len()
    }

    /// Raises the available funds of `id` by `amount`, opening the account
    /// where there is none.
    pub fn deposit(&mut self, id: ClientID, amount: Amount) -> (r: Result<(), Error>)
        ensures
            r == deposit_result(old(self)@, id, amount),
            r is Ok ==> deposited(old(self)@, final(self)@, id, amount),
            r is Err ==> final(self)@ == old(self)@,
    {
        let client = match self.database.get(&id) {
            Some(c) => *c,
            None => Client::new(),
        };
        if client.locked {
            return Err(Error::ClientLocked(id));
        }
        match client.available_amount.checked_add(&amount) {
            Some(available) => {
                self.database.insert(
                    id,
                    Client {
                        available_amount: available,
                        held_amount: client.held_amount,
                        locked: client.locked,
                    },
                );
                Ok(())
            },
            None => Err(Error::AmountOutOfRange(id)),
        }
    }

    /// The account of `id`, unless it is missing or locked.
    fn unlocked_account(&self, id: ClientID) -> (r: Result<Client, Error>)
        ensures
            match r {
                Ok(c) => self@.contains_key(id) && !self@[id].locked && c == self@[id],
                Err(e) => if !self@.contains_key(id) {
                    e == Error::ClientNotExist(id)
                } else {
                    self@[id].locked && e == Error::ClientLocked(id)
                },
            },
    {
        match self.database.get(&id) {
            Some(c) => {
                if c.locked {
                    Err(Error::ClientLocked(id))
                } else {
                    Ok(*c)
                }
            },
            None => Err(Error::ClientNotExist(id)),
        }
    }

    /// Lowers the available funds of `id` by `amount`.
    pub fn withdrawal(&mut self, id: ClientID, amount: Amount) -> (r: Result<(), Error>)
        ensures
            r == withdrawal_result(old(self)@, id, amount),
            r is Ok ==> withdrawn(old(self)@, final(self)@, id, amount),
            r is Err ==> final(self)@ == old(self)@,
    {
        let client = self.unlocked_account(id)?;
        if !amount.le(&client.available_amount) {
            return Err(
                Error::ClientCannotWithdrawl {
                    id,
                    amount,
                    available: client.available_amount,
                },
            );
        }
        match client.available_amount.checked_sub(&amount) {
            Some(available) => {
                self.database.insert(
                    id,
                    Client {
                        available_amount: available,
                        held_amount: client.held_amount,
                        locked: client.locked,
                    },
                );
                Ok(())
            },
            None => Err(Error::AmountOutOfRange(id)),
        }
    }

    /// Moves `amount` of the funds of `id` from available to held.
    pub fn move_to_held(&mut self, id: ClientID, amount: Amount) -> (r: Result<(), Error>)
        ensures
            r == hold_result(old(self)@, id, amount),
            r is Ok ==> held(old(self)@, final(self)@, id, amount),
            r is Err ==> final(self)@ == old(self)@,
    {
        let client = self.unlocked_account(id)?;
        if !amount.le(&client.available_amount) {
            return Err(
                Error::ClientCannotDispute { id, amount, available: client.available_amount },
            );
        }
        let available = match client.available_amount.checked_sub(&amount) {
            Some(a) => a,
            None => return Err(Error::AmountOutOfRange(id)),
        };
        let held = match client.held_amount.checked_add(&amount) {
            Some(h) => h,
            None => return Err(Error::AmountOutOfRange(id)),
        };
        self.database.insert(
            id,
            Client { available_amount: available, held_amount: held, locked: client.locked },
        );
        Ok(())
    }

    /// Moves `amount` of the funds of `id` from held back to available.
    pub fn move_to_available(&mut self, id: ClientID, amount: Amount) -> (r: Result<(), Error>)
        ensures
            r == release_result(old(self)@, id, amount),
            r is Ok ==> released(old(self)@, final(self)@, id, amount),
            r is Err ==> final(self)@ == old(self)@,
    {
        let client = self.unlocked_account(id)?;
        if !amount.le(&client.held_amount) {
            return Err(Error::ClientCannotResolve { id, amount, held: client.held_amount });
        }
        let held = match client.held_amount.checked_sub(&amount) {
            Some(h) => h,
            None => return Err(Error::AmountOutOfRange(id)),
        };
        let available = match client.available_amount.checked_add(&amount) {
            Some(a) => a,
            None => return Err(Error::AmountOutOfRange(id)),
        };
        self.database.insert(
            id,
            Client { available_amount: available, held_amount: held, locked: client.locked },
        );
        Ok(())
    }

    /// Locks the account of `id`, then takes `amount` out of its held funds.
    /// The lock stays even where the held funds fall short.
    pub fn chargeback(&mut self, id: ClientID, amount: Amount) -> (r: Result<(), Error>)
        ensures
            r == chargeback_result(old(self)@, id, amount),
            charged_back(old(self)@, final(self)@, id, amount, r),
    {
        let client = self.unlocked_account(id)?;
        let (held, r) = if !amount.le(&client.held_amount) {
            (
                client.held_amount,
                Err(Error::ClientCannotChargeBack { id, amount, held: client.held_amount }),
            )
        } else {
            match client.held_amount.checked_sub(&amount) {
                Some(h) => (h, Ok(())),
                None => (client.held_amount, Err(Error::AmountOutOfRange(id))),
            }
        };
        self.database.insert(
            id,
            Client { available_amount: client.available_amount, held_amount: held, locked: true },
        );
        r
    }

    /// The account of `id`.
    pub fn get_client(&self, id: ClientID) -> (r: Result<&Client, Error>)
        ensures
            match r {
                Ok(c) => self@.contains_key(id) && *c == self@[id],
                Err(e) => !self@.contains_key(id) && e == Error::ClientNotExist(id),
            },
    {
        match self.database.get(&id) {
            Some(c) => Ok(c),
            None => Err(Error::ClientNotExist(id)),
        }
    }

    /// Every account with its client id, in ascending order of id.
    pub fn get_all(&self) -> (r: Vec<(ClientID, Client)>)
        ensures
            forall|i: int|
                0 <= i < r.len() ==> self@.contains_key(#[trigger] r@[i].0) && self@[r@[i].0]
                    == r@[i].1,
            forall|i: int, j: int| 0 <= i < j < r.len() ==> r@[i].0 < r@[j].0,
            forall|k: ClientID| #[trigger]
                self@.contains_key(k) ==> exists|i: int| 0 <= i < r.len() && r@[i].0 == k,
    {
        let mut out: Vec<(ClientID, Client)> = Vec::new();
        let mut next: u32 = 0;
        while next <= 0xFFFF
            invariant
                next <= 0x10000,
                forall|i: int|
                    0 <= i < out.len() ==> self@.contains_key(#[trigger] out@[i].0) && self@[out@[i].0]
                        == out@[i].1 && out@[i].0 < next,
                forall|i: int, j: int| 0 <= i < j < out.len() ==> out@[i].0 < out@[j].0,
                forall|k: ClientID|
                    k < next && #[trigger] self@.contains_key(k) ==> exists|i: int|
                        0 <= i < out.len() && out@[i].0 == k,
            decreases 0x10000 - next,
        {
            let id = next as u16;
            let ghost before = out@;
            if let Some(c) = self.database.get(&id) {
                out.push((id, *c));
                proof {
                    assert(id as u32 == next);
                    assert(out@ == before.push((id, *c)));
                    assert forall|i: int|
                        0 <= i < out.len() implies self@.contains_key(#[trigger] out@[i].0)
                        && self@[out@[i].0] == out@[i].1 && out@[i].0 < next + 1 by {
                        if i < before.len() {
                            assert(out@[i] == before[i]);
                        }
                    }
                    assert forall|i: int, j: int| 0 <= i < j < out.len() implies out@[i].0 < out@[j].0 by {
                        assert(out@[i] == before[i]);
                        assert(before[i].0 < next);
                        if j < before.len() {
                            assert(out@[j] == before[j]);
                        }
                    }
                    assert forall|k: ClientID|
                        k < next + 1 && #[trigger] self@.contains_key(k) implies exists|i: int|
                        0 <= i < out.len() && out@[i].0 == k by {
                        if k < next {
                            let i = choose|i: int| 0 <= i < before.len() && before[i].0 == k;
                            assert(out@[i] == before[i]);
                        } else {
                            assert(out@[before.len() as int].0 == k);
                        }
                    }
                }
            }
            next = next + 1;
        }
        out
    }
}

} // verus!
