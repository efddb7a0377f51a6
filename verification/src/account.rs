//! The balances of one client and the operations that move them.
//!
//! The operations here look at amounts only. Whether a record may touch the
//! account at all (its lock, the history of the transaction it names) is for
//! the engine to decide before it calls them.

use vstd::prelude::*;
use crate::transaction::Rejection;
use crate::transaction::Successful;

verus! {

/// The state of one client's account.
#[derive(Clone, Copy, Debug, PartialEq, Eq, Structural)]
pub struct Account {
    /// Funds that can be withdrawn.
    pub available: i64,
    /// Funds frozen while a dispute is open.
    pub held: i64,
    /// Everything the account holds.
    pub total: i64,
    /// Set by a chargeback, never cleared.
    pub locked: bool,
}

/// Whether `v` can be stored as an amount.
pub open spec fn representable(v: int) -> bool {
    i64::MIN <= v <= i64::MAX
}

impl Account {
    /// The books of the account agree: the total is what is available plus
    /// what is held.
    pub open spec fn balanced(self) -> bool {
        self.total == self.available + self.held
    }

    /// The account of a client that has not been seen yet.
    pub open spec fn opened() -> Account {
        Account { available: 0, held: 0, total: 0, locked: false }
    }

    /// What a deposit of `amount` makes of the account, or why it is refused.
    pub open spec fn after_deposit(self, amount: i64) -> Result<Account, Rejection> {
        if amount < 0 {
            Err(Rejection::InvalidAmount)
        } else if !representable(self.available + amount) || !representable(self.total + amount) {
            Err(Rejection::Overflow)
        } else {
            Ok(
                Account {
                    available: (self.available + amount) as i64,
                    total: (self.total + amount) as i64,
                    ..self
                },
            )
        }
    }

    /// What a withdrawal of `amount` makes of the account, or why it is
    /// refused.
    pub open spec fn after_withdrawal(self, amount: i64) -> Result<Account, Rejection> {
        if amount < 0 {
            Err(Rejection::InvalidAmount)
        } else if amount > self.available {
            Err(Rejection::InsufficientFunds)
        } else if !representable(self.total - amount) {
            Err(Rejection::Overflow)
        } else {
            Ok(
                Account {
                    available: (self.available - amount) as i64,
                    total: (self.total - amount) as i64,
                    ..self
                },
            )
        }
    }

    /// The account with `amount` moved from available to held, where both new
    /// balances can be stored.
    pub open spec fn after_dispute(self, amount: i64) -> Option<Account> {
        if representable(self.available - amount) && representable(self.held + amount) {
            Some(
                Account {
                    available: (self.available - amount) as i64,
                    held: (self.held + amount) as i64,
                    ..self
                },
            )
        } else {
            None
        }
    }

    /// The account with `amount` moved from held back to available, where
    /// both new balances can be stored.
    pub open spec fn after_resolve(self, amount: i64) -> Option<Account> {
        if representable(self.available + amount) && representable(self.held - amount) {
            Some(
                Account {
                    available: (self.available + amount) as i64,
                    held: (self.held - amount) as i64,
                    ..self
                },
            )
        } else {
            None
        }
    }

    /// The locked account with `amount` taken out of held and of the total,
    /// where both new balances can be stored.
    pub open spec fn after_chargeback(self, amount: i64) -> Option<Account> {
        if representable(self.held - amount) && representable(self.total - amount) {
            Some(
                Account {
                    held: (self.held - amount) as i64,
                    total: (self.total - amount) as i64,
                    locked: true,
                    ..self
                },
            )
        } else {
            None
        }
    }

    /// An empty, unlocked account.
    pub fn new() -> (account: Account)
        ensures
            account == Account::opened(),
            account.balanced(),
    {
        Account { available: 0, held: 0, total: 0, locked: false }
    }

    /// Adds `amount` to the available funds and to the total. A negative
    /// amount is refused, and so is one that the balances cannot take; the
    /// account is then left as it was.
    pub fn deposit(&mut self, amount: i64) -> (outcome: Result<(), Rejection>)
        ensures
            match old(self).after_deposit(amount) {
                Ok(account) => outcome == Ok::<(), Rejection>(()) && *final(self) == account,
                Err(reason) => outcome == Err::<(), Rejection>(reason) && *final(self) == *old(
                    self,
                ),
            },
            old(self).balanced() ==> final(self).balanced(),
    {
        if amount < 0 {
            return Err(Rejection::InvalidAmount);
        }
        match (self.available.checked_add(amount), self.total.checked_add(amount)) {
            (Some(available), Some(total)) => {
                self.available = available;
                self.total = total;
                Ok(())
            },
            _ => Err(Rejection::Overflow),
        }
    }

    /// Takes `amount` out of the available funds and of the total. A negative
    /// amount is refused, then one larger than what is available, then one
    /// that the total cannot give; the account is then left as it was.
    pub fn withdrawal(&mut self, amount: i64) -> (outcome: Result<(), Rejection>)
        ensures
            match old(self).after_withdrawal(amount) {
                Ok(account) => outcome == Ok::<(), Rejection>(()) && *final(self) == account,
                Err(reason) => outcome == Err::<(), Rejection>(reason) && *final(self) == *old(
                    self,
                ),
            },
            old(self).balanced() ==> final(self).balanced(),
    {
        if amount < 0 {
            return Err(Rejection::InvalidAmount);
        }
        if self.available < amount {
            return Err(Rejection::InsufficientFunds);
        }
        match self.total.checked_sub(amount) {
            Some(total) => {
                self.available = self.available - amount;
                self.total = total;
                Ok(())
            },
            None => Err(Rejection::Overflow),
        }
    }

    /// Places a hold: moves `amount` from available to held. The available
    /// funds may go below zero. Nothing changes, and the answer is `False`,
    /// where a new balance could not be stored.
    pub fn dispute(&mut self, amount: i64) -> (done: Successful)
        ensures
            match old(self).after_dispute(amount) {
                Some(account) => done == Successful::True && *final(self) == account,
                None => done == Successful::False && *final(self) == *old(self),
            },
            old(self).balanced() ==> final(self).balanced(),
    {
        match (self.available.checked_sub(amount), self.held.checked_add(amount)) {
            (Some(available), Some(held)) => {
                self.available = available;
                self.held = held;
                Successful::True
            },
            _ => Successful::False,
        }
    }

    /// Releases a hold: moves `amount` from held back to available. Nothing
    /// changes, and the answer is `False`, where a new balance could not be
    /// stored.
    pub fn resolve(&mut self, amount: i64) -> (done: Successful)
        ensures
            match old(self).after_resolve(amount) {
                Some(account) => done == Successful::True && *final(self) == account,
                None => done == Successful::False && *final(self) == *old(self),
            },
            old(self).balanced() ==> final(self).balanced(),
    {
        match (self.available.checked_add(amount), self.held.checked_sub(amount)) {
            (Some(available), Some(held)) => {
                self.available = available;
                self.held = held;
                Successful::True
            },
            _ => Successful::False,
        }
    }

    /// Settles a dispute against the client: takes `amount` out of held and
    /// of the total, and locks the account. Nothing changes, and the answer
    /// is `False`, where a new balance could not be stored.
    pub fn chargeback(&mut self, amount: i64) -> (done: Successful)
        ensures
            match old(self).after_chargeback(amount) {
                Some(account) => done == Successful::True && *final(self) == account,
                None => done == Successful::False && *final(self) == *old(self),
            },
            old(self).balanced() ==> final(self).balanced(),
    {
        match (self.held.checked_sub(amount), self.total.checked_sub(amount)) {
            (Some(held), Some(total)) => {
                self.held = held;
                self.total = total;
                self.locked = true;
                Successful::True
            },
            _ => Successful::False,
        }
    }

    /// Whether a chargeback has locked the account.
    pub fn is_lock(&self) -> (locked: bool)
        ensures
            locked == self.locked,
    {
        self.locked
    }
}

} // verus!
