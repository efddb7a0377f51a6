//! The engine as a state machine over mathematical maps and sets: what one
//! record makes of the accounts, the history and the set of disputed
//! transactions.

use vstd::prelude::*;
use crate::account::Account;
use crate::transaction::Rejection;
use crate::transaction::Transaction;
use crate::transaction::TransactionType;

verus! {

/// Everything the engine remembers.
#[verifier::ext_equal]
pub struct EngineState {
    /// The account of every client seen so far.
    pub accounts: Map<u16, Account>,
    /// The deposits and withdrawals that took effect, by transaction
    /// identifier.
    pub history: Map<u32, Transaction>,
    /// The transactions under dispute.
    pub disputed: Set<u32>,
}

impl EngineState {
    /// The engine before its first record.
    pub open spec fn fresh() -> EngineState {
        EngineState { accounts: Map::empty(), history: Map::empty(), disputed: Set::empty() }
    }

    /// The client has an account and it is locked.
    pub open spec fn is_locked(self, client: u16) -> bool {
        self.accounts.contains_key(client) && self.accounts[client].locked
    }

    /// The client's account, opened on the spot if the client is new.
    pub open spec fn account(self, client: u16) -> Account {
        if self.accounts.contains_key(client) {
            self.accounts[client]
        } else {
            Account::opened()
        }
    }

    /// The record is a deposit or withdrawal under an identifier that the
    /// history already holds.
    pub open spec fn is_duplicate(self, tr: Transaction) -> bool {
        tr.moves_funds() && self.history.contains_key(tr.tx)
    }

    /// The amount of the deposit that the history holds under `tx`, if it
    /// holds one.
    pub open spec fn deposit_amount(self, tx: u32) -> Option<i64> {
        if self.history.contains_key(tx) && self.history[tx].transaction_type
            == TransactionType::Deposit {
            self.history[tx].amount
        } else {
            None
        }
    }

    /// The reason for which the record is turned away before any account is
    /// looked at or opened: a repeated identifier first, then a locked
    /// account.
    pub open spec fn barred(self, tr: Transaction) -> Option<Rejection> {
        if self.is_duplicate(tr) {
            Some(Rejection::DuplicateTransaction)
        } else if self.is_locked(tr.client) {
            Some(Rejection::AccountLocked)
        } else {
            None
        }
    }

    /// What a record that is not barred makes of its client's account, or why
    /// it is rejected.
    pub open spec fn on_account(self, tr: Transaction) -> Result<Account, Rejection> {
        let account = self.account(tr.client);
        match tr.transaction_type {
            TransactionType::Deposit => match tr.amount {
                Some(amount) => account.after_deposit(amount),
                None => Err(Rejection::InvalidAmount),
            },
            TransactionType::Withdrawal => match tr.amount {
                Some(amount) => account.after_withdrawal(amount),
                None => Err(Rejection::InvalidAmount),
            },
            TransactionType::Dispute => match self.deposit_amount(tr.tx) {
                Some(amount) => match account.after_dispute(amount) {
                    Some(moved) => Ok(moved),
                    None => Err(Rejection::Overflow),
                },
                None => Err(Rejection::UnknownReference),
            },
            TransactionType::Resolve => match self.deposit_amount(tr.tx) {
                Some(amount) => match account.after_resolve(amount) {
                    Some(moved) => Ok(moved),
                    None => Err(Rejection::Overflow),
                },
                None => Err(Rejection::UnknownReference),
            },
            TransactionType::Chargeback => match self.deposit_amount(tr.tx) {
                Some(amount) => match account.after_chargeback(amount) {
                    Some(moved) => Ok(moved),
                    None => Err(Rejection::Overflow),
                },
                None => Err(Rejection::UnknownReference),
            },
        }
    }

    /// The disputed set after a record that is not barred. A dispute that
    /// took effect enters its transaction, a resolve that took effect removes
    /// it. A chargeback removes it when it took effect, and leaves it entered
    /// when the deposit was found but the balances could not be stored.
    pub open spec fn disputed_after(self, tr: Transaction) -> Set<u32> {
        let done = self.on_account(tr) is Ok;
        match tr.transaction_type {
            TransactionType::Dispute => if done {
                self.disputed.insert(tr.tx)
            } else {
                self.disputed
            },
            TransactionType::Resolve => if done {
                self.disputed.remove(tr.tx)
            } else {
                self.disputed
            },
            TransactionType::Chargeback => if done {
                self.disputed.remove(tr.tx)
            } else if self.deposit_amount(tr.tx) is Some {
                self.disputed.insert(tr.tx)
            } else {
                self.disputed
            },
            _ => self.disputed,
        }
    }

    /// The verdict on a record.
    pub open spec fn verdict(self, tr: Transaction) -> Result<(), Rejection> {
        match self.barred(tr) {
            Some(reason) => Err(reason),
            None => match self.on_account(tr) {
                Ok(_) => Ok(()),
                Err(reason) => Err(reason),
            },
        }
    }

    /// The state after a record has been judged and, where it was accepted,
    /// applied to its client's account; the history is not touched. A barred
    /// record changes nothing. Any other opens the client's account if the
    /// client is new, whatever the verdict.
    pub open spec fn applied(self, tr: Transaction) -> EngineState {
        if self.barred(tr) is Some {
            self
        } else {
            let account = match self.on_account(tr) {
                Ok(moved) => moved,
                Err(_) => self.account(tr.client),
            };
            EngineState {
                accounts: self.accounts.insert(tr.client, account),
                history: self.history,
                disputed: self.disputed_after(tr),
            }
        }
    }

    /// The state after a record has been processed in full: applied, and
    /// entered in the history if and only if it is a deposit or withdrawal
    /// that was accepted.
    pub open spec fn step(self, tr: Transaction) -> EngineState {
        let applied = self.applied(tr);
        if self.verdict(tr) is Ok && tr.moves_funds() {
            EngineState { history: applied.history.insert(tr.tx, tr), ..applied }
        } else {
            applied
        }
    }

    /// What every state that the engine reaches has in common. Each account
    /// is balanced. The history holds, under each identifier, a deposit or
    /// withdrawal that carries that identifier and an amount that is not
    /// negative. Only deposits of the history are under dispute.
    pub open spec fn wf(self) -> bool {
        &&& forall|client: u16| #[trigger]
            self.accounts.contains_key(client) ==> self.accounts[client].balanced()
        &&& forall|tx: u32| #[trigger]
            self.history.contains_key(tx) ==> {
                &&& self.history[tx].tx == tx
                &&& self.history[tx].moves_funds()
                &&& self.history[tx].amount matches Some(amount)
                &&& amount >= 0
            }
        &&& forall|tx: u32| #[trigger] self.disputed.contains(tx) ==> self.deposit_amount(tx) is Some
    }

    /// `listing` holds every account with its client, each client once, in
    /// whatever order.
    pub open spec fn lists(self, listing: Seq<(u16, Account)>) -> bool {
        &&& listing.len() == self.accounts.len()
        &&& forall|i: int|
            0 <= i < listing.len() ==> self.accounts.contains_key(#[trigger] listing[i].0)
                && self.accounts[listing[i].0] == listing[i].1
        &&& forall|i: int, j: int|
            0 <= i < j < listing.len() ==> listing[i].0 != listing[j].0
        &&& forall|client: u16| #[trigger]
            self.accounts.contains_key(client) ==> listing.contains(
                (client, self.accounts[client]),
            )
    }

    /// The state after a whole stream of records, processed in order.
    pub open spec fn run(self, trs: Seq<Transaction>) -> EngineState
        decreases trs.len(),
    {
        if trs.len() == 0 {
            self
        } else {
            self.run(trs.drop_last()).step(trs.last())
        }
    }
}

} // verus!
