//! The engine: the accounts, the history and the disputed transactions behind
//! one entry point that judges and applies a record at a time.

use std::collections::HashMap;
use std::collections::HashSet;
use vstd::prelude::*;
use crate::account::Account;
use crate::laws::lemma_applied_preserves_wf;
use crate::laws::lemma_step_preserves_wf;
use crate::model::EngineState;
use crate::transaction::Rejection;
use crate::transaction::Successful;
use crate::transaction::Transaction;
use crate::transaction::TransactionType;

verus! {

broadcast use vstd::std_specs::hash::group_hash_axioms;

/// The ledger and the transaction engine of one run.
#[derive(Debug)]
pub struct Data {
    clients: HashMap<u16, Account>,
    txs: HashMap<u32, Transaction>,
    disputed_tr: HashSet<u32>,
}

impl View for Data {
    type V = EngineState;

    closed spec fn view(&self) -> EngineState {
        EngineState { accounts: self.clients@, history: self.txs@, disputed: self.disputed_tr@ }
    }
}

impl Data {
    /// An engine that has seen no record.
    pub fn new() -> (data: Data)
        ensures
            data@ == EngineState::fresh(),
            data@.wf(),
    {
        Data { clients: HashMap::new(), txs: HashMap::new(), disputed_tr: HashSet::new() }
    }

    /// The amount of the deposit recorded under `tx`, if there is one.
    fn deposit_amount(&self, tx: u32) -> (amount: Option<i64>)
        ensures
            amount == self@.deposit_amount(tx),
    {
        match self.txs.get(&tx) {
            Some(recorded) => match recorded.transaction_type {
                TransactionType::Deposit => recorded.amount,
                _ => None,
            },
            None => None,
        }
    }

    /// Judges a record and, where it is accepted, applies it to its client's
    /// account and to the set of disputed transactions. The history is left
    /// alone.
    pub fn make_transaction(&mut self, tr: &Transaction) -> (outcome: Result<(), Rejection>)
        ensures
            outcome == old(self)@.verdict(*tr),
            final(self)@ == old(self)@.applied(*tr),
            old(self)@.wf() ==> final(self)@.wf(),
    {
        proof {
            if self@.wf() {
                lemma_applied_preserves_wf(self@, *tr);
            }
        }
        if tr.moves_funds() && self.txs.contains_key(&tr.tx) {
            return Err(Rejection::DuplicateTransaction);
        }
        let mut account = match self.clients.get(&tr.client) {
            Some(account) => {
                if account.is_lock() {
                    return Err(Rejection::AccountLocked);
                }
                *account
            },
            None => Account::new(),
        };
        let outcome = match tr.transaction_type {
            TransactionType::Deposit => match tr.amount {
                Some(amount) => account.deposit(amount),
                None => Err(Rejection::InvalidAmount),
            },
            TransactionType::Withdrawal => match tr.amount {
                Some(amount) => account.withdrawal(amount),
                None => Err(Rejection::InvalidAmount),
            },
            TransactionType::Dispute => match self.deposit_amount(tr.tx) {
                Some(amount) => match account.dispute(amount) {
                    Successful::True => {
                        self.disputed_tr.insert(tr.tx);
                        Ok(())
                    },
                    Successful::False => Err(Rejection::Overflow),
                },
                None => Err(Rejection::UnknownReference),
            },
            TransactionType::Resolve => match self.deposit_amount(tr.tx) {
                Some(amount) => match account.resolve(amount) {
                    Successful::True => {
                        self.disputed_tr.remove(&tr.tx);
                        Ok(())
                    },
                    Successful::False => Err(Rejection::Overflow),
                },
                None => Err(Rejection::UnknownReference),
            },
            TransactionType::Chargeback => match self.deposit_amount(tr.tx) {
                Some(amount) => {
                    self.disputed_tr.insert(tr.tx);
                    match account.chargeback(amount) {
                        Successful::True => {
                            self.disputed_tr.remove(&tr.tx);
                            Ok(())
                        },
                        Successful::False => Err(Rejection::Overflow),
                    }
                },
                None => Err(Rejection::UnknownReference),
            },
        };
        self.clients.insert(tr.client, account);
        outcome
    }

    /// Processes one record in full: judges it, applies it where it is
    /// accepted, and enters it in the history if and only if it is a deposit
    /// or withdrawal that was accepted. A rejection leaves the engine ready
    /// for the next record.
    pub fn execute_transaction(&mut self, tr: Transaction) -> (outcome: Result<(), Rejection>)
        ensures
            outcome == old(self)@.verdict(tr),
            final(self)@ == old(self)@.step(tr),
            old(self)@.wf() ==> final(self)@.wf(),
    {
        proof {
            if self@.wf() {
                lemma_step_preserves_wf(self@, tr);
            }
        }
        let outcome = self.make_transaction(&tr);
        if outcome.is_ok() && tr.moves_funds() {
            self.txs.insert(tr.tx, tr);
        }
        outcome
    }

    /// The account of `client`, if the client has been seen.
    pub fn account(&self, client: u16) -> (account: Option<Account>)
        ensures
            account == (if self@.accounts.contains_key(client) {
                Some(self@.accounts[client])
            } else {
                None
            }),
    {
        match self.clients.get(&client) {
            Some(account) => Some(*account),
            None => None,
        }
    }

    /// The deposit or withdrawal that the history holds under `tx`, if any.
    pub fn transaction(&self, tx: u32) -> (recorded: Option<Transaction>)
        ensures
            recorded == (if self@.history.contains_key(tx) {
                Some(self@.history[tx])
            } else {
                None
            }),
    {
        match self.txs.get(&tx) {
            Some(recorded) => Some(*recorded),
            None => None,
        }
    }

    /// Every account with its client, each client once, in no particular
    /// order.
    pub fn snapshot(&self) -> (listing: Vec<(u16, Account)>)
        ensures
            self@.lists(listing@),
    {
        let mut listing: Vec<(u16, Account)> = Vec::new();
        for entry in it: self.clients.iter()
            invariant
                it.seq().no_duplicates(),
                forall|client: u16| #[trigger]
                    self.clients@.contains_key(client) ==> it.seq().contains(
                        (&client, &self.clients@[client]),
                    ),
                forall|i: int|
                    0 <= i < it.seq().len() ==> self.clients@.contains_key(
                        #[trigger] *it.seq()[i].0,
                    ) && self.clients@[*it.seq()[i].0] == *it.seq()[i].1,
                listing@.len() == it.index(),
                forall|i: int|
                    #![trigger listing@[i]]
                    #![trigger it.seq()[i]]
                    0 <= i < it.index() ==> listing@[i] == (*it.seq()[i].0, *it.seq()[i].1),
                forall|i: int, j: int|
                    0 <= i < j < listing@.len() ==> listing@[i].0 != listing@[j].0,
        {
            proof {
                let n = it.index();
                assert forall|i: int| 0 <= i < n implies *it.seq()[i].0 != *it.seq()[n].0 by {
                    if *it.seq()[i].0 == *it.seq()[n].0 {
                        assert(it.seq()[i] == it.seq()[n]);
                    }
                }
            }
            listing.push((*entry.0, *entry.1));
        }
        listing
    }

    /// Whether `tx` is under dispute.
    pub fn is_disputed(&self, tx: u32) -> (disputed: bool)
        ensures
            disputed == self@.disputed.contains(tx),
    {
        self.disputed_tr.contains(&tx)
    }
}

} // verus!
