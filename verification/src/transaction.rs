//! Records handed to the engine and the verdicts it hands back.

use vstd::prelude::*;

verus! {

/// What a record asks the engine to do.
#[derive(Clone, Copy, Debug, PartialEq, Eq, Structural)]
pub enum TransactionType {
    Deposit,
    Withdrawal,
    Dispute,
    Resolve,
    Chargeback,
}

/// Whether an operation took effect.
#[derive(Clone, Copy, Debug, PartialEq, Eq, Structural)]
pub enum Successful {
    True,
    False,
}

/// Why a record was turned away.
#[derive(Clone, Copy, Debug, PartialEq, Eq, Structural)]
pub enum Rejection {
    /// A deposit or withdrawal carries no amount, or a negative one.
    InvalidAmount,
    /// A withdrawal asks for more than the account has available.
    InsufficientFunds,
    /// The account is locked.
    AccountLocked,
    /// A dispute, resolve or chargeback names a transaction that is not in
    /// the history, or one that is not a deposit.
    UnknownReference,
    /// A deposit or withdrawal repeats a transaction identifier that is
    /// already in the history.
    DuplicateTransaction,
    /// The balances that the operation would produce do not fit the
    /// representation of an amount.
    Overflow,
}

/// One input record. Amounts are signed counts of the smallest currency unit
/// that the caller has chosen.
#[derive(Clone, Copy, Debug)]
pub struct Transaction {
    pub transaction_type: TransactionType,
    pub client: u16,
    pub tx: u32,
    pub amount: Option<i64>,
}

impl Transaction {
    /// A deposit or a withdrawal: a record that moves money by itself and is
    /// kept in the history once it took effect.
    pub open spec fn spec_moves_funds(self) -> bool {
        self.transaction_type == TransactionType::Deposit || self.transaction_type
            == TransactionType::Withdrawal
    }

    /// Whether the record is a deposit or a withdrawal.
    #[verifier::when_used_as_spec(spec_moves_funds)]
    pub fn moves_funds(self) -> (yes: bool)
        ensures
            yes == self.spec_moves_funds(),
    {
        match self.transaction_type {
            TransactionType::Deposit | TransactionType::Withdrawal => true,
            _ => false,
        }
    }
}

} // verus!
