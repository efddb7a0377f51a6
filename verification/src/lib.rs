//! An in-memory payments ledger: per-client balances driven by a stream of
//! deposits, withdrawals, disputes, resolutions and chargebacks.
//!
//! [`Data`] is the engine. It is handed one [`Transaction`] at a time and
//! answers with `Ok` or with the [`Rejection`] that kept the record out; a
//! rejection never stops the run. What each record does is written down once,
//! as a state machine over maps and sets ([`EngineState`]), and the engine is
//! proved to follow it step by step.
//!
//! Amounts are fixed-point: an `i64` counts the smallest unit of currency, and
//! the callers decide how many of them make one whole.

pub mod account;
pub mod engine;
pub mod laws;
pub mod model;
pub mod transaction;

pub use account::Account;
pub use engine::Data;
pub use model::EngineState;
pub use transaction::Rejection;
pub use transaction::Successful;
pub use transaction::Transaction;
pub use transaction::TransactionType;
