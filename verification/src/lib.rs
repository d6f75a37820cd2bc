//! A verified payments ledger.
//!
//! The library ingests a stream of transaction records (deposits,
//! withdrawals, disputes, resolves, chargebacks) and maintains per-client
//! account state: available funds, funds held under dispute, the total
//! balance, and a lock flag. Monetary values are exact fixed-point numbers,
//! counted in ten-thousandths of a currency unit.
//!
//! Reading and writing the tabular record streams is left to the caller;
//! the library covers the ledger state machine itself.

pub mod account;
pub mod engine;
pub mod errors;
pub mod laws;
pub mod raw_transaction;
pub mod stored_transaction;
pub mod transaction_command;
