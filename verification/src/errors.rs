//! The error taxonomy of the ledger. Every failure is local to the single
//! transaction record that caused it; no error corrupts other state.

use vstd::prelude::*;

verus! {

/// Why a transaction was rejected. Each rejection leaves the targeted
/// account and stored transaction exactly as they were.
#[derive(Clone, Copy, Debug, PartialEq, Eq, Structural)]
pub enum AppError {
    /// Any command against a locked account.
    AccountIsLocked,
    /// A withdrawal exceeding the available balance.
    InsufficientFunds,
    /// A dispute targeting a stored transaction that is not a deposit.
    CannotDisputeNonDeposit,
    /// A dispute on a transaction that is not in its initial state.
    InvalidDisputeTransition,
    /// A dispute, resolve or chargeback referencing an unknown transaction id.
    TransactionNotFound(u32),
    /// A resolve on a transaction that is not under dispute.
    InvalidResolveTransition,
    /// A chargeback on a transaction that is not under dispute.
    InvalidChargebackTransition,
}

} // verus!
