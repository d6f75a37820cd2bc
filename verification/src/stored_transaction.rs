//! The ledger's retained record of a deposit or withdrawal, together with
//! its dispute lifecycle.
//!
//! Each stored transaction moves through the state machine
//! `Normal -> Disputed -> { Resolved | Chargeback }`; `Resolved` and
//! `Chargeback` are terminal. The three operations only change the state
//! field; balance effects are applied by the owning account, exactly once
//! per successful transition.

use vstd::prelude::*;

use crate::errors::AppError;
use crate::raw_transaction::{RawTransaction, RawTransactionType};

verus! {

/// Where a stored transaction stands in its dispute lifecycle.
#[derive(Clone, Copy, Debug, PartialEq, Eq, Structural)]
pub enum TransactionState {
    /// The initial state: never disputed, or not currently disputed.
    Normal,
    /// Under an open dispute; its funds are held.
    Disputed,
    /// A dispute was found invalid (terminal).
    Resolved,
    /// A dispute was upheld and the funds forfeited (terminal).
    Chargeback,
}

/// A deposit or withdrawal as the ledger keeps it: its ids, its exact
/// amount in ten-thousandths of a currency unit, its original type, and
/// its dispute lifecycle state.
#[derive(Clone, Copy, Debug)]
pub struct StoredTransaction {
    pub client: u16,
    pub tx: u32,
    pub amount: u64,
    pub tx_type: RawTransactionType,
    pub state: TransactionState,
}

/// The stored transaction a raw deposit or withdrawal record gives rise
/// to: same ids and type, a missing amount defaulting to zero, and the
/// lifecycle at its initial state.
pub open spec fn stored_of_raw(raw: RawTransaction) -> StoredTransaction {
    StoredTransaction {
        client: raw.client,
        tx: raw.tx,
        amount: match raw.amount {
            Some(a) => a,
            None => 0,
        },
        tx_type: raw.tx_type,
        state: TransactionState::Normal,
    }
}

/// What disputing a stored transaction does: only deposits can be
/// disputed, and only from the initial state; on success the state moves
/// to `Disputed`, on failure nothing changes.
pub open spec fn dispute_step(t: StoredTransaction) -> (StoredTransaction, Result<(), AppError>) {
    if t.tx_type != RawTransactionType::Deposit {
        (t, Err(AppError::CannotDisputeNonDeposit))
    } else if t.state != TransactionState::Normal {
        (t, Err(AppError::InvalidDisputeTransition))
    } else {
        ((StoredTransaction { state: TransactionState::Disputed, ..t }), Ok(()))
    }
}

/// What resolving a stored transaction does: only an open dispute can be
/// resolved; on success the state moves to the terminal `Resolved`.
pub open spec fn resolve_step(t: StoredTransaction) -> (StoredTransaction, Result<(), AppError>) {
    if t.state != TransactionState::Disputed {
        (t, Err(AppError::InvalidResolveTransition))
    } else {
        ((StoredTransaction { state: TransactionState::Resolved, ..t }), Ok(()))
    }
}

/// What charging back a stored transaction does: only an open dispute can
/// be charged back; on success the state moves to the terminal
/// `Chargeback`.
pub open spec fn chargeback_step(t: StoredTransaction) -> (StoredTransaction, Result<(), AppError>) {
    if t.state != TransactionState::Disputed {
        (t, Err(AppError::InvalidChargebackTransition))
    } else {
        ((StoredTransaction { state: TransactionState::Chargeback, ..t }), Ok(()))
    }
}

impl From<RawTransaction> for StoredTransaction {
    fn from(raw: RawTransaction) -> (r: StoredTransaction) {
        StoredTransaction {
            client: raw.client(),
            tx: raw.tx(),
            amount: match raw.amount() {
                Some(a) => a,
                None => 0,
            },
            tx_type: raw.tx_type(),
            state: TransactionState::Normal,
        }
    }
}

impl vstd::std_specs::convert::FromSpecImpl<RawTransaction> for StoredTransaction {
    open spec fn obeys_from_spec() -> bool {
        true
    }

    open spec fn from_spec(raw: RawTransaction) -> Self {
        stored_of_raw(raw)
    }
}

impl StoredTransaction {
    pub fn tx(&self) -> (r: u32)
        ensures
            r == self.tx,
    {
        self.tx
    }

    pub fn amount(&self) -> (r: u64)
        ensures
            r == self.amount,
    {
        self.amount
    }

    pub fn state(&self) -> (r: TransactionState)
        ensures
            r == self.state,
    {
        self.state
    }

    /// Opens a dispute on this transaction.
    pub fn dispute(&mut self) -> (r: Result<(), AppError>)
        ensures
            *final(self) == dispute_step(*old(self)).0,
            r == dispute_step(*old(self)).1,
    {
        if self.tx_type != RawTransactionType::Deposit {
            return Err(AppError::CannotDisputeNonDeposit);
        }
        if self.state != TransactionState::Normal {
            return Err(AppError::InvalidDisputeTransition);
        }
        self.state = TransactionState::Disputed;
        Ok(())
    }

    /// Closes an open dispute in the disputing client's disfavour.
    pub fn resolve(&mut self) -> (r: Result<(), AppError>)
        ensures
            *final(self) == resolve_step(*old(self)).0,
            r == resolve_step(*old(self)).1,
    {
        if self.state != TransactionState::Disputed {
            return Err(AppError::InvalidResolveTransition);
        }
        self.state = TransactionState::Resolved;
        Ok(())
    }

    /// Closes an open dispute in the disputing client's favour.
    pub fn chargeback(&mut self) -> (r: Result<(), AppError>)
        ensures
            *final(self) == chargeback_step(*old(self)).0,
            r == chargeback_step(*old(self)).1,
    {
        if self.state != TransactionState::Disputed {
            return Err(AppError::InvalidChargebackTransition);
        }
        self.state = TransactionState::Chargeback;
        Ok(())
    }
}

} // verus!
