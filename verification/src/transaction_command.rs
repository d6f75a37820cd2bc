//! The typed operation an input record asks of the ledger.
//!
//! Classification of a raw record is total: every record type maps to
//! exactly one command variant. Deposits and withdrawals carry a freshly
//! built stored transaction; the other three variants only carry the
//! referenced transaction id.

use vstd::prelude::*;

use crate::raw_transaction::{RawTransaction, RawTransactionType};
use crate::stored_transaction::{stored_of_raw, StoredTransaction, TransactionState};

verus! {

/// One operation for an account to perform.
#[derive(Clone, Copy, Debug)]
pub enum TransactionCommand {
    Deposit(StoredTransaction),
    Withdrawal(StoredTransaction),
    Dispute { tx_id: u32 },
    Resolve { tx_id: u32 },
    Chargeback { tx_id: u32 },
}

/// The command a raw record classifies to.
pub open spec fn command_of_raw(raw: RawTransaction) -> TransactionCommand {
    match raw.tx_type {
        RawTransactionType::Deposit => TransactionCommand::Deposit(stored_of_raw(raw)),
        RawTransactionType::Withdrawal => TransactionCommand::Withdrawal(stored_of_raw(raw)),
        RawTransactionType::Dispute => TransactionCommand::Dispute { tx_id: raw.tx },
        RawTransactionType::Resolve => TransactionCommand::Resolve { tx_id: raw.tx },
        RawTransactionType::Chargeback => TransactionCommand::Chargeback { tx_id: raw.tx },
    }
}

impl TransactionCommand {
    /// A well-shaped command: a deposit or withdrawal carries a freshly
    /// built stored transaction, one of the matching type whose lifecycle
    /// is still at its initial state. Commands classified from raw records
    /// always have this shape.
    pub open spec fn wf(self) -> bool {
        match self {
            TransactionCommand::Deposit(t) => t.tx_type == RawTransactionType::Deposit
                && t.state == TransactionState::Normal,
            TransactionCommand::Withdrawal(t) => t.tx_type == RawTransactionType::Withdrawal
                && t.state == TransactionState::Normal,
            TransactionCommand::Dispute { .. } => true,
            TransactionCommand::Resolve { .. } => true,
            TransactionCommand::Chargeback { .. } => true,
        }
    }
}

impl From<RawTransaction> for TransactionCommand {
    fn from(raw: RawTransaction) -> (r: TransactionCommand) {
        match raw.tx_type() {
            RawTransactionType::Deposit => TransactionCommand::Deposit(raw.into()),
            RawTransactionType::Withdrawal => TransactionCommand::Withdrawal(raw.into()),
            RawTransactionType::Dispute => TransactionCommand::Dispute { tx_id: raw.tx() },
            RawTransactionType::Resolve => TransactionCommand::Resolve { tx_id: raw.tx() },
            RawTransactionType::Chargeback => TransactionCommand::Chargeback { tx_id: raw.tx() },
        }
    }
}

impl vstd::std_specs::convert::FromSpecImpl<RawTransaction> for TransactionCommand {
    open spec fn obeys_from_spec() -> bool {
        true
    }

    open spec fn from_spec(raw: RawTransaction) -> Self {
        command_of_raw(raw)
    }
}

/// Classification always yields a well-shaped command.
pub proof fn lemma_command_of_raw_wf(raw: RawTransaction)
    ensures
        command_of_raw(raw).wf(),
{
}

} // verus!
