//! The shape of one parsed input record: the transaction type, the client
//! and transaction ids, and an optional amount.
//!
//! Amounts throughout the library are exact fixed-point values: an integer
//! count of ten-thousandths of a currency unit.

use vstd::prelude::*;

verus! {

/// The five kinds of input record.
#[derive(Clone, Copy, Debug, PartialEq, Eq, Structural)]
pub enum RawTransactionType {
    Deposit,
    Withdrawal,
    Dispute,
    Resolve,
    Chargeback,
}

/// One parsed input record. Deposits and withdrawals carry an amount;
/// disputes, resolves and chargebacks only reference an earlier
/// transaction id.
#[derive(Clone, Copy, Debug)]
pub struct RawTransaction {
    pub tx_type: RawTransactionType,
    pub client: u16,
    pub tx: u32,
    pub amount: Option<u64>,
}

impl RawTransaction {
    /// Assembles a record from its fields.
    pub fn new(tx_type: RawTransactionType, client: u16, tx: u32, amount: Option<u64>) -> (r: Self)
        ensures
            r == (RawTransaction { tx_type, client, tx, amount }),
    {
        RawTransaction { tx_type, client, tx, amount }
    }

    pub fn tx_type(&self) -> (r: RawTransactionType)
        ensures
            r == self.tx_type,
    {
        self.tx_type
    }

    pub fn client(&self) -> (r: u16)
        ensures
            r == self.client,
    {
        self.client
    }

    pub fn tx(&self) -> (r: u32)
        ensures
            r == self.tx,
    {
        self.tx
    }

    pub fn amount(&self) -> (r: Option<u64>)
        ensures
            r == self.amount,
    {
        self.amount
    }
}

} // verus!
