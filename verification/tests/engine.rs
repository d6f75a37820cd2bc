//! Engine-level behaviour: routing by client id, lazy account creation,
//! the ordered export, and error propagation.

use payments_engine::engine::InMemoryEngine;
use payments_engine::errors::AppError;
use payments_engine::raw_transaction::{RawTransaction, RawTransactionType};

fn record(
    tx_type: RawTransactionType,
    client: u16,
    tx: u32,
    amount: Option<u64>,
) -> RawTransaction {
    RawTransaction::new(tx_type, client, tx, amount)
}

#[test]
fn test_engine_creates_accounts_on_first_sight() {
    let mut engine = InMemoryEngine::default();
    assert_eq!(
        engine.process_transaction(record(RawTransactionType::Deposit, 5, 1, Some(100_000))),
        Ok(())
    );
    assert_eq!(
        engine.process_transaction(record(RawTransactionType::Deposit, 2, 2, Some(30_000))),
        Ok(())
    );
    let accounts = engine.accounts();
    assert_eq!(accounts.len(), 2);
    // Exported in client-id order, regardless of arrival order.
    assert_eq!(accounts[0].client(), 2);
    assert_eq!(accounts[1].client(), 5);
    assert_eq!(accounts[0].available(), 30_000);
    assert_eq!(accounts[1].available(), 100_000);
}

#[test]
fn test_engine_routes_by_client() {
    let mut engine = InMemoryEngine::default();
    assert_eq!(
        engine.process_transaction(record(RawTransactionType::Deposit, 1, 1, Some(100_000))),
        Ok(())
    );
    assert_eq!(
        engine.process_transaction(record(RawTransactionType::Deposit, 2, 2, Some(100_000))),
        Ok(())
    );
    assert_eq!(
        engine.process_transaction(record(RawTransactionType::Dispute, 1, 1, None)),
        Ok(())
    );
    let accounts = engine.accounts();
    assert_eq!(accounts[0].client(), 1);
    assert_eq!(accounts[0].held(), 100_000);
    assert_eq!(accounts[0].available(), 0);
    // The other client's account is untouched.
    assert_eq!(accounts[1].client(), 2);
    assert_eq!(accounts[1].held(), 0);
    assert_eq!(accounts[1].available(), 100_000);
}

#[test]
fn test_engine_propagates_account_errors() {
    let mut engine = InMemoryEngine::default();
    assert_eq!(
        engine.process_transaction(record(RawTransactionType::Deposit, 1, 1, Some(100_000))),
        Ok(())
    );
    assert_eq!(
        engine.process_transaction(record(RawTransactionType::Withdrawal, 1, 2, Some(150_000))),
        Err(AppError::InsufficientFunds)
    );
    assert_eq!(
        engine.process_transaction(record(RawTransactionType::Resolve, 1, 1, None)),
        Err(AppError::InvalidResolveTransition)
    );
    assert_eq!(
        engine.process_transaction(record(RawTransactionType::Dispute, 9, 42, None)),
        Err(AppError::TransactionNotFound(42))
    );
    // A failed record still creates the account it was routed to.
    assert_eq!(engine.accounts().len(), 2);
}

#[test]
fn test_engine_full_dispute_flow() {
    let mut engine = InMemoryEngine::default();
    assert_eq!(
        engine.process_transaction(record(RawTransactionType::Deposit, 1, 1, Some(100_000))),
        Ok(())
    );
    assert_eq!(
        engine.process_transaction(record(RawTransactionType::Dispute, 1, 1, None)),
        Ok(())
    );
    assert_eq!(
        engine.process_transaction(record(RawTransactionType::Chargeback, 1, 1, None)),
        Ok(())
    );
    let accounts = engine.accounts();
    assert_eq!(accounts[0].available(), 0);
    assert_eq!(accounts[0].held(), 0);
    assert_eq!(accounts[0].total(), 0);
    assert!(accounts[0].locked());
    // The locked account rejects everything that follows.
    assert_eq!(
        engine.process_transaction(record(RawTransactionType::Deposit, 1, 3, Some(10_000))),
        Err(AppError::AccountIsLocked)
    );
}

#[test]
fn test_engine_can_process_ordinary_records() {
    let mut engine = InMemoryEngine::default();
    let d = record(RawTransactionType::Deposit, 1, 1, Some(100_000));
    assert!(engine.can_process(&d));
    assert_eq!(engine.process_transaction(d), Ok(()));
    let w = record(RawTransactionType::Withdrawal, 1, 2, Some(40_000));
    assert!(engine.can_process(&w));
    let q = record(RawTransactionType::Dispute, 1, 1, None);
    assert!(engine.can_process(&q));
}
