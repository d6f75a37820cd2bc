//! Account-level scenarios: balances, the dispute flow, and every error.
//!
//! Amounts are fixed-point values in ten-thousandths of a currency unit,
//! so 10.0 currency units are written 100_000.

use payments_engine::account::Account;
use payments_engine::errors::AppError;
use payments_engine::raw_transaction::{RawTransaction, RawTransactionType};
use payments_engine::transaction_command::TransactionCommand;

fn deposit(client: u16, tx: u32, amount: u64) -> TransactionCommand {
    TransactionCommand::from(RawTransaction::new(
        RawTransactionType::Deposit,
        client,
        tx,
        Some(amount),
    ))
}

fn withdrawal(client: u16, tx: u32, amount: u64) -> TransactionCommand {
    TransactionCommand::from(RawTransaction::new(
        RawTransactionType::Withdrawal,
        client,
        tx,
        Some(amount),
    ))
}

#[test]
fn test_deposit_updates_balances() {
    let mut account = Account::new(1);
    assert_eq!(account.process_transaction(deposit(1, 1, 100_000)), Ok(()));
    assert_eq!(account.available(), 100_000);
    assert_eq!(account.held(), 0);
    assert_eq!(account.total(), 100_000);
    assert!(!account.locked());
}

#[test]
fn test_withdrawal_exceeding_available_fails() {
    let mut account = Account::new(1);
    assert_eq!(account.process_transaction(deposit(1, 1, 100_000)), Ok(()));
    assert_eq!(
        account.process_transaction(withdrawal(1, 2, 150_000)),
        Err(AppError::InsufficientFunds)
    );
    assert_eq!(account.available(), 100_000);
    assert_eq!(account.total(), 100_000);
}

#[test]
fn test_withdrawal_of_exact_balance_succeeds() {
    let mut account = Account::new(1);
    assert_eq!(account.process_transaction(deposit(1, 1, 100_000)), Ok(()));
    assert_eq!(account.process_transaction(withdrawal(1, 2, 100_000)), Ok(()));
    assert_eq!(account.available(), 0);
    assert_eq!(account.total(), 0);
}

#[test]
fn test_dispute_moves_funds_to_held() {
    let mut account = Account::new(1);
    assert_eq!(account.process_transaction(deposit(1, 1, 100_000)), Ok(()));
    assert_eq!(
        account.process_transaction(TransactionCommand::Dispute { tx_id: 1 }),
        Ok(())
    );
    assert_eq!(account.available(), 0);
    assert_eq!(account.held(), 100_000);
    assert_eq!(account.total(), 100_000);
    assert!(!account.locked());
}

#[test]
fn test_resolve_restores_undisputed_state() {
    let mut account = Account::new(1);
    assert_eq!(account.process_transaction(deposit(1, 1, 100_000)), Ok(()));
    assert_eq!(
        account.process_transaction(TransactionCommand::Dispute { tx_id: 1 }),
        Ok(())
    );
    assert_eq!(
        account.process_transaction(TransactionCommand::Resolve { tx_id: 1 }),
        Ok(())
    );
    // The same state as if the deposit had never been disputed.
    assert_eq!(account.available(), 100_000);
    assert_eq!(account.held(), 0);
    assert_eq!(account.total(), 100_000);
    assert!(!account.locked());
}

#[test]
fn test_chargeback_forfeits_funds_and_locks() {
    let mut account = Account::new(1);
    assert_eq!(account.process_transaction(deposit(1, 1, 100_000)), Ok(()));
    assert_eq!(
        account.process_transaction(TransactionCommand::Dispute { tx_id: 1 }),
        Ok(())
    );
    assert_eq!(
        account.process_transaction(TransactionCommand::Chargeback { tx_id: 1 }),
        Ok(())
    );
    assert_eq!(account.available(), 0);
    assert_eq!(account.held(), 0);
    assert_eq!(account.total(), 0);
    assert!(account.locked());
    // Any further transaction is rejected.
    assert_eq!(
        account.process_transaction(deposit(1, 2, 50_000)),
        Err(AppError::AccountIsLocked)
    );
    assert_eq!(
        account.process_transaction(TransactionCommand::Resolve { tx_id: 1 }),
        Err(AppError::AccountIsLocked)
    );
    assert_eq!(account.total(), 0);
}

#[test]
fn test_dispute_before_deposit_fails() {
    let mut account = Account::new(1);
    assert_eq!(
        account.process_transaction(TransactionCommand::Dispute { tx_id: 9 }),
        Err(AppError::TransactionNotFound(9))
    );
    // After the deposit arrives, the same dispute succeeds.
    assert_eq!(account.process_transaction(deposit(1, 9, 100_000)), Ok(()));
    assert_eq!(
        account.process_transaction(TransactionCommand::Dispute { tx_id: 9 }),
        Ok(())
    );
    // Disputing it again fails: it is already disputed.
    assert_eq!(
        account.process_transaction(TransactionCommand::Dispute { tx_id: 9 }),
        Err(AppError::InvalidDisputeTransition)
    );
}

#[test]
fn test_dispute_of_withdrawal_fails() {
    let mut account = Account::new(1);
    assert_eq!(account.process_transaction(deposit(1, 1, 100_000)), Ok(()));
    assert_eq!(account.process_transaction(withdrawal(1, 2, 50_000)), Ok(()));
    assert_eq!(
        account.process_transaction(TransactionCommand::Dispute { tx_id: 2 }),
        Err(AppError::CannotDisputeNonDeposit)
    );
    assert_eq!(account.available(), 50_000);
    assert_eq!(account.held(), 0);
}

#[test]
fn test_resolve_of_undisputed_deposit_fails() {
    let mut account = Account::new(1);
    assert_eq!(account.process_transaction(deposit(1, 1, 100_000)), Ok(()));
    assert_eq!(
        account.process_transaction(TransactionCommand::Resolve { tx_id: 1 }),
        Err(AppError::InvalidResolveTransition)
    );
    assert_eq!(account.available(), 100_000);
}

#[test]
fn test_chargeback_of_undisputed_deposit_fails() {
    let mut account = Account::new(1);
    assert_eq!(account.process_transaction(deposit(1, 1, 100_000)), Ok(()));
    assert_eq!(
        account.process_transaction(TransactionCommand::Chargeback { tx_id: 1 }),
        Err(AppError::InvalidChargebackTransition)
    );
    assert_eq!(account.total(), 100_000);
    assert!(!account.locked());
}

#[test]
fn test_terminal_resolve_is_idempotent_failure() {
    let mut account = Account::new(1);
    assert_eq!(account.process_transaction(deposit(1, 1, 100_000)), Ok(()));
    assert_eq!(
        account.process_transaction(TransactionCommand::Dispute { tx_id: 1 }),
        Ok(())
    );
    assert_eq!(
        account.process_transaction(TransactionCommand::Resolve { tx_id: 1 }),
        Ok(())
    );
    // A second resolve, or a chargeback, of the closed dispute always
    // fails and moves no funds.
    assert_eq!(
        account.process_transaction(TransactionCommand::Resolve { tx_id: 1 }),
        Err(AppError::InvalidResolveTransition)
    );
    assert_eq!(
        account.process_transaction(TransactionCommand::Chargeback { tx_id: 1 }),
        Err(AppError::InvalidChargebackTransition)
    );
    assert_eq!(account.available(), 100_000);
    assert_eq!(account.held(), 0);
    assert_eq!(account.total(), 100_000);
}

#[test]
fn test_missing_amount_defaults_to_zero() {
    let mut account = Account::new(1);
    let cmd = TransactionCommand::from(RawTransaction::new(
        RawTransactionType::Deposit,
        1,
        1,
        None,
    ));
    assert_eq!(account.process_transaction(cmd), Ok(()));
    assert_eq!(account.available(), 0);
    assert_eq!(account.total(), 0);
}

#[test]
fn test_repeated_transaction_id_overwrites() {
    let mut account = Account::new(1);
    assert_eq!(account.process_transaction(deposit(1, 1, 100_000)), Ok(()));
    assert_eq!(account.process_transaction(deposit(1, 1, 50_000)), Ok(()));
    // Both deposits count towards the balance, but the table now holds
    // the later record under the id.
    assert_eq!(account.available(), 150_000);
    assert_eq!(
        account.process_transaction(TransactionCommand::Dispute { tx_id: 1 }),
        Ok(())
    );
    assert_eq!(account.held(), 50_000);
    assert_eq!(account.available(), 100_000);
    assert_eq!(account.total(), 150_000);
}

#[test]
fn test_dispute_can_drive_available_negative() {
    let mut account = Account::new(1);
    assert_eq!(account.process_transaction(deposit(1, 1, 100_000)), Ok(()));
    assert_eq!(account.process_transaction(withdrawal(1, 2, 50_000)), Ok(()));
    assert_eq!(
        account.process_transaction(TransactionCommand::Dispute { tx_id: 1 }),
        Ok(())
    );
    // The deposited funds were partly withdrawn before the dispute froze
    // them, so the available balance goes below zero; the invariant
    // total == available + held still holds.
    assert_eq!(account.available(), -50_000);
    assert_eq!(account.held(), 100_000);
    assert_eq!(account.total(), 50_000);
}

#[test]
fn test_can_apply_accepts_ordinary_commands() {
    let mut account = Account::new(1);
    assert!(account.can_apply(deposit(1, 1, 100_000)));
    assert_eq!(account.process_transaction(deposit(1, 1, 100_000)), Ok(()));
    assert!(account.can_apply(withdrawal(1, 2, 50_000)));
    assert!(account.can_apply(TransactionCommand::Dispute { tx_id: 1 }));
    assert!(account.can_apply(TransactionCommand::Resolve { tx_id: 1 }));
}

#[test]
fn test_update_total_recomputes_sum() {
    let mut account = Account::new(3);
    assert_eq!(account.process_transaction(deposit(3, 1, 70_000)), Ok(()));
    account.update_total();
    assert_eq!(account.total(), account.available() + account.held());
    assert_eq!(account.client(), 3);
}
