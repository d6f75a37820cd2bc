//! The guarantees the ledger gives across whole runs, proved once and for
//! all over the transition function [`account_step`].

use vstd::prelude::*;

use crate::account::{account_step, has_tx, lemma_step_preserves_wf, tx_index, AccountModel};
use crate::errors::AppError;
use crate::raw_transaction::RawTransactionType;
use crate::stored_transaction::{
    chargeback_step, resolve_step, StoredTransaction, TransactionState,
};
use crate::transaction_command::TransactionCommand;

verus! {

/// The account an initial state and a sequence of commands lead to, each
/// command applied in order, rejected commands leaving the state as it
/// was.
pub open spec fn account_run(m: AccountModel, cmds: Seq<TransactionCommand>) -> AccountModel
    decreases cmds.len(),
{
    if cmds.len() == 0 {
        m
    } else {
        account_run(account_step(m, cmds[0]).0, cmds.drop_first())
    }
}

/// After any sequence of commands on a well-formed account, the account
/// is still well-formed: in particular its total balance equals available
/// plus held, and its held balance is never negative.
pub proof fn lemma_run_preserves_wf(m: AccountModel, cmds: Seq<TransactionCommand>)
    requires
        m.wf(),
        forall|i: int| 0 <= i < cmds.len() ==> cmds[i].wf(),
    ensures
        account_run(m, cmds).wf(),
        account_run(m, cmds).total == account_run(m, cmds).available + account_run(m, cmds).held,
        account_run(m, cmds).held >= 0,
    decreases cmds.len(),
{
    if cmds.len() > 0 {
        lemma_step_preserves_wf(m, cmds[0]);
        let rest = cmds.drop_first();
        assert forall|i: int| 0 <= i < rest.len() implies rest[i].wf() by {
            assert(cmds[i + 1].wf());
        }
        lemma_run_preserves_wf(account_step(m, cmds[0]).0, rest);
    }
}

/// A well-formed account with a non-negative available balance keeps it
/// non-negative under any command but one: a dispute whose deposit's
/// amount exceeds what is still available (its funds may have been
/// withdrawn in the meantime) drives the available balance below zero.
pub proof fn lemma_step_keeps_available_nonneg(m: AccountModel, cmd: TransactionCommand)
    requires
        m.wf(),
        m.available >= 0,
        match cmd {
            TransactionCommand::Dispute { tx_id } => {
                let t = m.txs[tx_index(m.txs, tx_id)];
                (has_tx(m.txs, tx_id) && t.tx_type == RawTransactionType::Deposit && t.state
                    == TransactionState::Normal) ==> t.amount <= m.available
            },
            _ => true,
        },
    ensures
        account_step(m, cmd).0.available >= 0,
{
}

/// Once an account is locked, it is frozen: every later command is
/// rejected with `AccountIsLocked`, and no sequence of commands changes
/// any of its state.
pub proof fn lemma_locked_account_is_frozen(m: AccountModel, cmds: Seq<TransactionCommand>)
    requires
        m.locked,
    ensures
        account_run(m, cmds) == m,
        forall|cmd: TransactionCommand|
            #[trigger] account_step(m, cmd) == (m, Err::<(), AppError>(AppError::AccountIsLocked)),
    decreases cmds.len(),
{
    if cmds.len() > 0 {
        lemma_locked_account_is_frozen(m, cmds.drop_first());
    }
}

/// A stored transaction in a terminal lifecycle state rejects any further
/// resolve or chargeback and stays exactly as it is.
pub proof fn lemma_terminal_transaction_rejects(t: StoredTransaction)
    requires
        t.state == TransactionState::Resolved || t.state == TransactionState::Chargeback,
    ensures
        resolve_step(t) == (t, Err::<(), AppError>(AppError::InvalidResolveTransition)),
        chargeback_step(t) == (t, Err::<(), AppError>(AppError::InvalidChargebackTransition)),
{
}

/// Resolving or charging back a transaction whose dispute has already
/// been closed fails and moves no funds: the account is left untouched.
pub proof fn lemma_terminal_states_idempotent(m: AccountModel, tx_id: u32)
    requires
        has_tx(m.txs, tx_id),
        m.txs[tx_index(m.txs, tx_id)].state == TransactionState::Resolved || m.txs[tx_index(
            m.txs,
            tx_id,
        )].state == TransactionState::Chargeback,
    ensures
        account_step(m, TransactionCommand::Resolve { tx_id }).0 == m,
        account_step(m, TransactionCommand::Resolve { tx_id }).1 is Err,
        account_step(m, TransactionCommand::Chargeback { tx_id }).0 == m,
        account_step(m, TransactionCommand::Chargeback { tx_id }).1 is Err,
        !m.locked ==> account_step(m, TransactionCommand::Resolve { tx_id }).1 == Err::<
            (),
            AppError,
        >(AppError::InvalidResolveTransition),
        !m.locked ==> account_step(m, TransactionCommand::Chargeback { tx_id }).1 == Err::<
            (),
            AppError,
        >(AppError::InvalidChargebackTransition),
{
}

/// Disputes are order-sensitive: disputing an id that has not been
/// deposited yet fails with `TransactionNotFound` and changes nothing;
/// once the deposit is stored, a dispute of it succeeds exactly when the
/// deposit is not already disputed or closed.
pub proof fn lemma_dispute_order_sensitivity(m: AccountModel, tx_id: u32)
    requires
        !m.locked,
    ensures
        !has_tx(m.txs, tx_id) ==> account_step(m, TransactionCommand::Dispute { tx_id }) == (
            m,
            Err::<(), AppError>(AppError::TransactionNotFound(tx_id)),
        ),
        (has_tx(m.txs, tx_id) && m.txs[tx_index(m.txs, tx_id)].tx_type
            == RawTransactionType::Deposit) ==> (account_step(
            m,
            TransactionCommand::Dispute { tx_id },
        ).1 is Ok <==> m.txs[tx_index(m.txs, tx_id)].state == TransactionState::Normal),
{
}

} // verus!
