//! Per-client account state and the command processor, the heart of the
//! ledger.
//!
//! An account keeps its available balance, the balance held under open
//! disputes, the total balance (always the sum of the other two), a lock
//! flag, and the table of its stored deposit and withdrawal transactions.
//! Every mutation goes through [`Account::process_transaction`], whose
//! exact effect is the mathematical transition function [`account_step`].
//!
//! Balances are signed fixed-point values in ten-thousandths of a currency
//! unit. A dispute may drive the available balance below zero (the funds
//! of the disputed deposit may already have been withdrawn); the held and
//! total balances never fall below zero.

use vstd::prelude::*;
use vstd::pervasive::VecAdditionalExecFns;

use crate::errors::AppError;
use crate::raw_transaction::RawTransactionType;
use crate::stored_transaction::{
    chargeback_step, dispute_step, resolve_step, StoredTransaction, TransactionState,
};
use crate::transaction_command::TransactionCommand;

verus! {

/// The mathematical value of an account: unbounded balances and the
/// sequence of stored transactions.
#[verifier::ext_equal]
pub ghost struct AccountModel {
    pub client: u16,
    pub available: int,
    pub held: int,
    pub total: int,
    pub locked: bool,
    pub txs: Seq<StoredTransaction>,
}

/// Whether some stored transaction carries the given id.
pub open spec fn has_tx(txs: Seq<StoredTransaction>, tx_id: u32) -> bool {
    exists|i: int| 0 <= i < txs.len() && txs[i].tx == tx_id
}

/// The position of the stored transaction with the given id; meaningful
/// when the id occurs and ids are unique.
pub open spec fn tx_index(txs: Seq<StoredTransaction>, tx_id: u32) -> int {
    choose|i: int| 0 <= i < txs.len() && txs[i].tx == tx_id
}

/// No two stored transactions share an id.
pub open spec fn unique_ids(txs: Seq<StoredTransaction>) -> bool {
    forall|i: int, j: int| 0 <= i < j < txs.len() ==> txs[i].tx != txs[j].tx
}

/// Keying the table by transaction id: an incoming record with a known id
/// silently replaces the stored transaction, a new id is appended.
pub open spec fn store_tx(txs: Seq<StoredTransaction>, t: StoredTransaction) -> Seq<
    StoredTransaction,
> {
    if has_tx(txs, t.tx) {
        txs.update(tx_index(txs, t.tx), t)
    } else {
        txs.push(t)
    }
}

/// What one stored transaction contributes to the funds that an open
/// dispute is holding.
pub open spec fn held_contrib(t: StoredTransaction) -> int {
    if t.state == TransactionState::Disputed {
        t.amount as int
    } else {
        0
    }
}

/// The amount currently under dispute across a transaction table.
pub open spec fn disputed_sum(txs: Seq<StoredTransaction>) -> int
    decreases txs.len(),
{
    if txs.len() == 0 {
        0
    } else {
        disputed_sum(txs.drop_last()) + held_contrib(txs.last())
    }
}

impl AccountModel {
    /// Well-formedness of an account: the total balance is the sum of the
    /// available and held balances, the held balance covers every open
    /// dispute and never falls below zero, and transaction ids are unique.
    pub open spec fn wf(self) -> bool {
        &&& self.total == self.available + self.held
        &&& self.held >= disputed_sum(self.txs)
        &&& self.held >= 0
        &&& unique_ids(self.txs)
    }

    /// Whether the balances fit the machine representation.
    pub open spec fn representable(self) -> bool {
        &&& i128::MIN <= self.available <= i128::MAX
        &&& i128::MIN <= self.held <= i128::MAX
        &&& i128::MIN <= self.total <= i128::MAX
    }

    /// The state of a freshly created account for a client.
    pub open spec fn fresh(client: u16) -> AccountModel {
        AccountModel {
            client,
            available: 0,
            held: 0,
            total: 0,
            locked: false,
            txs: Seq::<StoredTransaction>::empty(),
        }
    }
}

/// The effect of one command on an account: the state after the command
/// and the outcome. A failed command leaves the account exactly as it
/// was; a locked account fails every command.
pub open spec fn account_step(pre: AccountModel, cmd: TransactionCommand) -> (AccountModel, Result<
    (),
    AppError,
>) {
    if pre.locked {
        (pre, Err(AppError::AccountIsLocked))
    } else {
        match cmd {
            TransactionCommand::Deposit(t) => {
                let available = pre.available + t.amount;
                (
                    (AccountModel {
                        available,
                        total: available + pre.held,
                        txs: store_tx(pre.txs, t),
                        ..pre
                    }),
                    Ok(()),
                )
            },
            TransactionCommand::Withdrawal(t) => {
                if t.amount > pre.available {
                    (pre, Err(AppError::InsufficientFunds))
                } else {
                    let available = pre.available - t.amount;
                    (
                        (AccountModel {
                            available,
                            total: available + pre.held,
                            txs: store_tx(pre.txs, t),
                            ..pre
                        }),
                        Ok(()),
                    )
                }
            },
            TransactionCommand::Dispute { tx_id } => {
                if !has_tx(pre.txs, tx_id) {
                    (pre, Err(AppError::TransactionNotFound(tx_id)))
                } else {
                    let i = tx_index(pre.txs, tx_id);
                    let sr = dispute_step(pre.txs[i]);
                    if sr.1 is Err {
                        (pre, sr.1)
                    } else {
                        let available = pre.available - pre.txs[i].amount;
                        let held = pre.held + pre.txs[i].amount;
                        (
                            (AccountModel {
                                available,
                                held,
                                total: available + held,
                                txs: pre.txs.update(i, sr.0),
                                ..pre
                            }),
                            Ok(()),
                        )
                    }
                }
            },
            TransactionCommand::Resolve { tx_id } => {
                if !has_tx(pre.txs, tx_id) {
                    (pre, Err(AppError::TransactionNotFound(tx_id)))
                } else {
                    let i = tx_index(pre.txs, tx_id);
                    let sr = resolve_step(pre.txs[i]);
                    if sr.1 is Err {
                        (pre, sr.1)
                    } else {
                        let available = pre.available + pre.txs[i].amount;
                        let held = pre.held - pre.txs[i].amount;
                        (
                            (AccountModel {
                                available,
                                held,
                                total: available + held,
                                txs: pre.txs.update(i, sr.0),
                                ..pre
                            }),
                            Ok(()),
                        )
                    }
                }
            },
            TransactionCommand::Chargeback { tx_id } => {
                if !has_tx(pre.txs, tx_id) {
                    (pre, Err(AppError::TransactionNotFound(tx_id)))
                } else {
                    let i = tx_index(pre.txs, tx_id);
                    let sr = chargeback_step(pre.txs[i]);
                    if sr.1 is Err {
                        (pre, sr.1)
                    } else {
                        let held = pre.held - pre.txs[i].amount;
                        (
                            (AccountModel {
                                held,
                                total: pre.available + held,
                                locked: true,
                                txs: pre.txs.update(i, sr.0),
                                ..pre
                            }),
                            Ok(()),
                        )
                    }
                }
            },
        }
    }
}

/// The amount under dispute is never negative.
pub proof fn lemma_disputed_sum_nonneg(txs: Seq<StoredTransaction>)
    ensures
        disputed_sum(txs) >= 0,
    decreases txs.len(),
{
    if txs.len() > 0 {
        lemma_disputed_sum_nonneg(txs.drop_last());
    }
}

/// Appending a stored transaction adds its contribution to the amount
/// under dispute.
pub proof fn lemma_disputed_sum_push(txs: Seq<StoredTransaction>, t: StoredTransaction)
    ensures
        disputed_sum(txs.push(t)) == disputed_sum(txs) + held_contrib(t),
{
    assert(txs.push(t).drop_last() =~= txs);
}

/// Replacing a stored transaction swaps its contribution to the amount
/// under dispute.
pub proof fn lemma_disputed_sum_update(txs: Seq<StoredTransaction>, i: int, t: StoredTransaction)
    requires
        0 <= i < txs.len(),
    ensures
        disputed_sum(txs.update(i, t)) == disputed_sum(txs) - held_contrib(txs[i]) + held_contrib(
            t,
        ),
    decreases txs.len(),
{
    if i == txs.len() - 1 {
        assert(txs.update(i, t).drop_last() =~= txs.drop_last());
    } else {
        assert(txs.update(i, t).drop_last() =~= txs.drop_last().update(i, t));
        lemma_disputed_sum_update(txs.drop_last(), i, t);
    }
}

/// The amount under dispute covers each single contribution.
pub proof fn lemma_disputed_sum_ge_contrib(txs: Seq<StoredTransaction>, i: int)
    requires
        0 <= i < txs.len(),
    ensures
        disputed_sum(txs) >= held_contrib(txs[i]),
    decreases txs.len(),
{
    if i == txs.len() - 1 {
        lemma_disputed_sum_nonneg(txs.drop_last());
    } else {
        lemma_disputed_sum_ge_contrib(txs.drop_last(), i);
    }
}

/// The id found at a position is found again at that position: with
/// unique ids, `tx_index` inverts indexing.
pub proof fn lemma_tx_index_of_position(txs: Seq<StoredTransaction>, i: int)
    requires
        unique_ids(txs),
        0 <= i < txs.len(),
    ensures
        has_tx(txs, txs[i].tx),
        tx_index(txs, txs[i].tx) == i,
{
    assert(has_tx(txs, txs[i].tx));
    let j = tx_index(txs, txs[i].tx);
    if j != i {
        if i < j {
            assert(txs[i].tx != txs[j].tx);
        } else {
            assert(txs[j].tx != txs[i].tx);
        }
    }
}

/// Storing a transaction keeps ids unique.
pub proof fn lemma_store_tx_unique(txs: Seq<StoredTransaction>, t: StoredTransaction)
    requires
        unique_ids(txs),
    ensures
        unique_ids(store_tx(txs, t)),
{
    if has_tx(txs, t.tx) {
        let i = tx_index(txs, t.tx);
        let txs2 = txs.update(i, t);
        assert forall|p: int, q: int| 0 <= p < q < txs2.len() implies txs2[p].tx != txs2[q].tx by {
            assert(txs[p].tx != txs[q].tx);
        }
    } else {
        let txs2 = txs.push(t);
        assert forall|p: int, q: int| 0 <= p < q < txs2.len() implies txs2[p].tx != txs2[q].tx by {
            if q == txs.len() {
                assert(!(0 <= p < txs.len() && txs[p].tx == t.tx));
            } else {
                assert(txs[p].tx != txs[q].tx);
            }
        }
    }
}

/// One command preserves well-formedness: the balance equation, the
/// cover of open disputes by the held balance, the non-negative held
/// balance, and the uniqueness of transaction ids all survive every
/// accepted or rejected command.
pub proof fn lemma_step_preserves_wf(pre: AccountModel, cmd: TransactionCommand)
    requires
        pre.wf(),
        cmd.wf(),
    ensures
        account_step(pre, cmd).0.wf(),
{
    let post = account_step(pre, cmd).0;
    if !pre.locked {
        match cmd {
            TransactionCommand::Deposit(t) | TransactionCommand::Withdrawal(t) => {
                if post != pre {
                    lemma_store_tx_unique(pre.txs, t);
                    if has_tx(pre.txs, t.tx) {
                        let i = tx_index(pre.txs, t.tx);
                        lemma_disputed_sum_update(pre.txs, i, t);
                    } else {
                        lemma_disputed_sum_push(pre.txs, t);
                    }
                }
            },
            TransactionCommand::Dispute { tx_id } | TransactionCommand::Resolve { tx_id }
                | TransactionCommand::Chargeback { tx_id } => {
                if post != pre && has_tx(pre.txs, tx_id) {
                    let i = tx_index(pre.txs, tx_id);
                    lemma_disputed_sum_ge_contrib(pre.txs, i);
                    lemma_disputed_sum_update(pre.txs, i, post.txs[i]);
                    assert forall|p: int, q: int| 0 <= p < q < post.txs.len() implies post.txs[p].tx
                        != post.txs[q].tx by {
                        assert(pre.txs[p].tx != pre.txs[q].tx);
                    }
                }
            },
        }
    }
}

/// A client's account: balances in ten-thousandths of a currency unit,
/// the lock flag, and the table of stored transactions.
pub struct Account {
    client: u16,
    available: i128,
    held: i128,
    total: i128,
    locked: bool,
    transactions: Vec<StoredTransaction>,
}

impl View for Account {
    type V = AccountModel;

    closed spec fn view(&self) -> AccountModel {
        AccountModel {
            client: self.client,
            available: self.available as int,
            held: self.held as int,
            total: self.total as int,
            locked: self.locked,
            txs: self.transactions@,
        }
    }
}

impl Account {
    /// The account's invariant; established by [`Account::new`] and
    /// preserved by every operation.
    pub open spec fn inv(&self) -> bool {
        self@.wf()
    }

    /// A fresh account for a client: zero balances, unlocked, no stored
    /// transactions.
    pub fn new(client: u16) -> (r: Account)
        ensures
            r@ == AccountModel::fresh(client),
            r.inv(),
    {
        let r = Account {
            client,
            available: 0,
            held: 0,
            total: 0,
            locked: false,
            transactions: Vec::new(),
        };
        proof {
            assert(r@ =~= AccountModel::fresh(client));
        }
        r
    }

    pub fn locked(&self) -> (r: bool)
        ensures
            r == self@.locked,
    {
        self.locked
    }

    pub fn client(&self) -> (r: u16)
        ensures
            r == self@.client,
    {
        self.client
    }

    pub fn available(&self) -> (r: i128)
        ensures
            r == self@.available,
    {
        self.available
    }

    pub fn held(&self) -> (r: i128)
        ensures
            r == self@.held,
    {
        self.held
    }

    pub fn total(&self) -> (r: i128)
        ensures
            r == self@.total,
    {
        self.total
    }

    /// Recomputes the total balance as available plus held.
    pub fn update_total(&mut self)
        requires
            i128::MIN <= old(self)@.available + old(self)@.held <= i128::MAX,
        ensures
            final(self)@ == (AccountModel {
                total: old(self)@.available + old(self)@.held,
                ..old(self)@
            }),
    {
        self.total = self.available + self.held;
    }

    /// The position of the stored transaction with the given id, if any.
    fn find_index(&self, tx_id: u32) -> (r: Option<usize>)
        ensures
            match r {
                Some(i) => i < self@.txs.len() && self@.txs[i as int].tx == tx_id,
                None => !has_tx(self@.txs, tx_id),
            },
    {
        let mut i: usize = 0;
        while i < self.transactions.len()
            invariant
                i <= self.transactions@.len(),
                forall|j: int| 0 <= j < i ==> self.transactions@[j].tx != tx_id,
            decreases self.transactions@.len() - i,
        {
            if self.transactions[i].tx() == tx_id {
                return Some(i);
            }
            i = i + 1;
        }
        None
    }

    /// Inserts a stored transaction keyed by its id, replacing a stored
    /// transaction that already carries the id.
    fn store_transaction(&mut self, t: StoredTransaction)
        requires
            unique_ids(old(self)@.txs),
        ensures
            final(self)@ == (AccountModel { txs: store_tx(old(self)@.txs, t), ..old(self)@ }),
    {
        match self.find_index(t.tx()) {
            Some(i) => {
                proof {
                    lemma_tx_index_of_position(self@.txs, i as int);
                }
                self.transactions.set(i, t);
            },
            None => {
                self.transactions.push(t);
            },
        }
    }

    /// Whether the balances that applying this command would produce fit
    /// the machine representation. Callers check this before handing the
    /// command to [`Account::process_transaction`]; a command that would
    /// be rejected always fits, since it changes nothing.
    pub fn can_apply(&self, cmd: TransactionCommand) -> (r: bool)
        requires
            self.inv(),
        ensures
            r == account_step(self@, cmd).0.representable(),
    {
        if self.locked {
            return true;
        }
        match cmd {
            TransactionCommand::Deposit(t) => {
                let amount = t.amount() as i128;
                self.available <= i128::MAX - amount && self.available + amount <= i128::MAX
                    - self.held
            },
            TransactionCommand::Withdrawal(_) => true,
            TransactionCommand::Dispute { tx_id } => {
                match self.find_index(tx_id) {
                    None => true,
                    Some(i) => {
                        proof {
                            lemma_tx_index_of_position(self@.txs, i as int);
                        }
                        let t = self.transactions[i];
                        if t.tx_type == RawTransactionType::Deposit && t.state
                            == TransactionState::Normal {
                            let amount = t.amount() as i128;
                            self.available >= i128::MIN + amount && self.held <= i128::MAX - amount
                        } else {
                            true
                        }
                    },
                }
            },
            TransactionCommand::Resolve { tx_id } | TransactionCommand::Chargeback { tx_id } => {
                proof {
                    if has_tx(self@.txs, tx_id) {
                        lemma_disputed_sum_ge_contrib(self@.txs, tx_index(self@.txs, tx_id));
                    }
                }
                true
            },
        }
    }

    /// Applies one command to this account. The outcome and the new state
    /// are exactly those of [`account_step`] on the account's value: a
    /// locked account rejects everything; a deposit adds to the available
    /// balance and stores the transaction; a withdrawal does the same
    /// downwards unless the amount exceeds the available balance; a
    /// dispute moves the referenced deposit's amount from available to
    /// held; a resolve moves it back; a chargeback forfeits it from held
    /// and locks the account. Any failure leaves the account unchanged.
    pub fn process_transaction(&mut self, cmd: TransactionCommand) -> (r: Result<(), AppError>)
        requires
            old(self).inv(),
            cmd.wf(),
            account_step(old(self)@, cmd).0.representable(),
        ensures
            final(self).inv(),
            final(self)@ == account_step(old(self)@, cmd).0,
            r == account_step(old(self)@, cmd).1,
    {
        proof {
            lemma_step_preserves_wf(old(self)@, cmd);
        }
        if self.locked {
            return Err(AppError::AccountIsLocked);
        }
        match cmd {
            TransactionCommand::Deposit(t) => {
                self.available = self.available + (t.amount() as i128);
                self.update_total();
                self.store_transaction(t);
                Ok(())
            },
            TransactionCommand::Withdrawal(t) => {
                if (t.amount() as i128) > self.available {
                    return Err(AppError::InsufficientFunds);
                }
                self.available = self.available - (t.amount() as i128);
                self.update_total();
                self.store_transaction(t);
                Ok(())
            },
            TransactionCommand::Dispute { tx_id } => {
                match self.find_index(tx_id) {
                    None => Err(AppError::TransactionNotFound(tx_id)),
                    Some(i) => {
                        proof {
                            lemma_tx_index_of_position(self@.txs, i as int);
                        }
                        let mut t = self.transactions[i];
                        let res = t.dispute();
                        match res {
                            Err(e) => Err(e),
                            Ok(()) => {
                                self.transactions.set(i, t);
                                let amount = t.amount() as i128;
                                self.available = self.available - amount;
                                self.held = self.held + amount;
                                self.update_total();
                                Ok(())
                            },
                        }
                    },
                }
            },
            TransactionCommand::Resolve { tx_id } => {
                match self.find_index(tx_id) {
                    None => Err(AppError::TransactionNotFound(tx_id)),
                    Some(i) => {
                        proof {
                            lemma_tx_index_of_position(self@.txs, i as int);
                        }
                        let mut t = self.transactions[i];
                        let res = t.resolve();
                        match res {
                            Err(e) => Err(e),
                            Ok(()) => {
                                self.transactions.set(i, t);
                                let amount = t.amount() as i128;
                                self.held = self.held - amount;
                                self.available = self.available + amount;
                                self.update_total();
                                Ok(())
                            },
                        }
                    },
                }
            },
            TransactionCommand::Chargeback { tx_id } => {
                match self.find_index(tx_id) {
                    None => Err(AppError::TransactionNotFound(tx_id)),
                    Some(i) => {
                        proof {
                            lemma_tx_index_of_position(self@.txs, i as int);
                        }
                        let mut t = self.transactions[i];
                        let res = t.chargeback();
                        match res {
                            Err(e) => Err(e),
                            Ok(()) => {
                                self.transactions.set(i, t);
                                let amount = t.amount() as i128;
                                self.locked = true;
                                self.held = self.held - amount;
                                self.update_total();
                                Ok(())
                            },
                        }
                    },
                }
            },
        }
    }
}

} // verus!
