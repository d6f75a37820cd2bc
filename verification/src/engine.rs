//! Routing of raw records to per-client accounts.
//!
//! The engine keeps one account per client id, created on first sight of
//! the client and ordered by client id for the final export. Each record
//! is classified into a command and handed to its client's account; the
//! account's outcome is passed through unchanged.

use vstd::prelude::*;

use crate::account::{account_step, Account, AccountModel};
use crate::errors::AppError;
use crate::raw_transaction::RawTransaction;
use crate::transaction_command::{command_of_raw, lemma_command_of_raw_wf, TransactionCommand};

verus! {

/// Accounts are kept in strictly increasing client-id order.
pub open spec fn sorted_by_client(accts: Seq<AccountModel>) -> bool {
    forall|i: int, j: int| 0 <= i < j < accts.len() ==> accts[i].client < accts[j].client
}

/// Whether some account belongs to the given client.
pub open spec fn has_client(accts: Seq<AccountModel>, client: u16) -> bool {
    exists|i: int| 0 <= i < accts.len() && accts[i].client == client
}

/// The position of the given client's account; meaningful when the client
/// is present and the table is sorted.
pub open spec fn client_index(accts: Seq<AccountModel>, client: u16) -> int {
    choose|i: int| 0 <= i < accts.len() && accts[i].client == client
}

/// Where a new account for the given client belongs in a sorted table:
/// before the first account whose client id is not smaller.
pub open spec fn insert_pos(accts: Seq<AccountModel>, client: u16) -> int
    decreases accts.len(),
{
    if accts.len() == 0 {
        0
    } else if accts[0].client >= client {
        0
    } else {
        1 + insert_pos(accts.drop_first(), client)
    }
}

/// The account a record is applied to: the client's account if one
/// exists, else a fresh one.
pub open spec fn engine_target_pre(accts: Seq<AccountModel>, client: u16) -> AccountModel {
    if has_client(accts, client) {
        accts[client_index(accts, client)]
    } else {
        AccountModel::fresh(client)
    }
}

/// The effect of one raw record on the account table: the record's
/// command is applied to its client's account (created on first sight),
/// and the account's outcome is the engine's outcome.
pub open spec fn engine_step(accts: Seq<AccountModel>, raw: RawTransaction) -> (Seq<AccountModel>, Result<
    (),
    AppError,
>) {
    let sr = account_step(engine_target_pre(accts, raw.client), command_of_raw(raw));
    if has_client(accts, raw.client) {
        (accts.update(client_index(accts, raw.client), sr.0), sr.1)
    } else {
        (accts.insert(insert_pos(accts, raw.client), sr.0), sr.1)
    }
}

/// The client found at a position is found again at that position: with a
/// sorted table, `client_index` inverts indexing.
pub proof fn lemma_client_index_of_position(accts: Seq<AccountModel>, i: int)
    requires
        sorted_by_client(accts),
        0 <= i < accts.len(),
    ensures
        has_client(accts, accts[i].client),
        client_index(accts, accts[i].client) == i,
{
    assert(has_client(accts, accts[i].client));
    let j = client_index(accts, accts[i].client);
    if j != i {
        if i < j {
            assert(accts[i].client < accts[j].client);
        } else {
            assert(accts[j].client < accts[i].client);
        }
    }
}

/// A sorted table holds no account for a client that a scan has passed
/// over: everything before the scan's stop is smaller, everything from it
/// on is larger.
pub proof fn lemma_no_client(accts: Seq<AccountModel>, client: u16, p: int)
    requires
        sorted_by_client(accts),
        0 <= p <= accts.len(),
        forall|j: int| 0 <= j < p ==> accts[j].client < client,
        p < accts.len() ==> accts[p].client > client,
    ensures
        !has_client(accts, client),
{
    assert forall|i: int| 0 <= i < accts.len() implies accts[i].client != client by {
        if i > p {
            assert(accts[p].client < accts[i].client);
        }
    }
}

/// `insert_pos` is exactly the first position whose client id is not
/// smaller than the new client's.
pub proof fn lemma_insert_pos_characterization(accts: Seq<AccountModel>, client: u16, p: int)
    requires
        0 <= p <= accts.len(),
        forall|j: int| 0 <= j < p ==> accts[j].client < client,
        p < accts.len() ==> accts[p].client >= client,
    ensures
        insert_pos(accts, client) == p,
    decreases accts.len(),
{
    if accts.len() == 0 {
    } else if accts[0].client >= client {
        if p > 0 {
            assert(accts[0].client < client);
        }
    } else {
        assert(accts[0].client < client);
        let rest = accts.drop_first();
        assert forall|j: int| 0 <= j < p - 1 implies rest[j].client < client by {
            assert(accts[j + 1].client < client);
        }
        lemma_insert_pos_characterization(rest, client, p - 1);
    }
}

/// Inserting an account between its smaller and larger neighbours keeps
/// the table sorted.
pub proof fn lemma_insert_sorted(accts: Seq<AccountModel>, m: AccountModel, p: int)
    requires
        sorted_by_client(accts),
        0 <= p <= accts.len(),
        forall|j: int| 0 <= j < p ==> accts[j].client < m.client,
        forall|j: int| p <= j < accts.len() ==> accts[j].client > m.client,
    ensures
        sorted_by_client(accts.insert(p, m)),
{
    let post = accts.insert(p, m);
    assert forall|i: int, j: int| 0 <= i < j < post.len() implies post[i].client
        < post[j].client by {
        if i < p && j < p {
            assert(accts[i].client < accts[j].client);
        } else if i > p && j > p {
            assert(accts[i - 1].client < accts[j - 1].client);
        }
    }
}

/// The in-memory account table, one account per client, ordered by
/// client id.
pub struct InMemoryEngine {
    accounts: Vec<Account>,
}

impl View for InMemoryEngine {
    type V = Seq<AccountModel>;

    closed spec fn view(&self) -> Seq<AccountModel> {
        self.accounts@.map_values(|a: Account| a@)
    }
}

impl Default for InMemoryEngine {
    /// An engine with no accounts yet.
    fn default() -> (r: InMemoryEngine)
        ensures
            r@ == Seq::<AccountModel>::empty(),
            r.inv(),
    {
        let r = InMemoryEngine { accounts: Vec::new() };
        proof {
            assert(r@ =~= Seq::<AccountModel>::empty());
        }
        r
    }
}

impl InMemoryEngine {
    /// The engine's invariant: the table is sorted by client id and every
    /// account is well-formed.
    pub open spec fn inv(&self) -> bool {
        &&& sorted_by_client(self@)
        &&& forall|i: int| 0 <= i < self@.len() ==> (#[trigger] self@[i]).wf()
    }

    /// The first position whose account's client id is not smaller than
    /// the given one: the client's own account if there is one, else
    /// where a new account for it belongs.
    fn find_position(&self, client: u16) -> (r: usize)
        ensures
            r <= self@.len(),
            forall|j: int| 0 <= j < r ==> self@[j].client < client,
            r < self@.len() ==> self@[r as int].client >= client,
    {
        let mut i: usize = 0;
        while i < self.accounts.len()
            invariant
                i <= self@.len(),
                self@.len() == self.accounts@.len(),
                forall|j: int| 0 <= j < i ==> self@[j].client < client,
            decreases self@.len() - i,
        {
            let a = &self.accounts[i];
            if a.client() >= client {
                return i;
            }
            i = i + 1;
        }
        i
    }

    /// Whether the balances that processing this record would produce fit
    /// the machine representation. Callers check this before handing the
    /// record to [`InMemoryEngine::process_transaction`].
    pub fn can_process(&self, raw: &RawTransaction) -> (r: bool)
        requires
            self.inv(),
        ensures
            r == account_step(
                engine_target_pre(self@, raw.client),
                command_of_raw(*raw),
            ).0.representable(),
    {
        let client = raw.client();
        let p = self.find_position(client);
        if p < self.accounts.len() {
            let a = &self.accounts[p];
            if a.client() == client {
                proof {
                    lemma_client_index_of_position(self@, p as int);
                    assert(self@[p as int].wf());
                }
                let cmd: TransactionCommand = (*raw).into();
                return a.can_apply(cmd);
            }
        }
        proof {
            lemma_no_client(self@, client, p as int);
        }
        true
    }

    /// Routes one raw record: classifies it, finds or creates the
    /// client's account, and delegates to the account's command
    /// processor, passing its outcome through unchanged.
    pub fn process_transaction(&mut self, raw: RawTransaction) -> (r: Result<(), AppError>)
        requires
            old(self).inv(),
            account_step(
                engine_target_pre(old(self)@, raw.client),
                command_of_raw(raw),
            ).0.representable(),
        ensures
            final(self).inv(),
            final(self)@ == engine_step(old(self)@, raw).0,
            r == engine_step(old(self)@, raw).1,
    {
        let ghost pre = self@;
        let client = raw.client();
        let cmd: TransactionCommand = raw.into();
        proof {
            lemma_command_of_raw_wf(raw);
        }
        let p = self.find_position(client);
        let mut found = false;
        if p < self.accounts.len() {
            let a = &self.accounts[p];
            if a.client() == client {
                found = true;
            }
        }
        if found {
            proof {
                lemma_client_index_of_position(pre, p as int);
                assert(pre[p as int].wf());
                crate::account::lemma_step_preserves_wf(pre[p as int], cmd);
            }
            let mut a = self.accounts.remove(p);
            let res = a.process_transaction(cmd);
            self.accounts.insert(p, a);
            proof {
                let post = account_step(engine_target_pre(pre, client), cmd).0;
                assert(self@ =~= pre.update(p as int, post));
                assert forall|i: int, j: int| 0 <= i < j < self@.len() implies self@[i].client
                    < self@[j].client by {
                    assert(pre[i].client < pre[j].client);
                }
                assert forall|i: int| 0 <= i < self@.len() implies (#[trigger] self@[i]).wf() by {
                    if i != p {
                        assert(pre[i].wf());
                    }
                }
            }
            res
        } else {
            proof {
                lemma_no_client(pre, client, p as int);
                lemma_insert_pos_characterization(pre, client, p as int);
                crate::account::lemma_step_preserves_wf(AccountModel::fresh(client), cmd);
            }
            let mut a = Account::new(client);
            let res = a.process_transaction(cmd);
            self.accounts.insert(p, a);
            proof {
                let post = account_step(engine_target_pre(pre, client), cmd).0;
                assert(self@ =~= pre.insert(p as int, post));
                assert(post.client == client);
                assert forall|j: int| p as int <= j < pre.len() implies pre[j].client
                    > post.client by {
                    if j > p as int {
                        assert(pre[p as int].client < pre[j].client);
                    }
                }
                lemma_insert_sorted(pre, post, p as int);
                assert forall|i: int| 0 <= i < self@.len() implies (
                #[trigger] self@[i]).wf() by {
                    if i < p as int {
                        assert(pre[i].wf());
                    } else if i > p as int {
                        assert(pre[i - 1].wf());
                    }
                }
            }
            res
        }
    }

    /// Read-only access to the full account table, in client-id order,
    /// for the final export.
    pub fn accounts(&self) -> (r: &Vec<Account>)
        ensures
            r@.len() == self@.len(),
            forall|i: int| 0 <= i < r@.len() ==> r@[i]@ == self@[i],
    {
        &self.accounts
    }
}

} // verus!
