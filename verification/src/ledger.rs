use vstd::prelude::*;

use crate::errors::TransferError;
use crate::ident::Identity;

verus! {

/// One ledger account: an identity and the native value it holds.
#[derive(Clone, Copy, PartialEq, Eq, Structural, Debug)]
pub struct AccountEntry {
    pub id: Identity,
    pub balance: u64,
}

/// The ledger of native-value accounts: the one shared, mutable resource
/// besides the bot records themselves. It provides the atomic transfer
/// primitive trades settle through; a failed transfer commits nothing.
pub struct Ledger {
    entries: Vec<AccountEntry>,
}

/// The balance the first entry of `s` carrying `id` holds, if any.
spec fn bal_in(s: Seq<AccountEntry>, id: Identity) -> Option<u64>
    decreases s.len(),
{
    if s.len() == 0 {
        None
    } else if s[0].id == id {
        Some(s[0].balance)
    } else {
        bal_in(s.subrange(1, s.len() as int), id)
    }
}

/// At the first index carrying `id`, `bal_in` reads that entry's balance.
proof fn lemma_bal_at_first(s: Seq<AccountEntry>, id: Identity, i: int)
    requires
        0 <= i < s.len(),
        s[i].id == id,
        forall|j: int| 0 <= j < i ==> s[j].id != id,
    ensures
        bal_in(s, id) == Some(s[i].balance),
    decreases i,
{
    if i > 0 {
        let tail = s.subrange(1, s.len() as int);
        lemma_bal_at_first(tail, id, i - 1);
    }
}

/// Where no entry carries `id`, `bal_in` finds nothing.
proof fn lemma_bal_none(s: Seq<AccountEntry>, id: Identity)
    requires
        forall|j: int| 0 <= j < s.len() ==> s[j].id != id,
    ensures
        bal_in(s, id) is None,
    decreases s.len(),
{
    if s.len() > 0 {
        lemma_bal_none(s.subrange(1, s.len() as int), id);
    }
}

/// Replacing an entry with one of the same identity leaves every other
/// identity's balance as it was.
proof fn lemma_bal_update_other(s: Seq<AccountEntry>, i: int, e: AccountEntry, id: Identity)
    requires
        0 <= i < s.len(),
        e.id == s[i].id,
        id != s[i].id,
    ensures
        bal_in(s.update(i, e), id) == bal_in(s, id),
    decreases i,
{
    let s2 = s.update(i, e);
    if i == 0 {
        assert(s2.subrange(1, s2.len() as int) =~= s.subrange(1, s.len() as int));
    } else {
        assert(s2.subrange(1, s2.len() as int) =~= s.subrange(1, s.len() as int).update(
            i - 1,
            e,
        ));
        lemma_bal_update_other(s.subrange(1, s.len() as int), i - 1, e, id);
    }
}

/// Appending an entry for one identity leaves every other identity's
/// balance as it was.
proof fn lemma_bal_push_other(s: Seq<AccountEntry>, e: AccountEntry, id: Identity)
    requires
        id != e.id,
    ensures
        bal_in(s.push(e), id) == bal_in(s, id),
    decreases s.len(),
{
    let s2 = s.push(e);
    if s.len() == 0 {
        assert(s2.subrange(1, s2.len() as int) =~= Seq::<AccountEntry>::empty());
        assert(bal_in(Seq::<AccountEntry>::empty(), id) is None);
        assert(s2[0] == e);
    } else {
        assert(s2[0] == s[0]);
        assert(s2.subrange(1, s2.len() as int) =~= s.subrange(1, s.len() as int).push(e));
        lemma_bal_push_other(s.subrange(1, s.len() as int), e, id);
    }
}

impl Ledger {
    /// The balance of `id`'s account, or `None` where no such account exists.
    pub closed spec fn balance_of(self, id: Identity) -> Option<u64> {
        bal_in(self.entries@, id)
    }

    /// Whether an account for `id` exists in the ledger.
    pub open spec fn has_account(self, id: Identity) -> bool {
        self.balance_of(id) is Some
    }

    /// Well-formedness: no identity owns two entries.
    pub closed spec fn wf(self) -> bool {
        forall|i: int, j: int|
            0 <= i < j < self.entries@.len() ==> self.entries@[i].id != self.entries@[j].id
    }

    /// How a transfer of `amount` from `from` to `to` must end on this
    /// ledger: both accounts must exist, the source must hold the amount,
    /// and the destination must have room for it.
    pub open spec fn transfer_outcome(self, from: Identity, to: Identity, amount: u64) -> Result<
        (),
        TransferError,
    > {
        if !self.has_account(from) || !self.has_account(to) {
            Err(TransferError::UnknownAccount)
        } else if self.balance_of(from)->Some_0 < amount {
            Err(TransferError::InsufficientBalance)
        } else if from != to && self.balance_of(to)->Some_0 + amount > u64::MAX {
            Err(TransferError::BalanceOverflow)
        } else {
            Ok(())
        }
    }

    /// An empty ledger: no accounts at all.
    pub fn new() -> (r: Ledger)
        ensures
            r.wf(),
            forall|id: Identity| !r.has_account(id),
    {
        Ledger { entries: Vec::new() }
    }

    /// The index of the first entry carrying `id`, if any.
    fn find(&self, id: Identity) -> (r: Option<usize>)
        ensures
            match r {
                Some(i) => 0 <= i < self.entries@.len() && self.entries@[i as int].id == id
                    && forall|j: int| 0 <= j < i ==> self.entries@[j].id != id,
                None => forall|j: int| 0 <= j < self.entries@.len() ==> self.entries@[j].id != id,
            },
    {
        let n = self.entries.len();
        let mut i: usize = 0;
        while i < n
            invariant
                n == self.entries@.len(),
                0 <= i <= n,
                forall|j: int| 0 <= j < i ==> self.entries@[j].id != id,
            decreases n - i,
        {
            if self.entries[i].id == id {
                return Some(i);
            }
            i = i + 1;
        }
        None
    }

    /// Opens an account for `id` holding `balance`. Returns `true` and adds
    /// the account where none existed; returns `false` and changes nothing
    /// where one already does.
    pub fn open_account(&mut self, id: Identity, balance: u64) -> (r: bool)
        requires
            old(self).wf(),
        ensures
            final(self).wf(),
            r == !old(self).has_account(id),
            !r ==> *final(self) == *old(self),
            r ==> final(self).balance_of(id) == Some(balance),
            r ==> forall|x: Identity| x != id ==> final(self).balance_of(x) == old(
                self,
            ).balance_of(x),
    {
        match self.find(id) {
            Some(i) => {
                proof {
                    lemma_bal_at_first(self.entries@, id, i as int);
                }
                false
            },
            None => {
                proof {
                    lemma_bal_none(self.entries@, id);
                }
                let ghost s0 = self.entries@;
                let e = AccountEntry { id, balance };
                self.entries.push(e);
                proof {
                    lemma_bal_at_first(self.entries@, id, s0.len() as int);
                    assert forall|x: Identity| x != id implies bal_in(self.entries@, x) == bal_in(
                        s0,
                        x,
                    ) by {
                        lemma_bal_push_other(s0, e, x);
                    }
                }
                true
            },
        }
    }

    /// Reads the balance of `id`'s account.
    pub fn balance(&self, id: Identity) -> (r: Option<u64>)
        ensures
            r == self.balance_of(id),
    {
        match self.find(id) {
            Some(i) => {
                proof {
                    lemma_bal_at_first(self.entries@, id, i as int);
                }
                Some(self.entries[i].balance)
            },
            None => {
                proof {
                    lemma_bal_none(self.entries@, id);
                }
                None
            },
        }
    }

    /// The atomic transfer primitive: moves `amount` from `from` to `to`,
    /// exactly when `transfer_outcome` allows it, and otherwise fails with
    /// that outcome's error and changes nothing. A transfer from an account
    /// to itself that the outcome allows is a no-op.
    pub fn transfer(&mut self, from: Identity, to: Identity, amount: u64) -> (r: Result<
        (),
        TransferError,
    >)
        requires
            old(self).wf(),
        ensures
            final(self).wf(),
            r == old(self).transfer_outcome(from, to, amount),
            r is Err ==> *final(self) == *old(self),
            forall|x: Identity| final(self).has_account(x) == old(self).has_account(x),
            r is Ok && from != to ==> final(self).balance_of(from) == Some(
                (old(self).balance_of(from)->Some_0 - amount) as u64,
            ),
            r is Ok && from != to ==> final(self).balance_of(to) == Some(
                (old(self).balance_of(to)->Some_0 + amount) as u64,
            ),
            r is Ok && from == to ==> *final(self) == *old(self),
            forall|x: Identity|
                x != from && x != to ==> final(self).balance_of(x) == old(self).balance_of(x),
    {
        let fi = match self.find(from) {
            Some(i) => i,
            None => {
                proof {
                    lemma_bal_none(self.entries@, from);
                }
                return Err(TransferError::UnknownAccount);
            },
        };
        let ti = match self.find(to) {
            Some(i) => i,
            None => {
                proof {
                    lemma_bal_at_first(self.entries@, from, fi as int);
                    lemma_bal_none(self.entries@, to);
                }
                return Err(TransferError::UnknownAccount);
            },
        };
        proof {
            lemma_bal_at_first(self.entries@, from, fi as int);
            lemma_bal_at_first(self.entries@, to, ti as int);
        }
        let fb = self.entries[fi].balance;
        if fb < amount {
            return Err(TransferError::InsufficientBalance);
        }
        if fi == ti {
            return Ok(());
        }
        let tb = self.entries[ti].balance;
        if amount > u64::MAX - tb {
            return Err(TransferError::BalanceOverflow);
        }
        let ghost s0 = self.entries@;
        let ef = AccountEntry { id: from, balance: fb - amount };
        let et = AccountEntry { id: to, balance: tb + amount };
        self.entries[fi] = ef;
        let ghost s1 = self.entries@;
        self.entries[ti] = et;
        let ghost s2 = self.entries@;
        proof {
            assert(forall|k: int| 0 <= k < s2.len() ==> s2[k].id == s0[k].id);
            lemma_bal_at_first(s2, from, fi as int);
            lemma_bal_at_first(s2, to, ti as int);
            assert forall|x: Identity| x != from && x != to implies bal_in(s2, x) == bal_in(
                s0,
                x,
            ) by {
                lemma_bal_update_other(s1, ti as int, et, x);
                lemma_bal_update_other(s0, fi as int, ef, x);
            }
        }
        Ok(())
    }
}

} // verus!
