use vstd::prelude::*;

use crate::bot::Bot;
use crate::errors::BotError;
use crate::ident::Identity;

verus! {

/// One stored record: the owner identity it is keyed under and the record
/// itself. The key is the derived storage location; creation sets the
/// record's `owner` to it.
#[derive(Clone, Copy, PartialEq, Eq, Structural, Debug)]
pub struct StoreEntry {
    pub key: Identity,
    pub bot: Bot,
}

/// The keyed store the runtime persists bot records in, addressed by owner
/// identity. The core never keeps a record across operations: each
/// instruction fetches a freshly validated handle from here.
pub struct BotStore {
    entries: Vec<StoreEntry>,
}

/// The record under the first entry of `s` keyed by `id`, if any.
spec fn bot_in(s: Seq<StoreEntry>, id: Identity) -> Option<Bot>
    decreases s.len(),
{
    if s.len() == 0 {
        None
    } else if s[0].key == id {
        Some(s[0].bot)
    } else {
        bot_in(s.subrange(1, s.len() as int), id)
    }
}

/// At the first index keyed by `id`, `bot_in` reads that entry's record.
proof fn lemma_bot_at_first(s: Seq<StoreEntry>, id: Identity, i: int)
    requires
        0 <= i < s.len(),
        s[i].key == id,
        forall|j: int| 0 <= j < i ==> s[j].key != id,
    ensures
        bot_in(s, id) == Some(s[i].bot),
    decreases i,
{
    if i > 0 {
        lemma_bot_at_first(s.subrange(1, s.len() as int), id, i - 1);
    }
}

/// Where no entry is keyed by `id`, `bot_in` finds nothing.
proof fn lemma_bot_none(s: Seq<StoreEntry>, id: Identity)
    requires
        forall|j: int| 0 <= j < s.len() ==> s[j].key != id,
    ensures
        bot_in(s, id) is None,
    decreases s.len(),
{
    if s.len() > 0 {
        lemma_bot_none(s.subrange(1, s.len() as int), id);
    }
}

/// Replacing an entry's record in place leaves every other key's record as
/// it was.
proof fn lemma_bot_update_other(s: Seq<StoreEntry>, i: int, e: StoreEntry, id: Identity)
    requires
        0 <= i < s.len(),
        e.key == s[i].key,
        id != s[i].key,
    ensures
        bot_in(s.update(i, e), id) == bot_in(s, id),
    decreases i,
{
    let s2 = s.update(i, e);
    if i == 0 {
        assert(s2.subrange(1, s2.len() as int) =~= s.subrange(1, s.len() as int));
    } else {
        assert(s2[0] == s[0]);
        assert(s2.subrange(1, s2.len() as int) =~= s.subrange(1, s.len() as int).update(
            i - 1,
            e,
        ));
        lemma_bot_update_other(s.subrange(1, s.len() as int), i - 1, e, id);
    }
}

/// Appending an entry under one key leaves every other key's record as it
/// was.
proof fn lemma_bot_push_other(s: Seq<StoreEntry>, e: StoreEntry, id: Identity)
    requires
        id != e.key,
    ensures
        bot_in(s.push(e), id) == bot_in(s, id),
    decreases s.len(),
{
    let s2 = s.push(e);
    if s.len() == 0 {
        assert(s2.subrange(1, s2.len() as int) =~= Seq::<StoreEntry>::empty());
        assert(bot_in(Seq::<StoreEntry>::empty(), id) is None);
        assert(s2[0] == e);
    } else {
        assert(s2[0] == s[0]);
        assert(s2.subrange(1, s2.len() as int) =~= s.subrange(1, s.len() as int).push(e));
        lemma_bot_push_other(s.subrange(1, s.len() as int), e, id);
    }
}

impl BotStore {
    /// The record stored under `id`, or `None` where none was created.
    pub closed spec fn bot_of(self, id: Identity) -> Option<Bot> {
        bot_in(self.entries@, id)
    }

    /// Whether a record for `id` exists in the store.
    pub open spec fn contains(self, id: Identity) -> bool {
        self.bot_of(id) is Some
    }

    /// Well-formedness: no identity keys two records.
    pub closed spec fn wf(self) -> bool {
        forall|i: int, j: int|
            0 <= i < j < self.entries@.len() ==> self.entries@[i].key != self.entries@[j].key
    }

    /// An empty store: no records at all.
    pub fn new() -> (r: BotStore)
        ensures
            r.wf(),
            forall|id: Identity| !r.contains(id),
    {
        BotStore { entries: Vec::new() }
    }

    /// The index of the first entry keyed by `id`, if any.
    fn find(&self, id: Identity) -> (r: Option<usize>)
        ensures
            match r {
                Some(i) => 0 <= i < self.entries@.len() && self.entries@[i as int].key == id
                    && forall|j: int| 0 <= j < i ==> self.entries@[j].key != id,
                None => forall|j: int| 0 <= j < self.entries@.len() ==> self.entries@[j].key != id,
            },
    {
        let n = self.entries.len();
        let mut i: usize = 0;
        while i < n
            invariant
                n == self.entries@.len(),
                0 <= i <= n,
                forall|j: int| 0 <= j < i ==> self.entries@[j].key != id,
            decreases n - i,
        {
            if self.entries[i].key == id {
                return Some(i);
            }
            i = i + 1;
        }
        None
    }

    /// Whether a record for `id` exists, as an executable test.
    pub fn has_bot(&self, id: Identity) -> (r: bool)
        ensures
            r == self.contains(id),
    {
        match self.find(id) {
            Some(i) => {
                proof {
                    lemma_bot_at_first(self.entries@, id, i as int);
                }
                true
            },
            None => {
                proof {
                    lemma_bot_none(self.entries@, id);
                }
                false
            },
        }
    }

    /// Reads a copy of the record stored under `id`.
    pub fn bot(&self, id: Identity) -> (r: Option<Bot>)
        ensures
            r == self.bot_of(id),
    {
        match self.find(id) {
            Some(i) => {
                proof {
                    lemma_bot_at_first(self.entries@, id, i as int);
                }
                Some(self.entries[i].bot)
            },
            None => {
                proof {
                    lemma_bot_none(self.entries@, id);
                }
                None
            },
        }
    }

    /// Allocates a record under `owner`. Fails with `AllocationExists` where
    /// one already stands there, and with `InvalidRiskPercentage` where the
    /// risk parameter is no percentage; on success the stored record is the
    /// fresh one and every other key is untouched.
    pub fn create(&mut self, owner: Identity, risk_percentage: u8, strategy_type: u8) -> (r:
        Result<(), BotError>)
        requires
            old(self).wf(),
        ensures
            final(self).wf(),
            old(self).contains(owner) ==> r == Err::<(), BotError>(BotError::AllocationExists),
            !old(self).contains(owner) && risk_percentage > 100 ==> r == Err::<(), BotError>(
                BotError::InvalidRiskPercentage,
            ),
            !old(self).contains(owner) && risk_percentage <= 100 ==> r == Ok::<(), BotError>(()),
            r is Err ==> *final(self) == *old(self),
            r is Ok ==> final(self).bot_of(owner) == Some(
                Bot::fresh(owner, risk_percentage, strategy_type),
            ),
            forall|x: Identity|
                x != owner ==> final(self).bot_of(x) == old(self).bot_of(x),
    {
        match self.find(owner) {
            Some(i) => {
                proof {
                    lemma_bot_at_first(self.entries@, owner, i as int);
                }
                Err(BotError::AllocationExists)
            },
            None => {
                proof {
                    lemma_bot_none(self.entries@, owner);
                }
                match Bot::new(owner, risk_percentage, strategy_type) {
                    Err(e) => Err(e),
                    Ok(b) => {
                        let ghost s0 = self.entries@;
                        let e = StoreEntry { key: owner, bot: b };
                        self.entries.push(e);
                        proof {
                            lemma_bot_at_first(self.entries@, owner, s0.len() as int);
                            assert forall|x: Identity| x != owner implies bot_in(self.entries@, x)
                                == bot_in(s0, x) by {
                                lemma_bot_push_other(s0, e, x);
                            }
                        }
                        Ok(())
                    },
                }
            },
        }
    }

    /// Writes a record back under `id` at the end of an instruction. Every
    /// other key is untouched.
    pub fn put(&mut self, id: Identity, bot: Bot)
        requires
            old(self).wf(),
            old(self).contains(id),
        ensures
            final(self).wf(),
            final(self).bot_of(id) == Some(bot),
            forall|x: Identity| x != id ==> final(self).bot_of(x) == old(self).bot_of(x),
    {
        match self.find(id) {
            Some(i) => {
                let ghost s0 = self.entries@;
                let e = StoreEntry { key: id, bot };
                self.entries[i] = e;
                proof {
                    lemma_bot_at_first(self.entries@, id, i as int);
                    assert forall|x: Identity| x != id implies bot_in(self.entries@, x) == bot_in(
                        s0,
                        x,
                    ) by {
                        lemma_bot_update_other(s0, i as int, e, x);
                    }
                }
            },
            None => {
                proof {
                    lemma_bot_none(self.entries@, id);
                }
                vstd::pervasive::unreached()
            },
        }
    }
}

} // verus!
