//! The locks of one account, keyed by token identifier.

use crate::keyed::{
    distinct_keys, has_key, key_at, lemma_position, lemma_table_len, lemma_table_push,
    lemma_table_update, lemma_table_without_at, table_of, without_at,
};
use vstd::prelude::*;

verus! {

/// A locked balance and the time from which it may be withdrawn.
#[derive(Clone, Copy, Debug, PartialEq, Eq, Structural)]
pub struct LockInfo {
    /// How much of the token is locked.
    pub locked_balance: u128,
    /// The time, in seconds, from which the balance may be withdrawn.
    pub unlock_time_sec: u32,
}

/// One lock together with the token it is for.
#[derive(Clone, Debug, PartialEq, Eq)]
pub struct LockEntry {
    /// The token identifier.
    pub token_id: String,
    /// The lock.
    pub info: LockInfo,
}

/// The entries as pairs of token identifier and lock.
pub open spec fn lock_pairs(entries: Seq<LockEntry>) -> Seq<(Seq<char>, LockInfo)> {
    Seq::new(entries.len(), |i: int| (entries[i].token_id@, entries[i].info))
}

/// The locks of one account: at most one for each token identifier.
#[derive(Debug)]
pub struct LockTable {
    entries: Vec<LockEntry>,
}

impl View for LockTable {
    type V = Map<Seq<char>, LockInfo>;

    closed spec fn view(&self) -> Map<Seq<char>, LockInfo> {
        table_of(lock_pairs(self.entries@))
    }
}

impl LockTable {
    #[verifier::type_invariant]
    spec fn well_formed(&self) -> bool {
        distinct_keys(lock_pairs(self.entries@))
    }

    /// A table without locks.
    pub fn new() -> (table: LockTable)
        ensures
            table@ == Map::<Seq<char>, LockInfo>::empty(),
            table@.dom().finite(),
    {
        let table = LockTable { entries: Vec::new() };
        table
    }

    /// How many locks the table holds.
    pub fn len(&self) -> (count: usize)
        ensures
            self@.dom().finite(),
            count == self@.dom().len(),
    {
        proof {
            use_type_invariant(self);
            lemma_table_len(lock_pairs(self.entries@));
        }
        self.entries.len()
    }

    /// Whether the table holds no lock.
    pub fn is_empty(&self) -> (empty: bool)
        ensures
            empty == (self@ == Map::<Seq<char>, LockInfo>::empty()),
    {
        proof {
            use_type_invariant(self);
            lemma_table_len(lock_pairs(self.entries@));
            if self.entries@.len() == 0 {
                assert(self@ =~= Map::<Seq<char>, LockInfo>::empty());
            }
        }
        self.entries.len() == 0
    }

    /// Where the entry for `token_id` stands.
    fn find(&self, token_id: &String) -> (found: Option<usize>)
        ensures
            match found {
                Some(i) => i < self.entries@.len() && key_at(lock_pairs(self.entries@), i as int)
                    == token_id@,
                None => !has_key(lock_pairs(self.entries@), token_id@),
            },
    {
        let mut i: usize = 0;
        while i < self.entries.len()
            invariant
                i <= self.entries@.len(),
                forall|j: int| 0 <= j < i ==> key_at(lock_pairs(self.entries@), j) != token_id@,
            decreases self.entries@.len() - i,
        {
            if self.entries[i].token_id == *token_id {
                return Some(i);
            }
            i = i + 1;
        }
        None
    }

    /// Whether there is a lock for `token_id`.
    pub fn contains_key(&self, token_id: &String) -> (present: bool)
        ensures
            present == self@.contains_key(token_id@),
    {
        self.find(token_id).is_some()
    }

    /// The lock for `token_id`, if there is one.
    pub fn get(&self, token_id: &String) -> (lock: Option<LockInfo>)
        ensures
            lock == (if self@.contains_key(token_id@) {
                Some(self@[token_id@])
            } else {
                None
            }),
            self@.dom().finite(),
    {
        proof {
            use_type_invariant(self);
            lemma_table_len(lock_pairs(self.entries@));
        }
        match self.find(token_id) {
            Some(i) => {
                proof {
                    lemma_position(lock_pairs(self.entries@), i as int);
                }
                Some(self.entries[i].info)
            },
            None => None,
        }
    }

    /// Sets the lock for `token_id`, whether or not there was one.
    pub fn insert(&mut self, token_id: String, info: LockInfo)
        ensures
            final(self)@ == old(self)@.insert(token_id@, info),
            old(self)@.dom().finite(),
            final(self)@.dom().finite(),
    {
        proof {
            use_type_invariant(&*self);
            lemma_table_len(lock_pairs(self.entries@));
        }
        let found = self.find(&token_id);
        let ghost before = lock_pairs(self.entries@);
        let ghost key = token_id@;
        let mut entries: Vec<LockEntry> = Vec::new();
        std::mem::swap(&mut entries, &mut self.entries);
        match found {
            Some(i) => {
                entries.push(LockEntry { token_id, info });
                let _ = entries.swap_remove(i);
                proof {
                    assert(lock_pairs(entries@) =~= before.update(i as int, (key, info)));
                    lemma_table_update(before, i as int, info);
                }
            },
            None => {
                entries.push(LockEntry { token_id, info });
                proof {
                    assert(lock_pairs(entries@) =~= before.push((key, info)));
                    lemma_table_push(before, key, info);
                }
            },
        }
        self.entries = entries;
    }

    /// Takes the lock for `token_id` out of the table, if there is one.
    pub fn remove(&mut self, token_id: &String) -> (lock: Option<LockInfo>)
        ensures
            final(self)@ == old(self)@.remove(token_id@),
            lock == (if old(self)@.contains_key(token_id@) {
                Some(old(self)@[token_id@])
            } else {
                None
            }),
            old(self)@.dom().finite(),
            final(self)@.dom().finite(),
    {
        proof {
            use_type_invariant(&*self);
            lemma_table_len(lock_pairs(self.entries@));
        }
        match self.find(token_id) {
            Some(i) => {
                let ghost before = lock_pairs(self.entries@);
                let mut entries: Vec<LockEntry> = Vec::new();
                std::mem::swap(&mut entries, &mut self.entries);
                let entry = entries.swap_remove(i);
                proof {
                    assert(lock_pairs(entries@) =~= without_at(before, i as int));
                    lemma_position(before, i as int);
                    lemma_table_without_at(before, i as int);
                }
                self.entries = entries;
                Some(entry.info)
            },
            None => {
                None
            },
        }
    }

    /// The locks with their tokens, each once, in no particular order.
    pub fn entries(&self) -> (list: Vec<LockEntry>)
        ensures
            distinct_keys(lock_pairs(list@)),
            table_of(lock_pairs(list@)) == self@,
    {
        proof {
            use_type_invariant(self);
        }
        let mut list: Vec<LockEntry> = Vec::new();
        let mut i: usize = 0;
        while i < self.entries.len()
            invariant
                i <= self.entries@.len(),
                list@.len() == i,
                forall|j: int|
                    0 <= j < i ==> #[trigger] list@[j].token_id@ == self.entries@[j].token_id@
                        && list@[j].info == self.entries@[j].info,
            decreases self.entries@.len() - i,
        {
            let entry = &self.entries[i];
            list.push(LockEntry { token_id: entry.token_id.clone(), info: entry.info });
            i = i + 1;
        }
        proof {
            assert(lock_pairs(list@) =~= lock_pairs(self.entries@));
        }
        list
    }

}

impl Clone for LockTable {
    fn clone(&self) -> (copy: LockTable)
        ensures
            copy@ == self@,
    {
        proof {
            use_type_invariant(self);
        }
        let entries = self.entries();
        LockTable { entries }
    }
}

} // verus!
