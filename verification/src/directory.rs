//! The registered accounts, and sets of account ids, in the order in which
//! they are listed.

use crate::account::{Account, AccountView, VAccount};
use crate::account_id::AccountId;
use crate::keyed::{
    distinct_keys, has_key, key_at, lemma_position, lemma_put, lemma_table_push,
    lemma_table_update, lemma_table_without_at, lemma_without, position, put, table_of, value_of,
    without, without_at,
};
use vstd::prelude::*;

verus! {

/// The view of an optional account id.
pub open spec fn id_view(id: Option<AccountId>) -> Option<Seq<char>> {
    match id {
        Some(a) => Some(a@),
        None => None,
    }
}

/// One registered account under the id it is registered with.
#[derive(Debug)]
struct AccountEntry {
    id: AccountId,
    record: VAccount,
}

/// The entries as pairs of account id and account.
spec fn account_pairs(entries: Seq<AccountEntry>) -> Seq<(Seq<char>, AccountView)> {
    Seq::new(entries.len(), |i: int| (entries[i].id@, entries[i].record@))
}

/// The registered accounts: at most one under each account id. A new id
/// goes behind all others; when an id leaves, the last takes its place.
#[derive(Debug)]
pub struct AccountTable {
    entries: Vec<AccountEntry>,
}

impl View for AccountTable {
    type V = Seq<(Seq<char>, AccountView)>;

    closed spec fn view(&self) -> Seq<(Seq<char>, AccountView)> {
        account_pairs(self.entries@)
    }
}

impl AccountTable {
    #[verifier::type_invariant]
    spec fn well_formed(&self) -> bool {
        distinct_keys(account_pairs(self.entries@))
    }

    /// A table without accounts.
    pub fn new() -> (table: AccountTable)
        ensures
            table@ == Seq::<(Seq<char>, AccountView)>::empty(),
    {
        let table = AccountTable { entries: Vec::new() };
        table
    }

    /// How many accounts are registered.
    pub fn len(&self) -> (count: usize)
        ensures
            count == self@.len(),
            distinct_keys(self@),
    {
        proof {
            use_type_invariant(self);
        }
        self.entries.len()
    }

    /// Where the entry of `id` stands.
    fn find(&self, id: &AccountId) -> (found: Option<usize>)
        ensures
            distinct_keys(self@),
            match found {
                Some(i) => i < self@.len() && key_at(self@, i as int) == id@ && has_key(
                    self@,
                    id@,
                ) && position(self@, id@) == i,
                None => !has_key(self@, id@),
            },
    {
        proof {
            use_type_invariant(self);
        }
        let mut i: usize = 0;
        while i < self.entries.len()
            invariant
                i <= self.entries@.len(),
                distinct_keys(self@),
                forall|j: int| 0 <= j < i ==> key_at(self@, j) != id@,
            decreases self.entries@.len() - i,
        {
            if self.entries[i].id == *id {
                proof {
                    lemma_position(self@, i as int);
                }
                return Some(i);
            }
            i = i + 1;
        }
        None
    }

    /// Whether an account is registered under `id`.
    pub fn contains(&self, id: &AccountId) -> (present: bool)
        ensures
            present == has_key(self@, id@),
    {
        self.find(id).is_some()
    }

    /// The account registered under `id`, if there is one.
    pub fn get(&self, id: &AccountId) -> (account: Option<Account>)
        ensures
            account.is_some() == has_key(self@, id@),
            account matches Some(a) ==> a@ == value_of(self@, id@),
    {
        match self.find(id) {
            Some(i) => {
                let record = self.entries[i].record.clone();
                let account: Account = match record {
                    VAccount::Current(c) => c,
                };
                Some(account)
            },
            None => None,
        }
    }

    /// The account at place `index` of the listing.
    pub fn get_at(&self, index: usize) -> (account: Account)
        requires
            index < self@.len(),
        ensures
            account@ == self@[index as int].1,
    {
        let record = self.entries[index].record.clone();
        match record {
            VAccount::Current(c) => c,
        }
    }

    /// Registers `record` under `id`, in the place of what was registered
    /// under it, if anything.
    pub fn set(&mut self, id: &AccountId, record: VAccount)
        ensures
            final(self)@ == put(old(self)@, id@, record@),
            table_of(final(self)@) == table_of(old(self)@).insert(id@, record@),
    {
        let found = self.find(id);
        proof {
            lemma_put(self@, id@, record@);
        }
        let ghost before = self@;
        let ghost value = record@;
        let entry = AccountEntry { id: id.clone(), record };
        let mut entries: Vec<AccountEntry> = Vec::new();
        std::mem::swap(&mut entries, &mut self.entries);
        match found {
            Some(i) => {
                entries.push(entry);
                let _ = entries.swap_remove(i);
                proof {
                    assert(account_pairs(entries@) =~= before.update(i as int, (id@, value)));
                    lemma_table_update(before, i as int, value);
                }
            },
            None => {
                entries.push(entry);
                proof {
                    assert(account_pairs(entries@) =~= before.push((id@, value)));
                    lemma_table_push(before, id@, value);
                }
            },
        }
        self.entries = entries;
    }

    /// Takes the account of `id` out of the table and says whether there
    /// was one.
    pub fn remove(&mut self, id: &AccountId) -> (removed: bool)
        ensures
            removed == has_key(old(self)@, id@),
            final(self)@ == without(old(self)@, id@),
            table_of(final(self)@) == table_of(old(self)@).remove(id@),
    {
        proof {
            use_type_invariant(&*self);
            lemma_without(self@, id@);
        }
        match self.find(id) {
            Some(i) => {
                let ghost before = self@;
                let mut entries: Vec<AccountEntry> = Vec::new();
                std::mem::swap(&mut entries, &mut self.entries);
                let _ = entries.swap_remove(i);
                proof {
                    assert(account_pairs(entries@) =~= without_at(before, i as int));
                    lemma_table_without_at(before, i as int);
                }
                self.entries = entries;
                true
            },
            None => false,
        }
    }
}

/// The ids with `id` among them: behind all others if it is new.
pub open spec fn with_id(ids: Seq<Seq<char>>, id: Seq<char>) -> Seq<Seq<char>> {
    if ids.contains(id) {
        ids
    } else {
        ids.push(id)
    }
}

/// The ids without `id`: the last id takes its place.
pub open spec fn without_id(ids: Seq<Seq<char>>, id: Seq<char>) -> Seq<Seq<char>> {
    if ids.contains(id) {
        ids.update(ids.index_of(id), ids.last()).drop_last()
    } else {
        ids
    }
}

/// The views of the ids, in order.
pub open spec fn id_views(ids: Seq<AccountId>) -> Seq<Seq<char>> {
    Seq::new(ids.len(), |i: int| ids[i]@)
}

/// A set of account ids, listed in the order in which they came.
#[derive(Debug)]
pub struct AccountIdSet {
    ids: Vec<AccountId>,
}

impl View for AccountIdSet {
    type V = Seq<Seq<char>>;

    closed spec fn view(&self) -> Seq<Seq<char>> {
        id_views(self.ids@)
    }
}

impl AccountIdSet {
    #[verifier::type_invariant]
    spec fn well_formed(&self) -> bool {
        id_views(self.ids@).no_duplicates()
    }

    /// A set without ids.
    pub fn new() -> (set: AccountIdSet)
        ensures
            set@ == Seq::<Seq<char>>::empty(),
    {
        let set = AccountIdSet { ids: Vec::new() };
        set
    }

    /// Where `id` stands.
    fn find(&self, id: &AccountId) -> (found: Option<usize>)
        ensures
            self@.no_duplicates(),
            match found {
                Some(i) => i < self@.len() && self@[i as int] == id@ && self@.contains(id@)
                    && self@.index_of(id@) == i,
                None => !self@.contains(id@),
            },
    {
        proof {
            use_type_invariant(self);
        }
        let mut i: usize = 0;
        while i < self.ids.len()
            invariant
                i <= self.ids@.len(),
                self@.no_duplicates(),
                forall|j: int| 0 <= j < i ==> self@[j] != id@,
            decreases self.ids@.len() - i,
        {
            if self.ids[i] == *id {
                proof {
                    assert(self@[i as int] == id@);
                }
                return Some(i);
            }
            i = i + 1;
        }
        None
    }

    /// Whether `id` is in the set.
    pub fn contains(&self, id: &AccountId) -> (present: bool)
        ensures
            present == self@.contains(id@),
    {
        self.find(id).is_some()
    }

    /// Puts `id` into the set and says whether it was new.
    pub fn insert(&mut self, id: &AccountId) -> (added: bool)
        ensures
            added == !old(self)@.contains(id@),
            final(self)@ == with_id(old(self)@, id@),
    {
        match self.find(id) {
            Some(_) => false,
            None => {
                let ghost before = self@;
                let mut ids: Vec<AccountId> = Vec::new();
                std::mem::swap(&mut ids, &mut self.ids);
                ids.push(id.clone());
                proof {
                    assert(id_views(ids@) =~= before.push(id@));
                }
                self.ids = ids;
                true
            },
        }
    }

    /// Takes `id` out of the set and says whether it was in it.
    pub fn remove(&mut self, id: &AccountId) -> (removed: bool)
        ensures
            removed == old(self)@.contains(id@),
            final(self)@ == without_id(old(self)@, id@),
    {
        match self.find(id) {
            Some(i) => {
                let ghost before = self@;
                let mut ids: Vec<AccountId> = Vec::new();
                std::mem::swap(&mut ids, &mut self.ids);
                let _ = ids.swap_remove(i);
                proof {
                    assert(id_views(ids@) =~= before.update(i as int, before.last()).drop_last());
                }
                self.ids = ids;
                true
            },
            None => false,
        }
    }

    /// The ids of the set, in order: none of them twice.
    pub fn to_vec(&self) -> (list: Vec<AccountId>)
        ensures
            id_views(list@) == self@,
            self@.no_duplicates(),
    {
        proof {
            use_type_invariant(self);
        }
        let mut list: Vec<AccountId> = Vec::new();
        let mut i: usize = 0;
        while i < self.ids.len()
            invariant
                i <= self.ids@.len(),
                list@.len() == i,
                forall|j: int| 0 <= j < i ==> #[trigger] list@[j]@ == self.ids@[j]@,
            decreases self.ids@.len() - i,
        {
            list.push(self.ids[i].clone());
            i = i + 1;
        }
        list
    }
}

impl Clone for AccountIdSet {
    fn clone(&self) -> (copy: AccountIdSet)
        ensures
            copy@ == self@,
    {
        proof {
            use_type_invariant(self);
        }
        let ids = self.to_vec();
        AccountIdSet { ids }
    }
}

} // verus!
