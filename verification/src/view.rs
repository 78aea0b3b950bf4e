//! Reading the ledger.

use crate::account::{Account, AccountView};
use crate::account_id::AccountId;
use crate::contract::Contract;
use crate::directory::{id_view, id_views};
use crate::keyed::{distinct_keys, has_key, value_of};
use vstd::prelude::*;

verus! {

/// The settings of the ledger and how many accounts it holds.
#[derive(Clone, Debug, PartialEq, Eq)]
pub struct Metadata {
    /// The owner.
    pub owner_id: AccountId,
    /// How many accounts are registered.
    pub current_account_num: u64,
    /// The tokens on the white list.
    pub token_white_list: Vec<AccountId>,
    /// The account to which burned tokens go, if one is set.
    pub burn_account_id: Option<AccountId>,
}

/// The views of the accounts, in order.
pub open spec fn account_views(accounts: Seq<Account>) -> Seq<AccountView> {
    Seq::new(accounts.len(), |i: int| accounts[i]@)
}

/// Where a page of a listing of `len` accounts ends that starts at
/// `from_index`, or at the first account if `None`, and holds at most `limit`
/// accounts, or all if `None`.
pub open spec fn page_end(len: nat, from_index: Option<u64>, limit: Option<u64>) -> int {
    let from = match from_index {
        Some(f) => f as int,
        None => 0,
    };
    let most = match limit {
        Some(l) => l as int,
        None => len as int,
    };
    if from + most < len {
        from + most
    } else {
        len as int
    }
}

/// The accounts of a page of the listing, in order.
pub open spec fn page_of(
    accounts: Seq<(Seq<char>, AccountView)>,
    from_index: Option<u64>,
    limit: Option<u64>,
) -> Seq<AccountView> {
    let from = match from_index {
        Some(f) => f as int,
        None => 0,
    };
    let end = page_end(accounts.len(), from_index, limit);
    if from < end {
        Seq::new((end - from) as nat, |i: int| accounts[from + i].1)
    } else {
        Seq::empty()
    }
}

/// Where a page of a listing of `len` accounts starts and ends: it starts at
/// `from_index`, or at the first account if `None`, and holds at most `limit`
/// accounts, or all if `None`. A page that starts behind its end is empty.
pub fn page_range(len: u64, from_index: Option<u64>, limit: Option<u64>) -> (range: (u64, u64))
    ensures
        range.1 == page_end(len as nat, from_index, limit),
        range.0 <= range.1 <= len,
        range.0 == (match from_index {
            Some(f) => if f < range.1 {
                f
            } else {
                range.1
            },
            None => 0,
        }),
{
    let from: u64 = match from_index {
        Some(f) => f,
        None => 0,
    };
    let most: u64 = match limit {
        Some(l) => l,
        None => len,
    };
    if from >= len {
        return (len, len);
    }
    let end: u64 = if most < len - from {
        from + most
    } else {
        len
    };
    (from, end)
}

impl Contract {
    /// The settings of the ledger and how many accounts it holds.
    pub fn get_metadata(&self) -> (metadata: Metadata)
        ensures
            metadata.owner_id@ == self@.owner_id,
            metadata.current_account_num == self@.accounts.len(),
            id_views(metadata.token_white_list@) == self@.token_white_list,
            id_view(metadata.burn_account_id) == self@.burn_account_id,
            distinct_keys(self@.accounts),
            self@.token_white_list.no_duplicates(),
    {
        let data = self.data();
        let count = data.accounts_ref().len();
        Metadata {
            owner_id: data.owner_ref().clone(),
            current_account_num: count as u64,
            token_white_list: data.white_list_ref().to_vec(),
            burn_account_id: match data.burn_account_ref() {
                Some(id) => Some(id.clone()),
                None => None,
            },
        }
    }

    /// The account registered under `account_id`, if there is one.
    pub fn get_account(&self, account_id: AccountId) -> (account: Option<Account>)
        ensures
            account.is_some() == has_key(self@.accounts, account_id@),
            account matches Some(a) ==> a@ == value_of(self@.accounts, account_id@),
    {
        self.internal_get_account(&account_id)
    }

    /// The accounts of one page of the listing: those from place
    /// `from_index` on, or from the first if `None`, at most `limit` of them,
    /// or all if `None`.
    pub fn get_accounts_paged(
        &self,
        from_index: Option<u64>,
        limit: Option<u64>,
    ) -> (page: Vec<Account>)
        ensures
            account_views(page@) == page_of(self@.accounts, from_index, limit),
    {
        let accounts = self.data().accounts_ref();
        let len = accounts.len();
        let (from, to) = page_range(len as u64, from_index, limit);
        let mut page: Vec<Account> = Vec::new();
        let start = from as usize;
        let end = to as usize;
        let mut i: usize = start;
        while i < end
            invariant
                start <= i <= end <= len,
                len == accounts@.len(),
                page@.len() == i - start,
                forall|j: int|
                    0 <= j < i - start ==> #[trigger] page@[j]@ == accounts@[start + j].1,
            decreases end - i,
        {
            page.push(accounts.get_at(i));
            i = i + 1;
        }
        page
    }
}

} // verus!
