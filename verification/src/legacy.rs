//! The state of the ledger as it was kept before it knew a burn account.

use crate::account_id::AccountId;
use crate::contract::{ContractData, ContractView};
use crate::directory::{AccountIdSet, AccountTable};
use vstd::prelude::*;
use vstd::std_specs::convert::FromSpecImpl;

verus! {

/// The state of the ledger in its first form: an owner, the accounts and
/// the white list of tokens.
#[derive(Debug)]
pub struct ContractDataV1000 {
    pub(crate) owner_id: AccountId,
    pub(crate) accounts: AccountTable,
    pub(crate) token_white_list: AccountIdSet,
}

impl ContractDataV1000 {
    /// A state in the first form.
    pub fn new(
        owner_id: AccountId,
        accounts: AccountTable,
        token_white_list: AccountIdSet,
    ) -> (data: ContractDataV1000)
        ensures
            data.upgraded() == (ContractView {
                owner_id: owner_id@,
                accounts: accounts@,
                token_white_list: token_white_list@,
                burn_account_id: None,
            }),
    {
        ContractDataV1000 { owner_id, accounts, token_white_list }
    }

    /// What the state is in the present form: the same owner, accounts and
    /// white list, and no burn account.
    pub closed spec fn upgraded(&self) -> ContractView {
        ContractView {
            owner_id: self.owner_id@,
            accounts: self.accounts@,
            token_white_list: self.token_white_list@,
            burn_account_id: None,
        }
    }
}

impl From<ContractDataV1000> for ContractData {
    fn from(a: ContractDataV1000) -> (data: ContractData)
        ensures
            data@ == a.upgraded(),
    {
        let ContractDataV1000 { owner_id, accounts, token_white_list } = a;
        ContractData::from_parts(owner_id, accounts, token_white_list, None)
    }
}

impl FromSpecImpl<ContractDataV1000> for ContractData {
    open spec fn obeys_from_spec() -> bool {
        true
    }

    closed spec fn from_spec(a: ContractDataV1000) -> ContractData {
        ContractData {
            owner_id: a.owner_id,
            accounts: a.accounts,
            token_white_list: a.token_white_list,
            burn_account_id: None,
        }
    }
}

} // verus!
