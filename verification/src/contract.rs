//! The ledger: its owner, the registered accounts and the white list of
//! tokens, with the operations of the owner.

use crate::account::{Account, AccountView, VAccount};
use crate::account_id::AccountId;
use crate::directory::{id_view, id_views, with_id, without_id, AccountIdSet, AccountTable};
use crate::error::LockerError;
use crate::keyed::{has_key, put, value_of, without};
use crate::legacy::ContractDataV1000;
use vstd::prelude::*;

verus! {

/// What the surroundings report at the time of a call.
#[derive(Clone, Debug)]
pub struct CallContext {
    /// Who makes the call.
    pub predecessor_account_id: AccountId,
    /// The time of the block, in nanoseconds.
    pub block_timestamp: u64,
    /// The deposit that comes with the call, in yocto.
    pub attached_deposit: u128,
}

/// What the ledger is, as values.
pub struct ContractView {
    /// The owner.
    pub owner_id: Seq<char>,
    /// The registered accounts under their ids, in the order of the listing.
    pub accounts: Seq<(Seq<char>, AccountView)>,
    /// The tokens on the white list, in the order of the listing.
    pub token_white_list: Seq<Seq<char>>,
    /// The account to which burned tokens go, if one is set.
    pub burn_account_id: Option<Seq<char>>,
}

/// The state of the ledger in its present form.
#[derive(Debug)]
pub struct ContractData {
    pub(crate) owner_id: AccountId,
    pub(crate) accounts: AccountTable,
    pub(crate) token_white_list: AccountIdSet,
    pub(crate) burn_account_id: Option<AccountId>,
}

impl View for ContractData {
    type V = ContractView;

    closed spec fn view(&self) -> ContractView {
        ContractView {
            owner_id: self.owner_id@,
            accounts: self.accounts@,
            token_white_list: self.token_white_list@,
            burn_account_id: id_view(self.burn_account_id),
        }
    }
}

impl ContractData {
    /// The registered accounts.
    pub(crate) fn accounts_ref(&self) -> (accounts: &AccountTable)
        ensures
            accounts@ == self@.accounts,
    {
        &self.accounts
    }

    /// Registers `account` under `account_id`.
    pub(crate) fn set_account(&mut self, account_id: &AccountId, account: Account)
        ensures
            final(self)@ == (ContractView {
                accounts: put(old(self)@.accounts, account_id@, account@),
                ..old(self)@
            }),
    {
        self.accounts.set(account_id, VAccount::Current(account));
    }

    /// Takes the account of `account_id` off the register.
    pub(crate) fn remove_account(&mut self, account_id: &AccountId) -> (removed: bool)
        ensures
            removed == has_key(old(self)@.accounts, account_id@),
            final(self)@ == (ContractView {
                accounts: without(old(self)@.accounts, account_id@),
                ..old(self)@
            }),
    {
        self.accounts.remove(account_id)
    }

    /// The owner.
    pub(crate) fn owner_ref(&self) -> (owner_id: &AccountId)
        ensures
            owner_id@ == self@.owner_id,
    {
        &self.owner_id
    }

    /// The white list of tokens.
    pub(crate) fn white_list_ref(&self) -> (list: &AccountIdSet)
        ensures
            list@ == self@.token_white_list,
    {
        &self.token_white_list
    }

    /// The burn account.
    pub(crate) fn burn_account_ref(&self) -> (burn_account_id: &Option<AccountId>)
        ensures
            id_view(*burn_account_id) == self@.burn_account_id,
    {
        &self.burn_account_id
    }

    /// The state with this owner, these accounts, this white list and this
    /// burn account.
    pub fn new(
        owner_id: AccountId,
        accounts: AccountTable,
        token_white_list: AccountIdSet,
        burn_account_id: Option<AccountId>,
    ) -> (data: ContractData)
        ensures
            data@ == (ContractView {
                owner_id: owner_id@,
                accounts: accounts@,
                token_white_list: token_white_list@,
                burn_account_id: id_view(burn_account_id),
            }),
    {
        ContractData::from_parts(owner_id, accounts, token_white_list, burn_account_id)
    }

    /// The state made of these parts.
    pub(crate) fn from_parts(
        owner_id: AccountId,
        accounts: AccountTable,
        token_white_list: AccountIdSet,
        burn_account_id: Option<AccountId>,
    ) -> (data: ContractData)
        ensures
            data@ == (ContractView {
                owner_id: owner_id@,
                accounts: accounts@,
                token_white_list: token_white_list@,
                burn_account_id: id_view(burn_account_id),
            }),
            data == (ContractData { owner_id, accounts, token_white_list, burn_account_id }),
    {
        ContractData { owner_id, accounts, token_white_list, burn_account_id }
    }
}

/// The state of the ledger in one of the forms it has had so far.
#[derive(Debug)]
pub enum VersionedContractData {
    /// The first form.
    V1000(ContractDataV1000),
    /// The present form.
    V1001(ContractData),
}

impl VersionedContractData {
    /// What the state is in the present form. A state in the first form has
    /// the same owner, accounts and white list, and no burn account.
    pub closed spec fn current(&self) -> ContractView {
        match self {
            VersionedContractData::V1001(data) => data@,
            VersionedContractData::V1000(data) => data.upgraded(),
        }
    }

    /// The state, which is in its present form, to change it.
    fn current_mut(&mut self) -> (data: &mut ContractData)
        requires
            *old(self) is V1001,
        ensures
            *data == old(self)->V1001_0,
            *final(self) == VersionedContractData::V1001(*final(data)),
        no_unwind
    {
        match self {
            VersionedContractData::V1001(data) => data,
            VersionedContractData::V1000(_) => unreached(),
        }
    }
}

/// The ledger.
#[derive(Debug)]
pub struct Contract {
    data: VersionedContractData,
}

impl View for Contract {
    type V = ContractView;

    closed spec fn view(&self) -> ContractView {
        self.data.current()
    }
}

/// The ids after each of `more` was put among them in turn.
pub open spec fn with_ids(ids: Seq<Seq<char>>, more: Seq<Seq<char>>) -> Seq<Seq<char>>
    decreases more.len(),
{
    if more.len() == 0 {
        ids
    } else {
        with_id(with_ids(ids, more.drop_last()), more.last())
    }
}

/// The ids after each of `fewer` was taken from them in turn, or `None` if
/// one of them was not there when its turn came.
pub open spec fn without_ids(ids: Seq<Seq<char>>, fewer: Seq<Seq<char>>) -> Option<Seq<Seq<char>>>
    decreases fewer.len(),
{
    if fewer.len() == 0 {
        Some(ids)
    } else {
        match without_ids(ids, fewer.drop_last()) {
            Some(rest) => if rest.contains(fewer.last()) {
                Some(without_id(rest, fewer.last()))
            } else {
                None
            },
            None => None,
        }
    }
}

/// Whether a call with `ctx` may change the settings of a ledger owned by
/// `owner_id`: it carries exactly one yocto and comes from the owner.
pub open spec fn owner_check(owner_id: Seq<char>, ctx: CallContext) -> Result<(), LockerError> {
    if ctx.attached_deposit != 1 {
        Err(LockerError::RequiresOneYocto)
    } else if ctx.predecessor_account_id@ != owner_id {
        Err(LockerError::NotAllowed)
    } else {
        Ok(())
    }
}

impl Contract {
    #[verifier::type_invariant]
    spec fn is_current(&self) -> bool {
        self.data is V1001
    }

    /// A ledger owned by `owner_id`, without accounts, white list or burn
    /// account.
    pub fn new(owner_id: AccountId) -> (contract: Contract)
        ensures
            contract@ == (ContractView {
                owner_id: owner_id@,
                accounts: Seq::empty(),
                token_white_list: Seq::empty(),
                burn_account_id: None,
            }),
    {
        Contract {
            data: VersionedContractData::V1001(
                ContractData {
                    owner_id,
                    accounts: AccountTable::new(),
                    token_white_list: AccountIdSet::new(),
                    burn_account_id: None,
                },
            ),
        }
    }

    /// The ledger with the state `data`, brought into the present form if it
    /// is in an earlier one.
    pub fn load(data: VersionedContractData) -> (contract: Contract)
        ensures
            contract@ == data.current(),
    {
        match data {
            VersionedContractData::V1001(data) => Contract {
                data: VersionedContractData::V1001(data),
            },
            VersionedContractData::V1000(legacy) => Contract {
                data: VersionedContractData::V1001(ContractData::from(legacy)),
            },
        }
    }

    /// The state in its present form.
    pub(crate) fn data(&self) -> (data: &ContractData)
        ensures
            data@ == self@,
    {
        proof {
            use_type_invariant(self);
        }
        match &self.data {
            VersionedContractData::V1001(data) => data,
            VersionedContractData::V1000(_) => unreached(),
        }
    }

    /// The state in its present form, to change it.
    pub(crate) fn data_mut(&mut self) -> (data: &mut ContractData)
        ensures
            data@ == old(self)@,
            final(self)@ == final(data)@,
    {
        proof {
            use_type_invariant(&*self);
        }
        self.data.current_mut()
    }

    /// The account registered under `account_id`, if there is one.
    pub fn internal_get_account(&self, account_id: &AccountId) -> (account: Option<Account>)
        ensures
            account.is_some() == has_key(self@.accounts, account_id@),
            account matches Some(a) ==> a@ == value_of(self@.accounts, account_id@),
    {
        self.data().accounts_ref().get(account_id)
    }

    /// The account registered under `account_id`.
    pub fn internal_unwrap_account(&self, account_id: &AccountId) -> (account: Result<
        Account,
        LockerError,
    >)
        ensures
            account.is_ok() == has_key(self@.accounts, account_id@),
            account matches Ok(a) ==> a@ == value_of(self@.accounts, account_id@),
            account matches Err(e) ==> e == LockerError::AccountNotRegistered,
    {
        match self.internal_get_account(account_id) {
            Some(account) => Ok(account),
            None => Err(LockerError::AccountNotRegistered),
        }
    }

    /// Registers `account` under `account_id`, in the place of the account
    /// that was registered under it, if any.
    pub fn internal_set_account(&mut self, account_id: &AccountId, account: Account)
        ensures
            final(self)@ == (ContractView {
                accounts: put(old(self)@.accounts, account_id@, account@),
                ..old(self)@
            }),
    {
        let data = self.data_mut();
        data.set_account(account_id, account);
    }

    /// Whether the caller is the owner.
    pub fn assert_owner(&self, ctx: &CallContext) -> (done: Result<(), LockerError>)
        ensures
            done == (if ctx.predecessor_account_id@ == self@.owner_id {
                Ok::<(), LockerError>(())
            } else {
                Err(LockerError::NotAllowed)
            }),
    {
        if ctx.predecessor_account_id == self.data().owner_id {
            Ok(())
        } else {
            Err(LockerError::NotAllowed)
        }
    }

    /// Whether `token_id` is on the white list.
    pub fn assert_white_list_token(&self, token_id: &AccountId) -> (done: Result<(), LockerError>)
        ensures
            done == (if self@.token_white_list.contains(token_id@) {
                Ok::<(), LockerError>(())
            } else {
                Err(LockerError::NotWhiteListToken)
            }),
    {
        if self.data().token_white_list.contains(token_id) {
            Ok(())
        } else {
            Err(LockerError::NotWhiteListToken)
        }
    }

    /// Whether the call may change the settings of the ledger.
    fn check_owner_call(&self, ctx: &CallContext) -> (done: Result<(), LockerError>)
        ensures
            done == owner_check(self@.owner_id, *ctx),
    {
        if ctx.attached_deposit != 1 {
            return Err(LockerError::RequiresOneYocto);
        }
        self.assert_owner(ctx)
    }

    /// Hands the ledger to `owner_id`.
    pub fn set_owner_id(&mut self, ctx: &CallContext, owner_id: AccountId) -> (done: Result<
        (),
        LockerError,
    >)
        ensures
            done == owner_check(old(self)@.owner_id, *ctx),
            done.is_ok() ==> final(self)@ == (ContractView { owner_id: owner_id@, ..old(self)@ }),
            done.is_err() ==> final(self)@ == old(self)@,
    {
        match self.check_owner_call(ctx) {
            Err(e) => Err(e),
            Ok(_) => {
                let data = self.data_mut();
                data.owner_id = owner_id;
                Ok(())
            },
        }
    }

    /// Sets the account to which burned tokens go.
    pub fn set_burn_account_id(&mut self, ctx: &CallContext, burn_account_id: AccountId) -> (done:
        Result<(), LockerError>)
        ensures
            done == owner_check(old(self)@.owner_id, *ctx),
            done.is_ok() ==> final(self)@ == (ContractView {
                burn_account_id: Some(burn_account_id@),
                ..old(self)@
            }),
            done.is_err() ==> final(self)@ == old(self)@,
    {
        match self.check_owner_call(ctx) {
            Err(e) => Err(e),
            Ok(_) => {
                let data = self.data_mut();
                data.burn_account_id = Some(burn_account_id);
                Ok(())
            },
        }
    }

    /// Puts each of `token_ids` on the white list.
    pub fn extend_token_white_list(
        &mut self,
        ctx: &CallContext,
        token_ids: Vec<AccountId>,
    ) -> (done: Result<(), LockerError>)
        ensures
            done == owner_check(old(self)@.owner_id, *ctx),
            done.is_ok() ==> final(self)@ == (ContractView {
                token_white_list: with_ids(old(self)@.token_white_list, id_views(token_ids@)),
                ..old(self)@
            }),
            done.is_err() ==> final(self)@ == old(self)@,
    {
        match self.check_owner_call(ctx) {
            Err(e) => Err(e),
            Ok(_) => {
                let ghost before = self@;
                let ghost more = id_views(token_ids@);
                let data = self.data_mut();
                let mut i: usize = 0;
                while i < token_ids.len()
                    invariant
                        i <= token_ids@.len(),
                        more == id_views(token_ids@),
                        data@ == (ContractView {
                            token_white_list: with_ids(
                                before.token_white_list,
                                more.take(i as int),
                            ),
                            ..before
                        }),
                    decreases token_ids@.len() - i,
                {
                    let _ = data.token_white_list.insert(&token_ids[i]);
                    proof {
                        assert(more.take(i + 1).drop_last() =~= more.take(i as int));
                    }
                    i = i + 1;
                }
                proof {
                    assert(more.take(i as int) =~= more);
                }
                Ok(())
            },
        }
    }

    /// Takes each of `token_ids` off the white list. If one of them is not on
    /// the list when its turn comes, the list stays as it was.
    #[verifier::loop_isolation(false)]
    pub fn remove_token_white_list(
        &mut self,
        ctx: &CallContext,
        token_ids: Vec<AccountId>,
    ) -> (done: Result<(), LockerError>)
        ensures
            done == (match owner_check(old(self)@.owner_id, *ctx) {
                Err(e) => Err(e),
                Ok(_) => if without_ids(
                    old(self)@.token_white_list,
                    id_views(token_ids@),
                ).is_some() {
                    Ok(())
                } else {
                    Err(LockerError::InvalidTokenId)
                },
            }),
            done.is_ok() ==> final(self)@ == (ContractView {
                token_white_list: without_ids(
                    old(self)@.token_white_list,
                    id_views(token_ids@),
                ).unwrap(),
                ..old(self)@
            }),
            done.is_err() ==> final(self)@ == old(self)@,
    {
        match self.check_owner_call(ctx) {
            Err(e) => Err(e),
            Ok(_) => {
                let ghost before = self@;
                let ghost fewer = id_views(token_ids@);
                let mut list = self.data().token_white_list.clone();
                let mut i: usize = 0;
                while i < token_ids.len()
                    invariant
                        i <= token_ids@.len(),
                        fewer == id_views(token_ids@),
                        without_ids(before.token_white_list, fewer.take(i as int)) == Some(list@),
                    decreases token_ids@.len() - i,
                {
                    proof {
                        assert(fewer.take(i + 1).drop_last() =~= fewer.take(i as int));
                    }
                    if !list.remove(&token_ids[i]) {
                        proof {
                            lemma_without_ids_fails(
                                before.token_white_list,
                                fewer,
                                i + 1,
                            );
                        }
                        return Err(LockerError::InvalidTokenId);
                    }
                    i = i + 1;
                }
                proof {
                    assert(fewer.take(i as int) =~= fewer);
                }
                let data = self.data_mut();
                data.token_white_list = list;
                Ok(())
            },
        }
    }
}

/// Once the ids cannot all be taken from a list up to some turn, they cannot
/// be taken up to any later turn.
proof fn lemma_without_ids_fails(ids: Seq<Seq<char>>, fewer: Seq<Seq<char>>, turn: int)
    requires
        0 <= turn <= fewer.len(),
        without_ids(ids, fewer.take(turn)).is_none(),
    ensures
        without_ids(ids, fewer).is_none(),
    decreases fewer.len() - turn,
{
    if turn == fewer.len() {
        assert(fewer.take(turn) =~= fewer);
    } else {
        assert(fewer.take(turn + 1).drop_last() =~= fewer.take(turn));
        lemma_without_ids_fails(ids, fewer, turn + 1);
    }
}

} // verus!
