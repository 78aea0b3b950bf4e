//! Accounts, and the rules by which their locks are made, extended, debited
//! and restored.

use crate::account_id::AccountId;
use crate::error::LockerError;
use crate::lock_table::{LockInfo, LockTable};
use crate::utils::{nano_to_sec, spec_nano_to_sec, MAX_LOCK_NUM};
use vstd::prelude::*;
use vstd::std_specs::convert::FromSpecImpl;

verus! {

/// The locks of an account as a map from token identifier to lock.
pub type Locks = Map<Seq<char>, LockInfo>;

/// Whether a deposit made or extended a lock.
#[derive(Clone, Copy, Debug, PartialEq, Eq, Structural)]
pub enum LockChange {
    /// There was no lock for the token: one was made.
    Created,
    /// There was a lock for the token: it was extended.
    Extended,
}

/// Whether a lock may take a further deposit that is to unlock at
/// `unlock_time_sec`: not before the lock's own unlock time, and after `now_sec`.
pub open spec fn extension_check(lock: LockInfo, unlock_time_sec: u32, now_sec: u32) -> Result<
    (),
    LockerError,
> {
    if unlock_time_sec < lock.unlock_time_sec {
        Err(LockerError::InvalidUnlockExtension)
    } else if unlock_time_sec <= now_sec {
        Err(LockerError::UnlockTimeNotInFuture)
    } else {
        Ok(())
    }
}

/// The lock after a further deposit of `amount` that unlocks at
/// `unlock_time_sec`.
pub open spec fn extended(lock: LockInfo, amount: u128, unlock_time_sec: u32) -> LockInfo {
    LockInfo { locked_balance: (lock.locked_balance + amount) as u128, unlock_time_sec }
}

/// Whether an account with the locks `locks` may open one more that is to
/// unlock at `unlock_time_sec`: it holds fewer than `MAX_LOCK_NUM`, and the
/// time is after `now_sec`.
pub open spec fn creation_check(locks: Locks, unlock_time_sec: u32, now_sec: u32) -> Result<
    (),
    LockerError,
> {
    if locks.dom().len() >= MAX_LOCK_NUM {
        Err(LockerError::TooManyLocks)
    } else if unlock_time_sec <= now_sec {
        Err(LockerError::UnlockTimeNotInFuture)
    } else {
        Ok(())
    }
}

/// Whether a deposit for `token_id` is accepted, and as what.
pub open spec fn deposit_check(
    locks: Locks,
    token_id: Seq<char>,
    unlock_time_sec: u32,
    now_sec: u32,
) -> Result<LockChange, LockerError> {
    if locks.contains_key(token_id) {
        match extension_check(locks[token_id], unlock_time_sec, now_sec) {
            Ok(_) => Ok(LockChange::Extended),
            Err(e) => Err(e),
        }
    } else {
        match creation_check(locks, unlock_time_sec, now_sec) {
            Ok(_) => Ok(LockChange::Created),
            Err(e) => Err(e),
        }
    }
}

/// The locks after a deposit: those before it if it is refused; else the lock
/// for `token_id` holds `amount` more, or just `amount` if it is new, and
/// unlocks at `unlock_time_sec`.
pub open spec fn after_deposit(
    locks: Locks,
    token_id: Seq<char>,
    amount: u128,
    unlock_time_sec: u32,
    now_sec: u32,
) -> Locks {
    match deposit_check(locks, token_id, unlock_time_sec, now_sec) {
        Ok(LockChange::Extended) => locks.insert(
            token_id,
            extended(locks[token_id], amount, unlock_time_sec),
        ),
        Ok(LockChange::Created) => locks.insert(
            token_id,
            LockInfo { locked_balance: amount, unlock_time_sec },
        ),
        Err(_) => locks,
    }
}

/// Whether a deposit of `amount` keeps the balance of the lock for `token_id`
/// within 128 bits.
pub open spec fn deposit_fits(locks: Locks, token_id: Seq<char>, amount: u128) -> bool {
    locks.contains_key(token_id) ==> locks[token_id].locked_balance + amount <= u128::MAX
}

/// What a withdrawal of `requested` (the whole balance if `None`) from the
/// lock for `token_id` takes and leaves, or why it is refused: there is no
/// such lock, its unlock time is after `now_sec`, or it holds less.
pub open spec fn debit_check(
    locks: Locks,
    token_id: Seq<char>,
    requested: Option<u128>,
    now_sec: u32,
) -> Result<(u128, u128), LockerError> {
    if !locks.contains_key(token_id) {
        Err(LockerError::NoSuchLock)
    } else if now_sec < locks[token_id].unlock_time_sec {
        Err(LockerError::StillLocked)
    } else {
        let balance = locks[token_id].locked_balance;
        let amount = match requested {
            Some(a) => a,
            None => balance,
        };
        if amount > balance {
            Err(LockerError::InsufficientLockedBalance)
        } else {
            Ok((amount, (balance - amount) as u128))
        }
    }
}

/// The locks after a withdrawal: those before it if it is refused; else the
/// lock for `token_id` holds what is left, and is gone if nothing is left.
pub open spec fn after_debit(
    locks: Locks,
    token_id: Seq<char>,
    requested: Option<u128>,
    now_sec: u32,
) -> Locks {
    match debit_check(locks, token_id, requested, now_sec) {
        Ok((_, remaining)) => if remaining == 0 {
            locks.remove(token_id)
        } else {
            locks.insert(
                token_id,
                LockInfo {
                    locked_balance: remaining,
                    unlock_time_sec: locks[token_id].unlock_time_sec,
                },
            )
        },
        Err(_) => locks,
    }
}

/// The locks after `amount` of `token_id` came back from a transfer that
/// failed: a lock for the token holds `amount` more and unlocks when it did;
/// where there is none, a new one holds `amount` and unlocks at `now_sec`.
pub open spec fn after_credit_back(
    locks: Locks,
    token_id: Seq<char>,
    amount: u128,
    now_sec: u32,
) -> Locks {
    if locks.contains_key(token_id) {
        locks.insert(
            token_id,
            LockInfo {
                locked_balance: (locks[token_id].locked_balance + amount) as u128,
                unlock_time_sec: locks[token_id].unlock_time_sec,
            },
        )
    } else {
        locks.insert(token_id, LockInfo { locked_balance: amount, unlock_time_sec: now_sec })
    }
}

/// Every lock holds a balance above zero.
pub open spec fn balances_positive(locks: Locks) -> bool {
    forall|token_id: Seq<char>| #[trigger]
        locks.contains_key(token_id) ==> locks[token_id].locked_balance > 0
}

impl LockInfo {
    /// Adds `amount` to the lock and moves its unlock time to
    /// `unlock_time_sec`, which must not be before the present unlock time and
    /// must be after the time of the block.
    pub fn append_lock(
        &mut self,
        amount: u128,
        unlock_time_sec: u32,
        block_timestamp: u64,
    ) -> (done: Result<(), LockerError>)
        requires
            old(self).locked_balance + amount <= u128::MAX,
        ensures
            done == extension_check(*old(self), unlock_time_sec, spec_nano_to_sec(block_timestamp)),
            done.is_ok() ==> *final(self) == extended(*old(self), amount, unlock_time_sec),
            done.is_err() ==> *final(self) == *old(self),
    {
        let now_sec = nano_to_sec(block_timestamp);
        if unlock_time_sec < self.unlock_time_sec {
            return Err(LockerError::InvalidUnlockExtension);
        }
        if unlock_time_sec <= now_sec {
            return Err(LockerError::UnlockTimeNotInFuture);
        }
        self.locked_balance = self.locked_balance + amount;
        self.unlock_time_sec = unlock_time_sec;
        Ok(())
    }
}

/// What an account is, as values: its id and its locks.
pub struct AccountView {
    /// The text of the account id.
    pub account_id: Seq<char>,
    /// The locks by token identifier.
    pub locked_tokens: Locks,
}

/// The account with other locks.
pub open spec fn with_locks(account: AccountView, locked_tokens: Locks) -> AccountView {
    AccountView { account_id: account.account_id, locked_tokens }
}

/// An account and the locks it holds.
#[derive(Debug)]
pub struct Account {
    /// Whose account this is.
    pub account_id: AccountId,
    /// The locks by token identifier.
    pub locked_tokens: LockTable,
}

impl View for Account {
    type V = AccountView;

    open spec fn view(&self) -> AccountView {
        AccountView { account_id: self.account_id@, locked_tokens: self.locked_tokens@ }
    }
}

impl Clone for Account {
    fn clone(&self) -> (copy: Account)
        ensures
            copy@ == self@,
    {
        Account { account_id: self.account_id.clone(), locked_tokens: self.locked_tokens.clone() }
    }
}

/// An account as it is kept, in one of the forms it has had so far.
#[derive(Debug)]
pub enum VAccount {
    /// The present form.
    Current(Account),
}

impl View for VAccount {
    type V = AccountView;

    open spec fn view(&self) -> AccountView {
        match self {
            VAccount::Current(account) => account@,
        }
    }
}

impl Clone for VAccount {
    fn clone(&self) -> (copy: VAccount)
        ensures
            copy@ == self@,
    {
        match self {
            VAccount::Current(account) => VAccount::Current(account.clone()),
        }
    }
}

impl From<VAccount> for Account {
    fn from(v: VAccount) -> (account: Account) {
        match v {
            VAccount::Current(c) => c,
        }
    }
}

impl FromSpecImpl<VAccount> for Account {
    open spec fn obeys_from_spec() -> bool {
        true
    }

    open spec fn from_spec(v: VAccount) -> Account {
        match v {
            VAccount::Current(c) => c,
        }
    }
}

impl From<Account> for VAccount {
    fn from(c: Account) -> (v: VAccount) {
        VAccount::Current(c)
    }
}

impl FromSpecImpl<Account> for VAccount {
    open spec fn obeys_from_spec() -> bool {
        true
    }

    open spec fn from_spec(c: Account) -> VAccount {
        VAccount::Current(c)
    }
}

impl Account {
    /// An account of `account_id` without locks.
    pub fn new(account_id: &AccountId) -> (account: Account)
        ensures
            account@.account_id == account_id@,
            account@.locked_tokens == Map::<Seq<char>, LockInfo>::empty(),
    {
        Account { account_id: account_id.clone(), locked_tokens: LockTable::new() }
    }

    /// Sets the lock for `token_id` to `amount`, unlocking at
    /// `unlock_time_sec`, if the account holds fewer than `MAX_LOCK_NUM`
    /// locks and the unlock time is after the time of the block. A lock that
    /// the token had before is replaced.
    pub fn add_lock(
        &mut self,
        token_id: &String,
        amount: u128,
        unlock_time_sec: u32,
        block_timestamp: u64,
    ) -> (done: Result<(), LockerError>)
        ensures
            done == creation_check(
                old(self)@.locked_tokens,
                unlock_time_sec,
                spec_nano_to_sec(block_timestamp),
            ),
            final(self)@.account_id == old(self)@.account_id,
            done.is_ok() ==> final(self)@.locked_tokens == old(self)@.locked_tokens.insert(
                token_id@,
                LockInfo { locked_balance: amount, unlock_time_sec },
            ),
            done.is_err() ==> final(self)@ == old(self)@,
            amount > 0 && balances_positive(old(self)@.locked_tokens) ==> balances_positive(
                final(self)@.locked_tokens,
            ),
    {
        let now_sec = nano_to_sec(block_timestamp);
        if self.locked_tokens.len() >= MAX_LOCK_NUM {
            return Err(LockerError::TooManyLocks);
        }
        if unlock_time_sec <= now_sec {
            return Err(LockerError::UnlockTimeNotInFuture);
        }
        self.locked_tokens.insert(
            token_id.clone(),
            LockInfo { locked_balance: amount, unlock_time_sec },
        );
        Ok(())
    }

    /// Whether the lock for `token_id`, if there is one, can hold `amount`
    /// more.
    pub fn has_room_for(&self, token_id: &String, amount: u128) -> (fits: bool)
        ensures
            fits == deposit_fits(self@.locked_tokens, token_id@, amount),
    {
        match self.locked_tokens.get(token_id) {
            Some(lock) => amount <= u128::MAX - lock.locked_balance,
            None => true,
        }
    }

    /// Takes a deposit of `amount` of `token_id` that is to unlock at
    /// `unlock_time_sec`: extends the lock for the token if there is one,
    /// makes one if not, and says which it did.
    pub fn create_or_extend_lock(
        &mut self,
        token_id: &String,
        amount: u128,
        unlock_time_sec: u32,
        block_timestamp: u64,
    ) -> (done: Result<LockChange, LockerError>)
        requires
            deposit_fits(old(self)@.locked_tokens, token_id@, amount),
        ensures
            done == deposit_check(
                old(self)@.locked_tokens,
                token_id@,
                unlock_time_sec,
                spec_nano_to_sec(block_timestamp),
            ),
            final(self)@.account_id == old(self)@.account_id,
            final(self)@.locked_tokens == after_deposit(
                old(self)@.locked_tokens,
                token_id@,
                amount,
                unlock_time_sec,
                spec_nano_to_sec(block_timestamp),
            ),
            done.is_err() ==> final(self)@ == old(self)@,
            done.is_ok() && amount > 0 && balances_positive(old(self)@.locked_tokens)
                ==> balances_positive(final(self)@.locked_tokens),
            old(self)@.locked_tokens.dom().len() <= MAX_LOCK_NUM
                ==> final(self)@.locked_tokens.dom().len() <= MAX_LOCK_NUM,
    {
        match self.locked_tokens.get(token_id) {
            Some(lock) => {
                let mut lock = lock;
                match lock.append_lock(amount, unlock_time_sec, block_timestamp) {
                    Ok(_) => {
                        self.locked_tokens.insert(token_id.clone(), lock);
                        Ok(LockChange::Extended)
                    },
                    Err(e) => Err(e),
                }
            },
            None => {
                match self.add_lock(token_id, amount, unlock_time_sec, block_timestamp) {
                    Ok(_) => Ok(LockChange::Created),
                    Err(e) => Err(e),
                }
            },
        }
    }

    /// Withdraws `requested` of `token_id` from its lock, or all of it if
    /// `requested` is `None`, and returns what was taken and what is left.
    /// A lock with nothing left leaves the account.
    pub fn debit_lock(
        &mut self,
        token_id: &String,
        requested: Option<u128>,
        block_timestamp: u64,
    ) -> (done: Result<(u128, u128), LockerError>)
        ensures
            done == debit_check(
                old(self)@.locked_tokens,
                token_id@,
                requested,
                spec_nano_to_sec(block_timestamp),
            ),
            final(self)@.account_id == old(self)@.account_id,
            final(self)@.locked_tokens == after_debit(
                old(self)@.locked_tokens,
                token_id@,
                requested,
                spec_nano_to_sec(block_timestamp),
            ),
            done.is_err() ==> final(self)@ == old(self)@,
            balances_positive(old(self)@.locked_tokens) ==> balances_positive(
                final(self)@.locked_tokens,
            ),
    {
        let now_sec = nano_to_sec(block_timestamp);
        match self.locked_tokens.get(token_id) {
            None => Err(LockerError::NoSuchLock),
            Some(lock) => {
                if now_sec < lock.unlock_time_sec {
                    return Err(LockerError::StillLocked);
                }
                let amount = match requested {
                    Some(a) => a,
                    None => lock.locked_balance,
                };
                if amount > lock.locked_balance {
                    return Err(LockerError::InsufficientLockedBalance);
                }
                let remaining = lock.locked_balance - amount;
                if remaining > 0 {
                    self.locked_tokens.insert(
                        token_id.clone(),
                        LockInfo {
                            locked_balance: remaining,
                            unlock_time_sec: lock.unlock_time_sec,
                        },
                    );
                } else {
                    let _ = self.locked_tokens.remove(token_id);
                }
                Ok((amount, remaining))
            },
        }
    }

    /// Puts back `amount` of `token_id` that a failed transfer did not
    /// deliver: into the lock for the token if there is one, whose unlock time
    /// stays; else into a new lock that unlocks at the time of the block.
    pub fn credit_back(&mut self, token_id: &String, amount: u128, block_timestamp: u64)
        requires
            deposit_fits(old(self)@.locked_tokens, token_id@, amount),
        ensures
            final(self)@.account_id == old(self)@.account_id,
            final(self)@.locked_tokens == after_credit_back(
                old(self)@.locked_tokens,
                token_id@,
                amount,
                spec_nano_to_sec(block_timestamp),
            ),
            amount > 0 && balances_positive(old(self)@.locked_tokens) ==> balances_positive(
                final(self)@.locked_tokens,
            ),
    {
        match self.locked_tokens.get(token_id) {
            Some(lock) => {
                self.locked_tokens.insert(
                    token_id.clone(),
                    LockInfo {
                        locked_balance: lock.locked_balance + amount,
                        unlock_time_sec: lock.unlock_time_sec,
                    },
                );
            },
            None => {
                self.locked_tokens.insert(
                    token_id.clone(),
                    LockInfo {
                        locked_balance: amount,
                        unlock_time_sec: nano_to_sec(block_timestamp),
                    },
                );
            },
        }
    }
}

} // verus!
