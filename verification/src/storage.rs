//! Registering and unregistering accounts against a storage deposit.

use crate::account::{Account, AccountView};
use crate::account_id::AccountId;
use crate::contract::{CallContext, Contract, ContractView};
use crate::error::LockerError;
use crate::event::{Event, EventView};
use crate::keyed::{has_key, put, value_of, without};
use crate::lock_table::LockInfo;
use vstd::prelude::*;

verus! {

/// What the registration of an account costs, in yocto: a tenth of a NEAR.
pub const STORAGE_BALANCE_MIN_BOUND: u128 = 100_000_000_000_000_000_000_000;

/// What an account has paid for storage and what of it is free.
#[derive(Clone, Copy, Debug, PartialEq, Eq, Structural)]
pub struct StorageBalance {
    /// What was paid, in yocto.
    pub total: u128,
    /// What of it may be withdrawn, in yocto.
    pub available: u128,
}

/// The least and the most that storage may cost an account.
#[derive(Clone, Copy, Debug, PartialEq, Eq, Structural)]
pub struct StorageBalanceBounds {
    /// The least, in yocto.
    pub min: u128,
    /// The most, in yocto, if there is a bound.
    pub max: Option<u128>,
}

/// An amount of yocto to pay to an account.
#[derive(Clone, Debug, PartialEq, Eq)]
pub struct Payment {
    /// Who is paid.
    pub receiver_id: AccountId,
    /// How much, in yocto.
    pub amount: u128,
}

/// The view of an optional payment.
pub open spec fn payment_view(payment: Option<Payment>) -> Option<(Seq<char>, u128)> {
    match payment {
        Some(p) => Some((p.receiver_id@, p.amount)),
        None => None,
    }
}

/// The view of an optional event.
pub open spec fn event_view(event: Option<Event>) -> Option<EventView> {
    match event {
        Some(e) => Some(e@),
        None => None,
    }
}

/// What a storage deposit that was accepted did.
#[derive(Clone, Debug, PartialEq, Eq)]
pub struct StorageDeposit {
    /// The storage balance of the account.
    pub balance: StorageBalance,
    /// What to pay back of the deposit.
    pub refund: Option<Payment>,
    /// The event to report, if an account was registered.
    pub event: Option<Event>,
}

/// What a call to unregister did.
#[derive(Clone, Debug, PartialEq, Eq)]
pub struct StorageUnregister {
    /// Whether there was an account to unregister.
    pub removed: bool,
    /// What to pay back of the storage deposit.
    pub refund: Option<Payment>,
    /// The event to report, if an account was unregistered.
    pub event: Option<Event>,
}

/// The storage balance of every registered account.
pub open spec fn registered_balance() -> StorageBalance {
    StorageBalance { total: STORAGE_BALANCE_MIN_BOUND, available: 0 }
}

/// The account for which a storage deposit is made: the one named, or the
/// caller.
pub open spec fn deposit_target(ctx: CallContext, account_id: Option<AccountId>) -> Seq<char> {
    match account_id {
        Some(a) => a@,
        None => ctx.predecessor_account_id@,
    }
}

/// Whether a storage deposit for `target` is accepted: the account is
/// registered already, or the deposit covers a registration.
pub open spec fn storage_deposit_check(
    ledger: ContractView,
    target: Seq<char>,
    deposit: u128,
) -> bool {
    has_key(ledger.accounts, target) || deposit >= STORAGE_BALANCE_MIN_BOUND
}

/// The ledger after a storage deposit for `target`: with a new account
/// without locks under `target` if the deposit is accepted and none was
/// registered; else as before.
pub open spec fn after_storage_deposit(
    ledger: ContractView,
    target: Seq<char>,
    deposit: u128,
) -> ContractView {
    if !has_key(ledger.accounts, target) && deposit >= STORAGE_BALANCE_MIN_BOUND {
        ContractView {
            accounts: put(
                ledger.accounts,
                target,
                AccountView { account_id: target, locked_tokens: Map::empty() },
            ),
            ..ledger
        }
    } else {
        ledger
    }
}

/// What an accepted storage deposit pays back to `caller`: all of it if the
/// account was registered, else what exceeds the cost of a registration;
/// nothing if that is zero.
pub open spec fn storage_deposit_refund(
    ledger: ContractView,
    target: Seq<char>,
    caller: Seq<char>,
    deposit: u128,
) -> Option<(Seq<char>, u128)> {
    let back = if has_key(ledger.accounts, target) {
        deposit as int
    } else {
        deposit - STORAGE_BALANCE_MIN_BOUND
    };
    if back == 0 {
        None
    } else {
        Some((caller, back as u128))
    }
}

/// Whether the caller may unregister: the call carries exactly one yocto,
/// and an account of the caller holds no lock unless `force` is set.
pub open spec fn unregister_check(
    ledger: ContractView,
    ctx: CallContext,
    force: Option<bool>,
) -> Result<(),
    LockerError,
> {
    let caller = ctx.predecessor_account_id@;
    if ctx.attached_deposit != 1 {
        Err(LockerError::RequiresOneYocto)
    } else if has_key(ledger.accounts, caller) && force != Some(true) && value_of(
        ledger.accounts,
        caller,
    ).locked_tokens != Map::<Seq<char>, LockInfo>::empty() {
        Err(LockerError::StillHasTokens)
    } else {
        Ok(())
    }
}

impl Contract {
    /// Registers the account named, or that of the caller, against the
    /// deposit of the call. An account that is registered already stays as
    /// it is and gets the deposit back.
    pub fn storage_deposit(
        &mut self,
        ctx: &CallContext,
        account_id: Option<AccountId>,
        registration_only: Option<bool>,
    ) -> (done: Result<StorageDeposit, LockerError>)
        ensures
            done.is_ok() == storage_deposit_check(
                old(self)@,
                deposit_target(*ctx, account_id),
                ctx.attached_deposit,
            ),
            done matches Err(e) ==> e == LockerError::InsufficientDeposit && final(self)@
                == old(self)@,
            done matches Ok(d) ==> {
                let target = deposit_target(*ctx, account_id);
                &&& final(self)@ == after_storage_deposit(old(self)@, target, ctx.attached_deposit)
                &&& d.balance == registered_balance()
                &&& payment_view(d.refund) == storage_deposit_refund(
                    old(self)@,
                    target,
                    ctx.predecessor_account_id@,
                    ctx.attached_deposit,
                )
                &&& event_view(d.event) == (if has_key(old(self)@.accounts, target) {
                    None
                } else {
                    Some(EventView::AccountRegister { account_id: target })
                })
            },
    {
        let amount = ctx.attached_deposit;
        let target = match account_id {
            Some(a) => a,
            None => ctx.predecessor_account_id.clone(),
        };
        let already_registered = self.internal_get_account(&target).is_some();
        if amount < STORAGE_BALANCE_MIN_BOUND && !already_registered {
            return Err(LockerError::InsufficientDeposit);
        }
        let balance = StorageBalance { total: STORAGE_BALANCE_MIN_BOUND, available: 0 };
        if already_registered {
            let refund = if amount != 0 {
                Some(Payment { receiver_id: ctx.predecessor_account_id.clone(), amount })
            } else {
                None
            };
            Ok(StorageDeposit { balance, refund, event: None })
        } else {
            self.internal_set_account(&target, Account::new(&target));
            let back = amount - STORAGE_BALANCE_MIN_BOUND;
            let refund = if back != 0 {
                Some(Payment { receiver_id: ctx.predecessor_account_id.clone(), amount: back })
            } else {
                None
            };
            let event = Some(Event::AccountRegister { account_id: target });
            Ok(StorageDeposit { balance, refund, event })
        }
    }

    /// Storage deposits cannot be withdrawn: the call is refused and nothing
    /// changes.
    pub fn storage_withdraw(
        &mut self,
        amount: Option<u128>,
    ) -> (done: Result<StorageBalance, LockerError>)
        ensures
            done == Err::<StorageBalance, LockerError>(LockerError::NotSupported),
            final(self)@ == old(self)@,
    {
        Err(LockerError::NotSupported)
    }

    /// Unregisters the account of the caller and pays the storage deposit
    /// back. An account that holds locks is unregistered only with `force`,
    /// and its locks are then given up with it.
    pub fn storage_unregister(&mut self, ctx: &CallContext, force: Option<bool>) -> (done: Result<
        StorageUnregister,
        LockerError,
    >)
        ensures
            done.is_ok() == unregister_check(old(self)@, *ctx, force).is_ok(),
            done matches Err(e) ==> unregister_check(old(self)@, *ctx, force) == Err::<
                (),
                LockerError,
            >(e) && final(self)@ == old(self)@,
            done matches Ok(u) ==> {
                let caller = ctx.predecessor_account_id@;
                &&& u.removed == has_key(old(self)@.accounts, caller)
                &&& final(self)@ == (ContractView {
                    accounts: without(old(self)@.accounts, caller),
                    ..old(self)@
                })
                &&& payment_view(u.refund) == (if u.removed {
                    Some((caller, STORAGE_BALANCE_MIN_BOUND))
                } else {
                    None
                })
                &&& event_view(u.event) == (if u.removed {
                    Some(EventView::AccountUnregister { account_id: caller })
                } else {
                    None
                })
            },
    {
        if ctx.attached_deposit != 1 {
            return Err(LockerError::RequiresOneYocto);
        }
        let account_id = &ctx.predecessor_account_id;
        match self.internal_get_account(account_id) {
            Some(account) => {
                let forced = match force {
                    Some(f) => f,
                    None => false,
                };
                if !forced && !account.locked_tokens.is_empty() {
                    return Err(LockerError::StillHasTokens);
                }
                let data = self.data_mut();
                let _ = data.remove_account(account_id);
                Ok(
                    StorageUnregister {
                        removed: true,
                        refund: Some(
                            Payment {
                                receiver_id: account_id.clone(),
                                amount: STORAGE_BALANCE_MIN_BOUND,
                            },
                        ),
                        event: Some(Event::AccountUnregister { account_id: account_id.clone() }),
                    },
                )
            },
            None => Ok(StorageUnregister { removed: false, refund: None, event: None }),
        }
    }

    /// What storage costs an account: exactly the cost of a registration.
    pub fn storage_balance_bounds(&self) -> (bounds: StorageBalanceBounds)
        ensures
            bounds == (StorageBalanceBounds {
                min: STORAGE_BALANCE_MIN_BOUND,
                max: Some(STORAGE_BALANCE_MIN_BOUND),
            }),
    {
        StorageBalanceBounds {
            min: STORAGE_BALANCE_MIN_BOUND,
            max: Some(STORAGE_BALANCE_MIN_BOUND),
        }
    }

    /// The storage balance of `account_id`, if it is registered.
    pub fn storage_balance_of(&self, account_id: AccountId) -> (balance: Option<StorageBalance>)
        ensures
            balance == (if has_key(self@.accounts, account_id@) {
                Some(registered_balance())
            } else {
                None
            }),
    {
        if self.internal_get_account(&account_id).is_some() {
            Some(StorageBalance { total: STORAGE_BALANCE_MIN_BOUND, available: 0 })
        } else {
            None
        }
    }
}

} // verus!
