//! What holds of the rules of the ledger, whatever the deposits and
//! withdrawals are.

use crate::account::{
    after_credit_back, after_debit, after_deposit, debit_check, deposit_check, with_locks,
    LockChange, Locks,
};
use crate::token_receiver::{after_ingest, ingest_check, TokenReceiverMessage};
use crate::withdrawal::{after_settlement, after_withdraw, settlement_event, withdraw_check};
use crate::contract::ContractView;
use crate::error::LockerError;
use crate::event::EventView;
use crate::keyed::{distinct_keys, has_key, lemma_put, table_of, value_of};
use crate::utils::MAX_LOCK_NUM;
use vstd::prelude::*;

verus! {

/// One deposit: how much, until when it is to be locked, and when it is made.
pub struct DepositStep {
    /// The amount deposited.
    pub amount: u128,
    /// The unlock time asked for, in seconds.
    pub unlock_time_sec: u32,
    /// The time at which the deposit is made, in seconds.
    pub now_sec: u32,
}

/// The locks after the deposits `steps` for `token_id`, made in order.
pub open spec fn after_deposits(locks: Locks, token_id: Seq<char>, steps: Seq<DepositStep>) -> Locks
    decreases steps.len(),
{
    if steps.len() == 0 {
        locks
    } else {
        let step = steps.last();
        after_deposit(
            after_deposits(locks, token_id, steps.drop_last()),
            token_id,
            step.amount,
            step.unlock_time_sec,
            step.now_sec,
        )
    }
}

/// The sum of the amounts of the deposits.
pub open spec fn total_deposited(steps: Seq<DepositStep>) -> int
    decreases steps.len(),
{
    if steps.len() == 0 {
        0
    } else {
        total_deposited(steps.drop_last()) + steps.last().amount
    }
}

/// The latest unlock time among the deposits, or 0 if there are none.
pub open spec fn latest_unlock(steps: Seq<DepositStep>) -> int
    decreases steps.len(),
{
    if steps.len() == 0 {
        0
    } else {
        let before = latest_unlock(steps.drop_last());
        if steps.last().unlock_time_sec >= before {
            steps.last().unlock_time_sec as int
        } else {
            before
        }
    }
}

/// Each deposit asks for an unlock time after the time at which it is made.
pub open spec fn all_in_future(steps: Seq<DepositStep>) -> bool {
    forall|i: int| 0 <= i < steps.len() ==> (#[trigger] steps[i]).now_sec < steps[i].unlock_time_sec
}

/// No deposit asks for an earlier unlock time than one before it.
pub open spec fn unlocks_never_decrease(steps: Seq<DepositStep>) -> bool {
    forall|i: int, j: int|
        0 <= i <= j < steps.len() ==> (#[trigger] steps[i]).unlock_time_sec <= (
        #[trigger] steps[j]).unlock_time_sec
}

/// What the lock for `token_id` holds, or nothing if there is none.
pub open spec fn balance_of(locks: Locks, token_id: Seq<char>) -> int {
    if locks.contains_key(token_id) {
        locks[token_id].locked_balance as int
    } else {
        0
    }
}

/// Whether the first of the deposits can be taken: a lock for the token does
/// not unlock later than the deposit asks for, and where there is no lock the
/// account has room for one.
pub open spec fn first_deposit_fits_in(
    locks: Locks,
    token_id: Seq<char>,
    steps: Seq<DepositStep>,
) -> bool {
    if locks.contains_key(token_id) {
        locks[token_id].unlock_time_sec <= steps[0].unlock_time_sec
    } else {
        locks.dom().len() < MAX_LOCK_NUM
    }
}

/// Deposits for one token whose unlock times never decrease add up: after
/// them the lock holds what it held before and the sum of their amounts, it
/// unlocks at the latest of their unlock times, which is that of the last,
/// and no other lock has changed. This holds where the first deposit can be
/// taken, each deposit asks for an unlock time after the time at which it is
/// made, and the balance stays within 128 bits.
pub proof fn lemma_deposits_add_up(locks: Locks, token_id: Seq<char>, steps: Seq<DepositStep>)
    requires
        steps.len() > 0,
        locks.dom().finite(),
        first_deposit_fits_in(locks, token_id, steps),
        all_in_future(steps),
        unlocks_never_decrease(steps),
        balance_of(locks, token_id) + total_deposited(steps) <= u128::MAX,
    ensures
        after_deposits(locks, token_id, steps).contains_key(token_id),
        after_deposits(locks, token_id, steps)[token_id].locked_balance == balance_of(
            locks,
            token_id,
        ) + total_deposited(steps),
        after_deposits(locks, token_id, steps)[token_id].unlock_time_sec == latest_unlock(steps),
        after_deposits(locks, token_id, steps)[token_id].unlock_time_sec
            == steps.last().unlock_time_sec,
        after_deposits(locks, token_id, steps).remove(token_id) == locks.remove(token_id),
    decreases steps.len(),
{
    let front = steps.drop_last();
    lemma_total_not_negative(front);
    if front.len() == 0 {
        assert(after_deposits(locks, token_id, front) == locks);
        assert(latest_unlock(front) == 0);
    } else {
        assert(all_in_future(front));
        assert(unlocks_never_decrease(front));
        lemma_deposits_add_up(locks, token_id, front);
    }
}

/// The sum of the amounts of deposits is not negative.
proof fn lemma_total_not_negative(steps: Seq<DepositStep>)
    ensures
        total_deposited(steps) >= 0,
    decreases steps.len(),
{
    if steps.len() > 0 {
        lemma_total_not_negative(steps.drop_last());
    }
}

/// A deposit that asks for an unlock time before that of the lock it would
/// extend is refused, and every lock stays as it was.
pub proof fn lemma_earlier_unlock_refused(
    locks: Locks,
    token_id: Seq<char>,
    amount: u128,
    unlock_time_sec: u32,
    now_sec: u32,
)
    requires
        locks.contains_key(token_id),
        unlock_time_sec < locks[token_id].unlock_time_sec,
    ensures
        deposit_check(locks, token_id, unlock_time_sec, now_sec) == Err::<LockChange, LockerError>(
            LockerError::InvalidUnlockExtension,
        ),
        after_deposit(locks, token_id, amount, unlock_time_sec, now_sec) == locks,
{
}

/// Before the unlock time every withdrawal from a lock is refused as still
/// locked, and every lock stays as it was.
pub proof fn lemma_no_withdrawal_before_unlock(
    locks: Locks,
    token_id: Seq<char>,
    requested: Option<u128>,
    now_sec: u32,
)
    requires
        locks.contains_key(token_id),
        now_sec < locks[token_id].unlock_time_sec,
    ensures
        debit_check(locks, token_id, requested, now_sec) == Err::<(u128, u128), LockerError>(
            LockerError::StillLocked,
        ),
        after_debit(locks, token_id, requested, now_sec) == locks,
{
}

/// At the unlock time and after it a withdrawal of no more than the lock
/// holds is accepted: it takes the amount asked for and leaves the rest.
pub proof fn lemma_withdrawal_from_unlock_on(
    locks: Locks,
    token_id: Seq<char>,
    amount: u128,
    now_sec: u32,
)
    requires
        locks.contains_key(token_id),
        locks[token_id].unlock_time_sec <= now_sec,
        amount <= locks[token_id].locked_balance,
    ensures
        debit_check(locks, token_id, Some(amount), now_sec) == Ok::<(u128, u128), LockerError>(
            (amount, (locks[token_id].locked_balance - amount) as u128),
        ),
{
}

/// A withdrawal of all that a lock holds takes the lock away, and after it
/// every withdrawal of that token is refused for want of a lock.
pub proof fn lemma_full_withdrawal_removes_lock(
    locks: Locks,
    token_id: Seq<char>,
    requested: Option<u128>,
    now_sec: u32,
    next_requested: Option<u128>,
    next_now_sec: u32,
)
    requires
        locks.contains_key(token_id),
        locks[token_id].unlock_time_sec <= now_sec,
        requested.is_none() || requested == Some(locks[token_id].locked_balance),
    ensures
        debit_check(locks, token_id, requested, now_sec) == Ok::<(u128, u128), LockerError>(
            (locks[token_id].locked_balance, 0u128),
        ),
        after_debit(locks, token_id, requested, now_sec) == locks.remove(token_id),
        debit_check(
            after_debit(locks, token_id, requested, now_sec),
            token_id,
            next_requested,
            next_now_sec,
        ) == Err::<(u128, u128), LockerError>(LockerError::NoSuchLock),
{
}

/// What a withdrawal takes and what it leaves are together what the lock
/// held. When the amount taken comes back after a failed transfer, the lock
/// holds what it held before the withdrawal, and no other lock has changed:
/// nothing is made and nothing is lost.
pub proof fn lemma_failed_transfer_restores_balance(
    locks: Locks,
    token_id: Seq<char>,
    requested: Option<u128>,
    now_sec: u32,
    settled_sec: u32,
)
    requires
        debit_check(locks, token_id, requested, now_sec).is_ok(),
    ensures
        ({
            let (taken, left) = debit_check(locks, token_id, requested, now_sec).unwrap();
            let debited = after_debit(locks, token_id, requested, now_sec);
            let restored = after_credit_back(debited, token_id, taken, settled_sec);
            &&& taken + left == locks[token_id].locked_balance
            &&& left == balance_of(debited, token_id)
            &&& restored.contains_key(token_id)
            &&& restored[token_id].locked_balance == locks[token_id].locked_balance
            &&& restored.remove(token_id) == locks.remove(token_id)
        }),
{
}

/// An amount that came back after a failed transfer can be withdrawn at
/// once: a lock that was left keeps its unlock time, which had passed when
/// the withdrawal was made, and a lock that had gone comes back with the time
/// of the settlement as its unlock time.
pub proof fn lemma_returned_amount_is_withdrawable(
    locks: Locks,
    token_id: Seq<char>,
    requested: Option<u128>,
    now_sec: u32,
    settled_sec: u32,
)
    requires
        debit_check(locks, token_id, requested, now_sec).is_ok(),
        now_sec <= settled_sec,
    ensures
        ({
            let taken = debit_check(locks, token_id, requested, now_sec).unwrap().0;
            let debited = after_debit(locks, token_id, requested, now_sec);
            let restored = after_credit_back(debited, token_id, taken, settled_sec);
            debit_check(restored, token_id, Some(taken), settled_sec) is Ok
        }),
{
}

/// No deposit, withdrawal or return of a failed transfer moves the unlock
/// time of a lock back: a lock that is there before and after unlocks no
/// earlier than it did. Withdrawals and returns leave the unlock time as it
/// was.
pub proof fn lemma_unlock_time_never_moves_back(
    locks: Locks,
    token_id: Seq<char>,
    amount: u128,
    unlock_time_sec: u32,
    requested: Option<u128>,
    now_sec: u32,
)
    requires
        locks.contains_key(token_id),
    ensures
        after_deposit(locks, token_id, amount, unlock_time_sec, now_sec).contains_key(token_id),
        after_deposit(locks, token_id, amount, unlock_time_sec, now_sec)[token_id].unlock_time_sec
            >= locks[token_id].unlock_time_sec,
        after_debit(locks, token_id, requested, now_sec).contains_key(token_id) ==> after_debit(
            locks,
            token_id,
            requested,
            now_sec,
        )[token_id].unlock_time_sec == locks[token_id].unlock_time_sec,
        after_credit_back(locks, token_id, amount, now_sec)[token_id].unlock_time_sec
            == locks[token_id].unlock_time_sec,
{
}

/// A deposit, a withdrawal and the return of a failed transfer each touch
/// the lock of one token: the locks of all other tokens stay as they were.
pub proof fn lemma_one_lock_is_touched(
    locks: Locks,
    token_id: Seq<char>,
    amount: u128,
    unlock_time_sec: u32,
    requested: Option<u128>,
    now_sec: u32,
)
    ensures
        after_deposit(locks, token_id, amount, unlock_time_sec, now_sec).remove(token_id)
            == locks.remove(token_id),
        after_debit(locks, token_id, requested, now_sec).remove(token_id) == locks.remove(token_id),
        after_credit_back(locks, token_id, amount, now_sec).remove(token_id) == locks.remove(
            token_id,
        ),
{
}

/// A refused withdrawal changes nothing in the ledger.
pub proof fn lemma_refused_withdrawal_changes_nothing(
    ledger: ContractView,
    caller: Seq<char>,
    token_id: Seq<char>,
    requested: Option<u128>,
    now_sec: u32,
)
    requires
        withdraw_check(ledger, caller, token_id, requested, now_sec).is_err(),
    ensures
        after_withdraw(ledger, caller, token_id, requested, now_sec) == ledger,
{
}

/// When a transfer has failed and the account is no longer registered, the
/// settlement changes nothing in the ledger: no lock is made or changed, and
/// the event that reports the lost amount is all there is of it.
pub proof fn lemma_lost_amount_leaves_no_trace(
    ledger: ContractView,
    account_id: Seq<char>,
    token_id: Seq<char>,
    amount: u128,
    now_sec: u32,
)
    requires
        !has_key(ledger.accounts, account_id),
    ensures
        after_settlement(ledger, account_id, token_id, amount, false, now_sec) == ledger,
        settlement_event(ledger, account_id, token_id, amount, false)
            == (EventView::WithdrawLostfound { account_id, token_id, amount }),
{
}

/// A settlement changes at most the account that made the withdrawal: every
/// other registered account stays as it was, and a transfer that arrived
/// changes nothing at all.
pub proof fn lemma_settlement_touches_one_account(
    ledger: ContractView,
    account_id: Seq<char>,
    token_id: Seq<char>,
    amount: u128,
    succeeded: bool,
    now_sec: u32,
    other: Seq<char>,
)
    requires
        distinct_keys(ledger.accounts),
        other != account_id,
    ensures
        succeeded ==> after_settlement(ledger, account_id, token_id, amount, succeeded, now_sec)
            == ledger,
        has_key(
            after_settlement(ledger, account_id, token_id, amount, succeeded, now_sec).accounts,
            other,
        ) == has_key(ledger.accounts, other),
        has_key(ledger.accounts, other) ==> value_of(
            after_settlement(ledger, account_id, token_id, amount, succeeded, now_sec).accounts,
            other,
        ) == value_of(ledger.accounts, other),
{
    let after = after_settlement(ledger, account_id, token_id, amount, succeeded, now_sec);
    if !succeeded && has_key(ledger.accounts, account_id) {
        let account = value_of(ledger.accounts, account_id);
        let restored = with_locks(
            account,
            after_credit_back(account.locked_tokens, token_id, amount, now_sec),
        );
        lemma_put(ledger.accounts, account_id, restored);
        assert(table_of(after.accounts).contains_key(other) == table_of(
            ledger.accounts,
        ).contains_key(other));
    }
}

/// A refused deposit changes nothing in the ledger: no account is made and
/// no lock is made or changed.
pub proof fn lemma_refused_deposit_changes_nothing(
    ledger: ContractView,
    sender_id: Seq<char>,
    token_id: Seq<char>,
    amount: u128,
    msg: TokenReceiverMessage,
    now_sec: u32,
)
    requires
        ingest_check(ledger, sender_id, token_id, msg, now_sec).is_err(),
    ensures
        after_ingest(ledger, sender_id, token_id, amount, msg, now_sec) == ledger,
{
}

/// A withdrawal whose transfer fails creates and destroys nothing: once it
/// is settled, the account of the caller is registered as before, its lock
/// for the token holds what it held before the withdrawal, its other locks
/// and all other accounts are as they were, and so are the settings of the
/// ledger.
pub proof fn lemma_failed_withdrawal_restores_ledger(
    ledger: ContractView,
    caller: Seq<char>,
    token_id: Seq<char>,
    requested: Option<u128>,
    now_sec: u32,
    settled_sec: u32,
)
    requires
        distinct_keys(ledger.accounts),
        withdraw_check(ledger, caller, token_id, requested, now_sec).is_ok(),
    ensures
        ({
            let taken = withdraw_check(ledger, caller, token_id, requested, now_sec).unwrap().0;
            let debited = after_withdraw(ledger, caller, token_id, requested, now_sec);
            let settled = after_settlement(debited, caller, token_id, taken, false, settled_sec);
            let before = value_of(ledger.accounts, caller);
            let after = value_of(settled.accounts, caller);
            &&& has_key(settled.accounts, caller)
            &&& after.account_id == before.account_id
            &&& after.locked_tokens.contains_key(token_id)
            &&& after.locked_tokens[token_id].locked_balance
                == before.locked_tokens[token_id].locked_balance
            &&& after.locked_tokens.remove(token_id) == before.locked_tokens.remove(token_id)
            &&& table_of(settled.accounts).remove(caller) == table_of(ledger.accounts).remove(
                caller,
            )
            &&& settled.accounts.len() == ledger.accounts.len()
            &&& settled.owner_id == ledger.owner_id
            &&& settled.token_white_list == ledger.token_white_list
            &&& settled.burn_account_id == ledger.burn_account_id
        }),
{
    let taken = withdraw_check(ledger, caller, token_id, requested, now_sec).unwrap().0;
    let before = value_of(ledger.accounts, caller);
    let less = with_locks(before, after_debit(before.locked_tokens, token_id, requested, now_sec));
    let debited = after_withdraw(ledger, caller, token_id, requested, now_sec);
    lemma_put(ledger.accounts, caller, less);
    assert(table_of(debited.accounts).contains_key(caller));
    assert(value_of(debited.accounts, caller) == table_of(debited.accounts)[caller]);
    let more = with_locks(
        less,
        after_credit_back(less.locked_tokens, token_id, taken, settled_sec),
    );
    let settled = after_settlement(debited, caller, token_id, taken, false, settled_sec);
    lemma_put(debited.accounts, caller, more);
    assert(value_of(settled.accounts, caller) == table_of(settled.accounts)[caller]);
    assert(more.locked_tokens.remove(token_id) =~= before.locked_tokens.remove(token_id));
}

} // verus!
