use token_locker::{Account, AccountId, LockChange, LockInfo, LockTable, LockerError};

const SEC: u64 = 1_000_000_000;
const T: u32 = 1_700_000_120;

fn owner() -> AccountId {
    AccountId::parse("alice.test.near").unwrap()
}

fn token(text: &str) -> String {
    text.to_string()
}

fn at(sec: u32) -> u64 {
    sec as u64 * SEC
}

fn lock(balance: u128, unlock: u32) -> Option<LockInfo> {
    Some(LockInfo { locked_balance: balance, unlock_time_sec: unlock })
}

#[test]
fn new_account_has_no_locks() {
    let account = Account::new(&owner());
    assert_eq!(account.account_id, owner());
    assert_eq!(account.locked_tokens.len(), 0);
    assert!(account.locked_tokens.is_empty());
    assert!(account.locked_tokens.entries().is_empty());
}

#[test]
fn lock_table_inserts_replaces_and_removes() {
    let mut table = LockTable::new();
    let a = LockInfo { locked_balance: 1, unlock_time_sec: 10 };
    let b = LockInfo { locked_balance: 2, unlock_time_sec: 20 };
    let c = LockInfo { locked_balance: 3, unlock_time_sec: 30 };
    table.insert(token("x"), a);
    table.insert(token("y"), b);
    table.insert(token("z"), c);
    assert_eq!(table.len(), 3);
    assert!(table.contains_key(&token("y")));
    assert_eq!(table.get(&token("y")), Some(b));
    assert_eq!(table.get(&token("w")), None);
    table.insert(token("x"), c);
    assert_eq!(table.len(), 3);
    assert_eq!(table.get(&token("x")), Some(c));
    assert_eq!(table.remove(&token("x")), Some(c));
    assert_eq!(table.remove(&token("x")), None);
    assert_eq!(table.len(), 2);
    assert_eq!(table.get(&token("y")), Some(b));
    assert_eq!(table.get(&token("z")), Some(c));
    let mut listed: Vec<(String, LockInfo)> =
        table.entries().into_iter().map(|e| (e.token_id, e.info)).collect();
    listed.sort_by(|l, r| l.0.cmp(&r.0));
    assert_eq!(listed, vec![(token("y"), b), (token("z"), c)]);
    let copy = table.clone();
    table.remove(&token("y"));
    assert_eq!(copy.get(&token("y")), Some(b));
    assert_eq!(table.get(&token("y")), None);
}

#[test]
fn append_lock_adds_and_moves_the_unlock_time() {
    let mut info = LockInfo { locked_balance: 40, unlock_time_sec: T };
    assert_eq!(info.append_lock(50, T + 10, at(T)), Ok(()));
    assert_eq!(info, LockInfo { locked_balance: 90, unlock_time_sec: T + 10 });
    assert_eq!(info.append_lock(1, T + 10, at(T)), Ok(()));
    assert_eq!(info, LockInfo { locked_balance: 91, unlock_time_sec: T + 10 });
}

#[test]
fn append_lock_refuses_an_earlier_unlock_time() {
    let mut info = LockInfo { locked_balance: 40, unlock_time_sec: T };
    assert_eq!(info.append_lock(50, T - 1, at(T - 100)), Err(LockerError::InvalidUnlockExtension));
    assert_eq!(info, LockInfo { locked_balance: 40, unlock_time_sec: T });
}

#[test]
fn append_lock_refuses_an_unlock_time_that_is_not_ahead() {
    let mut info = LockInfo { locked_balance: 40, unlock_time_sec: T };
    assert_eq!(info.append_lock(50, T + 5, at(T + 5)), Err(LockerError::UnlockTimeNotInFuture));
    assert_eq!(info.append_lock(50, T + 5, at(T + 6)), Err(LockerError::UnlockTimeNotInFuture));
    assert_eq!(info.append_lock(50, T - 1, at(T + 6)), Err(LockerError::InvalidUnlockExtension));
    assert_eq!(info, LockInfo { locked_balance: 40, unlock_time_sec: T });
}

#[test]
fn add_lock_replaces_a_lock_of_the_token() {
    let mut account = Account::new(&owner());
    assert_eq!(account.add_lock(&token("x"), 10, T, at(T - 1)), Ok(()));
    assert_eq!(account.add_lock(&token("x"), 3, T + 1, at(T - 1)), Ok(()));
    assert_eq!(account.locked_tokens.get(&token("x")), lock(3, T + 1));
    assert_eq!(account.locked_tokens.len(), 1);
}

#[test]
fn add_lock_refuses_an_unlock_time_that_is_not_ahead() {
    let mut account = Account::new(&owner());
    assert_eq!(account.add_lock(&token("x"), 10, T, at(T)), Err(LockerError::UnlockTimeNotInFuture));
    assert_eq!(account.locked_tokens.len(), 0);
}

#[test]
fn deposits_with_rising_unlock_times_add_up() {
    let mut account = Account::new(&owner());
    let x = token("token.test.near");
    let steps: [(u128, u32); 4] = [(100, T), (50, T), (7, T + 10), (1_000_000, T + 500)];
    let mut sum = 0u128;
    for (i, (amount, unlock)) in steps.iter().enumerate() {
        let change = account.create_or_extend_lock(&x, *amount, *unlock, at(T - 60)).unwrap();
        assert_eq!(change, if i == 0 { LockChange::Created } else { LockChange::Extended });
        sum += amount;
        assert_eq!(account.locked_tokens.get(&x), lock(sum, *unlock));
    }
    assert_eq!(account.locked_tokens.get(&x), lock(1_000_157, T + 500));
    assert_eq!(account.locked_tokens.len(), 1);
}

#[test]
fn deposit_with_earlier_unlock_time_is_refused_and_changes_nothing() {
    let mut account = Account::new(&owner());
    let x = token("token.test.near");
    account.create_or_extend_lock(&x, 100, T, at(T - 60)).unwrap();
    assert_eq!(
        account.create_or_extend_lock(&x, 50, T - 1, at(T - 60)),
        Err(LockerError::InvalidUnlockExtension)
    );
    assert_eq!(account.locked_tokens.get(&x), lock(100, T));
}

#[test]
fn deposit_must_unlock_after_now() {
    let mut account = Account::new(&owner());
    let x = token("token.test.near");
    assert_eq!(
        account.create_or_extend_lock(&x, 100, T, at(T)),
        Err(LockerError::UnlockTimeNotInFuture)
    );
    assert_eq!(account.locked_tokens.len(), 0);
    assert_eq!(account.create_or_extend_lock(&x, 100, T, at(T) - 1), Ok(LockChange::Created));
    assert_eq!(
        account.create_or_extend_lock(&x, 100, T + 3, at(T + 3)),
        Err(LockerError::UnlockTimeNotInFuture)
    );
    assert_eq!(account.locked_tokens.get(&x), lock(100, T));
}

#[test]
fn an_account_takes_at_most_64_locks_by_deposit() {
    let mut account = Account::new(&owner());
    for i in 0..64 {
        let change = account.create_or_extend_lock(&format!("t{i}.near"), 1, T, at(T - 1));
        assert_eq!(change, Ok(LockChange::Created));
    }
    assert_eq!(account.locked_tokens.len(), 64);
    assert_eq!(
        account.create_or_extend_lock(&token("one.more"), 1, T, at(T - 1)),
        Err(LockerError::TooManyLocks)
    );
    assert_eq!(account.add_lock(&token("one.more"), 1, T, at(T - 1)), Err(LockerError::TooManyLocks));
    assert_eq!(account.locked_tokens.len(), 64);
    assert_eq!(
        account.create_or_extend_lock(&token("t5.near"), 4, T + 1, at(T - 1)),
        Ok(LockChange::Extended)
    );
    assert_eq!(account.locked_tokens.get(&token("t5.near")), lock(5, T + 1));
}

#[test]
fn too_many_locks_is_told_before_the_unlock_time() {
    let mut account = Account::new(&owner());
    for i in 0..64 {
        account.create_or_extend_lock(&format!("t{i}.near"), 1, T, at(T - 1)).unwrap();
    }
    assert_eq!(
        account.create_or_extend_lock(&token("one.more"), 1, T, at(T + 9)),
        Err(LockerError::TooManyLocks)
    );
}

#[test]
fn withdrawal_before_the_unlock_time_is_refused() {
    let mut account = Account::new(&owner());
    let x = token("token.test.near");
    account.create_or_extend_lock(&x, 100, T, at(T - 60)).unwrap();
    for requested in [None, Some(0), Some(1), Some(100), Some(101)] {
        assert_eq!(account.debit_lock(&x, requested, at(T) - 1), Err(LockerError::StillLocked));
    }
    assert_eq!(account.locked_tokens.get(&x), lock(100, T));
}

#[test]
fn withdrawal_at_the_unlock_time_succeeds() {
    let mut account = Account::new(&owner());
    let x = token("token.test.near");
    account.create_or_extend_lock(&x, 100, T, at(T - 60)).unwrap();
    assert_eq!(account.debit_lock(&x, Some(100), at(T)), Ok((100, 0)));
    assert_eq!(account.locked_tokens.get(&x), None);
}

#[test]
fn withdrawal_of_nothing_leaves_the_lock() {
    let mut account = Account::new(&owner());
    let x = token("token.test.near");
    account.create_or_extend_lock(&x, 100, T, at(T - 60)).unwrap();
    assert_eq!(account.debit_lock(&x, Some(0), at(T + 1)), Ok((0, 100)));
    assert_eq!(account.locked_tokens.get(&x), lock(100, T));
}

#[test]
fn full_withdrawal_removes_the_lock() {
    let mut account = Account::new(&owner());
    let x = token("token.test.near");
    account.create_or_extend_lock(&x, 100, T, at(T - 60)).unwrap();
    assert_eq!(account.debit_lock(&x, None, at(T + 5)), Ok((100, 0)));
    assert!(!account.locked_tokens.contains_key(&x));
    assert!(account.locked_tokens.is_empty());
    assert_eq!(account.debit_lock(&x, None, at(T + 5)), Err(LockerError::NoSuchLock));
    assert_eq!(account.debit_lock(&x, Some(0), at(T + 5)), Err(LockerError::NoSuchLock));
}

#[test]
fn withdrawal_without_a_lock_is_refused() {
    let mut account = Account::new(&owner());
    assert_eq!(account.debit_lock(&token("x"), Some(1), at(T)), Err(LockerError::NoSuchLock));
}

#[test]
fn deposit_withdraw_deposit_scenario() {
    let mut account = Account::new(&owner());
    let x = token("x.test.near");
    assert_eq!(account.create_or_extend_lock(&x, 100, T, at(T - 120)), Ok(LockChange::Created));
    for requested in [None, Some(1), Some(60), Some(100)] {
        assert_eq!(account.debit_lock(&x, requested, at(T - 1)), Err(LockerError::StillLocked));
    }
    assert_eq!(account.debit_lock(&x, Some(60), at(T)), Ok((60, 40)));
    assert_eq!(account.locked_tokens.get(&x), lock(40, T));
    assert_eq!(account.create_or_extend_lock(&x, 50, T + 10, at(T)), Ok(LockChange::Extended));
    assert_eq!(account.locked_tokens.get(&x), lock(90, T + 10));
    assert_eq!(
        account.debit_lock(&x, Some(100), at(T + 10)),
        Err(LockerError::InsufficientLockedBalance)
    );
    assert_eq!(account.locked_tokens.get(&x), lock(90, T + 10));
}

#[test]
fn failed_transfer_scenario() {
    let mut account = Account::new(&owner());
    let y = token("y.test.near");
    assert_eq!(account.create_or_extend_lock(&y, 30, T, at(T - 120)), Ok(LockChange::Created));
    assert_eq!(account.debit_lock(&y, None, at(T)), Ok((30, 0)));
    assert_eq!(account.locked_tokens.get(&y), None);
    let now = T + 7;
    account.credit_back(&y, 30, at(now));
    assert_eq!(account.locked_tokens.get(&y), lock(30, now));
    assert_eq!(account.debit_lock(&y, Some(30), at(now)), Ok((30, 0)));
    assert_eq!(account.locked_tokens.get(&y), None);
}

#[test]
fn credit_back_into_a_remaining_lock_keeps_its_unlock_time() {
    let mut account = Account::new(&owner());
    let y = token("y.test.near");
    account.create_or_extend_lock(&y, 30, T, at(T - 120)).unwrap();
    let (taken, left) = account.debit_lock(&y, Some(12), at(T + 1)).unwrap();
    assert_eq!((taken, left), (12, 18));
    account.credit_back(&y, taken, at(T + 50));
    assert_eq!(account.locked_tokens.get(&y), lock(30, T));
}

#[test]
fn credit_back_into_a_lock_made_meanwhile_keeps_its_unlock_time() {
    let mut account = Account::new(&owner());
    let y = token("y.test.near");
    account.create_or_extend_lock(&y, 30, T, at(T - 120)).unwrap();
    assert_eq!(account.debit_lock(&y, None, at(T)), Ok((30, 0)));
    assert_eq!(account.create_or_extend_lock(&y, 5, T + 900, at(T + 1)), Ok(LockChange::Created));
    account.credit_back(&y, 30, at(T + 2));
    assert_eq!(account.locked_tokens.get(&y), lock(35, T + 900));
    assert_eq!(account.debit_lock(&y, Some(30), at(T + 2)), Err(LockerError::StillLocked));
}

#[test]
fn credit_back_may_exceed_64_locks() {
    let mut account = Account::new(&owner());
    for i in 0..64 {
        account.create_or_extend_lock(&format!("t{i}.near"), 1, T, at(T - 1)).unwrap();
    }
    account.credit_back(&token("gone.near"), 9, at(T));
    assert_eq!(account.locked_tokens.len(), 65);
    assert_eq!(account.locked_tokens.get(&token("gone.near")), lock(9, T));
}

#[test]
fn locks_of_other_tokens_are_untouched() {
    let mut account = Account::new(&owner());
    account.create_or_extend_lock(&token("x"), 100, T, at(T - 60)).unwrap();
    account.create_or_extend_lock(&token("y"), 200, T + 1, at(T - 60)).unwrap();
    account.debit_lock(&token("x"), Some(10), at(T)).unwrap();
    account.credit_back(&token("x"), 10, at(T + 1));
    assert_eq!(account.locked_tokens.get(&token("x")), lock(100, T));
    assert_eq!(account.locked_tokens.get(&token("y")), lock(200, T + 1));
}

#[test]
fn balances_up_to_the_largest_amount_are_kept() {
    let mut account = Account::new(&owner());
    let x = token("x");
    account.create_or_extend_lock(&x, u128::MAX - 1, T, at(T - 60)).unwrap();
    account.create_or_extend_lock(&x, 1, T, at(T - 60)).unwrap();
    assert_eq!(account.locked_tokens.get(&x), lock(u128::MAX, T));
    assert_eq!(account.debit_lock(&x, None, at(T)), Ok((u128::MAX, 0)));
}

#[test]
fn account_clone_is_independent() {
    let mut account = Account::new(&owner());
    account.create_or_extend_lock(&token("x"), 100, T, at(T - 60)).unwrap();
    let copy = account.clone();
    account.debit_lock(&token("x"), None, at(T)).unwrap();
    assert_eq!(copy.account_id, owner());
    assert_eq!(copy.locked_tokens.get(&token("x")), lock(100, T));
    assert_eq!(account.locked_tokens.get(&token("x")), None);
}
