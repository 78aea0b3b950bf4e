use token_locker::{
    nano_to_sec, AccountId, CallContext, Contract, Event, LockInfo, LockerError, MFTTokenReceiver,
    TokenReceiverMessage, STORAGE_BALANCE_MIN_BOUND,
};

const NEAR: u128 = 1_000_000_000_000_000_000_000_000;

fn id(text: &str) -> AccountId {
    AccountId::parse(text).unwrap()
}

fn call(caller: &AccountId, block_timestamp: u64, deposit: u128) -> CallContext {
    CallContext { predecessor_account_id: caller.clone(), block_timestamp, attached_deposit: deposit }
}

fn lock_of(ledger: &Contract, account: &AccountId, token_id: &str) -> Option<LockInfo> {
    ledger.get_account(account.clone()).unwrap().locked_tokens.get(&token_id.to_string())
}

#[test]
fn test_base() {
    let root = id("test.near");
    let alice = id("alice.test.near");
    let ft = id("mock_ft.test.near");
    let mft = id("mock_mft.test.near");
    let mut clock: u64 = 1_700_000_000_123_456_789;
    let mut ledger = Contract::new(root.clone());

    assert_eq!(
        ledger.extend_token_white_list(&call(&root, clock, 1), vec![ft.clone(), mft.clone()]),
        Ok(())
    );
    let registered = ledger.storage_deposit(&call(&alice, clock, NEAR), None, None).unwrap();
    assert_eq!(registered.refund.unwrap().amount, NEAR - STORAGE_BALANCE_MIN_BOUND);
    let metadata = ledger.get_metadata();
    assert_eq!(metadata.owner_id, root);
    assert_eq!(metadata.current_account_num, 1);
    assert_eq!(metadata.token_white_list, vec![ft.clone(), mft.clone()]);

    let unlock_time_sec = nano_to_sec(clock) + 120;
    let msg = TokenReceiverMessage::Lock { unlock_time_sec };
    let first = ledger.ft_on_transfer(&call(&ft, clock, 0), alice.clone(), NEAR, msg).unwrap();
    assert!(matches!(first.event, Event::LockedToken { .. }));
    assert_eq!(first.unused_amount, 0);
    let first =
        ledger.mft_on_transfer(&call(&mft, clock, 0), ":0".to_string(), alice.clone(), NEAR, msg).unwrap();
    assert!(matches!(first.event, Event::LockedToken { .. }));
    let second = ledger.ft_on_transfer(&call(&ft, clock, 0), alice.clone(), NEAR, msg).unwrap();
    assert!(matches!(second.event, Event::AppendToken { .. }));
    let second =
        ledger.mft_on_transfer(&call(&mft, clock, 0), ":0".to_string(), alice.clone(), NEAR, msg).unwrap();
    assert!(matches!(second.event, Event::AppendToken { .. }));
    let both = Some(LockInfo { locked_balance: 2 * NEAR, unlock_time_sec });
    assert_eq!(lock_of(&ledger, &alice, "mock_ft.test.near"), both);
    assert_eq!(lock_of(&ledger, &alice, "mock_mft.test.near@:0"), both);

    assert_eq!(
        ledger.withdraw(&call(&alice, clock, 1), ft.as_str().to_string(), Some(NEAR)),
        Err(LockerError::StillLocked)
    );
    assert_eq!(
        ledger.withdraw(&call(&alice, clock, 1), "mock_mft.test.near@:0".to_string(), Some(NEAR)),
        Err(LockerError::StillLocked)
    );

    while nano_to_sec(clock) < unlock_time_sec {
        clock += 20 * 1_000_000_000;
    }

    let started =
        ledger.withdraw(&call(&alice, clock, 1), ft.as_str().to_string(), Some(NEAR)).unwrap();
    assert_eq!(started.transfer.contract_id, ft);
    assert_eq!(started.transfer.mft_token_id, None);
    assert_eq!(started.transfer.amount, NEAR);
    let (arrived, _) =
        ledger.after_token_transfer(clock, alice.clone(), ft.as_str().to_string(), NEAR, true);
    assert!(arrived);

    assert_eq!(
        ledger.storage_unregister(&call(&alice, clock, 1), None),
        Err(LockerError::StillHasTokens)
    );

    let rest = ledger.withdraw(&call(&alice, clock, 1), ft.as_str().to_string(), None).unwrap();
    assert_eq!(rest.transfer.amount, NEAR);
    ledger.after_token_transfer(clock, alice.clone(), ft.as_str().to_string(), NEAR, true);
    let rest =
        ledger.withdraw(&call(&alice, clock, 1), "mock_mft.test.near@:0".to_string(), None).unwrap();
    assert_eq!(rest.transfer.contract_id, mft);
    assert_eq!(rest.transfer.mft_token_id, Some(":0".to_string()));
    assert_eq!(rest.transfer.amount, 2 * NEAR);
    ledger.after_token_transfer(clock, alice.clone(), "mock_mft.test.near@:0".to_string(), 2 * NEAR, true);
    assert!(ledger.get_account(alice.clone()).unwrap().locked_tokens.is_empty());
    assert_eq!(ledger.get_metadata().current_account_num, 1);

    let gone = ledger.storage_unregister(&call(&alice, clock, 1), None).unwrap();
    assert!(gone.removed);
    assert_eq!(ledger.get_metadata().current_account_num, 0);

    ledger.storage_deposit(&call(&alice, clock, NEAR), None, None).unwrap();
    let unlock_time_sec = nano_to_sec(clock) + 120;
    let msg = TokenReceiverMessage::Lock { unlock_time_sec };
    ledger.ft_on_transfer(&call(&ft, clock, 0), alice.clone(), NEAR, msg).unwrap();
    ledger.mft_on_transfer(&call(&mft, clock, 0), ":0".to_string(), alice.clone(), 5 * NEAR, msg).unwrap();

    while nano_to_sec(clock) < unlock_time_sec {
        clock += 20 * 1_000_000_000;
    }

    let started = ledger.withdraw(&call(&alice, clock, 1), ft.as_str().to_string(), None).unwrap();
    assert_eq!(lock_of(&ledger, &alice, "mock_ft.test.near"), None);
    let (arrived, event) = ledger.after_token_transfer(
        clock,
        started.transfer.receiver_id,
        started.transfer.token_id,
        started.transfer.amount,
        false,
    );
    assert!(!arrived);
    assert!(matches!(event, Event::WithdrawFailed { .. }));
    assert_eq!(
        lock_of(&ledger, &alice, "mock_ft.test.near"),
        Some(LockInfo { locked_balance: NEAR, unlock_time_sec: nano_to_sec(clock) })
    );

    let started = ledger
        .withdraw(&call(&alice, clock, 1), "mock_mft.test.near@:0".to_string(), Some(NEAR))
        .unwrap();
    assert_eq!(
        lock_of(&ledger, &alice, "mock_mft.test.near@:0"),
        Some(LockInfo { locked_balance: 4 * NEAR, unlock_time_sec })
    );
    let (arrived, event) = ledger.after_token_transfer(
        clock,
        started.transfer.receiver_id,
        started.transfer.token_id,
        started.transfer.amount,
        false,
    );
    assert!(!arrived);
    assert!(matches!(event, Event::WithdrawFailed { .. }));
    assert_eq!(
        lock_of(&ledger, &alice, "mock_mft.test.near@:0"),
        Some(LockInfo { locked_balance: 5 * NEAR, unlock_time_sec })
    );
}
