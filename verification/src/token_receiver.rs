//! Taking deposits: tokens that arrive with the instruction to lock them.

use crate::account::{
    after_deposit, deposit_check, deposit_fits, with_locks, Account, AccountView, LockChange,
};
use crate::account_id::AccountId;
use crate::contract::{CallContext, Contract, ContractView};
use crate::error::LockerError;
use crate::event::{Event, EventView};
use crate::keyed::{has_key, put, value_of};
use crate::utils::{generate_mft_token_id, mft_token_id, spec_nano_to_sec};
use vstd::prelude::*;
use vstd::string::StringExecFns;

verus! {

/// What the sender of tokens asks the ledger to do with them.
#[derive(Clone, Copy, Debug, PartialEq, Eq, Structural)]
pub enum TokenReceiverMessage {
    /// Lock them until `unlock_time_sec`.
    Lock { unlock_time_sec: u32 },
}

/// What a deposit that was accepted did.
#[derive(Clone, Debug, PartialEq, Eq)]
pub struct DepositReceipt {
    /// The event to report.
    pub event: Event,
    /// How much of the tokens the ledger did not take: nothing.
    pub unused_amount: u128,
}

/// The account that takes a deposit from `sender_id`: the one registered
/// under that id, or a new one without locks.
pub open spec fn depositing_account(ledger: ContractView, sender_id: Seq<char>) -> AccountView {
    if has_key(ledger.accounts, sender_id) {
        value_of(ledger.accounts, sender_id)
    } else {
        AccountView { account_id: sender_id, locked_tokens: Map::empty() }
    }
}

/// Whether a deposit by `sender_id` keeps the balance of its lock within 128
/// bits.
pub open spec fn ingest_fits(
    ledger: ContractView,
    sender_id: Seq<char>,
    token_id: Seq<char>,
    amount: u128,
) -> bool {
    deposit_fits(depositing_account(ledger, sender_id).locked_tokens, token_id, amount)
}

/// Whether a deposit by `sender_id` is accepted, and as what.
pub open spec fn ingest_check(
    ledger: ContractView,
    sender_id: Seq<char>,
    token_id: Seq<char>,
    msg: TokenReceiverMessage,
    now_sec: u32,
) -> Result<LockChange, LockerError> {
    deposit_check(
        depositing_account(ledger, sender_id).locked_tokens,
        token_id,
        msg->unlock_time_sec,
        now_sec,
    )
}

/// The ledger after a deposit by `sender_id`: as before if it is refused;
/// else the account of the sender, new if there was none, has the lock made
/// or extended.
pub open spec fn after_ingest(
    ledger: ContractView,
    sender_id: Seq<char>,
    token_id: Seq<char>,
    amount: u128,
    msg: TokenReceiverMessage,
    now_sec: u32,
) -> ContractView {
    let account = depositing_account(ledger, sender_id);
    match ingest_check(ledger, sender_id, token_id, msg, now_sec) {
        Err(_) => ledger,
        Ok(_) => ContractView {
            accounts: put(
                ledger.accounts,
                sender_id,
                with_locks(
                    account,
                    after_deposit(
                        account.locked_tokens,
                        token_id,
                        amount,
                        msg->unlock_time_sec,
                        now_sec,
                    ),
                ),
            ),
            ..ledger
        },
    }
}

/// The event that an accepted deposit reports.
pub open spec fn ingest_event(
    change: LockChange,
    sender_id: Seq<char>,
    token_id: Seq<char>,
    amount: u128,
    msg: TokenReceiverMessage,
) -> EventView {
    match change {
        LockChange::Created => EventView::LockedToken {
            account_id: sender_id,
            token_id,
            amount,
            unlock_time_sec: msg->unlock_time_sec,
        },
        LockChange::Extended => EventView::AppendToken {
            account_id: sender_id,
            token_id,
            amount,
            unlock_time_sec: msg->unlock_time_sec,
        },
    }
}

impl Contract {
    /// Takes a deposit of `amount` of `token_id` by `sender_id`.
    fn ingest(
        &mut self,
        block_timestamp: u64,
        token_id: String,
        sender_id: AccountId,
        amount: u128,
        msg: TokenReceiverMessage,
    ) -> (done: Result<DepositReceipt, LockerError>)
        requires
            ingest_fits(old(self)@, sender_id@, token_id@, amount),
        ensures
            final(self)@ == after_ingest(
                old(self)@,
                sender_id@,
                token_id@,
                amount,
                msg,
                spec_nano_to_sec(block_timestamp),
            ),
            match ingest_check(
                old(self)@,
                sender_id@,
                token_id@,
                msg,
                spec_nano_to_sec(block_timestamp),
            ) {
                Err(e) => done matches Err(f) && f == e,
                Ok(change) => done matches Ok(receipt) && receipt.unused_amount == 0
                    && receipt.event@ == ingest_event(change, sender_id@, token_id@, amount, msg),
            },
    {
        let mut account = match self.internal_get_account(&sender_id) {
            Some(account) => account,
            None => Account::new(&sender_id),
        };
        match msg {
            TokenReceiverMessage::Lock { unlock_time_sec } => {
                let change = match account.create_or_extend_lock(
                    &token_id,
                    amount,
                    unlock_time_sec,
                    block_timestamp,
                ) {
                    Ok(change) => change,
                    Err(e) => {
                        return Err(e);
                    },
                };
                self.internal_set_account(&sender_id, account);
                let event = match change {
                    LockChange::Created => Event::LockedToken {
                        account_id: sender_id,
                        token_id,
                        amount,
                        unlock_time_sec,
                    },
                    LockChange::Extended => Event::AppendToken {
                        account_id: sender_id,
                        token_id,
                        amount,
                        unlock_time_sec,
                    },
                };
                Ok(DepositReceipt { event, unused_amount: 0 })
            },
        }
    }

    /// Whether a deposit of `amount` of `token_id` by `sender_id` keeps the
    /// balance of its lock within 128 bits.
    pub fn has_room_for_deposit(
        &self,
        sender_id: &AccountId,
        token_id: &String,
        amount: u128,
    ) -> (fits: bool)
        ensures
            fits == ingest_fits(self@, sender_id@, token_id@, amount),
    {
        match self.internal_get_account(sender_id) {
            Some(account) => account.has_room_for(token_id, amount),
            None => true,
        }
    }

    /// Takes `amount` of the token whose contract makes the call, sent by
    /// `sender_id`, and locks it as `msg` says. The token identifier of the
    /// lock is the id of the calling contract.
    pub fn ft_on_transfer(
        &mut self,
        ctx: &CallContext,
        sender_id: AccountId,
        amount: u128,
        msg: TokenReceiverMessage,
    ) -> (done: Result<DepositReceipt, LockerError>)
        requires
            ingest_fits(old(self)@, sender_id@, ctx.predecessor_account_id@, amount),
        ensures
            final(self)@ == after_ingest(
                old(self)@,
                sender_id@,
                ctx.predecessor_account_id@,
                amount,
                msg,
                spec_nano_to_sec(ctx.block_timestamp),
            ),
            match ingest_check(
                old(self)@,
                sender_id@,
                ctx.predecessor_account_id@,
                msg,
                spec_nano_to_sec(ctx.block_timestamp),
            ) {
                Err(e) => done matches Err(f) && f == e,
                Ok(change) => done matches Ok(receipt) && receipt.unused_amount == 0
                    && receipt.event@ == ingest_event(
                    change,
                    sender_id@,
                    ctx.predecessor_account_id@,
                    amount,
                    msg,
                ),
            },
    {
        let token_id = String::from_str(ctx.predecessor_account_id.as_str());
        self.ingest(ctx.block_timestamp, token_id, sender_id, amount, msg)
    }
}

/// What takes deposits of tokens that live inside a multi-token contract.
pub trait MFTTokenReceiver {
    /// Whether the deposit keeps the balance of its lock within 128 bits.
    spec fn mft_deposit_fits(
        &self,
        ctx: CallContext,
        token_id: Seq<char>,
        sender_id: Seq<char>,
        amount: u128,
    ) -> bool;

    /// Takes `amount` of the token `token_id` inside the contract that makes
    /// the call, sent by `sender_id`, and does with it what `msg` asks.
    fn mft_on_transfer(
        &mut self,
        ctx: &CallContext,
        token_id: String,
        sender_id: AccountId,
        amount: u128,
        msg: TokenReceiverMessage,
    ) -> (done: Result<DepositReceipt, LockerError>)
        requires
            old(self).mft_deposit_fits(*ctx, token_id@, sender_id@, amount),
    ;
}

impl MFTTokenReceiver for Contract {
    open spec fn mft_deposit_fits(
        &self,
        ctx: CallContext,
        token_id: Seq<char>,
        sender_id: Seq<char>,
        amount: u128,
    ) -> bool {
        ingest_fits(self@, sender_id, mft_token_id(ctx.predecessor_account_id@, token_id), amount)
    }

    /// Takes `amount` of the token `token_id` inside the multi-token contract
    /// that makes the call, sent by `sender_id`, and locks it as `msg` says.
    /// The token identifier of the lock is the id of the calling contract,
    /// the separator and `token_id`.
    fn mft_on_transfer(
        &mut self,
        ctx: &CallContext,
        token_id: String,
        sender_id: AccountId,
        amount: u128,
        msg: TokenReceiverMessage,
    ) -> (done: Result<DepositReceipt, LockerError>)
        ensures
            final(self)@ == after_ingest(
                old(self)@,
                sender_id@,
                mft_token_id(ctx.predecessor_account_id@, token_id@),
                amount,
                msg,
                spec_nano_to_sec(ctx.block_timestamp),
            ),
            match ingest_check(
                old(self)@,
                sender_id@,
                mft_token_id(ctx.predecessor_account_id@, token_id@),
                msg,
                spec_nano_to_sec(ctx.block_timestamp),
            ) {
                Err(e) => done matches Err(f) && f == e,
                Ok(change) => done matches Ok(receipt) && receipt.unused_amount == 0
                    && receipt.event@ == ingest_event(
                    change,
                    sender_id@,
                    mft_token_id(ctx.predecessor_account_id@, token_id@),
                    amount,
                    msg,
                ),
            },
    {
        let token_id = generate_mft_token_id(&ctx.predecessor_account_id, token_id);
        self.ingest(ctx.block_timestamp, token_id, sender_id, amount, msg)
    }
}

} // verus!
