//! Withdrawals: the debit that starts one, the transfer it asks for, and the
//! settlement once the transfer has arrived or failed.

use crate::account::{after_credit_back, after_debit, debit_check, deposit_fits, with_locks};
use crate::account_id::AccountId;
use crate::contract::{CallContext, Contract, ContractView};
use crate::error::LockerError;
use crate::event::{Event, EventView};
use crate::keyed::{has_key, put, value_of};
use crate::utils::{decode_token_id, parse_token_id, spec_nano_to_sec, text_view};
use vstd::prelude::*;

verus! {

/// A transfer of tokens to send off, and what to hand to the settlement that
/// follows it.
#[derive(Clone, Debug, PartialEq, Eq)]
pub struct TokenTransfer {
    /// The token contract that is to make the transfer.
    pub contract_id: AccountId,
    /// The token inside that contract, if it holds several.
    pub mft_token_id: Option<String>,
    /// Who is to receive the tokens, and whose withdrawal is to be settled.
    pub receiver_id: AccountId,
    /// The token identifier of the lock, for the settlement.
    pub token_id: String,
    /// How much to transfer, and to settle.
    pub amount: u128,
}

/// A transfer as values.
pub struct TokenTransferView {
    /// The token contract that is to make the transfer.
    pub contract_id: Seq<char>,
    /// The token inside that contract, if it holds several.
    pub mft_token_id: Option<Seq<char>>,
    /// Who is to receive the tokens.
    pub receiver_id: Seq<char>,
    /// The token identifier of the lock.
    pub token_id: Seq<char>,
    /// How much to transfer.
    pub amount: u128,
}

impl View for TokenTransfer {
    type V = TokenTransferView;

    open spec fn view(&self) -> TokenTransferView {
        TokenTransferView {
            contract_id: self.contract_id@,
            mft_token_id: text_view(self.mft_token_id),
            receiver_id: self.receiver_id@,
            token_id: self.token_id@,
            amount: self.amount,
        }
    }
}

/// What a withdrawal that was accepted asks of the surroundings.
#[derive(Clone, Debug, PartialEq, Eq)]
pub struct WithdrawStart {
    /// The transfer to send off.
    pub transfer: TokenTransfer,
    /// The event to report.
    pub event: Event,
}

/// The transfer that sends `amount` of `token_id` to `account_id`, if the
/// token identifier names a token.
pub open spec fn transfer_of(account_id: Seq<char>, token_id: Seq<char>, amount: u128) -> Option<
    TokenTransferView,
> {
    match decode_token_id(token_id) {
        Some((contract_id, mft_token_id)) => Some(
            TokenTransferView {
                contract_id,
                mft_token_id,
                receiver_id: account_id,
                token_id,
                amount,
            },
        ),
        None => None,
    }
}

/// What a withdrawal by `caller` takes from the lock and leaves in it, or why
/// it is refused: the caller has no account, the lock does not allow it, or
/// the token identifier names no token to transfer.
pub open spec fn withdraw_check(
    ledger: ContractView,
    caller: Seq<char>,
    token_id: Seq<char>,
    requested: Option<u128>,
    now_sec: u32,
) -> Result<(u128, u128), LockerError> {
    if !has_key(ledger.accounts, caller) {
        Err(LockerError::AccountNotRegistered)
    } else {
        match debit_check(
            value_of(ledger.accounts, caller).locked_tokens,
            token_id,
            requested,
            now_sec,
        ) {
            Err(e) => Err(e),
            Ok(taken) => if decode_token_id(token_id).is_none() {
                Err(LockerError::MalformedAssetId)
            } else {
                Ok(taken)
            },
        }
    }
}

/// The ledger after a withdrawal by `caller`: as before if it is refused;
/// else the account of the caller has the lock debited.
pub open spec fn after_withdraw(
    ledger: ContractView,
    caller: Seq<char>,
    token_id: Seq<char>,
    requested: Option<u128>,
    now_sec: u32,
) -> ContractView {
    match withdraw_check(ledger, caller, token_id, requested, now_sec) {
        Err(_) => ledger,
        Ok(_) => {
            let account = value_of(ledger.accounts, caller);
            ContractView {
                accounts: put(
                    ledger.accounts,
                    caller,
                    with_locks(
                        account,
                        after_debit(account.locked_tokens, token_id, requested, now_sec),
                    ),
                ),
                ..ledger
            }
        },
    }
}

/// Whether the settlement of a failed transfer puts the amount back: the
/// transfer failed and the account is still registered.
pub open spec fn settlement_restores(
    ledger: ContractView,
    account_id: Seq<char>,
    succeeded: bool,
) -> bool {
    !succeeded && has_key(ledger.accounts, account_id)
}

/// Whether the amount that a settlement puts back fits into the lock.
pub open spec fn settlement_fits(
    ledger: ContractView,
    account_id: Seq<char>,
    token_id: Seq<char>,
    amount: u128,
    succeeded: bool,
) -> bool {
    settlement_restores(ledger, account_id, succeeded) ==> deposit_fits(
        value_of(ledger.accounts, account_id).locked_tokens,
        token_id,
        amount,
    )
}

/// The ledger after the settlement of a transfer: as before if the transfer
/// arrived or the account is gone; else the account has the amount back.
pub open spec fn after_settlement(
    ledger: ContractView,
    account_id: Seq<char>,
    token_id: Seq<char>,
    amount: u128,
    succeeded: bool,
    now_sec: u32,
) -> ContractView {
    if settlement_restores(ledger, account_id, succeeded) {
        let account = value_of(ledger.accounts, account_id);
        ContractView {
            accounts: put(
                ledger.accounts,
                account_id,
                with_locks(
                    account,
                    after_credit_back(account.locked_tokens, token_id, amount, now_sec),
                ),
            ),
            ..ledger
        }
    } else {
        ledger
    }
}

/// The event that the settlement of a transfer reports.
pub open spec fn settlement_event(
    ledger: ContractView,
    account_id: Seq<char>,
    token_id: Seq<char>,
    amount: u128,
    succeeded: bool,
) -> EventView {
    if succeeded {
        EventView::WithdrawSucceeded { account_id, token_id, amount }
    } else if has_key(ledger.accounts, account_id) {
        EventView::WithdrawFailed { account_id, token_id, amount }
    } else {
        EventView::WithdrawLostfound { account_id, token_id, amount }
    }
}

impl Contract {
    /// The transfer that sends `amount` of `token_id` to `account_id`.
    pub fn transfer_token(
        &self,
        account_id: &AccountId,
        token_id: String,
        amount: u128,
    ) -> (transfer: Result<TokenTransfer, LockerError>)
        ensures
            match transfer {
                Ok(t) => transfer_of(account_id@, token_id@, amount) == Some(t@),
                Err(e) => e == LockerError::MalformedAssetId && transfer_of(
                    account_id@,
                    token_id@,
                    amount,
                ).is_none(),
            },
    {
        match parse_token_id(&token_id) {
            Ok((contract_id, mft_token_id)) => Ok(
                TokenTransfer {
                    contract_id,
                    mft_token_id,
                    receiver_id: account_id.clone(),
                    token_id,
                    amount,
                },
            ),
            Err(e) => Err(e),
        }
    }

    /// Starts a withdrawal by the caller of `amount` of `token_id`, or of the
    /// whole lock if `amount` is `None`: debits the lock and returns the
    /// transfer to send off with the event to report.
    pub fn withdraw(
        &mut self,
        ctx: &CallContext,
        token_id: String,
        amount: Option<u128>,
    ) -> (started: Result<WithdrawStart, LockerError>)
        ensures
            final(self)@ == after_withdraw(
                old(self)@,
                ctx.predecessor_account_id@,
                token_id@,
                amount,
                spec_nano_to_sec(ctx.block_timestamp),
            ),
            match withdraw_check(
                old(self)@,
                ctx.predecessor_account_id@,
                token_id@,
                amount,
                spec_nano_to_sec(ctx.block_timestamp),
            ) {
                Err(e) => started matches Err(f) && f == e,
                Ok((taken, _)) => started matches Ok(s) && Some(s.transfer@) == transfer_of(
                    ctx.predecessor_account_id@,
                    token_id@,
                    taken,
                ) && s.event@ == (EventView::WithdrawStarted {
                    account_id: ctx.predecessor_account_id@,
                    token_id: token_id@,
                    amount: taken,
                }),
            },
    {
        let account_id = &ctx.predecessor_account_id;
        let mut account = match self.internal_unwrap_account(account_id) {
            Ok(account) => account,
            Err(e) => {
                return Err(e);
            },
        };
        let taken = match account.debit_lock(&token_id, amount, ctx.block_timestamp) {
            Ok((taken, _)) => taken,
            Err(e) => {
                return Err(e);
            },
        };
        let transfer = match self.transfer_token(account_id, token_id.clone(), taken) {
            Ok(transfer) => transfer,
            Err(e) => {
                return Err(e);
            },
        };
        self.internal_set_account(account_id, account);
        let event =
            Event::WithdrawStarted { account_id: account_id.clone(), token_id, amount: taken };
        Ok(WithdrawStart { transfer, event })
    }

    /// Whether the settlement of a transfer of `amount` of `token_id` to
    /// `account_id` keeps the balance of the lock within 128 bits.
    pub fn has_room_for_settlement(
        &self,
        account_id: &AccountId,
        token_id: &String,
        amount: u128,
        promise_success: bool,
    ) -> (fits: bool)
        ensures
            fits == settlement_fits(self@, account_id@, token_id@, amount, promise_success),
    {
        if promise_success {
            return true;
        }
        match self.internal_get_account(account_id) {
            Some(account) => account.has_room_for(token_id, amount),
            None => true,
        }
    }

    /// Settles the transfer of a withdrawal of `amount` of `token_id` by
    /// `account_id`, which arrived if `promise_success` and failed if not.
    /// After a failure the amount goes back into the account as it is now;
    /// if the account is gone, nothing changes. Returns `promise_success` and
    /// the event to report.
    pub fn after_token_transfer(
        &mut self,
        block_timestamp: u64,
        account_id: AccountId,
        token_id: String,
        amount: u128,
        promise_success: bool,
    ) -> (settled: (bool, Event))
        requires
            settlement_fits(old(self)@, account_id@, token_id@, amount, promise_success),
        ensures
            settled.0 == promise_success,
            settled.1@ == settlement_event(
                old(self)@,
                account_id@,
                token_id@,
                amount,
                promise_success,
            ),
            final(self)@ == after_settlement(
                old(self)@,
                account_id@,
                token_id@,
                amount,
                promise_success,
                spec_nano_to_sec(block_timestamp),
            ),
    {
        if !promise_success {
            match self.internal_get_account(&account_id) {
                Some(account) => {
                    let mut account = account;
                    account.credit_back(&token_id, amount, block_timestamp);
                    self.internal_set_account(&account_id, account);
                    (promise_success, Event::WithdrawFailed { account_id, token_id, amount })
                },
                None => {
                    (promise_success, Event::WithdrawLostfound { account_id, token_id, amount })
                },
            }
        } else {
            (promise_success, Event::WithdrawSucceeded { account_id, token_id, amount })
        }
    }
}

} // verus!
