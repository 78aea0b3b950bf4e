//! A custodial ledger that locks fungible tokens until an unlock time and
//! releases them through a two-phase withdrawal.

pub mod account;
pub mod account_id;
pub mod contract;
pub mod directory;
pub mod error;
pub mod event;
pub mod keyed;
pub mod laws;
pub mod legacy;
pub mod lock_table;
pub mod storage;
pub mod token_receiver;
pub mod utils;
pub mod view;
pub mod withdrawal;

pub use account::{Account, AccountView, LockChange, VAccount};
pub use account_id::AccountId;
pub use contract::{CallContext, Contract, ContractData, ContractView, VersionedContractData};
pub use directory::{AccountIdSet, AccountTable};
pub use error::LockerError;
pub use event::Event;
pub use legacy::ContractDataV1000;
pub use lock_table::{LockEntry, LockInfo, LockTable};
pub use storage::{
    Payment, StorageBalance, StorageBalanceBounds, StorageDeposit, StorageUnregister,
    STORAGE_BALANCE_MIN_BOUND,
};
pub use token_receiver::{DepositReceipt, MFTTokenReceiver, TokenReceiverMessage};
pub use utils::{
    generate_mft_token_id, nano_to_sec, parse_token_id, GAS_FOR_AFTER_TOKEN_BURN,
    GAS_FOR_AFTER_TOKEN_TRANSFER, GAS_FOR_TOKEN_TRANSFER, MAX_LOCK_NUM, MFT_TAG,
};
pub use view::{page_range, Metadata};
pub use withdrawal::{TokenTransfer, WithdrawStart};
