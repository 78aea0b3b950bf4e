//! The reasons for which the ledger refuses an operation.

use vstd::prelude::*;

verus! {

/// Why an operation was refused. A refused operation leaves the ledger as it
/// was.
#[derive(Clone, Copy, Debug, PartialEq, Eq, Structural)]
pub enum LockerError {
    /// The token identifier is not a contract id, or a contract id, one
    /// separator and an inner token id.
    MalformedAssetId,
    /// The account already holds the most locks a deposit may open.
    TooManyLocks,
    /// The unlock time is not after the current time.
    UnlockTimeNotInFuture,
    /// The unlock time is before that of the lock to extend.
    InvalidUnlockExtension,
    /// The account holds no lock for the token.
    NoSuchLock,
    /// The unlock time of the lock has not come yet.
    StillLocked,
    /// More was asked for than the lock holds.
    InsufficientLockedBalance,
    /// No account is registered under the id.
    AccountNotRegistered,
    /// The caller is not the owner.
    NotAllowed,
    /// The token is not on the white list.
    NotWhiteListToken,
    /// A token to take off the white list is not on it.
    InvalidTokenId,
    /// The call must carry a deposit of exactly one yocto.
    RequiresOneYocto,
    /// The deposit does not cover the registration of an account.
    InsufficientDeposit,
    /// The account still holds locks.
    StillHasTokens,
    /// The operation is not offered.
    NotSupported,
}

} // verus!
