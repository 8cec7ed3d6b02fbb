use vstd::prelude::*;

verus! {

/// Failure kinds surfaced by the lock operations.  Every failure is a
/// precondition violation reported synchronously to the caller; the whole
/// operation aborts with no change to the record and no token movement.
#[derive(Clone, Copy, Debug, PartialEq, Eq, Structural)]
pub enum LockError {
    /// The amount to lock (or the sum of the per-user allocations) is zero.
    AmountZero,
    /// The requested unlock boundary is zero.
    TimeZero,
    /// The mint does not pass the host's token validation.
    NotValidToken,
    /// The record already holds a positive locked amount.
    AlreadyLocked,
    /// The unlock boundary has not been reached yet.
    NotUnlockTime,
    /// The record's locked amount is already zero.
    AlreadyUnlocked,
    /// The supplied mint does not match the one stored in the record.
    SplMintError,
    /// The caller is not entitled to act on this record.
    AuthorizationErr,
    /// The requested unlock boundary is not in the future.
    BeforeNow,
    /// The funding balance is too low.
    LowBalance,
    /// No new vesting tranche is due yet.
    NotPerVestingUnlockTime,
    /// The first-release portion was already claimed.
    AlreadyDidFirstClaim,
    /// The requested extension would move the unlock boundary backwards.
    NotBiggerThanEndTime,
}

/// Holds when `result` reports exactly the failure `kind`.
pub open spec fn failed<T>(result: Result<T, LockError>, kind: LockError) -> bool {
    result matches Err(e) && e == kind
}

} // verus!
