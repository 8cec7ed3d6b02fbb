use vstd::prelude::*;
use crate::error::{failed, LockError};
use crate::event::ExtendLockTimeEvent;
use crate::state::{AccountId, LockPda};

verus! {

/// True when an extension of `lock` to `new_end_time` is accepted: the
/// unlock boundary may move forward or stay, never backwards.
pub open spec fn extend_accepted(lock: LockPda, new_end_time: u64) -> bool {
    new_end_time >= lock.end_time
}

/// The record after a successful extension: only `end_time` changes.
pub open spec fn extend_next(lock: LockPda, new_end_time: u64) -> LockPda {
    LockPda { end_time: new_end_time, ..lock }
}

/// Moves the unlock boundary of `lock` forward to `lock_time` and reports
/// the extension event.  A request earlier than the stored boundary fails
/// `NotBiggerThanEndTime`; an equal or later one always succeeds.  No
/// amount or authority is checked on this path: the deployed program
/// checks neither, and replay compatibility forbids adding one silently.
pub fn extend_lock_time(lock: &mut LockPda, lock_key: AccountId, lock_time: u64) -> (result:
    Result<ExtendLockTimeEvent, LockError>)
    ensures
        lock_time < old(lock).end_time ==> failed(result, LockError::NotBiggerThanEndTime)
            && *final(lock) == *old(lock),
        lock_time >= old(lock).end_time ==> *final(lock) == extend_next(*old(lock), lock_time),
        lock_time >= old(lock).end_time ==> (result matches Ok(ev) && ev.event_name@
            == "extend_lock_time_event"@ && ev.seed == old(lock).seed && ev.lock_pda == lock_key
            && ev.end_time == lock_time),
        old(lock).well_formed() ==> final(lock).well_formed(),
{
    if lock_time < lock.end_time {
        return Err(LockError::NotBiggerThanEndTime);
    }
    lock.end_time = lock_time;
    Ok(
        ExtendLockTimeEvent {
            event_name: "extend_lock_time_event".to_owned(),
            seed: lock.seed.clone(),
            lock_pda: lock_key,
            end_time: lock.end_time,
        },
    )
}

/// Law: extension keeps `end_time` monotonically non-decreasing, leaves
/// the locked amount untouched, and is idempotent-safe: re-extending the
/// extended record to the same boundary is accepted and changes nothing.
pub proof fn lemma_extend_monotone_idempotent(lock: LockPda, new_end_time: u64)
    requires
        extend_accepted(lock, new_end_time),
    ensures
        extend_next(lock, new_end_time).end_time >= lock.end_time,
        extend_next(lock, new_end_time).lock_amount == lock.lock_amount,
        extend_accepted(extend_next(lock, new_end_time), new_end_time),
        extend_next(extend_next(lock, new_end_time), new_end_time) == extend_next(
            lock,
            new_end_time,
        ),
{
}

} // verus!
