use vstd::prelude::*;
use crate::error::LockError;
use crate::event::UnlockEvent;
use crate::state::{AccountId, LockPda};

verus! {

/// The record after a full unlock: the locked amount drops to zero and
/// nothing else changes.
pub open spec fn unlocked(lock: LockPda) -> LockPda {
    LockPda { lock_amount: 0, ..lock }
}

/// The failure a plain unlock reports, if any, in check order: the clock
/// reading (in milliseconds, against the stored boundary) must have
/// reached `end_time`, the record must still hold a positive amount, the
/// caller must be the stored authority, and the supplied mint must match
/// the stored one.
pub open spec fn unlock_token_err(
    lock: LockPda,
    caller: AccountId,
    spl_mint: AccountId,
    now: u64,
) -> Option<LockError> {
    if now as int * 1000 < lock.end_time {
        Some(LockError::NotUnlockTime)
    } else if lock.lock_amount == 0 {
        Some(LockError::AlreadyUnlocked)
    } else if caller != lock.authority {
        Some(LockError::AuthorizationErr)
    } else if spl_mint != lock.spl_mint {
        Some(LockError::SplMintError)
    } else {
        None
    }
}

/// Releases the full remaining amount of a plain token lock to its
/// authority.  On success the second component of the result is the
/// amount the host must transfer out of custody (the pre-zeroing balance);
/// the emitted event reports `unlock_amount` from the already-zeroed
/// record, so it is always 0: the deployed program emits exactly that,
/// and auditors replaying the event stream rely on its shape.
pub fn unlock_token(
    lock: &mut LockPda,
    lock_key: AccountId,
    caller: AccountId,
    spl_mint: AccountId,
    now: u64,
) -> (result: Result<(UnlockEvent, u64), LockError>)
    requires
        now as int * 1000 <= u64::MAX as int,
    ensures
        unlock_token_err(*old(lock), caller, spl_mint, now) matches Some(e) ==> (result
            matches Err(got) && got == e && *final(lock) == *old(lock)),
        unlock_token_err(*old(lock), caller, spl_mint, now) is None ==> *final(lock) == unlocked(
            *old(lock),
        ),
        unlock_token_err(*old(lock), caller, spl_mint, now) is None ==> (result matches Ok(out)
            && out.1 == old(lock).lock_amount && out.0.event_name@ == "unlock"@ && out.0.seed
            == old(lock).seed && out.0.lock_pda == lock_key && out.0.lock_id == old(lock).lock_id
            && out.0.authority == old(lock).authority && out.0.spl_mint == old(lock).spl_mint
            && out.0.spl_mint_metadata_pda == old(lock).spl_mint_metadata_pda && out.0.unlock_amount
            == 0 && out.0.start_time == old(lock).start_time && out.0.end_time == old(
            lock,
        ).end_time && out.0.lock_name == old(lock).lock_name && out.0.extra_data == old(
            lock,
        ).extra_data && out.0.tge_bps == 0 && out.0.cycle == 0 && out.0.cycle_bps == 0),
        old(lock).well_formed() ==> final(lock).well_formed(),
{
    if now * 1000 < lock.end_time {
        return Err(LockError::NotUnlockTime);
    }
    if lock.lock_amount == 0 {
        return Err(LockError::AlreadyUnlocked);
    }
    if caller != lock.authority {
        return Err(LockError::AuthorizationErr);
    }
    if spl_mint != lock.spl_mint {
        return Err(LockError::SplMintError);
    }
    let transfer_amount = lock.lock_amount;
    lock.lock_amount = 0;
    let event = UnlockEvent {
        event_name: "unlock".to_owned(),
        seed: lock.seed.clone(),
        lock_pda: lock_key,
        lock_id: lock.lock_id,
        authority: lock.authority,
        spl_mint: lock.spl_mint,
        spl_mint_metadata_pda: lock.spl_mint_metadata_pda,
        unlock_amount: lock.lock_amount,
        start_time: lock.start_time,
        end_time: lock.end_time,
        lock_name: lock.lock_name.clone(),
        extra_data: lock.extra_data.clone(),
        tge_bps: 0,
        cycle: 0,
        cycle_bps: 0,
    };
    Ok((event, transfer_amount))
}

/// Law: a plain unlock only ever succeeds on a record that still holds a
/// positive amount, takes that amount exactly to zero, and a second
/// unlock of the drained record fails `AlreadyUnlocked` at any clock
/// reading from then on.
pub proof fn lemma_unlock_drains_once(
    lock: LockPda,
    caller: AccountId,
    spl_mint: AccountId,
    now: u64,
    later: u64,
)
    requires
        unlock_token_err(lock, caller, spl_mint, now) is None,
        later >= now,
    ensures
        lock.lock_amount > 0,
        unlocked(lock).lock_amount == 0,
        unlock_token_err(unlocked(lock), caller, spl_mint, later) == Some(
            LockError::AlreadyUnlocked,
        ),
{
}

} // verus!
