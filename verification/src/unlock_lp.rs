use vstd::prelude::*;
use crate::error::LockError;
use crate::event::UnlockLpEvent;
use crate::state::{AccountId, LockPda};
use crate::unlock_token::unlocked;

verus! {

/// The failure an LP unlock reports, if any, in check order.  This path
/// compares the clock reading in seconds against the stored boundary and
/// checks the supplied position mint against the record; unlike the plain
/// path it never checks the caller against the stored authority — an
/// asymmetry of the deployed program, kept for on-chain compatibility.
pub open spec fn unlock_lp_err(lock: LockPda, position_mint: AccountId, now: u64) -> Option<
    LockError,
> {
    if now < lock.end_time {
        Some(LockError::NotUnlockTime)
    } else if lock.lock_amount == 0 {
        Some(LockError::AlreadyUnlocked)
    } else if position_mint != lock.position_mint {
        Some(LockError::SplMintError)
    } else {
        None
    }
}

/// Releases the full remaining amount of an LP-style lock to the caller.
/// On success the second component of the result is the amount the host
/// must transfer out of custody (the pre-zeroing balance); the emitted
/// event reports `lock_amount` from the already-zeroed record, so it is
/// always 0.
pub fn unlock_lp(
    lock: &mut LockPda,
    lock_key: AccountId,
    caller: AccountId,
    position_mint: AccountId,
    now: u64,
) -> (result: Result<(UnlockLpEvent, u64), LockError>)
    ensures
        unlock_lp_err(*old(lock), position_mint, now) matches Some(e) ==> (result matches Err(got)
            && got == e && *final(lock) == *old(lock)),
        unlock_lp_err(*old(lock), position_mint, now) is None ==> *final(lock) == unlocked(
            *old(lock),
        ),
        unlock_lp_err(*old(lock), position_mint, now) is None ==> (result matches Ok(out) && out.1
            == old(lock).lock_amount && out.0.event_name@ == "unlock_lp_event"@ && out.0.seed
            == old(lock).seed && out.0.lock_pda == lock_key && out.0.lock_id == old(lock).lock_id
            && out.0.authority == caller && out.0.spl_mint == old(lock).spl_mint
            && out.0.spl_mint_metadata_pda == old(lock).spl_mint_metadata_pda && out.0.lock_amount
            == 0 && out.0.start_time == old(lock).start_time && out.0.end_time == old(
            lock,
        ).end_time && out.0.lock_name == old(lock).lock_name && out.0.extra_data == old(
            lock,
        ).extra_data && out.0.tge_bps == 0 && out.0.cycle == 0 && out.0.cycle_bps == 0
            && out.0.dex_name == old(lock).dex_name && out.0.token_mint_a == old(
            lock,
        ).token_mint_a && out.0.token_mint_b == old(lock).token_mint_b && out.0.position_mint
            == old(lock).position_mint),
        old(lock).well_formed() ==> final(lock).well_formed(),
{
    if now < lock.end_time {
        return Err(LockError::NotUnlockTime);
    }
    if lock.lock_amount == 0 {
        return Err(LockError::AlreadyUnlocked);
    }
    if position_mint != lock.position_mint {
        return Err(LockError::SplMintError);
    }
    let transfer_amount = lock.lock_amount;
    lock.lock_amount = 0;
    let event = UnlockLpEvent {
        event_name: "unlock_lp_event".to_owned(),
        seed: lock.seed.clone(),
        lock_pda: lock_key,
        lock_id: lock.lock_id,
        authority: caller,
        spl_mint: lock.spl_mint,
        spl_mint_metadata_pda: lock.spl_mint_metadata_pda,
        lock_amount: lock.lock_amount,
        start_time: lock.start_time,
        end_time: lock.end_time,
        lock_name: lock.lock_name.clone(),
        extra_data: lock.extra_data.clone(),
        tge_bps: 0,
        cycle: 0,
        cycle_bps: 0,
        dex_name: lock.dex_name.clone(),
        token_mint_a: lock.token_mint_a,
        token_mint_b: lock.token_mint_b,
        position_mint: lock.position_mint,
    };
    Ok((event, transfer_amount))
}

/// Law: an LP unlock drains a positive amount exactly to zero, and the
/// drained record rejects any further LP unlock with `AlreadyUnlocked`.
pub proof fn lemma_unlock_lp_drains_once(
    lock: LockPda,
    position_mint: AccountId,
    now: u64,
    later: u64,
)
    requires
        unlock_lp_err(lock, position_mint, now) is None,
        later >= now,
    ensures
        lock.lock_amount > 0,
        unlocked(lock).lock_amount == 0,
        unlock_lp_err(unlocked(lock), position_mint, later) == Some(LockError::AlreadyUnlocked),
{
}

} // verus!
