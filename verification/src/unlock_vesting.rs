use vstd::prelude::*;
use vstd::arithmetic::div_mod::{lemma_div_is_ordered, lemma_div_multiples_vanish};
use crate::error::LockError;
use crate::event::UnlockVestingEvent;
use crate::lock_vesting::copy_words;
use crate::state::{AccountId, LockPda};
use crate::vesting::{
    claim_outcome, last_index_of, lemma_last_index_of_props, lemma_last_index_of_take_step,
    payout, payout_amount, vesting_release,
};

verus! {

/// Seconds elapsed past the unlock boundary at clock reading `now`: the
/// boundary is taken in milliseconds on this path and scaled down.
pub open spec fn rest_time_of(end_time: u64, now: u64) -> int {
    now - end_time as int / 1000
}

/// The record after a settled claim: only the cumulative released
/// percent changes.  The per-user allocation itself stays in place; the
/// locked amount counter is not decremented on this path, exactly as
/// the deployed program keeps it.
pub open spec fn claim_next(lock: LockPda, new_claimed: u8) -> LockPda {
    LockPda { claimed_token_percent: new_claimed, ..lock }
}

/// The failure a vesting claim reports, if any, in check order: the clock
/// reading (in milliseconds, against the stored boundary) must have
/// reached `end_time`; the caller must appear among the beneficiaries
/// (duplicates resolve to the last entry); a tranche must be due under
/// [`claim_outcome`]; and the supplied mint must match the stored one.
pub open spec fn unlock_vesting_err(
    lock: LockPda,
    caller: AccountId,
    spl_mint: AccountId,
    now: u64,
) -> Option<LockError> {
    if now as int * 1000 < lock.end_time {
        Some(LockError::NotUnlockTime)
    } else if last_index_of(lock.user_list@, caller) < 0 {
        Some(LockError::AuthorizationErr)
    } else {
        match claim_outcome(
            lock.first_release,
            lock.amount_per_vesting,
            lock.vesting_period,
            lock.claimed_token_percent,
            rest_time_of(lock.end_time, now),
        ) {
            Result::Ok(p) => if spl_mint != lock.spl_mint {
                Some(LockError::SplMintError)
            } else {
                None
            },
            Result::Err(e) => Some(e),
        }
    }
}

/// Settles one vesting claim for `caller`.  On success the second
/// component of the result is the newly released amount the host must
/// move out of custody — the claimer's allocation times the newly due
/// percent, floored — while the emitted event reports the cumulative
/// amount released to the claimer so far.
pub fn unlock_vesting(
    lock: &mut LockPda,
    lock_key: AccountId,
    caller: AccountId,
    spl_mint: AccountId,
    now: u64,
) -> (result: Result<(UnlockVestingEvent, u64), LockError>)
    requires
        old(lock).well_formed(),
        now as int * 1000 <= u64::MAX as int,
    ensures
        unlock_vesting_err(*old(lock), caller, spl_mint, now) matches Some(e) ==> (result
            matches Err(got) && got == e && *final(lock) == *old(lock)),
        unlock_vesting_err(*old(lock), caller, spl_mint, now) is None ==> (claim_outcome(
            old(lock).first_release,
            old(lock).amount_per_vesting,
            old(lock).vesting_period,
            old(lock).claimed_token_percent,
            rest_time_of(old(lock).end_time, now),
        ) matches Ok(p) && *final(lock) == claim_next(*old(lock), p.1) && (result matches Ok(out)
            && out.1 == payout(
            old(lock).user_amount@[last_index_of(old(lock).user_list@, caller)],
            p.0,
        ) && out.0.event_name@ == "unlock_vesting"@ && out.0.seed == old(lock).seed
            && out.0.lock_pda == lock_key && out.0.lock_id == old(lock).lock_id
            && out.0.authority == old(lock).authority && out.0.spl_mint == old(lock).spl_mint
            && out.0.spl_mint_metadata_pda == old(lock).spl_mint_metadata_pda
            && out.0.unlock_amount == payout(
            old(lock).user_amount@[last_index_of(old(lock).user_list@, caller)],
            p.1,
        ) && out.0.start_time == old(lock).start_time && out.0.end_time == old(lock).end_time
            && out.0.lock_name == old(lock).lock_name && out.0.extra_data == old(lock).extra_data
            && out.0.tge_bps == 0 && out.0.cycle == 0 && out.0.cycle_bps == 0
            && out.0.first_release == old(lock).first_release && out.0.vesting_period == old(
            lock,
        ).vesting_period && out.0.amount_per_vesting == old(lock).amount_per_vesting
            && out.0.user_list@ == old(lock).user_list@ && out.0.user_amount@ == old(
            lock,
        ).user_amount@ && out.0.unlocker == caller)),
        old(lock).well_formed() ==> final(lock).well_formed(),
{
    if now * 1000 < lock.end_time {
        return Err(LockError::NotUnlockTime);
    }
    let user_count = lock.user_list.len();
    let mut found = false;
    let mut index: usize = 0;
    let mut i: usize = 0;
    while i < user_count
        invariant
            i <= user_count,
            user_count == lock.user_list@.len(),
            found <==> last_index_of(lock.user_list@.take(i as int), caller) >= 0,
            found ==> index == last_index_of(lock.user_list@.take(i as int), caller),
            !found ==> index == 0,
        decreases user_count - i,
    {
        proof {
            lemma_last_index_of_take_step(lock.user_list@, caller, i as int);
            lemma_last_index_of_props(lock.user_list@.take(i as int), caller);
        }
        if caller == lock.user_list[i] {
            found = true;
            index = i;
        }
        i = i + 1;
    }
    proof {
        assert(lock.user_list@.take(user_count as int) =~= lock.user_list@);
        lemma_last_index_of_props(lock.user_list@, caller);
    }
    if !found {
        return Err(LockError::AuthorizationErr);
    }
    proof {
        lemma_div_is_ordered(lock.end_time as int, now as int * 1000, 1000);
        lemma_div_multiples_vanish(now as int, 1000);
    }
    let rest_time: u64 = now - lock.end_time / 1000;
    match vesting_release(
        lock.first_release,
        lock.amount_per_vesting,
        lock.vesting_period,
        lock.claimed_token_percent,
        rest_time,
    ) {
        Result::Err(e) => Err(e),
        Result::Ok((delta, new_claimed)) => {
            if spl_mint != lock.spl_mint {
                return Err(LockError::SplMintError);
            }
            let allocation = lock.user_amount[index];
            let unlock_amount = payout_amount(allocation, delta);
            lock.claimed_token_percent = new_claimed;
            let total_unlocked = payout_amount(allocation, new_claimed);
            let event = UnlockVestingEvent {
                event_name: "unlock_vesting".to_owned(),
                seed: lock.seed.clone(),
                lock_pda: lock_key,
                lock_id: lock.lock_id,
                authority: lock.authority,
                spl_mint: lock.spl_mint,
                spl_mint_metadata_pda: lock.spl_mint_metadata_pda,
                unlock_amount: total_unlocked,
                start_time: lock.start_time,
                end_time: lock.end_time,
                lock_name: lock.lock_name.clone(),
                extra_data: lock.extra_data.clone(),
                tge_bps: 0,
                cycle: 0,
                cycle_bps: 0,
                first_release: lock.first_release,
                vesting_period: lock.vesting_period,
                amount_per_vesting: lock.amount_per_vesting,
                user_list: copy_words(&lock.user_list),
                user_amount: copy_words(&lock.user_amount),
                unlocker: caller,
            };
            Ok((event, unlock_amount))
        },
    }
}

/// Law: a settled claim never decreases the cumulative released percent,
/// never pushes it above 100, and leaves both the locked amount and every
/// per-user allocation untouched.
pub proof fn lemma_claim_percent_monotone(lock: LockPda, new_claimed: u8)
    requires
        lock.claimed_token_percent <= new_claimed <= 100,
    ensures
        claim_next(lock, new_claimed).claimed_token_percent >= lock.claimed_token_percent,
        claim_next(lock, new_claimed).claimed_token_percent <= 100,
        claim_next(lock, new_claimed).lock_amount == lock.lock_amount,
        claim_next(lock, new_claimed).user_amount == lock.user_amount,
{
}

} // verus!
