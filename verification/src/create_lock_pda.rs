use vstd::prelude::*;
use crate::error::LockError;
use crate::event::CreateDexLockEvent;
use crate::lock_token::{create_err, dex_event_matches};
use crate::state::{AccountId, LockPda, MAX_STR_LEN};

verus! {

/// Creates an explicit dual-mint LP lock on the freshly initialized record
/// `lock`: the caller names both pair mints, the position token and the
/// venue label, and the amount is the explicit request.  Unlike the
/// balance-inferred LP path, the pair mints are stored exactly as given
/// (no canonicalization), the boundary is stored as given, the stored
/// token type is `token_mint_a`, and the stored authority is the caller —
/// asymmetries of the deployed program, kept for on-chain compatibility.
/// The vesting-only fields are stored zero and empty: this is not a
/// vesting lock.  On success the second component of the result is the
/// amount the host must move into custody.
pub fn create_lock_pda(
    lock: &mut LockPda,
    lock_key: AccountId,
    bump: u8,
    caller: AccountId,
    position_mint: AccountId,
    spl_mint_metadata_pda: AccountId,
    now: u64,
    input: String,
    lock_amount: u64,
    lock_time: u64,
    lock_name: String,
    extra_data: String,
    dex_name: String,
    token_mint_a: AccountId,
    token_mint_b: AccountId,
) -> (result: Result<(CreateDexLockEvent, u64), LockError>)
    requires
        old(lock).well_formed(),
        input@.len() <= MAX_STR_LEN,
        lock_name@.len() <= MAX_STR_LEN,
        extra_data@.len() <= MAX_STR_LEN,
        dex_name@.len() <= MAX_STR_LEN,
    ensures
        create_err(*old(lock), lock_amount, lock_time, now) matches Some(e) ==> (result
            matches Err(got) && got == e && *final(lock) == *old(lock)),
        create_err(*old(lock), lock_amount, lock_time, now) is None ==> ({
            let created = *final(lock);
            &&& created.bump == bump
            &&& created.seed == input
            &&& created.lock_id == now as u32
            &&& created.authority == caller
            &&& created.spl_mint == token_mint_a
            &&& created.spl_mint_metadata_pda == spl_mint_metadata_pda
            &&& created.lock_amount == lock_amount
            &&& created.start_time == now
            &&& created.end_time == lock_time
            &&& created.lock_name == lock_name
            &&& created.extra_data == extra_data
            &&& created.dex_name == dex_name
            &&& created.token_mint_a == token_mint_a
            &&& created.token_mint_b == token_mint_b
            &&& created.position_mint == position_mint
            &&& created.first_release == 0
            &&& created.vesting_period == 0
            &&& created.amount_per_vesting == 0
            &&& created.user_list@.len() == 0
            &&& created.user_amount@.len() == 0
            &&& created.released_status@.len() == 0
            &&& created.pre_unlocked_time@.len() == 0
            &&& created.claimed_token_percent == 0
            &&& created.well_formed()
        }),
        create_err(*old(lock), lock_amount, lock_time, now) is None ==> (result matches Ok(out)
            && out.1 == lock_amount && dex_event_matches(out.0, *final(lock), lock_key)),
{
    if lock_amount == 0 {
        return Err(LockError::AmountZero);
    }
    if lock_time == 0 {
        return Err(LockError::TimeZero);
    }
    if lock.lock_amount > 0 {
        return Err(LockError::AlreadyLocked);
    }
    if lock_time <= now {
        return Err(LockError::BeforeNow);
    }
    lock.bump = bump;
    lock.seed = input;
    lock.authority = caller;
    lock.spl_mint = token_mint_a;
    lock.spl_mint_metadata_pda = spl_mint_metadata_pda;
    lock.lock_amount = lock_amount;
    lock.start_time = now;
    lock.end_time = lock_time;
    lock.lock_name = lock_name;
    lock.extra_data = extra_data;
    lock.dex_name = dex_name;
    lock.token_mint_a = token_mint_a;
    lock.token_mint_b = token_mint_b;
    lock.position_mint = position_mint;
    lock.first_release = 0;
    lock.vesting_period = 0;
    lock.amount_per_vesting = 0;
    lock.user_list = Vec::new();
    lock.user_amount = Vec::new();
    lock.released_status = Vec::new();
    lock.pre_unlocked_time = Vec::new();
    lock.claimed_token_percent = 0;
    lock.lock_id = #[verifier::truncate] (now as u32);
    let event = CreateDexLockEvent {
        event_name: "create_dex_lock".to_owned(),
        seed: lock.seed.clone(),
        lock_pda: lock_key,
        lock_id: lock.lock_id,
        authority: lock.authority,
        spl_mint: lock.spl_mint,
        spl_mint_metadata_pda: lock.spl_mint_metadata_pda,
        lock_amount: lock.lock_amount,
        start_time: lock.start_time,
        end_time: lock.end_time,
        lock_name: lock.lock_name.clone(),
        extra_data: lock.extra_data.clone(),
        tge_bps: 0,
        cycle: 0,
        cycle_bps: 0,
        dex_name: lock.dex_name.clone(),
        token_mint_a: lock.token_mint_a,
        token_mint_b: lock.token_mint_b,
        position_mint: lock.position_mint,
    };
    Ok((event, lock_amount))
}

} // verus!
