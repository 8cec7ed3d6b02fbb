use vstd::prelude::*;
use crate::error::LockError;
use crate::event::{CreateDexLockEvent, CreateLockEvent, LockEvent};
use crate::state::{AccountId, LockPda, MAX_STR_LEN};

verus! {

/// The failure a creation with an explicit amount reports, if any, in
/// check order: the amount to lock must be positive, the requested
/// boundary nonzero, the record not yet holding a positive amount, and
/// the boundary strictly in the future of the clock reading.
pub open spec fn create_err(lock: LockPda, amount: u64, lock_time: u64, now: u64) -> Option<
    LockError,
> {
    if amount == 0 {
        Some(LockError::AmountZero)
    } else if lock_time == 0 {
        Some(LockError::TimeZero)
    } else if lock.lock_amount > 0 {
        Some(LockError::AlreadyLocked)
    } else if lock_time <= now {
        Some(LockError::BeforeNow)
    } else {
        None
    }
}

/// The amount a dual-mode creation actually locks: the caller's full
/// token balance in LP mode, the explicit request amount otherwise.
pub open spec fn real_lock_amount(is_nft: bool, lock_amount: u64, authority_balance: u64) -> u64 {
    if is_nft {
        authority_balance
    } else {
        lock_amount
    }
}

/// Creates a plain token lock or (when `is_nft` is set) a balance-inferred
/// LP lock on the freshly initialized record `lock`.
///
/// In LP mode the locked amount is read from `authority_balance`, the
/// stored boundary is the request divided by 1000 (the request is taken in
/// milliseconds on this path), the pair mints are canonicalized so that
/// `token_mint_a < token_mint_b`, the venue label is fixed to "manual lp"
/// and the position token is the supplied mint account.  Otherwise the
/// boundary is stored as given and the venue label is "manual".  Either
/// way the vesting-only fields are stored zero and empty: this is not a
/// vesting lock.  On success the second component of the result is the
/// amount the host must move into custody, and the event variant matches
/// the mode.
pub fn lock_token(
    lock: &mut LockPda,
    lock_key: AccountId,
    bump: u8,
    owner: AccountId,
    spl_mint: AccountId,
    spl_mint_metadata_pda: AccountId,
    authority_balance: u64,
    now: u64,
    input: String,
    lock_amount: u64,
    lock_time: u64,
    lock_name: String,
    extra_data: String,
    is_nft: bool,
    project_token_mint: AccountId,
    wsol_mint: AccountId,
) -> (result: Result<(LockEvent, u64), LockError>)
    requires
        old(lock).well_formed(),
        input@.len() <= MAX_STR_LEN,
        lock_name@.len() <= MAX_STR_LEN,
        extra_data@.len() <= MAX_STR_LEN,
    ensures
        create_err(*old(lock), real_lock_amount(is_nft, lock_amount, authority_balance), lock_time, now)
            matches Some(e) ==> (result matches Err(got) && got == e && *final(lock) == *old(
            lock,
        )),
        create_err(*old(lock), real_lock_amount(is_nft, lock_amount, authority_balance), lock_time, now)
            is None ==> ({
            let created = *final(lock);
            &&& created.bump == bump
            &&& created.seed == input
            &&& created.lock_id == now as u32
            &&& created.authority == owner
            &&& created.spl_mint_metadata_pda == spl_mint_metadata_pda
            &&& created.lock_amount == real_lock_amount(is_nft, lock_amount, authority_balance)
            &&& created.start_time == now
            &&& created.lock_name == lock_name
            &&& created.extra_data == extra_data
            &&& (if is_nft {
                &&& created.spl_mint == project_token_mint
                &&& created.dex_name@ == "manual lp"@
                &&& created.end_time == lock_time / 1000
                &&& created.position_mint == spl_mint
                &&& created.token_mint_a == (if project_token_mint > wsol_mint {
                    wsol_mint
                } else {
                    project_token_mint
                })
                &&& created.token_mint_b == (if project_token_mint > wsol_mint {
                    project_token_mint
                } else {
                    wsol_mint
                })
            } else {
                &&& created.spl_mint == spl_mint
                &&& created.dex_name@ == "manual"@
                &&& created.end_time == lock_time
                &&& created.token_mint_a == old(lock).token_mint_a
                &&& created.token_mint_b == old(lock).token_mint_b
                &&& created.position_mint == old(lock).position_mint
            })
            &&& created.first_release == 0
            &&& created.vesting_period == 0
            &&& created.amount_per_vesting == 0
            &&& created.user_list@.len() == 0
            &&& created.user_amount@.len() == 0
            &&& created.released_status@.len() == 0
            &&& created.pre_unlocked_time@.len() == 0
            &&& created.claimed_token_percent == 0
            &&& created.well_formed()
        }),
        create_err(*old(lock), real_lock_amount(is_nft, lock_amount, authority_balance), lock_time, now)
            is None ==> (result matches Ok(out) && out.1 == real_lock_amount(
            is_nft,
            lock_amount,
            authority_balance,
        ) && (if is_nft {
            out.0 matches LockEvent::CreateDex(ev) && dex_event_matches(ev, *final(lock), lock_key)
        } else {
            out.0 matches LockEvent::Create(ev) && create_event_matches(ev, *final(lock), lock_key)
        })),
{
    let real_amount = if is_nft {
        authority_balance
    } else {
        lock_amount
    };
    if real_amount == 0 {
        return Err(LockError::AmountZero);
    }
    if lock_time == 0 {
        return Err(LockError::TimeZero);
    }
    if lock.lock_amount > 0 {
        return Err(LockError::AlreadyLocked);
    }
    if lock_time <= now {
        return Err(LockError::BeforeNow);
    }
    proof {
        reveal_strlit("manual lp");
        reveal_strlit("manual");
    }
    lock.bump = bump;
    lock.seed = input;
    lock.authority = owner;
    lock.spl_mint_metadata_pda = spl_mint_metadata_pda;
    lock.lock_amount = real_amount;
    lock.start_time = now;
    lock.lock_name = lock_name;
    lock.extra_data = extra_data;
    lock.first_release = 0;
    lock.vesting_period = 0;
    lock.amount_per_vesting = 0;
    lock.user_list = Vec::new();
    lock.user_amount = Vec::new();
    lock.released_status = Vec::new();
    lock.pre_unlocked_time = Vec::new();
    lock.claimed_token_percent = 0;
    if is_nft {
        lock.spl_mint = project_token_mint;
        lock.dex_name = "manual lp".to_owned();
        if project_token_mint > wsol_mint {
            lock.token_mint_a = wsol_mint;
            lock.token_mint_b = project_token_mint;
        } else {
            lock.token_mint_a = project_token_mint;
            lock.token_mint_b = wsol_mint;
        }
        lock.end_time = lock_time / 1000;
        lock.position_mint = spl_mint;
    } else {
        lock.end_time = lock_time;
        lock.spl_mint = spl_mint;
        lock.dex_name = "manual".to_owned();
    }
    lock.lock_id = #[verifier::truncate] (now as u32);
    let event = if is_nft {
        LockEvent::CreateDex(
            CreateDexLockEvent {
                event_name: "create_dex_lock".to_owned(),
                seed: lock.seed.clone(),
                lock_pda: lock_key,
                lock_id: lock.lock_id,
                authority: lock.authority,
                spl_mint: lock.spl_mint,
                spl_mint_metadata_pda: lock.spl_mint_metadata_pda,
                lock_amount: lock.lock_amount,
                start_time: lock.start_time,
                end_time: lock.end_time,
                lock_name: lock.lock_name.clone(),
                extra_data: lock.extra_data.clone(),
                tge_bps: 0,
                cycle: 0,
                cycle_bps: 0,
                dex_name: lock.dex_name.clone(),
                token_mint_a: lock.token_mint_a,
                token_mint_b: lock.token_mint_b,
                position_mint: lock.position_mint,
            },
        )
    } else {
        LockEvent::Create(
            CreateLockEvent {
                event_name: "create_lock".to_owned(),
                seed: lock.seed.clone(),
                lock_pda: lock_key,
                lock_id: lock.lock_id,
                authority: lock.authority,
                spl_mint: lock.spl_mint,
                spl_mint_metadata_pda: lock.spl_mint_metadata_pda,
                lock_amount: lock.lock_amount,
                start_time: lock.start_time,
                end_time: lock.end_time,
                lock_name: lock.lock_name.clone(),
                extra_data: lock.extra_data.clone(),
                tge_bps: 0,
                cycle: 0,
                cycle_bps: 0,
                dex_name: lock.dex_name.clone(),
            },
        )
    };
    Ok((event, real_amount))
}

/// Holds when `ev` is the full snapshot of the freshly created plain lock
/// `created` under the event name of the plain creation.
pub open spec fn create_event_matches(
    ev: CreateLockEvent,
    created: LockPda,
    lock_key: AccountId,
) -> bool {
    &&& ev.event_name@ == "create_lock"@
    &&& ev.seed == created.seed
    &&& ev.lock_pda == lock_key
    &&& ev.lock_id == created.lock_id
    &&& ev.authority == created.authority
    &&& ev.spl_mint == created.spl_mint
    &&& ev.spl_mint_metadata_pda == created.spl_mint_metadata_pda
    &&& ev.lock_amount == created.lock_amount
    &&& ev.start_time == created.start_time
    &&& ev.end_time == created.end_time
    &&& ev.lock_name == created.lock_name
    &&& ev.extra_data == created.extra_data
    &&& ev.tge_bps == 0
    &&& ev.cycle == 0
    &&& ev.cycle_bps == 0
    &&& ev.dex_name == created.dex_name
}

/// Holds when `ev` is the full snapshot of the freshly created LP lock
/// `created` under the event name of the LP creation.
pub open spec fn dex_event_matches(
    ev: CreateDexLockEvent,
    created: LockPda,
    lock_key: AccountId,
) -> bool {
    &&& ev.event_name@ == "create_dex_lock"@
    &&& ev.seed == created.seed
    &&& ev.lock_pda == lock_key
    &&& ev.lock_id == created.lock_id
    &&& ev.authority == created.authority
    &&& ev.spl_mint == created.spl_mint
    &&& ev.spl_mint_metadata_pda == created.spl_mint_metadata_pda
    &&& ev.lock_amount == created.lock_amount
    &&& ev.start_time == created.start_time
    &&& ev.end_time == created.end_time
    &&& ev.lock_name == created.lock_name
    &&& ev.extra_data == created.extra_data
    &&& ev.tge_bps == 0
    &&& ev.cycle == 0
    &&& ev.cycle_bps == 0
    &&& ev.dex_name == created.dex_name
    &&& ev.token_mint_a == created.token_mint_a
    &&& ev.token_mint_b == created.token_mint_b
    &&& ev.position_mint == created.position_mint
}

/// Law: once any creation has succeeded, the record it leaves behind holds
/// a positive amount, so a second creation against the same record — plain,
/// LP or vesting — fails `AlreadyLocked` for every later request whose own
/// amount and boundary pass the checks that run before the duplicate check.
pub proof fn lemma_double_creation_rejected(
    first: LockPda,
    amount1: u64,
    time1: u64,
    now1: u64,
    created: LockPda,
    amount2: u64,
    time2: u64,
    now2: u64,
    total2: int,
)
    requires
        create_err(first, amount1, time1, now1) is None,
        created.lock_amount == amount1,
        amount2 != 0,
        time2 != 0,
    ensures
        create_err(created, amount2, time2, now2) == Some(LockError::AlreadyLocked),
        crate::lock_vesting::lock_vesting_err(created, time2, now2, total2) == Some(
            LockError::AlreadyLocked,
        ),
{
}

} // verus!
