use vstd::prelude::*;
use crate::error::LockError;
use crate::event::LockVestingEvent;
use crate::state::{AccountId, LockPda, MAX_STR_LEN, MAX_USERS, SECONDS_PER_DAY};
use crate::vesting::{lemma_sum_of_take_bound, lemma_sum_of_take_step, sum_of};

verus! {

/// The failure a vesting-lock creation reports, if any, in check order:
/// the boundary must be nonzero, the record not yet holding a positive
/// amount, the boundary strictly in the future, and the total of the
/// per-user allocations nonzero.
pub open spec fn lock_vesting_err(lock: LockPda, lock_time: u64, now: u64, total: int) -> Option<
    LockError,
> {
    if lock_time == 0 {
        Some(LockError::TimeZero)
    } else if lock.lock_amount > 0 {
        Some(LockError::AlreadyLocked)
    } else if lock_time <= now {
        Some(LockError::BeforeNow)
    } else if total == 0 {
        Some(LockError::AmountZero)
    } else {
        None
    }
}

/// Creates a vesting lock on the freshly initialized record `lock`.  The
/// locked amount is the sum of the per-user allocations; the per-user
/// bookkeeping arrays are allocated zeroed, one slot per beneficiary (the
/// release computation never consults them), and the cumulative released
/// percent starts at zero.  On success the second
/// component of the result is the aggregate amount the host must move
/// into custody.
pub fn lock_vesting(
    lock: &mut LockPda,
    lock_key: AccountId,
    bump: u8,
    caller: AccountId,
    spl_mint: AccountId,
    spl_mint_metadata_pda: AccountId,
    now: u64,
    input: String,
    lock_time: u64,
    lock_name: String,
    extra_data: String,
    first_release: u64,
    vesting_period: u64,
    amount_per_vesting: u64,
    user_list: Vec<AccountId>,
    user_amount: Vec<u64>,
) -> (result: Result<(LockVestingEvent, u64), LockError>)
    requires
        old(lock).well_formed(),
        input@.len() <= MAX_STR_LEN,
        lock_name@.len() <= MAX_STR_LEN,
        extra_data@.len() <= MAX_STR_LEN,
        first_release <= 100,
        amount_per_vesting <= 100,
        vesting_period as int * SECONDS_PER_DAY as int <= i64::MAX as int,
        user_list@.len() == user_amount@.len(),
        user_list@.len() <= MAX_USERS,
        sum_of(user_amount@) <= u64::MAX as int,
    ensures
        lock_vesting_err(*old(lock), lock_time, now, sum_of(user_amount@)) matches Some(e) ==> (
        result matches Err(got) && got == e && *final(lock) == *old(lock)),
        lock_vesting_err(*old(lock), lock_time, now, sum_of(user_amount@)) is None ==> ({
            let created = *final(lock);
            &&& created.bump == bump
            &&& created.seed == input
            &&& created.lock_id == old(lock).lock_id
            &&& created.authority == caller
            &&& created.spl_mint == spl_mint
            &&& created.spl_mint_metadata_pda == spl_mint_metadata_pda
            &&& created.lock_amount == sum_of(user_amount@)
            &&& created.start_time == now
            &&& created.end_time == lock_time
            &&& created.lock_name == lock_name
            &&& created.extra_data == extra_data
            &&& created.dex_name@ == "manual"@
            &&& created.token_mint_a == old(lock).token_mint_a
            &&& created.token_mint_b == old(lock).token_mint_b
            &&& created.position_mint == old(lock).position_mint
            &&& created.first_release == first_release
            &&& created.vesting_period == vesting_period
            &&& created.amount_per_vesting == amount_per_vesting
            &&& created.user_list == user_list
            &&& created.user_amount == user_amount
            &&& created.released_status@.len() == user_list@.len()
            &&& (forall|i: int|
                0 <= i < user_list@.len() ==> created.released_status@[i] == 0u8)
            &&& created.pre_unlocked_time@.len() == user_list@.len()
            &&& (forall|i: int|
                0 <= i < user_list@.len() ==> created.pre_unlocked_time@[i] == 0u64)
            &&& created.claimed_token_percent == 0
            &&& created.well_formed()
        }),
        lock_vesting_err(*old(lock), lock_time, now, sum_of(user_amount@)) is None ==> (result
            matches Ok(out) && out.1 == sum_of(user_amount@) && out.0.event_name@
            == "lock_vesting"@ && out.0.seed == final(lock).seed && out.0.lock_pda == lock_key
            && out.0.lock_id == final(lock).lock_id && out.0.authority == caller && out.0.spl_mint
            == spl_mint && out.0.spl_mint_metadata_pda == spl_mint_metadata_pda
            && out.0.lock_amount == sum_of(user_amount@) && out.0.start_time == now
            && out.0.end_time == lock_time && out.0.lock_name == final(lock).lock_name
            && out.0.extra_data == final(lock).extra_data && out.0.tge_bps == 0 && out.0.cycle == 0
            && out.0.cycle_bps == 0 && out.0.dex_name@ == "manual"@ && out.0.first_release
            == first_release && out.0.vesting_period == vesting_period && out.0.amount_per_vesting
            == amount_per_vesting && out.0.user_list@ == user_list@ && out.0.user_amount@
            == user_amount@),
{
    if lock_time == 0 {
        return Err(LockError::TimeZero);
    }
    if lock.lock_amount > 0 {
        return Err(LockError::AlreadyLocked);
    }
    if lock_time <= now {
        return Err(LockError::BeforeNow);
    }
    let mut total: u64 = 0;
    let mut i: usize = 0;
    while i < user_amount.len()
        invariant
            i <= user_amount.len(),
            total == sum_of(user_amount@.take(i as int)),
            sum_of(user_amount@) <= u64::MAX as int,
        decreases user_amount.len() - i,
    {
        proof {
            lemma_sum_of_take_step(user_amount@, i as int);
            lemma_sum_of_take_bound(user_amount@, i as int + 1);
        }
        total = total + user_amount[i];
        i = i + 1;
    }
    proof {
        assert(user_amount@.take(user_amount@.len() as int) =~= user_amount@);
        reveal_strlit("manual");
    }
    if total == 0 {
        return Err(LockError::AmountZero);
    }
    let user_count = user_list.len();
    lock.bump = bump;
    lock.seed = input;
    lock.authority = caller;
    lock.spl_mint = spl_mint;
    lock.spl_mint_metadata_pda = spl_mint_metadata_pda;
    lock.lock_amount = total;
    lock.start_time = now;
    lock.end_time = lock_time;
    lock.lock_name = lock_name;
    lock.extra_data = extra_data;
    lock.dex_name = "manual".to_owned();
    lock.first_release = first_release;
    lock.vesting_period = vesting_period;
    lock.amount_per_vesting = amount_per_vesting;
    lock.user_list = user_list;
    lock.user_amount = user_amount;
    lock.released_status = zeroed_bytes(user_count);
    lock.pre_unlocked_time = zeroed_words(user_count);
    lock.claimed_token_percent = 0;
    let event = LockVestingEvent {
        event_name: "lock_vesting".to_owned(),
        seed: lock.seed.clone(),
        lock_pda: lock_key,
        lock_id: lock.lock_id,
        authority: lock.authority,
        spl_mint: lock.spl_mint,
        spl_mint_metadata_pda: lock.spl_mint_metadata_pda,
        lock_amount: lock.lock_amount,
        start_time: lock.start_time,
        end_time: lock.end_time,
        lock_name: lock.lock_name.clone(),
        extra_data: lock.extra_data.clone(),
        tge_bps: 0,
        cycle: 0,
        cycle_bps: 0,
        dex_name: lock.dex_name.clone(),
        first_release: lock.first_release,
        vesting_period: lock.vesting_period,
        amount_per_vesting: lock.amount_per_vesting,
        user_list: copy_words(&lock.user_list),
        user_amount: copy_words(&lock.user_amount),
    };
    Ok((event, total))
}

/// A vector of `n` zero bytes, one bookkeeping slot per beneficiary.
fn zeroed_bytes(n: usize) -> (v: Vec<u8>)
    ensures
        v@.len() == n,
        forall|i: int| 0 <= i < n ==> v@[i] == 0u8,
{
    let mut v: Vec<u8> = Vec::new();
    while v.len() < n
        invariant
            v@.len() <= n,
            forall|i: int| 0 <= i < v@.len() ==> v@[i] == 0u8,
        decreases n - v.len(),
    {
        v.push(0);
    }
    v
}

/// A vector of `n` zero words, one bookkeeping slot per beneficiary.
fn zeroed_words(n: usize) -> (v: Vec<u64>)
    ensures
        v@.len() == n,
        forall|i: int| 0 <= i < n ==> v@[i] == 0u64,
{
    let mut v: Vec<u64> = Vec::new();
    while v.len() < n
        invariant
            v@.len() <= n,
            forall|i: int| 0 <= i < v@.len() ==> v@[i] == 0u64,
        decreases n - v.len(),
    {
        v.push(0);
    }
    v
}

/// An element-wise copy of a word vector, for the event snapshot.
pub(crate) fn copy_words(v: &Vec<u64>) -> (r: Vec<u64>)
    ensures
        r@ == v@,
{
    let mut r: Vec<u64> = Vec::new();
    let mut i: usize = 0;
    while i < v.len()
        invariant
            i <= v.len(),
            r@ =~= v@.take(i as int),
        decreases v.len() - i,
    {
        r.push(v[i]);
        i = i + 1;
    }
    proof {
        assert(v@.take(v@.len() as int) =~= v@);
    }
    r
}

} // verus!
