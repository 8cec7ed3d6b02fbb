use gempad_solana_lock::event::LockEvent;
use gempad_solana_lock::{
    create_lock_pda, extend_lock_time, lock_token, record_identity, unlock_lp, unlock_token,
    LockError, LockPda,
};

fn fresh() -> LockPda {
    LockPda {
        bump: 0,
        seed: String::new(),
        lock_id: 0,
        authority: 0,
        spl_mint: 0,
        spl_mint_metadata_pda: 0,
        lock_amount: 0,
        start_time: 0,
        end_time: 0,
        lock_name: String::new(),
        extra_data: String::new(),
        dex_name: String::new(),
        token_mint_a: 0,
        token_mint_b: 0,
        position_mint: 0,
        first_release: 0,
        vesting_period: 0,
        amount_per_vesting: 0,
        user_list: Vec::new(),
        user_amount: Vec::new(),
        released_status: Vec::new(),
        pre_unlocked_time: Vec::new(),
        claimed_token_percent: 0,
    }
}

fn create_plain(lock: &mut LockPda, amount: u64, lock_time: u64, now: u64) -> Result<(LockEvent, u64), LockError> {
    lock_token(
        lock,
        11,
        1,
        77,
        5,
        6,
        0,
        now,
        "seed-a".to_string(),
        amount,
        lock_time,
        "name".to_string(),
        "extra".to_string(),
        false,
        0,
        0,
    )
}

#[test]
fn create_plain_lock_succeeds() {
    let mut lock = fresh();
    let r = create_plain(&mut lock, 500, 2000, 1000);
    let (event, transfer) = r.expect("creation must succeed");
    assert_eq!(transfer, 500);
    assert_eq!(lock.lock_amount, 500);
    assert_eq!(lock.end_time, 2000);
    assert_eq!(lock.start_time, 1000);
    assert_eq!(lock.lock_id, 1000);
    assert_eq!(lock.authority, 77);
    assert_eq!(lock.spl_mint, 5);
    assert_eq!(lock.dex_name, "manual");
    assert_eq!(lock.seed, "seed-a");
    match event {
        LockEvent::Create(ev) => {
            assert_eq!(ev.event_name, "create_lock");
            assert_eq!(ev.lock_amount, 500);
            assert_eq!(ev.lock_pda, 11);
            assert_eq!(ev.seed, "seed-a");
            assert_eq!(ev.end_time, 2000);
            assert_eq!(ev.tge_bps, 0);
            assert_eq!(ev.cycle, 0);
            assert_eq!(ev.cycle_bps, 0);
        }
        LockEvent::CreateDex(_) => panic!("plain creation must emit the plain event"),
    }
}

#[test]
fn create_amount_zero_fails() {
    let mut lock = fresh();
    let r = create_plain(&mut lock, 0, 2000, 1000);
    assert!(matches!(r, Err(LockError::AmountZero)));
    assert_eq!(lock.lock_amount, 0);
}

#[test]
fn create_time_zero_fails() {
    let mut lock = fresh();
    let r = create_plain(&mut lock, 500, 0, 1000);
    assert!(matches!(r, Err(LockError::TimeZero)));
}

#[test]
fn create_before_now_fails() {
    let mut lock = fresh();
    // A boundary equal to the clock reading is already too late.
    let r = create_plain(&mut lock, 500, 1000, 1000);
    assert!(matches!(r, Err(LockError::BeforeNow)));
}

#[test]
fn double_creation_fails() {
    let mut lock = fresh();
    create_plain(&mut lock, 500, 2000, 1000).expect("first creation must succeed");
    let r = create_plain(&mut lock, 300, 3000, 1100);
    assert!(matches!(r, Err(LockError::AlreadyLocked)));
    assert_eq!(lock.lock_amount, 500);
    assert_eq!(lock.end_time, 2000);
}

#[test]
fn create_lp_mode_reads_balance_and_canonicalizes() {
    let mut lock = fresh();
    let r = lock_token(
        &mut lock,
        11,
        1,
        77,
        5,
        6,
        444,
        1_000,
        "seed-lp".to_string(),
        0,
        2_000_000,
        "name".to_string(),
        "extra".to_string(),
        true,
        9,
        3,
    );
    let (event, transfer) = r.expect("LP creation must succeed");
    // The locked amount is the caller's balance, not the explicit request.
    assert_eq!(transfer, 444);
    assert_eq!(lock.lock_amount, 444);
    // The request is taken in milliseconds on this path.
    assert_eq!(lock.end_time, 2_000);
    assert_eq!(lock.token_mint_a, 3);
    assert_eq!(lock.token_mint_b, 9);
    assert_eq!(lock.spl_mint, 9);
    assert_eq!(lock.position_mint, 5);
    assert_eq!(lock.dex_name, "manual lp");
    match event {
        LockEvent::CreateDex(ev) => {
            assert_eq!(ev.event_name, "create_dex_lock");
            assert_eq!(ev.token_mint_a, 3);
            assert_eq!(ev.token_mint_b, 9);
            assert_eq!(ev.position_mint, 5);
        }
        LockEvent::Create(_) => panic!("LP creation must emit the dex event"),
    }
}

#[test]
fn create_lp_mode_zero_balance_fails() {
    let mut lock = fresh();
    let r = lock_token(
        &mut lock,
        11,
        1,
        77,
        5,
        6,
        0,
        1_000,
        "seed-lp".to_string(),
        123,
        2_000_000,
        "name".to_string(),
        "extra".to_string(),
        true,
        9,
        3,
    );
    assert!(matches!(r, Err(LockError::AmountZero)));
}

#[test]
fn create_dex_lock_stores_mints_as_given() {
    let mut lock = fresh();
    let r = create_lock_pda(
        &mut lock,
        11,
        1,
        88,
        55,
        6,
        1000,
        "seed-dex".to_string(),
        700,
        2000,
        "name".to_string(),
        "extra".to_string(),
        "somedex".to_string(),
        9,
        3,
    );
    let (ev, transfer) = r.expect("dex creation must succeed");
    assert_eq!(transfer, 700);
    // No canonicalization on this path: the pair stays exactly as given.
    assert_eq!(lock.token_mint_a, 9);
    assert_eq!(lock.token_mint_b, 3);
    // The stored token type is the first pair mint, and the stored
    // authority is the caller.
    assert_eq!(lock.spl_mint, 9);
    assert_eq!(lock.authority, 88);
    assert_eq!(lock.position_mint, 55);
    assert_eq!(lock.dex_name, "somedex");
    assert_eq!(ev.event_name, "create_dex_lock");
    assert_eq!(ev.lock_amount, 700);
}

#[test]
fn extend_not_bigger_fails() {
    let mut lock = fresh();
    create_plain(&mut lock, 500, 2000, 1000).expect("creation must succeed");
    let r = extend_lock_time(&mut lock, 11, 1999);
    assert!(matches!(r, Err(LockError::NotBiggerThanEndTime)));
    assert_eq!(lock.end_time, 2000);
}

#[test]
fn extend_equal_and_greater_succeed() {
    let mut lock = fresh();
    create_plain(&mut lock, 500, 2000, 1000).expect("creation must succeed");
    let r1 = extend_lock_time(&mut lock, 11, 2000).expect("equal extension must succeed");
    assert_eq!(lock.end_time, 2000);
    assert_eq!(r1.event_name, "extend_lock_time_event");
    assert_eq!(r1.end_time, 2000);
    extend_lock_time(&mut lock, 11, 2000).expect("repeated equal extension must succeed");
    assert_eq!(lock.end_time, 2000);
    let r2 = extend_lock_time(&mut lock, 11, 3000).expect("later extension must succeed");
    assert_eq!(lock.end_time, 3000);
    assert_eq!(r2.end_time, 3000);
    // The locked amount is untouched by extensions.
    assert_eq!(lock.lock_amount, 500);
}

#[test]
fn unlock_before_end_time_fails() {
    let mut lock = fresh();
    create_plain(&mut lock, 500, 2000, 1000).expect("creation must succeed");
    // The plain unlock compares the clock in milliseconds: 1 * 1000 < 2000.
    let r = unlock_token(&mut lock, 11, 77, 5, 1);
    assert!(matches!(r, Err(LockError::NotUnlockTime)));
    assert_eq!(lock.lock_amount, 500);
}

#[test]
fn unlock_exactly_at_end_time_succeeds() {
    let mut lock = fresh();
    create_plain(&mut lock, 500, 2000, 1000).expect("creation must succeed");
    // 2 * 1000 == 2000: the boundary itself is already eligible.
    let (event, transfer) = unlock_token(&mut lock, 11, 77, 5, 2).expect("unlock must succeed");
    assert_eq!(transfer, 500);
    assert_eq!(lock.lock_amount, 0);
    // The event reads the record after zeroing: the reported amount is 0.
    assert_eq!(event.unlock_amount, 0);
    assert_eq!(event.event_name, "unlock");
    assert_eq!(event.authority, 77);
}

#[test]
fn second_unlock_fails() {
    let mut lock = fresh();
    create_plain(&mut lock, 500, 2000, 1000).expect("creation must succeed");
    unlock_token(&mut lock, 11, 77, 5, 2).expect("first unlock must succeed");
    let r = unlock_token(&mut lock, 11, 77, 5, 3);
    assert!(matches!(r, Err(LockError::AlreadyUnlocked)));
}

#[test]
fn unlock_wrong_authority_fails() {
    let mut lock = fresh();
    create_plain(&mut lock, 500, 2000, 1000).expect("creation must succeed");
    let r = unlock_token(&mut lock, 11, 78, 5, 2);
    assert!(matches!(r, Err(LockError::AuthorizationErr)));
    assert_eq!(lock.lock_amount, 500);
}

#[test]
fn unlock_wrong_mint_fails() {
    let mut lock = fresh();
    create_plain(&mut lock, 500, 2000, 1000).expect("creation must succeed");
    let r = unlock_token(&mut lock, 11, 77, 4, 2);
    assert!(matches!(r, Err(LockError::SplMintError)));
}

#[test]
fn unlock_lp_checks_position_mint_not_authority() {
    let mut lock = fresh();
    lock_token(
        &mut lock,
        11,
        1,
        77,
        5,
        6,
        444,
        1_000,
        "seed-lp".to_string(),
        0,
        2_000_000,
        "name".to_string(),
        "extra".to_string(),
        true,
        9,
        3,
    )
    .expect("LP creation must succeed");
    // This path compares the clock in seconds against the stored boundary.
    let early = unlock_lp(&mut lock, 11, 123, 5, 1_999);
    assert!(matches!(early, Err(LockError::NotUnlockTime)));
    let wrong_mint = unlock_lp(&mut lock, 11, 123, 6, 2_000);
    assert!(matches!(wrong_mint, Err(LockError::SplMintError)));
    // A caller other than the stored authority is accepted on this path.
    let (event, transfer) = unlock_lp(&mut lock, 11, 123, 5, 2_000).expect("LP unlock must succeed");
    assert_eq!(transfer, 444);
    assert_eq!(lock.lock_amount, 0);
    assert_eq!(event.lock_amount, 0);
    assert_eq!(event.authority, 123);
    let again = unlock_lp(&mut lock, 11, 123, 5, 2_001);
    assert!(matches!(again, Err(LockError::AlreadyUnlocked)));
}

#[test]
fn record_identity_is_componentwise() {
    let key = record_identity("abc".to_string(), 5, 7);
    assert_eq!(key.seed, "abc");
    assert_eq!(key.mint, 5);
    assert_eq!(key.owner, 7);
}

#[test]
fn plain_creation_clears_vesting_fields() {
    let mut lock = fresh();
    // Stale vesting state on a drained record must not survive a plain
    // creation: a non-vesting lock stores zeros and empty rosters.
    lock.first_release = 10;
    lock.vesting_period = 30;
    lock.amount_per_vesting = 20;
    lock.user_list = vec![7, 8];
    lock.user_amount = vec![100, 200];
    lock.released_status = vec![0, 0];
    lock.pre_unlocked_time = vec![0, 0];
    lock.claimed_token_percent = 50;
    create_plain(&mut lock, 500, 2000, 1000).expect("creation must succeed");
    assert_eq!(lock.first_release, 0);
    assert_eq!(lock.vesting_period, 0);
    assert_eq!(lock.amount_per_vesting, 0);
    assert!(lock.user_list.is_empty());
    assert!(lock.user_amount.is_empty());
    assert!(lock.released_status.is_empty());
    assert!(lock.pre_unlocked_time.is_empty());
    assert_eq!(lock.claimed_token_percent, 0);
}
