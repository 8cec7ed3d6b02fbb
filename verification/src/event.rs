use vstd::prelude::*;
use crate::state::AccountId;

verus! {

/// Audit event of a plain token-lock creation.  Every event carries a full
/// snapshot of the record's public fields at the moment of emission; the
/// program itself never consumes events.
pub struct CreateLockEvent {
    pub event_name: String,
    pub seed: String,
    pub lock_pda: AccountId,
    pub lock_id: u32,
    pub authority: AccountId,
    pub spl_mint: AccountId,
    pub spl_mint_metadata_pda: AccountId,
    pub lock_amount: u64,
    pub start_time: u64,
    pub end_time: u64,
    pub lock_name: String,
    pub extra_data: String,
    pub tge_bps: u8,
    pub cycle: u64,
    pub cycle_bps: u8,
    pub dex_name: String,
}

/// Audit event of a plain unlock.
pub struct UnlockEvent {
    pub event_name: String,
    pub seed: String,
    pub lock_pda: AccountId,
    pub lock_id: u32,
    pub authority: AccountId,
    pub spl_mint: AccountId,
    pub spl_mint_metadata_pda: AccountId,
    pub unlock_amount: u64,
    pub start_time: u64,
    pub end_time: u64,
    pub lock_name: String,
    pub extra_data: String,
    pub tge_bps: u8,
    pub cycle: u64,
    pub cycle_bps: u8,
}

/// Audit event of an LP-style lock creation.
pub struct CreateDexLockEvent {
    pub event_name: String,
    pub seed: String,
    pub lock_pda: AccountId,
    pub lock_id: u32,
    pub authority: AccountId,
    pub spl_mint: AccountId,
    pub spl_mint_metadata_pda: AccountId,
    pub lock_amount: u64,
    pub start_time: u64,
    pub end_time: u64,
    pub lock_name: String,
    pub extra_data: String,
    pub tge_bps: u8,
    pub cycle: u64,
    pub cycle_bps: u8,
    pub dex_name: String,
    pub token_mint_a: AccountId,
    pub token_mint_b: AccountId,
    pub position_mint: AccountId,
}

/// Audit event of an LP-style unlock.
pub struct UnlockLpEvent {
    pub event_name: String,
    pub seed: String,
    pub lock_pda: AccountId,
    pub lock_id: u32,
    pub authority: AccountId,
    pub spl_mint: AccountId,
    pub spl_mint_metadata_pda: AccountId,
    pub lock_amount: u64,
    pub start_time: u64,
    pub end_time: u64,
    pub lock_name: String,
    pub extra_data: String,
    pub tge_bps: u8,
    pub cycle: u64,
    pub cycle_bps: u8,
    pub dex_name: String,
    pub token_mint_a: AccountId,
    pub token_mint_b: AccountId,
    pub position_mint: AccountId,
}

/// Audit event of a vesting-lock creation.
pub struct LockVestingEvent {
    pub event_name: String,
    pub seed: String,
    pub lock_pda: AccountId,
    pub lock_id: u32,
    pub authority: AccountId,
    pub spl_mint: AccountId,
    pub spl_mint_metadata_pda: AccountId,
    pub lock_amount: u64,
    pub start_time: u64,
    pub end_time: u64,
    pub lock_name: String,
    pub extra_data: String,
    pub tge_bps: u8,
    pub cycle: u64,
    pub cycle_bps: u8,
    pub dex_name: String,
    pub first_release: u64,
    pub vesting_period: u64,
    pub amount_per_vesting: u64,
    pub user_list: Vec<AccountId>,
    pub user_amount: Vec<u64>,
}

/// Audit event of a vesting claim.  `unlock_amount` reports the cumulative
/// amount released to the claimer so far, not the increment just settled.
pub struct UnlockVestingEvent {
    pub event_name: String,
    pub seed: String,
    pub lock_pda: AccountId,
    pub lock_id: u32,
    pub authority: AccountId,
    pub spl_mint: AccountId,
    pub spl_mint_metadata_pda: AccountId,
    pub unlock_amount: u64,
    pub start_time: u64,
    pub end_time: u64,
    pub lock_name: String,
    pub extra_data: String,
    pub tge_bps: u8,
    pub cycle: u64,
    pub cycle_bps: u8,
    pub first_release: u64,
    pub vesting_period: u64,
    pub amount_per_vesting: u64,
    pub user_list: Vec<AccountId>,
    pub user_amount: Vec<u64>,
    pub unlocker: AccountId,
}

/// Audit event of an extension of the unlock boundary.
pub struct ExtendLockTimeEvent {
    pub event_name: String,
    pub seed: String,
    pub lock_pda: AccountId,
    pub end_time: u64,
}

/// The event emitted by the dual-mode creation operation: which variant is
/// produced is selected explicitly by the request's LP flag.
pub enum LockEvent {
    Create(CreateLockEvent),
    CreateDex(CreateDexLockEvent),
}

} // verus!
