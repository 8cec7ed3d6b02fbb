use vstd::prelude::*;

verus! {

/// An account address of the host runtime, modelled as a plain ordered
/// identifier: the lock logic only ever compares addresses for equality
/// and for order (when canonicalizing an LP mint pair).  The host maps
/// its own address type onto this one at the boundary.
pub type AccountId = u64;

/// Maximum length, in characters, of each stored string field.  A request
/// whose strings exceed it must be rejected by the host's space check
/// before the operation runs; the operations require it.
pub const MAX_STR_LEN: usize = 100;

/// Maximum number of beneficiaries of one vesting lock.
pub const MAX_USERS: usize = 100;

/// Number of seconds in one day: a vesting period is given in days but the
/// tranche arithmetic runs in seconds.
pub const SECONDS_PER_DAY: u64 = 86400;

/// The identity of a lock record, derived purely from the seed string, the
/// locked mint and the owner: one record exists per (seed, mint, owner).
pub struct RecordKey {
    pub seed: String,
    pub mint: AccountId,
    pub owner: AccountId,
}

/// Derives the record identity of a lock from its seed, mint and owner.
/// The derivation is pure concatenation of the three components: equal
/// inputs always give the equal key, and nothing else enters it.
pub fn record_identity(seed: String, mint: AccountId, owner: AccountId) -> (key: RecordKey)
    ensures
        key.seed == seed,
        key.mint == mint,
        key.owner == owner,
{
    RecordKey { seed, mint, owner }
}

/// One persistent lock record: the escrow of one amount of one token under
/// a time-boxed or vesting release schedule.  Created once per identity,
/// mutated in place, never deleted.
///
/// `end_time` units differ per creation path: seconds for plain and
/// explicit-LP locks, milliseconds (divided by 1000 on storage) for the
/// balance-inferred LP path; the matching unlock paths compare accordingly.
pub struct LockPda {
    /// Derivation nonce of the record address; opaque to the logic.
    pub bump: u8,
    /// Seed component of the record identity.
    pub seed: String,
    /// Creation timestamp truncated to 32 bits; not guaranteed unique.
    pub lock_id: u32,
    /// The account entitled to unlock or claim.
    pub authority: AccountId,
    /// The token type locked.
    pub spl_mint: AccountId,
    /// Advisory metadata reference; never validated.
    pub spl_mint_metadata_pda: AccountId,
    /// Remaining locked amount: the authoritative balance counter.
    pub lock_amount: u64,
    /// Creation timestamp, seconds.
    pub start_time: u64,
    /// Unlock eligibility boundary; units per creation path.
    pub end_time: u64,
    /// Free-form label, advisory only.
    pub lock_name: String,
    /// Free-form payload, advisory only.
    pub extra_data: String,
    /// Free-form venue label, advisory only.
    pub dex_name: String,
    /// First mint of an LP pair.
    pub token_mint_a: AccountId,
    /// Second mint of an LP pair.
    pub token_mint_b: AccountId,
    /// The token representing an LP position.
    pub position_mint: AccountId,
    /// Percent released by the first vesting claim, 0 to 100.
    pub first_release: u64,
    /// Length of one vesting tranche, in days.
    pub vesting_period: u64,
    /// Percent released per further tranche, 0 to 100.
    pub amount_per_vesting: u64,
    /// Beneficiaries of a vesting lock, parallel to `user_amount`.
    pub user_list: Vec<AccountId>,
    /// Per-user allocations; their sum defines `lock_amount` at creation.
    pub user_amount: Vec<u64>,
    /// Per-user bookkeeping, allocated at creation; the release-percent
    /// computation never consults it.
    pub released_status: Vec<u8>,
    /// Per-user bookkeeping, allocated at creation; never consulted.
    pub pre_unlocked_time: Vec<u64>,
    /// Cumulative percent already released in aggregate; never decreases
    /// and never exceeds 100.
    pub claimed_token_percent: u8,
}

impl LockPda {
    /// Well-formedness of every reachable record: the creation operations
    /// establish it and every operation preserves it.  A freshly
    /// zero-initialized record satisfies it.
    pub open spec fn well_formed(self) -> bool {
        &&& self.seed@.len() <= MAX_STR_LEN
        &&& self.lock_name@.len() <= MAX_STR_LEN
        &&& self.extra_data@.len() <= MAX_STR_LEN
        &&& self.dex_name@.len() <= MAX_STR_LEN
        &&& self.first_release <= 100
        &&& self.amount_per_vesting <= 100
        &&& self.claimed_token_percent <= 100
        &&& self.user_list@.len() == self.user_amount@.len()
        &&& self.user_list@.len() <= MAX_USERS
        &&& self.vesting_period as int * SECONDS_PER_DAY as int <= i64::MAX as int
    }
}

} // verus!
