//! Verified core of a token-locking program.
//!
//! The library owns the lock lifecycle state machine (creation, extension,
//! plain and LP-style unlock) and the vesting release engine (per-user
//! allocations, tranche-percent computation, incremental claim settlement).
//! Every operation is a pure transition on one [`state::LockPda`] record:
//! it validates the request against the current record and the host-supplied
//! clock reading, mutates the record, and reports the token movement the
//! host must perform together with the audit event to emit.  The host
//! runtime around it supplies account storage, signature checking, the
//! token-transfer capability and the event sink, and applies each
//! transition atomically.

pub mod create_lock_pda;
pub mod error;
pub mod event;
pub mod extend_lock_time;
pub mod lock_token;
pub mod lock_vesting;
pub mod mint;
pub mod state;
pub mod unlock_lp;
pub mod unlock_token;
pub mod unlock_vesting;
pub mod vesting;

pub use error::LockError;
pub use event::{
    CreateDexLockEvent, CreateLockEvent, ExtendLockTimeEvent, LockEvent, LockVestingEvent,
    UnlockEvent, UnlockLpEvent, UnlockVestingEvent,
};
pub use mint::{is_supported_mint, MintExtension};
pub use state::{AccountId, LockPda, RecordKey};

pub use create_lock_pda::create_lock_pda;
pub use extend_lock_time::extend_lock_time;
pub use lock_token::lock_token;
pub use lock_vesting::lock_vesting;
pub use state::record_identity;
pub use unlock_lp::unlock_lp;
pub use unlock_token::unlock_token;
pub use unlock_vesting::unlock_vesting;
pub use vesting::{payout_amount, vesting_release};
