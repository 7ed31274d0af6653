//! The records the engine reads and writes: the vault, a depositor's
//! position, a borrower's position, and the summaries operations hand back.
use vstd::prelude::*;

use crate::constants::{INITIAL_BORROW_INDEX, MAX_RESERVE_FACTOR, SECONDS_PER_DAY};
use crate::error::ErrorCode;

verus! {

/// Lock tiers, each a duration during which withdrawal is restricted.
#[derive(Clone, Copy, Debug, PartialEq, Eq, Structural)]
pub enum LockTier {
    Unlocked,
    Short,
    Long,
    VeryLong,
}

/// The tier a numeric code stands for: 0, 1, 2 and 3 in order of duration.
pub open spec fn tier_of_code(code: u8) -> Option<LockTier> {
    if code == 0 {
        Some(LockTier::Unlocked)
    } else if code == 1 {
        Some(LockTier::Short)
    } else if code == 2 {
        Some(LockTier::Long)
    } else if code == 3 {
        Some(LockTier::VeryLong)
    } else {
        None
    }
}

/// Seconds a tier locks for: none, 30, 180 and 360 days.
pub open spec fn lock_duration(tier: LockTier) -> int {
    match tier {
        LockTier::Unlocked => 0,
        LockTier::Short => 30 * SECONDS_PER_DAY,
        LockTier::Long => 180 * SECONDS_PER_DAY,
        LockTier::VeryLong => 360 * SECONDS_PER_DAY,
    }
}

impl LockTier {
    /// Reads a tier from its numeric code, rejecting codes outside 0..=3.
    pub fn try_from(value: u8) -> (r: Result<LockTier, ErrorCode>)
        ensures
            match r {
                Ok(t) => tier_of_code(value) == Some(t),
                Err(e) => e == ErrorCode::InvalidLockTier && tier_of_code(value) is None,
            },
    {
        match value {
            0 => Ok(LockTier::Unlocked),
            1 => Ok(LockTier::Short),
            2 => Ok(LockTier::Long),
            3 => Ok(LockTier::VeryLong),
            _ => Err(ErrorCode::InvalidLockTier),
        }
    }
}

/// Seconds that `tier` locks a position for.
pub fn get_lock_duration(tier: &LockTier) -> (r: i64)
    ensures
        r == lock_duration(*tier),
{
    match tier {
        LockTier::Unlocked => 0,
        LockTier::Short => 30 * SECONDS_PER_DAY,
        LockTier::Long => 180 * SECONDS_PER_DAY,
        LockTier::VeryLong => 360 * SECONDS_PER_DAY,
    }
}

/// Vault-wide accounting for one asset.
#[derive(Clone, Copy, Debug, PartialEq, Eq, Structural)]
pub struct Vault {
    /// Outstanding shares over all positions.
    pub total_shares: u64,
    /// Shares minted through locked deposits.
    pub total_locked_shares: u64,
    /// Debt owed to the vault, at the current borrow index.
    pub total_borrowed: u64,
    /// Cumulative interest accumulator, scaled by `PRECISION`.
    pub borrow_index: u64,
    /// Current yearly borrow rate, scaled by `PRECISION`.
    pub borrow_rate: u64,
    /// Fraction of accrued interest kept as reserves, scaled by `PRECISION`.
    pub reserve_factor: u64,
    /// Assets held back from depositors, claimable by the owner.
    pub total_reserves: u64,
    /// Unix seconds of the last accrual.
    pub last_update_time: i64,
    pub is_paused: bool,
}

impl Vault {
    /// The index has never fallen below its starting value and the reserve
    /// factor is within its bound.
    pub open spec fn wf(&self) -> bool {
        &&& self.borrow_index >= INITIAL_BORROW_INDEX
        &&& self.reserve_factor <= MAX_RESERVE_FACTOR
    }
}

/// A depositor's position, whatever identity (wallet or credential) owns it.
#[derive(Clone, Copy, Debug, PartialEq, Eq, Structural)]
pub struct UserInfo {
    pub shares: u64,
    /// Sum of the assets deposited; informational only.
    pub deposited_amount: u64,
    pub last_update: i64,
    /// Unix seconds until which withdrawal without penalty is refused.
    pub locked_until: i64,
    pub lock_tier: LockTier,
    pub deposit_time: i64,
}

impl UserInfo {
    /// An empty, unlocked position.
    pub fn new() -> (r: UserInfo)
        ensures
            r == (UserInfo {
                shares: 0,
                deposited_amount: 0,
                last_update: 0,
                locked_until: 0,
                lock_tier: LockTier::Unlocked,
                deposit_time: 0,
            }),
    {
        UserInfo {
            shares: 0,
            deposited_amount: 0,
            last_update: 0,
            locked_until: 0,
            lock_tier: LockTier::Unlocked,
            deposit_time: 0,
        }
    }
}

/// A borrower's debt, recorded against a snapshot of the borrow index.
#[derive(Clone, Copy, Debug, PartialEq, Eq, Structural)]
pub struct BorrowInfo {
    /// Debt as of the snapshot.
    pub borrowed: u64,
    /// Borrow index at the snapshot.
    pub borrow_index: u64,
}

impl BorrowInfo {
    /// Outstanding debt always carries a usable index snapshot.
    pub open spec fn wf(&self) -> bool {
        self.borrowed > 0 ==> self.borrow_index > 0
    }

    /// A position that owes nothing.
    pub fn new() -> (r: BorrowInfo)
        ensures
            r == (BorrowInfo { borrowed: 0, borrow_index: 0 }),
            r.wf(),
    {
        BorrowInfo { borrowed: 0, borrow_index: 0 }
    }
}

/// What an accrual did: the interest added to the debt and the new index.
#[derive(Clone, Copy, Debug, PartialEq, Eq, Structural)]
pub struct InterestAccrued {
    pub total_interest: u64,
    pub new_index: u64,
}

/// What an early withdrawal pays out and what it retains.
#[derive(Clone, Copy, Debug, PartialEq, Eq, Structural)]
pub struct EarlyWithdrawal {
    /// Assets due to the withdrawer.
    pub amount: u64,
    /// Assets retained in the vault as reserves.
    pub penalty: u64,
    /// Seconds that were left on the lock.
    pub time_remaining: i64,
}

/// A position's holdings and their current worth in assets.
#[derive(Clone, Copy, Debug, PartialEq, Eq, Structural)]
pub struct NFTPositionInfo {
    pub shares: u64,
    pub asset_value: u64,
    pub deposited_amount: u64,
    pub last_update: i64,
}

} // verus!
