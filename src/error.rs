use vstd::prelude::*;

verus! {

/// Reasons for which the engine rejects an operation. A rejected operation
/// leaves every piece of state it was handed unchanged.
#[derive(Clone, Copy, Debug, PartialEq, Eq, Structural)]
pub enum ErrorCode {
    InvalidAmount,
    InsufficientShares,
    InsufficientLiquidity,
    InsufficientReserves,
    InsufficientCollateral,
    NoDebtToRepay,
    ReserveFactorTooHigh,
    InvalidLockTier,
    TierMismatch,
    StillLocked,
    NotLockedForEarlyWithdrawal,
    MathOverflow,
    VaultPaused,
    UnauthorizedPool,
    InvalidOwnership,
}

} // verus!
