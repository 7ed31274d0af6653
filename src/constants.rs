use vstd::prelude::*;

verus! {

/// Fixed-point scale of rates, indices and reserve factors (1.0 == `PRECISION`).
pub const PRECISION: u64 = 1_000_000_000;

/// Borrow index of a freshly initialised vault (1.0).
pub const INITIAL_BORROW_INDEX: u64 = 1_000_000_000;

/// Yearly borrow rate at zero utilization (2%).
pub const BASE_RATE: u64 = 20_000_000;

/// Slope of the rate curve below the kink (18%).
pub const UTILIZATION_MULTIPLIER: u64 = 180_000_000;

/// Utilization at which the curve steepens (80%).
pub const KINK: u64 = 800_000_000;

/// Slope of the rate curve above the kink (109%).
pub const JUMP_MULTIPLIER: u64 = 1_090_000_000;

/// Largest fraction of accrued interest that may be diverted to reserves (50%).
pub const MAX_RESERVE_FACTOR: u64 = 500_000_000;

pub const SECONDS_PER_DAY: i64 = 86_400;

pub const SECONDS_PER_YEAR: i64 = 365 * 86_400;

/// Fixed-point scale of the lock-extension calculator (1.0 == `SCALE`).
pub const SCALE: u64 = 1_000_000;

/// Smallest extension, as a fraction of the full lock duration (10%).
pub const MIN_EXTENSION_RATIO: u64 = 100_000;

/// Largest extension, as a fraction of the full lock duration (100%).
pub const MAX_EXTENSION_RATIO: u64 = 1_000_000;

/// Weight of the time factor when no time remains on a lock (0.6).
pub const TIME_FACTOR_BASE: u64 = 600_000;

/// Weight added to the time factor as the remaining time reaches the full
/// duration (0.4).
pub const TIME_FACTOR_SLOPE: u64 = 400_000;

/// Penalty on an early withdrawal, in basis points (10%).
pub const EARLY_WITHDRAWAL_PENALTY_BPS: u64 = 1_000;

/// One whole in basis points.
pub const BPS_DENOMINATOR: u64 = 10_000;

} // verus!
