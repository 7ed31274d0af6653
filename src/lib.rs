//! Accounting engine of a single-asset lending vault: share pricing,
//! compounding borrow interest, a kinked interest-rate curve, lock tiers
//! and early-withdrawal penalties, all as verified state transitions.
pub mod admin;
pub mod constants;
pub mod error;
pub mod lending;
pub mod lock;
pub mod math;
pub mod interest;
pub mod rate;
pub mod shares;
pub mod state;
