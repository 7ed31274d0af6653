//! The utilization-driven borrow-rate curve: linear up to the kink, steeper
//! beyond it.
use vstd::prelude::*;

use crate::constants::{BASE_RATE, JUMP_MULTIPLIER, KINK, PRECISION, UTILIZATION_MULTIPLIER};
use crate::error::ErrorCode;
use crate::math::{fits_u64, scaled_mul_div};

verus! {

/// The rate below the kink.
pub open spec fn lower_branch(utilization: int) -> int {
    BASE_RATE + utilization * UTILIZATION_MULTIPLIER / PRECISION as int
}

/// The rate above the kink: the rate at the kink plus the steeper slope on
/// the excess.
pub open spec fn upper_branch(utilization: int) -> int {
    BASE_RATE + KINK * UTILIZATION_MULTIPLIER / PRECISION as int + (utilization - KINK)
        * JUMP_MULTIPLIER / PRECISION as int
}

/// The yearly borrow rate at `utilization`, both scaled by `PRECISION`.
pub open spec fn rate_of(utilization: int) -> int {
    if utilization <= KINK {
        lower_branch(utilization)
    } else {
        upper_branch(utilization)
    }
}

/// `borrowed / assets`, scaled by `PRECISION`.
pub open spec fn utilization_of(borrowed: int, assets: int) -> int {
    borrowed * PRECISION / assets
}

/// The rate for a vault with `borrowed` lent out of `assets`; `None` where a
/// step leaves `u64`.
pub open spec fn borrow_rate_of(borrowed: int, assets: int) -> Option<int> {
    if assets == 0 {
        Some(BASE_RATE as int)
    } else if !fits_u64(utilization_of(borrowed, assets)) || !fits_u64(
        rate_of(utilization_of(borrowed, assets)),
    ) {
        None
    } else {
        Some(rate_of(utilization_of(borrowed, assets)))
    }
}

/// The two pieces of the curve meet at the kink.
pub proof fn lemma_rate_curve_continuous()
    ensures
        lower_branch(KINK as int) == upper_branch(KINK as int),
        rate_of(KINK as int) == upper_branch(KINK as int),
{
}

/// The rate at a given utilization.
pub fn borrow_rate_for_utilization(utilization: u64) -> (r: Result<u64, ErrorCode>)
    ensures
        match r {
            Ok(v) => v == rate_of(utilization as int),
            Err(e) => e == ErrorCode::MathOverflow && rate_of(utilization as int) > u64::MAX,
        },
{
    if utilization <= KINK {
        Ok(BASE_RATE + utilization * UTILIZATION_MULTIPLIER / PRECISION)
    } else {
        let normal_rate: u64 = BASE_RATE + KINK * UTILIZATION_MULTIPLIER / PRECISION;
        match scaled_mul_div(utilization - KINK, JUMP_MULTIPLIER, PRECISION) {
            Ok(jump) => match normal_rate.checked_add(jump) {
                Some(rate) => Ok(rate),
                None => Err(ErrorCode::MathOverflow),
            },
            Err(e) => Err(e),
        }
    }
}

/// The rate for a vault with `total_borrowed` lent out of `total_assets`;
/// the base rate when the vault holds nothing.
pub fn compute_borrow_rate(total_borrowed: u64, total_assets: u64) -> (r: Result<u64, ErrorCode>)
    ensures
        match r {
            Ok(v) => borrow_rate_of(total_borrowed as int, total_assets as int) == Some(v as int),
            Err(e) => e == ErrorCode::MathOverflow && borrow_rate_of(
                total_borrowed as int,
                total_assets as int,
            ) is None,
        },
{
    if total_assets == 0 {
        return Ok(BASE_RATE);
    }
    match scaled_mul_div(total_borrowed, PRECISION, total_assets) {
        Ok(utilization) => borrow_rate_for_utilization(utilization),
        Err(e) => Err(e),
    }
}

} // verus!
