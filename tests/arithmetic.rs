use vault::constants::{BASE_RATE, KINK, PRECISION, SECONDS_PER_DAY};
use vault::error::ErrorCode;
use vault::lock::calculate_extension;
use vault::math::{clamp, integer_sqrt, scaled_mul_div};
use vault::rate::{borrow_rate_for_utilization, compute_borrow_rate};
use vault::state::{get_lock_duration, LockTier};

const MONTH: i64 = 30 * SECONDS_PER_DAY;

#[test]
fn scaled_mul_div_uses_wide_intermediate() {
    assert_eq!(scaled_mul_div(u64::MAX, u64::MAX, u64::MAX), Ok(u64::MAX));
    assert_eq!(scaled_mul_div(7, 3, 2), Ok(10));
    assert_eq!(scaled_mul_div(0, 5, 3), Ok(0));
}

#[test]
fn scaled_mul_div_rejects_a_quotient_beyond_u64() {
    assert_eq!(scaled_mul_div(u64::MAX, 2, 1), Err(ErrorCode::MathOverflow));
}

#[test]
fn integer_sqrt_small_values() {
    assert_eq!(integer_sqrt(0), 0);
    assert_eq!(integer_sqrt(1), 1);
    assert_eq!(integer_sqrt(3), 1);
    assert_eq!(integer_sqrt(4), 2);
    assert_eq!(integer_sqrt(15), 3);
    assert_eq!(integer_sqrt(16), 4);
    assert_eq!(integer_sqrt(17), 4);
}

#[test]
fn integer_sqrt_large_values() {
    assert_eq!(integer_sqrt(1_000_000_000_000), 1_000_000);
    assert_eq!(integer_sqrt(500_000_000_000), 707_106);
    assert_eq!(integer_sqrt(u64::MAX), 4_294_967_295);
}

#[test]
fn clamp_holds_value_in_range() {
    assert_eq!(clamp(5, 10, 20), 10);
    assert_eq!(clamp(15, 10, 20), 15);
    assert_eq!(clamp(25, 10, 20), 20);
}

#[test]
fn rate_curve_is_continuous_at_kink() {
    assert_eq!(borrow_rate_for_utilization(KINK - 1), Ok(163_999_999));
    assert_eq!(borrow_rate_for_utilization(KINK), Ok(164_000_000));
    assert_eq!(borrow_rate_for_utilization(KINK + 1), Ok(164_000_001));
}

#[test]
fn rate_curve_values() {
    assert_eq!(borrow_rate_for_utilization(0), Ok(BASE_RATE));
    assert_eq!(borrow_rate_for_utilization(PRECISION / 2), Ok(110_000_000));
    // full utilization: 0.164 + 0.2 * 1.09
    assert_eq!(borrow_rate_for_utilization(PRECISION), Ok(382_000_000));
    assert_eq!(borrow_rate_for_utilization(u64::MAX), Err(ErrorCode::MathOverflow));
}

#[test]
fn compute_borrow_rate_from_balances() {
    assert_eq!(compute_borrow_rate(0, 0), Ok(BASE_RATE));
    assert_eq!(compute_borrow_rate(100, 1_000), Ok(38_000_000));
    assert_eq!(compute_borrow_rate(900, 1_000), Ok(273_000_000));
}

#[test]
fn lock_tier_codes() {
    assert_eq!(LockTier::try_from(0), Ok(LockTier::Unlocked));
    assert_eq!(LockTier::try_from(1), Ok(LockTier::Short));
    assert_eq!(LockTier::try_from(2), Ok(LockTier::Long));
    assert_eq!(LockTier::try_from(3), Ok(LockTier::VeryLong));
    assert_eq!(LockTier::try_from(4), Err(ErrorCode::InvalidLockTier));
}

#[test]
fn lock_durations() {
    assert_eq!(get_lock_duration(&LockTier::Unlocked), 0);
    assert_eq!(get_lock_duration(&LockTier::Short), 2_592_000);
    assert_eq!(get_lock_duration(&LockTier::Long), 15_552_000);
    assert_eq!(get_lock_duration(&LockTier::VeryLong), 31_104_000);
}

#[test]
fn extension_half_time_equal_deposit() {
    assert_eq!(calculate_extension(1_000, 1_000, MONTH / 2, MONTH), Ok(1_466_252));
}

#[test]
fn extension_quarter_time_half_deposit() {
    assert_eq!(calculate_extension(5_000, 10_000, MONTH / 4, MONTH), Ok(453_600));
}

#[test]
fn extension_is_capped_at_full_duration() {
    assert_eq!(calculate_extension(10_000, 1_000, MONTH, MONTH), Ok(MONTH));
}

#[test]
fn extension_is_floored_at_tenth_of_duration() {
    assert_eq!(calculate_extension(1, 1_000, MONTH / 2, MONTH), Ok(MONTH / 10));
}

#[test]
fn extension_without_time_left_takes_floor_of_deposit_ratio() {
    assert_eq!(calculate_extension(1_000, 1_000, 0, MONTH), Ok(259_200));
    assert_eq!(calculate_extension(30_000, 1_000, 0, MONTH), Ok(7_776_000));
}

#[test]
fn extension_stays_within_bounds_for_many_inputs() {
    for new_deposit in [1u64, 10, 999, 1_000, 5_000, 1_000_000] {
        for remaining in [3i64, 60, MONTH / 3, MONTH - 1, MONTH] {
            let out = calculate_extension(new_deposit, 1_000, remaining, MONTH).unwrap();
            assert!(out >= MONTH / 10, "{} {}", new_deposit, remaining);
            assert!(out <= MONTH, "{} {}", new_deposit, remaining);
        }
    }
}

#[test]
fn extension_without_time_ratio_is_not_clamped() {
    // a single second is under a millionth of a month: the floor formula applies
    assert_eq!(calculate_extension(1, 1_000, 1, MONTH), Ok(259));
}

#[test]
fn extension_overflow_is_reported() {
    assert_eq!(calculate_extension(u64::MAX, 1, MONTH, MONTH), Err(ErrorCode::MathOverflow));
}
