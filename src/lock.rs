//! Time locks: locking a deposit under a tier, the top-up extension
//! formula, and early withdrawal against a penalty.
use vstd::prelude::*;

use crate::constants::{
    BPS_DENOMINATOR, EARLY_WITHDRAWAL_PENALTY_BPS, MAX_EXTENSION_RATIO, MIN_EXTENSION_RATIO, SCALE,
    TIME_FACTOR_BASE, TIME_FACTOR_SLOPE,
};
use crate::error::ErrorCode;
use crate::interest::{accrue_of, get_total_assets, refresh_vault, total_assets_of};
use crate::math::{
    clamp, clamp_of, fits_u64, floor_sqrt, integer_sqrt, lemma_part_of_whole, scaled_mul_div,
};
use crate::shares::{assets_for_shares, convert_to_assets, convert_to_shares, shares_for_deposit};
use crate::state::{
    get_lock_duration, lock_duration, tier_of_code, EarlyWithdrawal, LockTier, UserInfo, Vault,
};

verus! {

/// `sqrt(t) * (0.6 + 0.4 * t)` for a time ratio `t`, all scaled by `SCALE`.
pub open spec fn time_factor(time_ratio: int) -> int {
    floor_sqrt((time_ratio * SCALE) as nat) * (TIME_FACTOR_BASE + TIME_FACTOR_SLOPE * time_ratio
        / SCALE as int) / SCALE as int
}

/// Seconds by which a top-up of `new_deposit` onto `existing_deposit` extends
/// a lock of `full_duration` with `time_remaining` left; `None` where a step
/// leaves its integer type.
pub open spec fn extension_of(
    new_deposit: int,
    existing_deposit: int,
    time_remaining: int,
    full_duration: int,
) -> Option<int> {
    let deposit_ratio = new_deposit * SCALE / existing_deposit;
    let time_ratio = time_remaining * SCALE / full_duration;
    if !fits_u64(deposit_ratio) || !fits_u64(time_ratio) {
        None
    } else if time_ratio == 0 {
        let out = full_duration * (deposit_ratio * MIN_EXTENSION_RATIO / SCALE as int)
            / SCALE as int;
        if out > i64::MAX {
            None
        } else {
            Some(out)
        }
    } else if !fits_u64(time_ratio * SCALE) || !fits_u64(time_factor(time_ratio)) || !fits_u64(
        deposit_ratio * time_factor(time_ratio) / SCALE as int,
    ) {
        None
    } else {
        let ratio = clamp_of(
            deposit_ratio * time_factor(time_ratio) / SCALE as int,
            MIN_EXTENSION_RATIO as int,
            MAX_EXTENSION_RATIO as int,
        );
        Some(full_duration * ratio / SCALE as int)
    }
}

/// Seconds by which topping up a lock extends it: larger top-ups extend
/// more, damped as the lock nears its end, and held between a tenth of the
/// full duration and all of it.
pub fn calculate_extension(
    new_deposit: u64,
    existing_deposit: u64,
    time_remaining: i64,
    full_duration: i64,
) -> (r: Result<i64, ErrorCode>)
    requires
        existing_deposit > 0,
        full_duration > 0,
        time_remaining >= 0,
    ensures
        match r {
            Ok(v) => extension_of(
                new_deposit as int,
                existing_deposit as int,
                time_remaining as int,
                full_duration as int,
            ) == Some(v as int),
            Err(e) => e == ErrorCode::MathOverflow && extension_of(
                new_deposit as int,
                existing_deposit as int,
                time_remaining as int,
                full_duration as int,
            ) is None,
        },
{
    let deposit_ratio = match scaled_mul_div(new_deposit, SCALE, existing_deposit) {
        Ok(d) => d,
        Err(e) => return Err(e),
    };
    let time_ratio = match scaled_mul_div(time_remaining as u64, SCALE, full_duration as u64) {
        Ok(t) => t,
        Err(e) => return Err(e),
    };
    if time_ratio == 0 {
        proof {
            lemma_part_of_whole(MIN_EXTENSION_RATIO as int, deposit_ratio as int, SCALE as int);
        }
        let extension_ratio = match scaled_mul_div(deposit_ratio, MIN_EXTENSION_RATIO, SCALE) {
            Ok(x) => x,
            Err(e) => return Err(e),
        };
        let out = match scaled_mul_div(full_duration as u64, extension_ratio, SCALE) {
            Ok(x) => x,
            Err(e) => return Err(e),
        };
        if out > i64::MAX as u64 {
            return Err(ErrorCode::MathOverflow);
        }
        return Ok(out as i64);
    }
    let scaled_time = match time_ratio.checked_mul(SCALE) {
        Some(x) => x,
        None => return Err(ErrorCode::MathOverflow),
    };
    let sqrt_ratio = integer_sqrt(scaled_time);
    let linear_part: u64 = TIME_FACTOR_BASE + TIME_FACTOR_SLOPE * time_ratio / SCALE;
    let time_factor = match scaled_mul_div(sqrt_ratio, linear_part, SCALE) {
        Ok(x) => x,
        Err(e) => return Err(e),
    };
    let extension_ratio = match scaled_mul_div(deposit_ratio, time_factor, SCALE) {
        Ok(x) => x,
        Err(e) => return Err(e),
    };
    let bounded = clamp(extension_ratio, MIN_EXTENSION_RATIO, MAX_EXTENSION_RATIO);
    proof {
        lemma_part_of_whole(bounded as int, full_duration as int, SCALE as int);
    }
    let out = match scaled_mul_div(full_duration as u64, bounded, SCALE) {
        Ok(x) => x,
        Err(e) => return Err(e),
    };
    Ok(out as i64)
}

/// Whenever time is left on the lock (at least a millionth of the full
/// duration), the extension lies between `MIN_EXTENSION_RATIO / SCALE` and
/// `MAX_EXTENSION_RATIO / SCALE` of the full duration, rounded down.
pub proof fn lemma_extension_bounds(
    new_deposit: int,
    existing_deposit: int,
    time_remaining: int,
    full_duration: int,
)
    requires
        existing_deposit > 0,
        full_duration > 0,
        time_remaining * SCALE >= full_duration,
    ensures
        extension_of(new_deposit, existing_deposit, time_remaining, full_duration) matches Some(
            out,
        ) ==> full_duration * MIN_EXTENSION_RATIO / SCALE as int <= out <= full_duration
            * MAX_EXTENSION_RATIO / SCALE as int,
{
    let time_ratio = time_remaining * SCALE / full_duration;
    vstd::arithmetic::div_mod::lemma_div_is_ordered(
        full_duration,
        time_remaining * SCALE,
        full_duration,
    );
    vstd::arithmetic::div_mod::lemma_div_by_self(full_duration);
    assert(time_ratio >= 1);
    let deposit_ratio = new_deposit * SCALE / existing_deposit;
    let ratio = clamp_of(
        deposit_ratio * time_factor(time_ratio) / SCALE as int,
        MIN_EXTENSION_RATIO as int,
        MAX_EXTENSION_RATIO as int,
    );
    assert(full_duration * MIN_EXTENSION_RATIO <= full_duration * ratio <= full_duration
        * MAX_EXTENSION_RATIO) by (nonlinear_arith)
        requires
            full_duration > 0,
            MIN_EXTENSION_RATIO <= ratio <= MAX_EXTENSION_RATIO,
    ;
    vstd::arithmetic::div_mod::lemma_div_is_ordered(
        full_duration * MIN_EXTENSION_RATIO,
        full_duration * ratio,
        SCALE as int,
    );
    vstd::arithmetic::div_mod::lemma_div_is_ordered(
        full_duration * ratio,
        full_duration * MAX_EXTENSION_RATIO,
        SCALE as int,
    );
}

/// Result of locking `amount` under the tier with code `tier`: the new vault,
/// the new position and the shares minted. A position that already holds
/// shares keeps its tier and has its lock restarted from `now`.
pub open spec fn lock_outcome(
    v: Vault,
    p: UserInfo,
    amount: u64,
    tier: u8,
    balance: u64,
    now: i64,
) -> Result<(Vault, UserInfo, u64), ErrorCode> {
    if v.is_paused {
        Err(ErrorCode::VaultPaused)
    } else if amount == 0 {
        Err(ErrorCode::InvalidAmount)
    } else {
        match tier_of_code(tier) {
            None => Err(ErrorCode::InvalidLockTier),
            Some(t) => {
                if p.shares > 0 && p.lock_tier != t {
                    Err(ErrorCode::TierMismatch)
                } else if now + lock_duration(t) > i64::MAX {
                    Err(ErrorCode::MathOverflow)
                } else {
                    match accrue_of(v, now as int, balance as int) {
                        None => Err(ErrorCode::MathOverflow),
                        Some(a) => {
                            let minted = shares_for_deposit(
                                amount as int,
                                a.total_shares as int,
                                total_assets_of(a, balance as int),
                            );
                            if !fits_u64(minted) || !fits_u64(p.shares + minted) || !fits_u64(
                                a.total_shares + minted,
                            ) || !fits_u64(a.total_locked_shares + minted) || !fits_u64(
                                p.deposited_amount + amount,
                            ) {
                                Err(ErrorCode::MathOverflow)
                            } else {
                                Ok(
                                    (
                                        Vault {
                                            total_shares: (a.total_shares + minted) as u64,
                                            total_locked_shares: (a.total_locked_shares
                                                + minted) as u64,
                                            ..a
                                        },
                                        UserInfo {
                                            shares: (p.shares + minted) as u64,
                                            deposited_amount: (p.deposited_amount
                                                + amount) as u64,
                                            last_update: now,
                                            locked_until: (now + lock_duration(t)) as i64,
                                            lock_tier: t,
                                            deposit_time: if p.shares > 0 {
                                                p.deposit_time
                                            } else {
                                                now
                                            },
                                        },
                                        minted as u64,
                                    ),
                                )
                            }
                        },
                    }
                }
            },
        }
    }
}

/// Deposits `amount` under a lock tier given by its code. Returns the shares
/// minted.
pub fn lock(
    vault: &mut Vault,
    user_info: &mut UserInfo,
    amount: u64,
    tier: u8,
    token_balance: u64,
    now: i64,
) -> (r: Result<u64, ErrorCode>)
    requires
        old(vault).wf(),
        now >= old(vault).last_update_time,
    ensures
        final(vault).wf(),
        final(vault).borrow_index >= old(vault).borrow_index,
        match r {
            Ok(minted) => lock_outcome(*old(vault), *old(user_info), amount, tier, token_balance, now)
                == Ok::<(Vault, UserInfo, u64), ErrorCode>(
                (*final(vault), *final(user_info), minted),
            ),
            Err(e) => {
                &&& lock_outcome(*old(vault), *old(user_info), amount, tier, token_balance, now)
                    == Err::<(Vault, UserInfo, u64), ErrorCode>(e)
                &&& *final(vault) == *old(vault)
                &&& *final(user_info) == *old(user_info)
            },
        },
{
    if vault.is_paused {
        return Err(ErrorCode::VaultPaused);
    }
    if amount == 0 {
        return Err(ErrorCode::InvalidAmount);
    }
    let lock_tier = match LockTier::try_from(tier) {
        Ok(t) => t,
        Err(e) => return Err(e),
    };
    if user_info.shares > 0 && user_info.lock_tier != lock_tier {
        return Err(ErrorCode::TierMismatch);
    }
    let locked_until = match now.checked_add(get_lock_duration(&lock_tier)) {
        Some(t) => t,
        None => return Err(ErrorCode::MathOverflow),
    };
    let mut next = *vault;
    match refresh_vault(&mut next, now, token_balance) {
        Ok(_) => {},
        Err(e) => return Err(e),
    }
    let total_assets = match get_total_assets(token_balance, &next) {
        Ok(t) => t,
        Err(e) => return Err(e),
    };
    let minted = match convert_to_shares(amount, next.total_shares, total_assets) {
        Ok(s) => s,
        Err(e) => return Err(e),
    };
    let (new_shares, new_total) = match (
        user_info.shares.checked_add(minted),
        next.total_shares.checked_add(minted),
    ) {
        (Some(s), Some(t)) => (s, t),
        _ => return Err(ErrorCode::MathOverflow),
    };
    let (new_locked, new_deposited) = match (
        next.total_locked_shares.checked_add(minted),
        user_info.deposited_amount.checked_add(amount),
    ) {
        (Some(l), Some(d)) => (l, d),
        _ => return Err(ErrorCode::MathOverflow),
    };
    next.total_shares = new_total;
    next.total_locked_shares = new_locked;
    *vault = next;
    if user_info.shares == 0 {
        user_info.deposit_time = now;
    }
    user_info.lock_tier = lock_tier;
    user_info.locked_until = locked_until;
    user_info.shares = new_shares;
    user_info.deposited_amount = new_deposited;
    user_info.last_update = now;
    Ok(minted)
}

/// Assets kept back from an early withdrawal of `assets`.
pub open spec fn penalty_of(assets: int) -> int {
    assets * EARLY_WITHDRAWAL_PENALTY_BPS / BPS_DENOMINATOR as int
}

/// Result of redeeming `shares` of a position before its lock ends: the new
/// vault, the new position, and what is paid and what is retained. The
/// penalty joins the reserves; `balance` is what the vault holds before
/// paying out.
pub open spec fn withdraw_early_outcome(
    v: Vault,
    p: UserInfo,
    shares: u64,
    balance: u64,
    now: i64,
) -> Result<(Vault, UserInfo, EarlyWithdrawal), ErrorCode> {
    if v.is_paused {
        Err(ErrorCode::VaultPaused)
    } else if shares == 0 {
        Err(ErrorCode::InvalidAmount)
    } else if p.shares < shares {
        Err(ErrorCode::InsufficientShares)
    } else if now >= p.locked_until {
        Err(ErrorCode::NotLockedForEarlyWithdrawal)
    } else if p.locked_until - now > i64::MAX {
        Err(ErrorCode::MathOverflow)
    } else {
        match accrue_of(v, now as int, balance as int) {
            None => Err(ErrorCode::MathOverflow),
            Some(a) => {
                if a.total_shares < shares {
                    Err(ErrorCode::MathOverflow)
                } else {
                    let out = assets_for_shares(
                        shares as int,
                        total_assets_of(a, balance as int),
                        a.total_shares as int,
                    );
                    if out + a.total_reserves > balance {
                        Err(ErrorCode::InsufficientLiquidity)
                    } else {
                        Ok(
                            (
                                Vault {
                                    total_shares: (a.total_shares - shares) as u64,
                                    total_reserves: (a.total_reserves + penalty_of(out)) as u64,
                                    ..a
                                },
                                UserInfo {
                                    shares: (p.shares - shares) as u64,
                                    last_update: now,
                                    ..p
                                },
                                EarlyWithdrawal {
                                    amount: (out - penalty_of(out)) as u64,
                                    penalty: penalty_of(out) as u64,
                                    time_remaining: (p.locked_until - now) as i64,
                                },
                            ),
                        )
                    }
                }
            },
        }
    }
}

/// Redeems `shares` of a still-locked position, keeping a penalty in the
/// vault's reserves. Returns what to pay out and what was retained.
pub fn withdraw_early(
    vault: &mut Vault,
    user_info: &mut UserInfo,
    shares: u64,
    token_balance: u64,
    now: i64,
) -> (r: Result<EarlyWithdrawal, ErrorCode>)
    requires
        old(vault).wf(),
        now >= old(vault).last_update_time,
    ensures
        final(vault).wf(),
        final(vault).borrow_index >= old(vault).borrow_index,
        match r {
            Ok(event) => withdraw_early_outcome(
                *old(vault),
                *old(user_info),
                shares,
                token_balance,
                now,
            ) == Ok::<(Vault, UserInfo, EarlyWithdrawal), ErrorCode>(
                (*final(vault), *final(user_info), event),
            ),
            Err(e) => {
                &&& withdraw_early_outcome(*old(vault), *old(user_info), shares, token_balance, now)
                    == Err::<(Vault, UserInfo, EarlyWithdrawal), ErrorCode>(e)
                &&& *final(vault) == *old(vault)
                &&& *final(user_info) == *old(user_info)
            },
        },
{
    if vault.is_paused {
        return Err(ErrorCode::VaultPaused);
    }
    if shares == 0 {
        return Err(ErrorCode::InvalidAmount);
    }
    if user_info.shares < shares {
        return Err(ErrorCode::InsufficientShares);
    }
    if now >= user_info.locked_until {
        return Err(ErrorCode::NotLockedForEarlyWithdrawal);
    }
    let time_remaining = match user_info.locked_until.checked_sub(now) {
        Some(t) => t,
        None => return Err(ErrorCode::MathOverflow),
    };
    let mut next = *vault;
    match refresh_vault(&mut next, now, token_balance) {
        Ok(_) => {},
        Err(e) => return Err(e),
    }
    if next.total_shares < shares {
        return Err(ErrorCode::MathOverflow);
    }
    let total_assets = match get_total_assets(token_balance, &next) {
        Ok(t) => t,
        Err(e) => return Err(e),
    };
    let out = convert_to_assets(shares, total_assets, next.total_shares);
    if next.total_reserves > token_balance || out > token_balance - next.total_reserves {
        return Err(ErrorCode::InsufficientLiquidity);
    }
    proof {
        lemma_part_of_whole(EARLY_WITHDRAWAL_PENALTY_BPS as int, out as int, BPS_DENOMINATOR as int);
    }
    let penalty = match scaled_mul_div(out, EARLY_WITHDRAWAL_PENALTY_BPS, BPS_DENOMINATOR) {
        Ok(x) => x,
        Err(e) => return Err(e),
    };
    next.total_shares = next.total_shares - shares;
    next.total_reserves = next.total_reserves + penalty;
    *vault = next;
    user_info.shares = user_info.shares - shares;
    user_info.last_update = now;
    Ok(EarlyWithdrawal { amount: out - penalty, penalty, time_remaining })
}

} // verus!
