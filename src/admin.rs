//! Owner operations: creating the vault, tuning the reserve factor,
//! claiming reserves, and pausing.
use vstd::prelude::*;

use crate::constants::{BASE_RATE, INITIAL_BORROW_INDEX, MAX_RESERVE_FACTOR};
use crate::error::ErrorCode;
use crate::interest::{accrue_of, refresh_vault};
use crate::state::Vault;

verus! {

/// A new, empty vault accruing from `now`.
pub open spec fn initial_vault(reserve_factor: u64, now: i64) -> Vault {
    Vault {
        total_shares: 0,
        total_locked_shares: 0,
        total_borrowed: 0,
        borrow_index: INITIAL_BORROW_INDEX,
        borrow_rate: BASE_RATE,
        reserve_factor,
        total_reserves: 0,
        last_update_time: now,
        is_paused: false,
    }
}

/// Creates a vault, refusing a reserve factor above `MAX_RESERVE_FACTOR`.
pub fn initialize_vault(reserve_factor: u64, now: i64) -> (r: Result<Vault, ErrorCode>)
    ensures
        match r {
            Ok(v) => reserve_factor <= MAX_RESERVE_FACTOR && v == initial_vault(reserve_factor, now)
                && v.wf(),
            Err(e) => e == ErrorCode::ReserveFactorTooHigh && reserve_factor > MAX_RESERVE_FACTOR,
        },
{
    if reserve_factor > MAX_RESERVE_FACTOR {
        return Err(ErrorCode::ReserveFactorTooHigh);
    }
    Ok(
        Vault {
            total_shares: 0,
            total_locked_shares: 0,
            total_borrowed: 0,
            borrow_index: INITIAL_BORROW_INDEX,
            borrow_rate: BASE_RATE,
            reserve_factor,
            total_reserves: 0,
            last_update_time: now,
            is_paused: false,
        },
    )
}

/// Result of changing the reserve factor; interest up to `now` is accrued
/// under the old one.
pub open spec fn set_reserve_factor_outcome(
    v: Vault,
    new_reserve_factor: u64,
    balance: u64,
    now: i64,
) -> Result<Vault, ErrorCode> {
    if v.is_paused {
        Err(ErrorCode::VaultPaused)
    } else if new_reserve_factor > MAX_RESERVE_FACTOR {
        Err(ErrorCode::ReserveFactorTooHigh)
    } else {
        match accrue_of(v, now as int, balance as int) {
            None => Err(ErrorCode::MathOverflow),
            Some(a) => Ok(Vault { reserve_factor: new_reserve_factor, ..a }),
        }
    }
}

/// Changes the fraction of future interest diverted to reserves.
pub fn set_reserve_factor(
    vault: &mut Vault,
    new_reserve_factor: u64,
    token_balance: u64,
    now: i64,
) -> (r: Result<(), ErrorCode>)
    requires
        old(vault).wf(),
        now >= old(vault).last_update_time,
    ensures
        final(vault).wf(),
        final(vault).borrow_index >= old(vault).borrow_index,
        match r {
            Ok(_) => set_reserve_factor_outcome(
                *old(vault),
                new_reserve_factor,
                token_balance,
                now,
            ) == Ok::<Vault, ErrorCode>(*final(vault)),
            Err(e) => {
                &&& set_reserve_factor_outcome(*old(vault), new_reserve_factor, token_balance, now)
                    == Err::<Vault, ErrorCode>(e)
                &&& *final(vault) == *old(vault)
            },
        },
{
    if vault.is_paused {
        return Err(ErrorCode::VaultPaused);
    }
    if new_reserve_factor > MAX_RESERVE_FACTOR {
        return Err(ErrorCode::ReserveFactorTooHigh);
    }
    let mut next = *vault;
    match refresh_vault(&mut next, now, token_balance) {
        Ok(_) => {},
        Err(e) => return Err(e),
    }
    next.reserve_factor = new_reserve_factor;
    *vault = next;
    Ok(())
}

/// Result of the owner claiming `amount` of reserves.
pub open spec fn withdraw_reserves_outcome(v: Vault, amount: u64, balance: u64, now: i64) -> Result<
    Vault,
    ErrorCode,
> {
    if v.is_paused {
        Err(ErrorCode::VaultPaused)
    } else {
        match accrue_of(v, now as int, balance as int) {
            None => Err(ErrorCode::MathOverflow),
            Some(a) => {
                if amount > a.total_reserves {
                    Err(ErrorCode::InsufficientReserves)
                } else {
                    Ok(Vault { total_reserves: (a.total_reserves - amount) as u64, ..a })
                }
            },
        }
    }
}

/// Releases `amount` of reserves to the owner.
pub fn withdraw_reserves(vault: &mut Vault, amount: u64, token_balance: u64, now: i64) -> (r:
    Result<(), ErrorCode>)
    requires
        old(vault).wf(),
        now >= old(vault).last_update_time,
    ensures
        final(vault).wf(),
        final(vault).borrow_index >= old(vault).borrow_index,
        match r {
            Ok(_) => withdraw_reserves_outcome(*old(vault), amount, token_balance, now) == Ok::<
                Vault,
                ErrorCode,
            >(*final(vault)),
            Err(e) => {
                &&& withdraw_reserves_outcome(*old(vault), amount, token_balance, now) == Err::<
                    Vault,
                    ErrorCode,
                >(e)
                &&& *final(vault) == *old(vault)
            },
        },
{
    if vault.is_paused {
        return Err(ErrorCode::VaultPaused);
    }
    let mut next = *vault;
    match refresh_vault(&mut next, now, token_balance) {
        Ok(_) => {},
        Err(e) => return Err(e),
    }
    if amount > next.total_reserves {
        return Err(ErrorCode::InsufficientReserves);
    }
    next.total_reserves = next.total_reserves - amount;
    *vault = next;
    Ok(())
}

/// Stops every operation but pausing and unpausing.
pub fn pause_vault(vault: &mut Vault)
    ensures
        *final(vault) == (Vault { is_paused: true, ..*old(vault) }),
{
    vault.is_paused = true;
}

/// Resumes operations.
pub fn unpause_vault(vault: &mut Vault)
    ensures
        *final(vault) == (Vault { is_paused: false, ..*old(vault) }),
{
    vault.is_paused = false;
}

} // verus!
