//! Interest accrual: advancing the borrow index over elapsed time, growing
//! the vault's debt with it and diverting a share of the interest to
//! reserves, then repricing the borrow rate.
use vstd::prelude::*;

use crate::constants::{PRECISION, SECONDS_PER_YEAR};
use crate::error::ErrorCode;
use crate::math::{fits_u64, scaled_mul_div};
use crate::rate::{borrow_rate_of, compute_borrow_rate};
use crate::state::{InterestAccrued, Vault};

verus! {

/// Fraction of a year's rate earned over `elapsed` seconds, scaled by `PRECISION`.
pub open spec fn interest_factor(rate: int, elapsed: int) -> int {
    rate * elapsed / SECONDS_PER_YEAR as int
}

/// The index grown linearly by `factor`.
pub open spec fn grown_index(index: int, factor: int) -> int {
    index + index * factor / PRECISION as int
}

/// The vault after bringing its index and debt up to `now`; `None` where a
/// value leaves `u64`.
pub open spec fn accrual_of(v: Vault, now: int) -> Option<Vault> {
    if now == v.last_update_time {
        Some(v)
    } else {
        let factor = interest_factor(v.borrow_rate as int, now - v.last_update_time);
        let index = grown_index(v.borrow_index as int, factor);
        if !fits_u64(factor) || !fits_u64(index) {
            None
        } else if v.total_borrowed == 0 {
            Some(Vault { borrow_index: index as u64, last_update_time: now as i64, ..v })
        } else {
            let borrowed = v.total_borrowed * index / v.borrow_index as int;
            let reserves = v.total_reserves + (borrowed - v.total_borrowed) * v.reserve_factor
                / PRECISION as int;
            if !fits_u64(borrowed) || !fits_u64(reserves) {
                None
            } else {
                Some(
                    Vault {
                        total_borrowed: borrowed as u64,
                        total_reserves: reserves as u64,
                        borrow_index: index as u64,
                        last_update_time: now as i64,
                        ..v
                    },
                )
            }
        }
    }
}

/// Assets the vault is worth: what it holds, plus what is lent out, less
/// what is reserved.
pub open spec fn total_assets_of(v: Vault, balance: int) -> int {
    balance + v.total_borrowed - v.total_reserves
}

/// The vault with its borrow rate recomputed from its utilization.
pub open spec fn rate_refresh_of(v: Vault, balance: int) -> Option<Vault> {
    let assets = total_assets_of(v, balance);
    if !fits_u64(assets) {
        None
    } else {
        match borrow_rate_of(v.total_borrowed as int, assets) {
            Some(rate) => Some(Vault { borrow_rate: rate as u64, ..v }),
            None => None,
        }
    }
}

/// Accrual followed by repricing, as every operation begins.
pub open spec fn accrue_of(v: Vault, now: int, balance: int) -> Option<Vault> {
    match accrual_of(v, now) {
        Some(a) => rate_refresh_of(a, balance),
        None => None,
    }
}

/// The standalone accrual operation.
pub open spec fn accrue_outcome(v: Vault, now: int, balance: int) -> Result<Vault, ErrorCode> {
    if v.is_paused {
        Err(ErrorCode::VaultPaused)
    } else {
        match accrue_of(v, now, balance) {
            Some(w) => Ok(w),
            None => Err(ErrorCode::MathOverflow),
        }
    }
}

proof fn lemma_scale_up(a: int, b: int, c: int)
    requires
        a >= 0,
        b >= c > 0,
    ensures
        a * b / c >= a,
{
    assert(a * b >= a * c) by (nonlinear_arith)
        requires
            a >= 0,
            b >= c,
    ;
    assert(a * c / c == a) by (nonlinear_arith)
        requires
            c > 0,
    ;
    vstd::arithmetic::div_mod::lemma_div_is_ordered(a * c, a * b, c);
}

/// An accrual at or after the last one never lowers the index, and records
/// the time it ran at.
pub proof fn lemma_accrual_step(v: Vault, now: i64)
    requires
        now >= v.last_update_time,
    ensures
        accrual_of(v, now as int) matches Some(a) ==> a.borrow_index >= v.borrow_index
            && a.last_update_time == now && a.total_shares == v.total_shares
            && a.total_locked_shares == v.total_locked_shares && a.is_paused == v.is_paused
            && a.reserve_factor == v.reserve_factor && (v.borrow_index > 0 ==> a.total_borrowed
            >= v.total_borrowed),
{
    if now != v.last_update_time {
        let elapsed = now - v.last_update_time;
        let factor = interest_factor(v.borrow_rate as int, elapsed);
        assert(v.borrow_rate * elapsed >= 0) by (nonlinear_arith)
            requires
                elapsed > 0,
        ;
        assert(factor >= 0);
        assert(v.borrow_index * factor >= 0) by (nonlinear_arith)
            requires
                factor >= 0,
        ;
        let index = grown_index(v.borrow_index as int, factor);
        if v.total_borrowed != 0 && v.borrow_index > 0 {
            lemma_scale_up(v.total_borrowed as int, index, v.borrow_index as int);
        }
    }
}

/// Accrual and repricing touch neither shares, nor the pause flag, nor the
/// reserve factor.
pub proof fn lemma_accrue_keeps_shares(v: Vault, now: int, balance: int)
    ensures
        accrue_of(v, now, balance) matches Some(a) ==> a.total_shares == v.total_shares
            && a.total_locked_shares == v.total_locked_shares && a.is_paused == v.is_paused
            && a.reserve_factor == v.reserve_factor,
{
}

/// Brings the borrow index and the vault's debt up to `now`, diverting the
/// reserve factor's share of the new interest to reserves.
pub fn update_interest(vault: &mut Vault, now: i64) -> (r: Result<InterestAccrued, ErrorCode>)
    requires
        old(vault).wf(),
        now >= old(vault).last_update_time,
    ensures
        final(vault).wf(),
        final(vault).borrow_index >= old(vault).borrow_index,
        match r {
            Ok(event) => {
                &&& accrual_of(*old(vault), now as int) == Some(*final(vault))
                &&& event.new_index == final(vault).borrow_index
                &&& event.total_interest == final(vault).total_borrowed - old(vault).total_borrowed
            },
            Err(e) => {
                &&& e == ErrorCode::MathOverflow
                &&& accrual_of(*old(vault), now as int) is None
                &&& *final(vault) == *old(vault)
            },
        },
{
    proof {
        lemma_accrual_step(*vault, now);
    }
    if now == vault.last_update_time {
        return Ok(InterestAccrued { total_interest: 0, new_index: vault.borrow_index });
    }
    let elapsed: u64 = ((now as i128) - (vault.last_update_time as i128)) as u64;
    let factor = match scaled_mul_div(vault.borrow_rate, elapsed, SECONDS_PER_YEAR as u64) {
        Ok(f) => f,
        Err(e) => return Err(e),
    };
    let growth = match scaled_mul_div(vault.borrow_index, factor, PRECISION) {
        Ok(g) => g,
        Err(e) => return Err(e),
    };
    let new_index = match vault.borrow_index.checked_add(growth) {
        Some(i) => i,
        None => return Err(ErrorCode::MathOverflow),
    };
    let mut total_interest: u64 = 0;
    if vault.total_borrowed > 0 {
        let new_total_borrowed = match scaled_mul_div(
            vault.total_borrowed,
            new_index,
            vault.borrow_index,
        ) {
            Ok(b) => b,
            Err(e) => return Err(e),
        };
        proof {
            lemma_scale_up(vault.total_borrowed as int, new_index as int, vault.borrow_index as int);
        }
        total_interest = new_total_borrowed - vault.total_borrowed;
        let reserve_amount = match scaled_mul_div(
            total_interest,
            vault.reserve_factor,
            PRECISION,
        ) {
            Ok(a) => a,
            Err(e) => return Err(e),
        };
        let new_reserves = match vault.total_reserves.checked_add(reserve_amount) {
            Some(t) => t,
            None => return Err(ErrorCode::MathOverflow),
        };
        vault.total_reserves = new_reserves;
        vault.total_borrowed = new_total_borrowed;
    }
    vault.borrow_index = new_index;
    vault.last_update_time = now;
    Ok(InterestAccrued { total_interest, new_index })
}

/// Assets the vault is worth, given the balance it holds.
pub fn get_total_assets(token_balance: u64, vault: &Vault) -> (r: Result<u64, ErrorCode>)
    ensures
        match r {
            Ok(t) => t == total_assets_of(*vault, token_balance as int),
            Err(e) => e == ErrorCode::MathOverflow && !fits_u64(
                total_assets_of(*vault, token_balance as int),
            ),
        },
{
    let gross: u128 = token_balance as u128 + vault.total_borrowed as u128;
    if gross < vault.total_reserves as u128 {
        return Err(ErrorCode::MathOverflow);
    }
    let net: u128 = gross - vault.total_reserves as u128;
    if net > u64::MAX as u128 {
        Err(ErrorCode::MathOverflow)
    } else {
        Ok(net as u64)
    }
}

/// Recomputes the borrow rate from the vault's utilization.
pub fn update_borrow_rate(vault: &mut Vault, token_balance: u64) -> (r: Result<(), ErrorCode>)
    ensures
        match r {
            Ok(_) => rate_refresh_of(*old(vault), token_balance as int) == Some(*final(vault)),
            Err(e) => {
                &&& e == ErrorCode::MathOverflow
                &&& rate_refresh_of(*old(vault), token_balance as int) is None
                &&& *final(vault) == *old(vault)
            },
        },
{
    let total_assets = match get_total_assets(token_balance, vault) {
        Ok(t) => t,
        Err(e) => return Err(e),
    };
    match compute_borrow_rate(vault.total_borrowed, total_assets) {
        Ok(rate) => {
            vault.borrow_rate = rate;
            Ok(())
        },
        Err(e) => Err(e),
    }
}

/// Accrues interest up to `now` and reprices the borrow rate, all or nothing.
pub fn refresh_vault(vault: &mut Vault, now: i64, token_balance: u64) -> (r: Result<
    InterestAccrued,
    ErrorCode,
>)
    requires
        old(vault).wf(),
        now >= old(vault).last_update_time,
    ensures
        final(vault).wf(),
        final(vault).borrow_index >= old(vault).borrow_index,
        match r {
            Ok(event) => {
                &&& accrue_of(*old(vault), now as int, token_balance as int) == Some(*final(vault))
                &&& event.new_index == final(vault).borrow_index
                &&& event.total_interest == final(vault).total_borrowed - old(vault).total_borrowed
            },
            Err(e) => {
                &&& e == ErrorCode::MathOverflow
                &&& accrue_of(*old(vault), now as int, token_balance as int) is None
                &&& *final(vault) == *old(vault)
            },
        },
{
    let mut next = *vault;
    let event = match update_interest(&mut next, now) {
        Ok(ev) => ev,
        Err(e) => return Err(e),
    };
    match update_borrow_rate(&mut next, token_balance) {
        Ok(_) => {},
        Err(e) => return Err(e),
    }
    *vault = next;
    Ok(event)
}

/// Brings the vault up to `now` on its own; refused while paused.
pub fn accrue(vault: &mut Vault, now: i64, token_balance: u64) -> (r: Result<
    InterestAccrued,
    ErrorCode,
>)
    requires
        old(vault).wf(),
        now >= old(vault).last_update_time,
    ensures
        final(vault).wf(),
        final(vault).borrow_index >= old(vault).borrow_index,
        match r {
            Ok(event) => {
                &&& accrue_outcome(*old(vault), now as int, token_balance as int) == Ok::<
                    Vault,
                    ErrorCode,
                >(*final(vault))
                &&& event.new_index == final(vault).borrow_index
                &&& event.total_interest == final(vault).total_borrowed - old(vault).total_borrowed
            },
            Err(e) => {
                &&& accrue_outcome(*old(vault), now as int, token_balance as int) == Err::<
                    Vault,
                    ErrorCode,
                >(e)
                &&& *final(vault) == *old(vault)
            },
        },
{
    if vault.is_paused {
        return Err(ErrorCode::VaultPaused);
    }
    refresh_vault(vault, now, token_balance)
}

/// Accruing a second time at the same moment, with the same holdings,
/// changes nothing.
pub proof fn lemma_accrue_idempotent(v: Vault, now: i64, balance: u64)
    requires
        now >= v.last_update_time,
    ensures
        accrue_outcome(v, now as int, balance as int) matches Ok(w) ==> accrue_outcome(
            w,
            now as int,
            balance as int,
        ) == Ok::<Vault, ErrorCode>(w),
{
    lemma_accrual_step(v, now);
}

/// The vault after a sequence of standalone accruals, each at a time and a
/// held balance; a refused accrual leaves the vault as it was.
pub open spec fn accrue_sequence(v: Vault, steps: Seq<(i64, u64)>) -> Vault
    decreases steps.len(),
{
    if steps.len() == 0 {
        v
    } else {
        let prev = accrue_sequence(v, steps.drop_last());
        match accrue_outcome(prev, steps.last().0 as int, steps.last().1 as int) {
            Ok(w) => w,
            Err(_) => prev,
        }
    }
}

proof fn lemma_accrue_outcome_step(v: Vault, now: i64, balance: int)
    requires
        now >= v.last_update_time,
    ensures
        accrue_outcome(v, now as int, balance) matches Ok(w) ==> w.borrow_index >= v.borrow_index
            && w.last_update_time == now,
{
    lemma_accrual_step(v, now);
}

proof fn lemma_accrue_sequence_time(v: Vault, steps: Seq<(i64, u64)>)
    requires
        forall|i: int, j: int| 0 <= i <= j < steps.len() ==> steps[i].0 <= steps[j].0,
        steps.len() > 0 ==> v.last_update_time <= steps[0].0,
    ensures
        steps.len() == 0 ==> accrue_sequence(v, steps).last_update_time == v.last_update_time,
        steps.len() > 0 ==> accrue_sequence(v, steps).last_update_time <= steps.last().0,
        accrue_sequence(v, steps).borrow_index >= v.borrow_index,
    decreases steps.len(),
{
    if steps.len() > 0 {
        let init = steps.drop_last();
        lemma_accrue_sequence_time(v, init);
        let prev = accrue_sequence(v, init);
        if init.len() > 0 {
            assert(init.last() == steps[steps.len() - 2]);
        }
        lemma_accrue_outcome_step(prev, steps.last().0, steps.last().1 as int);
    }
}

/// Across any sequence of accruals at non-decreasing times, none earlier than
/// the vault's last accrual, the borrow index never decreases: not over the
/// whole sequence, and not at any single step.
pub proof fn lemma_borrow_index_monotone(v: Vault, steps: Seq<(i64, u64)>)
    requires
        forall|i: int, j: int| 0 <= i <= j < steps.len() ==> steps[i].0 <= steps[j].0,
        steps.len() > 0 ==> v.last_update_time <= steps[0].0,
    ensures
        accrue_sequence(v, steps).borrow_index >= v.borrow_index,
        forall|k: int|
            0 <= k < steps.len() ==> accrue_sequence(v, steps.take(k)).borrow_index
                <= #[trigger] accrue_sequence(v, steps.take(k + 1)).borrow_index,
{
    lemma_accrue_sequence_time(v, steps);
    assert forall|k: int| 0 <= k < steps.len() implies accrue_sequence(
        v,
        steps.take(k),
    ).borrow_index <= #[trigger] accrue_sequence(v, steps.take(k + 1)).borrow_index by {
        let head = steps.take(k);
        let next = steps.take(k + 1);
        assert(next.drop_last() =~= head);
        lemma_accrue_sequence_time(v, head);
        let prev = accrue_sequence(v, head);
        if k > 0 {
            assert(head.last() == steps[k - 1]);
        }
        lemma_accrue_outcome_step(prev, next.last().0, next.last().1 as int);
    }
}

} // verus!
