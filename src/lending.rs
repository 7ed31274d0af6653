//! The borrow ledger: debts recorded against snapshots of the borrow index.
use vstd::prelude::*;

use crate::error::ErrorCode;
use crate::interest::{accrue_of, rate_refresh_of, refresh_vault, update_borrow_rate};
use crate::math::{fits_u64, scaled_mul_div};
use crate::shares::{position_value, position_value_of};
use crate::state::{BorrowInfo, UserInfo, Vault};

verus! {

/// What a borrower owes at `index`: the recorded debt grown by the index
/// since its snapshot, rounded down.
pub open spec fn debt_of(b: BorrowInfo, index: int) -> int {
    if b.borrowed > 0 {
        b.borrowed * index / b.borrow_index as int
    } else {
        0
    }
}

/// What a borrower owes at `index`.
pub fn current_debt(borrow_info: &BorrowInfo, index: u64) -> (r: Result<u64, ErrorCode>)
    requires
        borrow_info.wf(),
    ensures
        match r {
            Ok(d) => d == debt_of(*borrow_info, index as int),
            Err(e) => e == ErrorCode::MathOverflow && !fits_u64(debt_of(*borrow_info, index as int)),
        },
{
    if borrow_info.borrowed > 0 {
        scaled_mul_div(borrow_info.borrowed, index, borrow_info.borrow_index)
    } else {
        Ok(0)
    }
}

/// Result of borrowing `amount` against collateral worth at most
/// `collateral_limit` of debt: the new vault and the new debt record. The
/// rate is repriced on the holdings left after paying out; `balance` is what
/// the vault holds before.
pub open spec fn borrow_outcome(
    v: Vault,
    b: BorrowInfo,
    amount: u64,
    collateral_limit: u64,
    balance: u64,
    now: i64,
) -> Result<(Vault, BorrowInfo), ErrorCode> {
    if v.is_paused {
        Err(ErrorCode::VaultPaused)
    } else if amount == 0 {
        Err(ErrorCode::InvalidAmount)
    } else {
        match accrue_of(v, now as int, balance as int) {
            None => Err(ErrorCode::MathOverflow),
            Some(a) => {
                let debt = debt_of(b, a.borrow_index as int);
                if !fits_u64(debt + amount) || !fits_u64(a.total_borrowed + amount) {
                    Err(ErrorCode::MathOverflow)
                } else if debt + amount > collateral_limit {
                    Err(ErrorCode::InsufficientCollateral)
                } else if amount + a.total_reserves > balance {
                    Err(ErrorCode::InsufficientLiquidity)
                } else {
                    match rate_refresh_of(
                        Vault { total_borrowed: (a.total_borrowed + amount) as u64, ..a },
                        balance - amount,
                    ) {
                        None => Err(ErrorCode::MathOverflow),
                        Some(w) => Ok(
                            (
                                w,
                                BorrowInfo {
                                    borrowed: (debt + amount) as u64,
                                    borrow_index: a.borrow_index,
                                },
                            ),
                        ),
                    }
                }
            },
        }
    }
}

/// Lends `amount` out of the vault, within what the borrower's collateral
/// allows.
pub fn borrow(
    vault: &mut Vault,
    borrow_info: &mut BorrowInfo,
    amount: u64,
    collateral_limit: u64,
    token_balance: u64,
    now: i64,
) -> (r: Result<(), ErrorCode>)
    requires
        old(vault).wf(),
        old(borrow_info).wf(),
        now >= old(vault).last_update_time,
    ensures
        final(vault).wf(),
        final(vault).borrow_index >= old(vault).borrow_index,
        final(borrow_info).wf(),
        match r {
            Ok(_) => borrow_outcome(
                *old(vault),
                *old(borrow_info),
                amount,
                collateral_limit,
                token_balance,
                now,
            ) == Ok::<(Vault, BorrowInfo), ErrorCode>((*final(vault), *final(borrow_info))),
            Err(e) => {
                &&& borrow_outcome(
                    *old(vault),
                    *old(borrow_info),
                    amount,
                    collateral_limit,
                    token_balance,
                    now,
                ) == Err::<(Vault, BorrowInfo), ErrorCode>(e)
                &&& *final(vault) == *old(vault)
                &&& *final(borrow_info) == *old(borrow_info)
            },
        },
{
    if vault.is_paused {
        return Err(ErrorCode::VaultPaused);
    }
    if amount == 0 {
        return Err(ErrorCode::InvalidAmount);
    }
    let mut next = *vault;
    match refresh_vault(&mut next, now, token_balance) {
        Ok(_) => {},
        Err(e) => return Err(e),
    }
    let debt = match current_debt(borrow_info, next.borrow_index) {
        Ok(d) => d,
        Err(e) => return Err(e),
    };
    let (new_debt, new_total) = match (
        debt.checked_add(amount),
        next.total_borrowed.checked_add(amount),
    ) {
        (Some(d), Some(t)) => (d, t),
        _ => return Err(ErrorCode::MathOverflow),
    };
    if new_debt > collateral_limit {
        return Err(ErrorCode::InsufficientCollateral);
    }
    if next.total_reserves > token_balance || amount > token_balance - next.total_reserves {
        return Err(ErrorCode::InsufficientLiquidity);
    }
    next.total_borrowed = new_total;
    match update_borrow_rate(&mut next, token_balance - amount) {
        Ok(_) => {},
        Err(e) => return Err(e),
    }
    *vault = next;
    borrow_info.borrowed = new_debt;
    borrow_info.borrow_index = next.borrow_index;
    Ok(())
}

/// Result of borrowing against a credential-held position: collateral
/// allows debt up to half of what the position's shares are worth.
pub open spec fn borrow_with_nft_outcome(
    v: Vault,
    p: UserInfo,
    b: BorrowInfo,
    amount: u64,
    balance: u64,
    now: i64,
    owns_nft: bool,
) -> Result<(Vault, BorrowInfo), ErrorCode> {
    if v.is_paused {
        Err(ErrorCode::VaultPaused)
    } else if amount == 0 {
        Err(ErrorCode::InvalidAmount)
    } else if !owns_nft {
        Err(ErrorCode::InvalidOwnership)
    } else {
        match position_value_of(v, p, balance, now) {
            None => Err(ErrorCode::MathOverflow),
            Some(value) => borrow_outcome(v, b, amount, (value / 2) as u64, balance, now),
        }
    }
}

/// Borrows against the shares of a position held through a credential.
pub fn borrow_with_nft(
    vault: &mut Vault,
    user_info: &UserInfo,
    borrow_info: &mut BorrowInfo,
    amount: u64,
    token_balance: u64,
    now: i64,
    owns_nft: bool,
) -> (r: Result<(), ErrorCode>)
    requires
        old(vault).wf(),
        old(borrow_info).wf(),
        now >= old(vault).last_update_time,
    ensures
        final(vault).wf(),
        final(vault).borrow_index >= old(vault).borrow_index,
        final(borrow_info).wf(),
        match r {
            Ok(_) => borrow_with_nft_outcome(
                *old(vault),
                *user_info,
                *old(borrow_info),
                amount,
                token_balance,
                now,
                owns_nft,
            ) == Ok::<(Vault, BorrowInfo), ErrorCode>((*final(vault), *final(borrow_info))),
            Err(e) => {
                &&& borrow_with_nft_outcome(
                    *old(vault),
                    *user_info,
                    *old(borrow_info),
                    amount,
                    token_balance,
                    now,
                    owns_nft,
                ) == Err::<(Vault, BorrowInfo), ErrorCode>(e)
                &&& *final(vault) == *old(vault)
                &&& *final(borrow_info) == *old(borrow_info)
            },
        },
{
    if vault.is_paused {
        return Err(ErrorCode::VaultPaused);
    }
    if amount == 0 {
        return Err(ErrorCode::InvalidAmount);
    }
    if !owns_nft {
        return Err(ErrorCode::InvalidOwnership);
    }
    let value = match position_value(vault, user_info, token_balance, now) {
        Ok(x) => x,
        Err(e) => return Err(e),
    };
    borrow(vault, borrow_info, amount, value / 2, token_balance, now)
}

/// Result of repaying up to `amount`: the new vault, the new debt record and
/// the amount actually repaid, never more than the debt. The rate is
/// repriced on the holdings after the repayment arrives; `balance` is what
/// the vault holds before.
pub open spec fn repay_outcome(v: Vault, b: BorrowInfo, amount: u64, balance: u64, now: i64) -> Result<
    (Vault, BorrowInfo, u64),
    ErrorCode,
> {
    if v.is_paused {
        Err(ErrorCode::VaultPaused)
    } else if amount == 0 {
        Err(ErrorCode::InvalidAmount)
    } else {
        match accrue_of(v, now as int, balance as int) {
            None => Err(ErrorCode::MathOverflow),
            Some(a) => {
                let debt = debt_of(b, a.borrow_index as int);
                let paid = if amount < debt {
                    amount as int
                } else {
                    debt
                };
                if !fits_u64(debt) {
                    Err(ErrorCode::MathOverflow)
                } else if debt == 0 {
                    Err(ErrorCode::NoDebtToRepay)
                } else if a.total_borrowed < paid || !fits_u64(balance + paid) {
                    Err(ErrorCode::MathOverflow)
                } else {
                    match rate_refresh_of(
                        Vault { total_borrowed: (a.total_borrowed - paid) as u64, ..a },
                        balance + paid,
                    ) {
                        None => Err(ErrorCode::MathOverflow),
                        Some(w) => Ok(
                            (
                                w,
                                BorrowInfo {
                                    borrowed: (debt - paid) as u64,
                                    borrow_index: a.borrow_index,
                                },
                                paid as u64,
                            ),
                        ),
                    }
                }
            },
        }
    }
}

/// Repays up to `amount` of a borrower's debt. Returns the amount repaid.
pub fn repay(
    vault: &mut Vault,
    borrow_info: &mut BorrowInfo,
    amount: u64,
    token_balance: u64,
    now: i64,
) -> (r: Result<u64, ErrorCode>)
    requires
        old(vault).wf(),
        old(borrow_info).wf(),
        now >= old(vault).last_update_time,
    ensures
        final(vault).wf(),
        final(vault).borrow_index >= old(vault).borrow_index,
        final(borrow_info).wf(),
        match r {
            Ok(paid) => repay_outcome(*old(vault), *old(borrow_info), amount, token_balance, now)
                == Ok::<(Vault, BorrowInfo, u64), ErrorCode>(
                (*final(vault), *final(borrow_info), paid),
            ),
            Err(e) => {
                &&& repay_outcome(*old(vault), *old(borrow_info), amount, token_balance, now)
                    == Err::<(Vault, BorrowInfo, u64), ErrorCode>(e)
                &&& *final(vault) == *old(vault)
                &&& *final(borrow_info) == *old(borrow_info)
            },
        },
{
    if vault.is_paused {
        return Err(ErrorCode::VaultPaused);
    }
    if amount == 0 {
        return Err(ErrorCode::InvalidAmount);
    }
    let mut next = *vault;
    match refresh_vault(&mut next, now, token_balance) {
        Ok(_) => {},
        Err(e) => return Err(e),
    }
    let debt = match current_debt(borrow_info, next.borrow_index) {
        Ok(d) => d,
        Err(e) => return Err(e),
    };
    if debt == 0 {
        return Err(ErrorCode::NoDebtToRepay);
    }
    let paid = if amount < debt {
        amount
    } else {
        debt
    };
    if next.total_borrowed < paid {
        return Err(ErrorCode::MathOverflow);
    }
    let balance_after = match token_balance.checked_add(paid) {
        Some(x) => x,
        None => return Err(ErrorCode::MathOverflow),
    };
    next.total_borrowed = next.total_borrowed - paid;
    match update_borrow_rate(&mut next, balance_after) {
        Ok(_) => {},
        Err(e) => return Err(e),
    }
    *vault = next;
    borrow_info.borrowed = debt - paid;
    borrow_info.borrow_index = next.borrow_index;
    Ok(paid)
}

} // verus!
