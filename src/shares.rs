//! Share pricing: converting deposits into shares and shares back into
//! assets, and moving a position between identities.
use vstd::prelude::*;

use crate::error::ErrorCode;
use crate::interest::{
    accrual_of, accrue_of, get_total_assets, lemma_accrue_keeps_shares, refresh_vault,
    total_assets_of, update_interest,
};
use crate::math::{fits_u64, lemma_part_of_whole, scaled_mul_div};
use crate::state::{NFTPositionInfo, UserInfo, Vault};

verus! {

/// Shares minted for `amount` of assets; one for one in an empty vault or one
/// worth nothing. The one-for-one cases leave the price to whoever deposits
/// first: assets sent to the vault without minting shares move that price,
/// and nothing here guards against it.
pub open spec fn shares_for_deposit(amount: int, total_shares: int, total_assets: int) -> int {
    if total_shares == 0 || total_assets == 0 {
        amount
    } else {
        amount * total_shares / total_assets
    }
}

/// Assets that `shares` are worth, rounded down.
pub open spec fn assets_for_shares(shares: int, total_assets: int, total_shares: int) -> int {
    shares * total_assets / total_shares
}

/// Result of a deposit: the new vault, the new position and the shares
/// minted. The share price is taken from `balance`, the vault's holdings
/// before the incoming transfer.
pub open spec fn deposit_outcome(v: Vault, p: UserInfo, amount: u64, balance: u64, now: i64) -> Result<
    (Vault, UserInfo, u64),
    ErrorCode,
> {
    if v.is_paused {
        Err(ErrorCode::VaultPaused)
    } else if amount == 0 {
        Err(ErrorCode::InvalidAmount)
    } else {
        match accrue_of(v, now as int, balance as int) {
            None => Err(ErrorCode::MathOverflow),
            Some(a) => {
                let minted = shares_for_deposit(
                    amount as int,
                    a.total_shares as int,
                    total_assets_of(a, balance as int),
                );
                if !fits_u64(minted) || !fits_u64(p.shares + minted) || !fits_u64(
                    a.total_shares + minted,
                ) || !fits_u64(p.deposited_amount + amount) {
                    Err(ErrorCode::MathOverflow)
                } else {
                    Ok(
                        (
                            Vault { total_shares: (a.total_shares + minted) as u64, ..a },
                            UserInfo {
                                shares: (p.shares + minted) as u64,
                                deposited_amount: (p.deposited_amount + amount) as u64,
                                last_update: now,
                                ..p
                            },
                            minted as u64,
                        ),
                    )
                }
            },
        }
    }
}

/// Result of a withdrawal: the new vault, the new position and the assets
/// paid out. `balance` is what the vault holds before paying out.
pub open spec fn withdraw_outcome(v: Vault, p: UserInfo, shares: u64, balance: u64, now: i64) -> Result<
    (Vault, UserInfo, u64),
    ErrorCode,
> {
    if v.is_paused {
        Err(ErrorCode::VaultPaused)
    } else if shares == 0 {
        Err(ErrorCode::InvalidAmount)
    } else if p.shares < shares {
        Err(ErrorCode::InsufficientShares)
    } else if now < p.locked_until {
        Err(ErrorCode::StillLocked)
    } else {
        match accrue_of(v, now as int, balance as int) {
            None => Err(ErrorCode::MathOverflow),
            Some(a) => {
                if a.total_shares < shares {
                    Err(ErrorCode::MathOverflow)
                } else {
                    let out = assets_for_shares(
                        shares as int,
                        total_assets_of(a, balance as int),
                        a.total_shares as int,
                    );
                    if out + a.total_reserves > balance {
                        Err(ErrorCode::InsufficientLiquidity)
                    } else {
                        Ok(
                            (
                                Vault { total_shares: (a.total_shares - shares) as u64, ..a },
                                UserInfo {
                                    shares: (p.shares - shares) as u64,
                                    last_update: now,
                                    ..p
                                },
                                out as u64,
                            ),
                        )
                    }
                }
            },
        }
    }
}

/// Shares minted for `amount` of assets.
pub fn convert_to_shares(amount: u64, total_shares: u64, total_assets: u64) -> (r: Result<
    u64,
    ErrorCode,
>)
    ensures
        match r {
            Ok(s) => s == shares_for_deposit(amount as int, total_shares as int, total_assets as int),
            Err(e) => e == ErrorCode::MathOverflow && !fits_u64(
                shares_for_deposit(amount as int, total_shares as int, total_assets as int),
            ),
        },
{
    if total_shares == 0 || total_assets == 0 {
        Ok(amount)
    } else {
        scaled_mul_div(amount, total_shares, total_assets)
    }
}

/// Assets that `shares` out of `total_shares` are worth; never more than the
/// vault's assets.
pub fn convert_to_assets(shares: u64, total_assets: u64, total_shares: u64) -> (r: u64)
    requires
        shares <= total_shares,
        total_shares > 0,
    ensures
        r == assets_for_shares(shares as int, total_assets as int, total_shares as int),
        r <= total_assets,
{
    proof {
        lemma_part_of_whole(shares as int, total_assets as int, total_shares as int);
    }
    match scaled_mul_div(shares, total_assets, total_shares) {
        Ok(a) => a,
        // unreachable: the quotient is at most `total_assets`
        Err(_) => 0,
    }
}

/// Deposits `amount` of assets into a position, minting shares at the price
/// before the transfer. Returns the shares minted.
pub fn deposit(
    vault: &mut Vault,
    user_info: &mut UserInfo,
    amount: u64,
    token_balance: u64,
    now: i64,
) -> (r: Result<u64, ErrorCode>)
    requires
        old(vault).wf(),
        now >= old(vault).last_update_time,
    ensures
        final(vault).wf(),
        final(vault).borrow_index >= old(vault).borrow_index,
        match r {
            Ok(minted) => deposit_outcome(*old(vault), *old(user_info), amount, token_balance, now)
                == Ok::<(Vault, UserInfo, u64), ErrorCode>(
                (*final(vault), *final(user_info), minted),
            ),
            Err(e) => {
                &&& deposit_outcome(*old(vault), *old(user_info), amount, token_balance, now)
                    == Err::<(Vault, UserInfo, u64), ErrorCode>(e)
                &&& *final(vault) == *old(vault)
                &&& *final(user_info) == *old(user_info)
            },
        },
{
    if vault.is_paused {
        return Err(ErrorCode::VaultPaused);
    }
    if amount == 0 {
        return Err(ErrorCode::InvalidAmount);
    }
    let mut next = *vault;
    match refresh_vault(&mut next, now, token_balance) {
        Ok(_) => {},
        Err(e) => return Err(e),
    }
    let total_assets = match get_total_assets(token_balance, &next) {
        Ok(t) => t,
        Err(e) => return Err(e),
    };
    let minted = match convert_to_shares(amount, next.total_shares, total_assets) {
        Ok(s) => s,
        Err(e) => return Err(e),
    };
    let (new_shares, new_total, new_deposited) = match (
        user_info.shares.checked_add(minted),
        next.total_shares.checked_add(minted),
        user_info.deposited_amount.checked_add(amount),
    ) {
        (Some(s), Some(t), Some(d)) => (s, t, d),
        _ => return Err(ErrorCode::MathOverflow),
    };
    next.total_shares = new_total;
    *vault = next;
    user_info.shares = new_shares;
    user_info.deposited_amount = new_deposited;
    user_info.last_update = now;
    Ok(minted)
}

/// Redeems `shares` of an unlocked position for assets. Returns the assets
/// to pay out.
pub fn withdraw(
    vault: &mut Vault,
    user_info: &mut UserInfo,
    shares: u64,
    token_balance: u64,
    now: i64,
) -> (r: Result<u64, ErrorCode>)
    requires
        old(vault).wf(),
        now >= old(vault).last_update_time,
    ensures
        final(vault).wf(),
        final(vault).borrow_index >= old(vault).borrow_index,
        match r {
            Ok(out) => withdraw_outcome(*old(vault), *old(user_info), shares, token_balance, now)
                == Ok::<(Vault, UserInfo, u64), ErrorCode>((*final(vault), *final(user_info), out)),
            Err(e) => {
                &&& withdraw_outcome(*old(vault), *old(user_info), shares, token_balance, now)
                    == Err::<(Vault, UserInfo, u64), ErrorCode>(e)
                &&& *final(vault) == *old(vault)
                &&& *final(user_info) == *old(user_info)
            },
        },
{
    if vault.is_paused {
        return Err(ErrorCode::VaultPaused);
    }
    if shares == 0 {
        return Err(ErrorCode::InvalidAmount);
    }
    if user_info.shares < shares {
        return Err(ErrorCode::InsufficientShares);
    }
    if now < user_info.locked_until {
        return Err(ErrorCode::StillLocked);
    }
    let mut next = *vault;
    match refresh_vault(&mut next, now, token_balance) {
        Ok(_) => {},
        Err(e) => return Err(e),
    }
    if next.total_shares < shares {
        return Err(ErrorCode::MathOverflow);
    }
    let total_assets = match get_total_assets(token_balance, &next) {
        Ok(t) => t,
        Err(e) => return Err(e),
    };
    let out = convert_to_assets(shares, total_assets, next.total_shares);
    if next.total_reserves > token_balance || out > token_balance - next.total_reserves {
        return Err(ErrorCode::InsufficientLiquidity);
    }
    next.total_shares = next.total_shares - shares;
    *vault = next;
    user_info.shares = user_info.shares - shares;
    user_info.last_update = now;
    Ok(out)
}

/// Result of a deposit by the holder of a credential: refused unless the
/// holder owns it.
pub open spec fn deposit_with_nft_outcome(
    v: Vault,
    p: UserInfo,
    amount: u64,
    balance: u64,
    now: i64,
    owns_nft: bool,
) -> Result<(Vault, UserInfo, u64), ErrorCode> {
    if !v.is_paused && amount != 0 && !owns_nft {
        Err(ErrorCode::InvalidOwnership)
    } else {
        deposit_outcome(v, p, amount, balance, now)
    }
}

/// A deposit by the holder of a credential; refused unless the holder owns it.
pub fn deposit_with_nft(
    vault: &mut Vault,
    user_info: &mut UserInfo,
    amount: u64,
    token_balance: u64,
    now: i64,
    owns_nft: bool,
) -> (r: Result<u64, ErrorCode>)
    requires
        old(vault).wf(),
        now >= old(vault).last_update_time,
    ensures
        final(vault).wf(),
        final(vault).borrow_index >= old(vault).borrow_index,
        match r {
            Ok(minted) => deposit_with_nft_outcome(
                *old(vault),
                *old(user_info),
                amount,
                token_balance,
                now,
                owns_nft,
            ) == Ok::<(Vault, UserInfo, u64), ErrorCode>(
                (*final(vault), *final(user_info), minted),
            ),
            Err(e) => {
                &&& deposit_with_nft_outcome(
                    *old(vault),
                    *old(user_info),
                    amount,
                    token_balance,
                    now,
                    owns_nft,
                ) == Err::<(Vault, UserInfo, u64), ErrorCode>(e)
                &&& *final(vault) == *old(vault)
                &&& *final(user_info) == *old(user_info)
            },
        },
{
    if !vault.is_paused && amount != 0 && !owns_nft {
        return Err(ErrorCode::InvalidOwnership);
    }
    deposit(vault, user_info, amount, token_balance, now)
}

/// Result of a withdrawal by the holder of a credential: refused unless the
/// holder owns it.
pub open spec fn withdraw_with_nft_outcome(
    v: Vault,
    p: UserInfo,
    shares: u64,
    balance: u64,
    now: i64,
    owns_nft: bool,
) -> Result<(Vault, UserInfo, u64), ErrorCode> {
    if !v.is_paused && shares != 0 && !owns_nft {
        Err(ErrorCode::InvalidOwnership)
    } else {
        withdraw_outcome(v, p, shares, balance, now)
    }
}

/// A withdrawal by the holder of a credential; refused unless the holder owns it.
pub fn withdraw_with_nft(
    vault: &mut Vault,
    user_info: &mut UserInfo,
    shares: u64,
    token_balance: u64,
    now: i64,
    owns_nft: bool,
) -> (r: Result<u64, ErrorCode>)
    requires
        old(vault).wf(),
        now >= old(vault).last_update_time,
    ensures
        final(vault).wf(),
        final(vault).borrow_index >= old(vault).borrow_index,
        match r {
            Ok(out) => withdraw_with_nft_outcome(
                *old(vault),
                *old(user_info),
                shares,
                token_balance,
                now,
                owns_nft,
            ) == Ok::<(Vault, UserInfo, u64), ErrorCode>(
                (*final(vault), *final(user_info), out),
            ),
            Err(e) => {
                &&& withdraw_with_nft_outcome(
                    *old(vault),
                    *old(user_info),
                    shares,
                    token_balance,
                    now,
                    owns_nft,
                ) == Err::<(Vault, UserInfo, u64), ErrorCode>(e)
                &&& *final(vault) == *old(vault)
                &&& *final(user_info) == *old(user_info)
            },
        },
{
    if !vault.is_paused && shares != 0 && !owns_nft {
        return Err(ErrorCode::InvalidOwnership);
    }
    withdraw(vault, user_info, shares, token_balance, now)
}

/// What a position's shares are worth at `now`, without changing the vault;
/// nothing while the vault has no shares.
pub open spec fn position_value_of(v: Vault, p: UserInfo, balance: u64, now: i64) -> Option<int> {
    match accrual_of(v, now as int) {
        None => None,
        Some(a) => {
            let assets = total_assets_of(a, balance as int);
            if !fits_u64(assets) {
                None
            } else if a.total_shares == 0 {
                Some(0)
            } else if !fits_u64(assets_for_shares(p.shares as int, assets, a.total_shares as int)) {
                None
            } else {
                Some(assets_for_shares(p.shares as int, assets, a.total_shares as int))
            }
        },
    }
}

/// What a position's shares are worth at `now`.
pub fn position_value(vault: &Vault, user_info: &UserInfo, token_balance: u64, now: i64) -> (r:
    Result<u64, ErrorCode>)
    requires
        vault.wf(),
        now >= vault.last_update_time,
    ensures
        match r {
            Ok(value) => position_value_of(*vault, *user_info, token_balance, now) == Some(
                value as int,
            ),
            Err(e) => e == ErrorCode::MathOverflow && position_value_of(
                *vault,
                *user_info,
                token_balance,
                now,
            ) is None,
        },
{
    let mut current = *vault;
    match update_interest(&mut current, now) {
        Ok(_) => {},
        Err(e) => return Err(e),
    }
    let total_assets = match get_total_assets(token_balance, &current) {
        Ok(t) => t,
        Err(e) => return Err(e),
    };
    if current.total_shares == 0 {
        return Ok(0);
    }
    scaled_mul_div(user_info.shares, total_assets, current.total_shares)
}

/// A position's holdings and their worth at `now`.
pub fn get_nft_position(vault: &Vault, user_info: &UserInfo, token_balance: u64, now: i64) -> (r:
    Result<NFTPositionInfo, ErrorCode>)
    requires
        vault.wf(),
        now >= vault.last_update_time,
    ensures
        match r {
            Ok(info) => {
                &&& position_value_of(*vault, *user_info, token_balance, now) == Some(
                    info.asset_value as int,
                )
                &&& info.shares == user_info.shares
                &&& info.deposited_amount == user_info.deposited_amount
                &&& info.last_update == user_info.last_update
            },
            Err(e) => e == ErrorCode::MathOverflow && position_value_of(
                *vault,
                *user_info,
                token_balance,
                now,
            ) is None,
        },
{
    match position_value(vault, user_info, token_balance, now) {
        Ok(asset_value) => Ok(
            NFTPositionInfo {
                shares: user_info.shares,
                asset_value,
                deposited_amount: user_info.deposited_amount,
                last_update: user_info.last_update,
            },
        ),
        Err(e) => Err(e),
    }
}

/// Result of moving every share of `source` onto `target`: the two new
/// positions and the shares moved. The source record stays, emptied.
pub open spec fn transfer_outcome(
    v: Vault,
    source: UserInfo,
    target: UserInfo,
    now: i64,
    owns_source: bool,
) -> Result<(UserInfo, UserInfo, u64), ErrorCode> {
    if v.is_paused {
        Err(ErrorCode::VaultPaused)
    } else if !owns_source {
        Err(ErrorCode::InvalidOwnership)
    } else if !fits_u64(target.shares + source.shares) || !fits_u64(
        target.deposited_amount + source.deposited_amount,
    ) {
        Err(ErrorCode::MathOverflow)
    } else {
        Ok(
            (
                UserInfo { shares: 0, deposited_amount: 0, last_update: now, ..source },
                UserInfo {
                    shares: (target.shares + source.shares) as u64,
                    deposited_amount: (target.deposited_amount + source.deposited_amount) as u64,
                    last_update: now,
                    ..target
                },
                source.shares,
            ),
        )
    }
}

/// Moves a whole position onto another identity. Returns the shares moved.
pub fn transfer_position_to_nft(
    vault: &Vault,
    source: &mut UserInfo,
    target: &mut UserInfo,
    now: i64,
    owns_source: bool,
) -> (r: Result<u64, ErrorCode>)
    ensures
        match r {
            Ok(moved) => transfer_outcome(*vault, *old(source), *old(target), now, owns_source)
                == Ok::<(UserInfo, UserInfo, u64), ErrorCode>(
                (*final(source), *final(target), moved),
            ),
            Err(e) => {
                &&& transfer_outcome(*vault, *old(source), *old(target), now, owns_source) == Err::<
                    (UserInfo, UserInfo, u64),
                    ErrorCode,
                >(e)
                &&& *final(source) == *old(source)
                &&& *final(target) == *old(target)
            },
        },
{
    if vault.is_paused {
        return Err(ErrorCode::VaultPaused);
    }
    if !owns_source {
        return Err(ErrorCode::InvalidOwnership);
    }
    let (shares, deposited) = match (
        target.shares.checked_add(source.shares),
        target.deposited_amount.checked_add(source.deposited_amount),
    ) {
        (Some(s), Some(d)) => (s, d),
        _ => return Err(ErrorCode::MathOverflow),
    };
    let moved = source.shares;
    target.shares = shares;
    target.deposited_amount = deposited;
    target.last_update = now;
    source.shares = 0;
    source.deposited_amount = 0;
    source.last_update = now;
    Ok(moved)
}

/// One deposit or withdrawal against the position in `slot`, with the
/// vault's holdings and the time it is made at.
pub enum ShareOp {
    Deposit { slot: usize, amount: u64, balance: u64, now: i64 },
    Withdraw { slot: usize, shares: u64, balance: u64, now: i64 },
}

/// Shares held over all positions.
pub open spec fn sum_shares(positions: Seq<UserInfo>) -> int
    decreases positions.len(),
{
    if positions.len() == 0 {
        0
    } else {
        sum_shares(positions.drop_last()) + positions.last().shares
    }
}

/// The vault and positions after one operation; a refused operation, or one
/// on a slot that holds no position, changes nothing.
pub open spec fn apply_share_op(v: Vault, positions: Seq<UserInfo>, op: ShareOp) -> (
    Vault,
    Seq<UserInfo>,
) {
    match op {
        ShareOp::Deposit { slot, amount, balance, now } => {
            if slot < positions.len() {
                match deposit_outcome(v, positions[slot as int], amount, balance, now) {
                    Ok((w, q, _)) => (w, positions.update(slot as int, q)),
                    Err(_) => (v, positions),
                }
            } else {
                (v, positions)
            }
        },
        ShareOp::Withdraw { slot, shares, balance, now } => {
            if slot < positions.len() {
                match withdraw_outcome(v, positions[slot as int], shares, balance, now) {
                    Ok((w, q, _)) => (w, positions.update(slot as int, q)),
                    Err(_) => (v, positions),
                }
            } else {
                (v, positions)
            }
        },
    }
}

/// The vault and positions after a sequence of operations, in order.
pub open spec fn apply_share_ops(v: Vault, positions: Seq<UserInfo>, ops: Seq<ShareOp>) -> (
    Vault,
    Seq<UserInfo>,
)
    decreases ops.len(),
{
    if ops.len() == 0 {
        (v, positions)
    } else {
        let prev = apply_share_ops(v, positions, ops.drop_last());
        apply_share_op(prev.0, prev.1, ops.last())
    }
}

proof fn lemma_sum_shares_update(positions: Seq<UserInfo>, i: int, q: UserInfo)
    requires
        0 <= i < positions.len(),
    ensures
        sum_shares(positions.update(i, q)) == sum_shares(positions) - positions[i].shares
            + q.shares,
    decreases positions.len(),
{
    let updated = positions.update(i, q);
    if i == positions.len() - 1 {
        assert(updated.drop_last() =~= positions.drop_last());
    } else {
        assert(updated.drop_last() =~= positions.drop_last().update(i, q));
        lemma_sum_shares_update(positions.drop_last(), i, q);
    }
}

proof fn lemma_share_op_conserves(v: Vault, positions: Seq<UserInfo>, op: ShareOp)
    requires
        sum_shares(positions) == v.total_shares,
    ensures
        sum_shares(apply_share_op(v, positions, op).1) == apply_share_op(
            v,
            positions,
            op,
        ).0.total_shares,
{
    match op {
        ShareOp::Deposit { slot, amount, balance, now } => {
            if slot < positions.len() {
                lemma_accrue_keeps_shares(v, now as int, balance as int);
                let p = positions[slot as int];
                if let Ok((_, q, _)) = deposit_outcome(v, p, amount, balance, now) {
                    lemma_sum_shares_update(positions, slot as int, q);
                }
            }
        },
        ShareOp::Withdraw { slot, shares, balance, now } => {
            if slot < positions.len() {
                lemma_accrue_keeps_shares(v, now as int, balance as int);
                let p = positions[slot as int];
                if let Ok((_, q, _)) = withdraw_outcome(v, p, shares, balance, now) {
                    lemma_sum_shares_update(positions, slot as int, q);
                }
            }
        },
    }
}

/// Over any sequence of deposits and withdrawals, the shares held by all
/// positions together stay equal to the vault's total.
pub proof fn lemma_share_conservation(v: Vault, positions: Seq<UserInfo>, ops: Seq<ShareOp>)
    requires
        sum_shares(positions) == v.total_shares,
    ensures
        sum_shares(apply_share_ops(v, positions, ops).1) == apply_share_ops(
            v,
            positions,
            ops,
        ).0.total_shares,
    decreases ops.len(),
{
    if ops.len() > 0 {
        lemma_share_conservation(v, positions, ops.drop_last());
        let prev = apply_share_ops(v, positions, ops.drop_last());
        lemma_share_op_conserves(prev.0, prev.1, ops.last());
    }
}

/// In an empty vault, redeeming at once all the shares a deposit minted pays
/// back exactly the deposit.
pub proof fn lemma_deposit_withdraw_round_trip(v: Vault, p: UserInfo, amount: u64, now: i64)
    requires
        v.wf(),
        v.total_shares == 0,
        v.total_borrowed == 0,
        v.total_reserves == 0,
        p.locked_until <= now,
        deposit_outcome(v, p, amount, 0, now) is Ok,
    ensures
        match deposit_outcome(v, p, amount, 0, now) {
            Ok((w, q, minted)) => minted == amount && match withdraw_outcome(
                w,
                q,
                minted,
                amount,
                now,
            ) {
                Ok((_, _, out)) => out == amount,
                Err(_) => false,
            },
            Err(_) => false,
        },
{
    lemma_accrue_keeps_shares(v, now as int, 0);
    assert((amount as int) * (amount as int) / (amount as int) == amount as int) by (nonlinear_arith)
        requires
            amount > 0,
    ;
}

} // verus!
