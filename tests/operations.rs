use vault::admin::{
    initialize_vault, pause_vault, set_reserve_factor, unpause_vault, withdraw_reserves,
};
use vault::constants::{BASE_RATE, INITIAL_BORROW_INDEX, SECONDS_PER_DAY, SECONDS_PER_YEAR};
use vault::error::ErrorCode;
use vault::interest::{accrue, get_total_assets, update_interest};
use vault::lending::{borrow, borrow_with_nft, current_debt, repay};
use vault::lock::{lock, withdraw_early};
use vault::shares::{
    convert_to_assets, convert_to_shares, deposit, deposit_with_nft, get_nft_position, withdraw,
    withdraw_with_nft, transfer_position_to_nft,
};
use vault::state::{BorrowInfo, EarlyWithdrawal, LockTier, UserInfo, Vault};

const START: i64 = 1_700_000_000;
const TENTH: u64 = 100_000_000;

fn fresh_vault() -> Vault {
    initialize_vault(TENTH, START).unwrap()
}

#[test]
fn initialize_sets_starting_values() {
    let v = fresh_vault();
    assert_eq!(v.total_shares, 0);
    assert_eq!(v.total_borrowed, 0);
    assert_eq!(v.total_reserves, 0);
    assert_eq!(v.borrow_index, INITIAL_BORROW_INDEX);
    assert_eq!(v.borrow_rate, BASE_RATE);
    assert_eq!(v.reserve_factor, TENTH);
    assert_eq!(v.last_update_time, START);
    assert!(!v.is_paused);
}

#[test]
fn initialize_rejects_high_reserve_factor() {
    assert_eq!(initialize_vault(500_000_000, START).map(|v| v.reserve_factor), Ok(500_000_000));
    assert_eq!(initialize_vault(500_000_001, START), Err(ErrorCode::ReserveFactorTooHigh));
}

#[test]
fn first_deposit_mints_one_share_per_asset() {
    let mut v = fresh_vault();
    let mut p = UserInfo::new();
    assert_eq!(deposit(&mut v, &mut p, 1_000, 0, START), Ok(1_000));
    assert_eq!(p.shares, 1_000);
    assert_eq!(p.deposited_amount, 1_000);
    assert_eq!(v.total_shares, 1_000);
}

#[test]
fn deposit_then_withdraw_all_returns_deposit() {
    let mut v = fresh_vault();
    let mut p = UserInfo::new();
    let minted = deposit(&mut v, &mut p, 1_000, 0, START).unwrap();
    assert_eq!(withdraw(&mut v, &mut p, minted, 1_000, START), Ok(1_000));
    assert_eq!(p.shares, 0);
    assert_eq!(v.total_shares, 0);
}

#[test]
fn later_deposit_priced_before_transfer() {
    let mut v = fresh_vault();
    let mut a = UserInfo::new();
    let mut b = UserInfo::new();
    deposit(&mut v, &mut a, 1_000, 0, START).unwrap();
    // the vault has grown to 2_000 through a donation: shares are worth 2 each
    assert_eq!(deposit(&mut v, &mut b, 1_000, 2_000, START), Ok(500));
    assert_eq!(v.total_shares, 1_500);
    // rounding favours the vault
    assert_eq!(deposit(&mut v, &mut b, 1, 3_000, START), Ok(0));
}

#[test]
fn deposit_into_worthless_vault_is_one_for_one() {
    let mut v = fresh_vault();
    v.total_shares = 50;
    let mut p = UserInfo::new();
    assert_eq!(deposit(&mut v, &mut p, 70, 0, START), Ok(70));
    assert_eq!(v.total_shares, 120);
}

#[test]
fn conversions() {
    assert_eq!(convert_to_shares(100, 0, 0), Ok(100));
    assert_eq!(convert_to_shares(100, 300, 600), Ok(50));
    assert_eq!(convert_to_assets(50, 600, 300), 100);
    assert_eq!(convert_to_assets(1, 2, 3), 0);
}

#[test]
fn shares_sum_to_total_over_deposits_and_withdrawals() {
    let mut v = fresh_vault();
    let mut ps = [UserInfo::new(), UserInfo::new(), UserInfo::new()];
    let mut balance: u64 = 0;
    let steps: [(usize, bool, u64); 7] = [
        (0, true, 1_000),
        (1, true, 333),
        (2, true, 77),
        (0, false, 400),
        (1, true, 9),
        (2, false, 77),
        (1, false, 100),
    ];
    for (who, is_deposit, amount) in steps {
        if is_deposit {
            deposit(&mut v, &mut ps[who], amount, balance, START).unwrap();
            balance += amount;
        } else {
            let out = withdraw(&mut v, &mut ps[who], amount, balance, START).unwrap();
            balance -= out;
        }
        let sum: u64 = ps.iter().map(|p| p.shares).sum();
        assert_eq!(sum, v.total_shares);
    }
}

#[test]
fn refused_operations_leave_state_unchanged() {
    let mut v = fresh_vault();
    let mut p = UserInfo::new();
    deposit(&mut v, &mut p, 1_000, 0, START).unwrap();
    let (v0, p0) = (v, p);
    assert_eq!(withdraw(&mut v, &mut p, 2_000, 1_000, START + 5), Err(ErrorCode::InsufficientShares));
    assert_eq!((v, p), (v0, p0));
    // half of the assets are lent out, so only 500 are held
    v.total_borrowed = 500;
    let v1 = v;
    assert_eq!(withdraw(&mut v, &mut p, 1_000, 500, START), Err(ErrorCode::InsufficientLiquidity));
    assert_eq!((v, p), (v1, p0));
}

#[test]
fn paused_vault_refuses_operations() {
    let mut v = fresh_vault();
    let mut p = UserInfo::new();
    pause_vault(&mut v);
    assert!(v.is_paused);
    assert_eq!(deposit(&mut v, &mut p, 1_000, 0, START), Err(ErrorCode::VaultPaused));
    assert_eq!(accrue(&mut v, START + 10, 0).map(|e| e.new_index), Err(ErrorCode::VaultPaused));
    assert_eq!(set_reserve_factor(&mut v, 0, 0, START), Err(ErrorCode::VaultPaused));
    unpause_vault(&mut v);
    assert!(!v.is_paused);
    assert_eq!(deposit(&mut v, &mut p, 1_000, 0, START), Ok(1_000));
}

#[test]
fn zero_amounts_are_invalid() {
    let mut v = fresh_vault();
    let mut p = UserInfo::new();
    let mut b = BorrowInfo::new();
    assert_eq!(deposit(&mut v, &mut p, 0, 0, START), Err(ErrorCode::InvalidAmount));
    assert_eq!(withdraw(&mut v, &mut p, 0, 0, START), Err(ErrorCode::InvalidAmount));
    assert_eq!(lock(&mut v, &mut p, 0, 1, 0, START), Err(ErrorCode::InvalidAmount));
    assert_eq!(borrow(&mut v, &mut b, 0, u64::MAX, 0, START), Err(ErrorCode::InvalidAmount));
    assert_eq!(repay(&mut v, &mut b, 0, 0, START), Err(ErrorCode::InvalidAmount));
}

#[test]
fn credential_operations_require_ownership() {
    let mut v = fresh_vault();
    let mut p = UserInfo::new();
    assert_eq!(deposit_with_nft(&mut v, &mut p, 500, 0, START, false), Err(ErrorCode::InvalidOwnership));
    assert_eq!(deposit_with_nft(&mut v, &mut p, 500, 0, START, true), Ok(500));
    assert_eq!(withdraw_with_nft(&mut v, &mut p, 100, 500, START, false), Err(ErrorCode::InvalidOwnership));
    assert_eq!(withdraw_with_nft(&mut v, &mut p, 100, 500, START, true), Ok(100));
    assert_eq!(p.shares, 400);
}

#[test]
fn interest_accrual_over_a_year() {
    let mut v = Vault {
        total_shares: 0,
        total_locked_shares: 0,
        total_borrowed: 1_000_000,
        borrow_index: 1_000_000_000,
        borrow_rate: 20_000_000,
        reserve_factor: TENTH,
        total_reserves: 0,
        last_update_time: 0,
        is_paused: false,
    };
    let event = update_interest(&mut v, SECONDS_PER_YEAR).unwrap();
    assert_eq!(event.new_index, 1_020_000_000);
    assert_eq!(event.total_interest, 20_000);
    assert_eq!(v.borrow_index, 1_020_000_000);
    assert_eq!(v.total_borrowed, 1_020_000);
    assert_eq!(v.total_reserves, 2_000);
    assert_eq!(v.last_update_time, SECONDS_PER_YEAR);
}

#[test]
fn accrual_at_same_time_changes_nothing() {
    let mut v = fresh_vault();
    v.total_borrowed = 500;
    let before = v;
    let event = update_interest(&mut v, START).unwrap();
    assert_eq!(event.total_interest, 0);
    assert_eq!(v, before);
}

#[test]
fn borrow_index_never_decreases_over_accruals() {
    let mut v = fresh_vault();
    v.total_borrowed = 5_000;
    let mut last = v.borrow_index;
    for t in [START, START + 1, START + 3_600, START + 3_600, START + SECONDS_PER_DAY, START + SECONDS_PER_YEAR] {
        accrue(&mut v, t, 10_000).unwrap();
        assert!(v.borrow_index >= last);
        last = v.borrow_index;
    }
    assert!(v.borrow_index > INITIAL_BORROW_INDEX);
}

#[test]
fn accrue_reprices_rate() {
    let mut v = fresh_vault();
    v.total_borrowed = 100;
    let event = accrue(&mut v, START, 900).unwrap();
    assert_eq!(event.total_interest, 0);
    assert_eq!(v.borrow_rate, 38_000_000);
}

#[test]
fn total_assets_counts_loans_and_excludes_reserves() {
    let mut v = fresh_vault();
    v.total_borrowed = 300;
    v.total_reserves = 50;
    assert_eq!(get_total_assets(1_000, &v), Ok(1_250));
    v.total_reserves = 2_000;
    assert_eq!(get_total_assets(1_000, &v), Err(ErrorCode::MathOverflow));
}

#[test]
fn lock_then_early_withdrawal_pays_penalty() {
    let mut v = fresh_vault();
    let mut p = UserInfo::new();
    assert_eq!(lock(&mut v, &mut p, 10_000, 1, 0, START), Ok(10_000));
    assert_eq!(p.lock_tier, LockTier::Short);
    assert_eq!(p.locked_until, START + 30 * SECONDS_PER_DAY);
    assert_eq!(p.deposit_time, START);
    assert_eq!(v.total_locked_shares, 10_000);
    let reserves_before = v.total_reserves;
    let out = withdraw_early(&mut v, &mut p, 10_000, 10_000, START + 100).unwrap();
    assert_eq!(
        out,
        EarlyWithdrawal { amount: 9_000, penalty: 1_000, time_remaining: 30 * SECONDS_PER_DAY - 100 }
    );
    assert_eq!(v.total_reserves, reserves_before + 1_000);
    assert_eq!(p.shares, 0);
    assert_eq!(v.total_shares, 0);
}

#[test]
fn locked_position_refuses_regular_withdrawal() {
    let mut v = fresh_vault();
    let mut p = UserInfo::new();
    lock(&mut v, &mut p, 1_000, 2, 0, START).unwrap();
    assert_eq!(withdraw(&mut v, &mut p, 1_000, 1_000, START + 10), Err(ErrorCode::StillLocked));
    let end = p.locked_until;
    assert_eq!(withdraw_early(&mut v, &mut p, 1_000, 1_000, end), Err(ErrorCode::NotLockedForEarlyWithdrawal));
    assert_eq!(withdraw(&mut v, &mut p, 1_000, 1_000, end), Ok(1_000));
}

#[test]
fn lock_top_up_keeps_tier_and_restarts_lock() {
    let mut v = fresh_vault();
    let mut p = UserInfo::new();
    lock(&mut v, &mut p, 1_000, 1, 0, START).unwrap();
    assert_eq!(lock(&mut v, &mut p, 1_000, 3, 1_000, START + 50), Err(ErrorCode::TierMismatch));
    assert_eq!(lock(&mut v, &mut p, 1_000, 1, 1_000, START + 50), Ok(1_000));
    assert_eq!(p.locked_until, START + 50 + 30 * SECONDS_PER_DAY);
    assert_eq!(p.deposit_time, START);
    assert_eq!(p.shares, 2_000);
    assert_eq!(v.total_locked_shares, 2_000);
}

#[test]
fn lock_rejects_unknown_tier() {
    let mut v = fresh_vault();
    let mut p = UserInfo::new();
    assert_eq!(lock(&mut v, &mut p, 1_000, 4, 0, START), Err(ErrorCode::InvalidLockTier));
}

#[test]
fn borrow_and_repay_move_total_borrowed_and_rate() {
    let mut v = fresh_vault();
    let mut p = UserInfo::new();
    let mut b = BorrowInfo::new();
    deposit(&mut v, &mut p, 1_000, 0, START).unwrap();
    assert_eq!(borrow(&mut v, &mut b, 100, u64::MAX, 1_000, START), Ok(()));
    assert_eq!(b, BorrowInfo { borrowed: 100, borrow_index: INITIAL_BORROW_INDEX });
    assert_eq!(v.total_borrowed, 100);
    assert_eq!(v.borrow_rate, 38_000_000);
    assert_eq!(repay(&mut v, &mut b, 150, 900, START), Ok(100));
    assert_eq!(b.borrowed, 0);
    assert_eq!(v.total_borrowed, 0);
    assert_eq!(v.borrow_rate, BASE_RATE);
    assert_eq!(repay(&mut v, &mut b, 10, 1_000, START), Err(ErrorCode::NoDebtToRepay));
}

#[test]
fn debt_grows_with_index() {
    let mut v = fresh_vault();
    let mut p = UserInfo::new();
    let mut b = BorrowInfo::new();
    deposit(&mut v, &mut p, 1_000, 0, START).unwrap();
    borrow(&mut v, &mut b, 100, u64::MAX, 1_000, START).unwrap();
    let later = START + SECONDS_PER_YEAR;
    assert_eq!(repay(&mut v, &mut b, 1, 900, later), Ok(1));
    assert_eq!(v.borrow_index, 1_038_000_000);
    assert_eq!(v.total_borrowed, 102);
    assert_eq!(b.borrowed, 102);
    assert_eq!(current_debt(&b, v.borrow_index), Ok(102));
    assert_eq!(current_debt(&BorrowInfo::new(), v.borrow_index), Ok(0));
}

#[test]
fn borrow_needs_liquidity_and_collateral() {
    let mut v = fresh_vault();
    let mut p = UserInfo::new();
    let mut b = BorrowInfo::new();
    deposit(&mut v, &mut p, 1_000, 0, START).unwrap();
    assert_eq!(borrow(&mut v, &mut b, 1_001, u64::MAX, 1_000, START), Err(ErrorCode::InsufficientLiquidity));
    assert_eq!(borrow(&mut v, &mut b, 100, 99, 1_000, START), Err(ErrorCode::InsufficientCollateral));
    assert_eq!(borrow_with_nft(&mut v, &p, &mut b, 501, 1_000, START, true), Err(ErrorCode::InsufficientCollateral));
    assert_eq!(borrow_with_nft(&mut v, &p, &mut b, 500, 1_000, START, false), Err(ErrorCode::InvalidOwnership));
    assert_eq!(borrow_with_nft(&mut v, &p, &mut b, 500, 1_000, START, true), Ok(()));
    assert_eq!(b.borrowed, 500);
}

#[test]
fn position_info_reports_value() {
    let mut v = fresh_vault();
    let mut p = UserInfo::new();
    deposit(&mut v, &mut p, 1_000, 0, START).unwrap();
    let info = get_nft_position(&v, &p, 3_000, START).unwrap();
    assert_eq!(info.shares, 1_000);
    assert_eq!(info.asset_value, 3_000);
    assert_eq!(info.deposited_amount, 1_000);
    let empty = get_nft_position(&fresh_vault(), &UserInfo::new(), 3_000, START).unwrap();
    assert_eq!(empty.asset_value, 0);
}

#[test]
fn position_transfer_moves_everything() {
    let v = fresh_vault();
    let mut source = UserInfo { shares: 40, deposited_amount: 45, ..UserInfo::new() };
    let mut target = UserInfo { shares: 10, deposited_amount: 12, ..UserInfo::new() };
    assert_eq!(transfer_position_to_nft(&v, &mut source, &mut target, START, false), Err(ErrorCode::InvalidOwnership));
    assert_eq!(transfer_position_to_nft(&v, &mut source, &mut target, START, true), Ok(40));
    assert_eq!((source.shares, source.deposited_amount), (0, 0));
    assert_eq!((target.shares, target.deposited_amount), (50, 57));
    assert_eq!(target.last_update, START);
}

#[test]
fn reserves_are_claimable_up_to_their_total() {
    let mut v = fresh_vault();
    v.total_reserves = 700;
    assert_eq!(withdraw_reserves(&mut v, 701, 1_000, START), Err(ErrorCode::InsufficientReserves));
    assert_eq!(withdraw_reserves(&mut v, 700, 1_000, START), Ok(()));
    assert_eq!(v.total_reserves, 0);
}

#[test]
fn reserve_factor_update_is_bounded() {
    let mut v = fresh_vault();
    assert_eq!(set_reserve_factor(&mut v, 600_000_000, 0, START), Err(ErrorCode::ReserveFactorTooHigh));
    assert_eq!(set_reserve_factor(&mut v, 250_000_000, 0, START), Ok(()));
    assert_eq!(v.reserve_factor, 250_000_000);
}

#[test]
fn overflowing_accrual_is_refused() {
    let mut v = fresh_vault();
    v.borrow_rate = u64::MAX;
    v.last_update_time = 0;
    let before = v;
    assert_eq!(update_interest(&mut v, i64::MAX).map(|e| e.new_index), Err(ErrorCode::MathOverflow));
    assert_eq!(v, before);
}

#[test]
fn accrue_twice_at_same_time_is_idempotent() {
    let mut v = fresh_vault();
    v.total_borrowed = 2_000;
    accrue(&mut v, START + SECONDS_PER_DAY, 8_000).unwrap();
    let once = v;
    let again = accrue(&mut v, START + SECONDS_PER_DAY, 8_000).unwrap();
    assert_eq!(again.total_interest, 0);
    assert_eq!(v, once);
}

#[test]
fn deposit_price_taken_before_or_after_transfer() {
    let mut v = fresh_vault();
    let mut first = UserInfo::new();
    deposit(&mut v, &mut first, 1_000, 0, START).unwrap();
    let (v0, second) = (v, UserInfo::new());
    // holdings as they were before the incoming 1_000: a fair price
    let (mut before, mut p) = (v0, second);
    assert_eq!(deposit(&mut before, &mut p, 1_000, 1_000, START), Ok(1_000));
    // holdings that already count the incoming 1_000: the depositor dilutes itself
    let (mut after, mut q) = (v0, second);
    assert_eq!(deposit(&mut after, &mut q, 1_000, 2_000, START), Ok(500));
}

#[test]
fn would_be_negative_totals_are_errors() {
    // a position claiming more shares than the vault has outstanding
    let mut v = fresh_vault();
    v.total_shares = 10;
    let mut p = UserInfo { shares: 20, ..UserInfo::new() };
    assert_eq!(withdraw(&mut v, &mut p, 20, 1_000, START), Err(ErrorCode::MathOverflow));
    // a debt larger than the vault's recorded total
    let mut v = fresh_vault();
    v.total_borrowed = 5;
    let mut b = BorrowInfo { borrowed: 50, borrow_index: INITIAL_BORROW_INDEX };
    assert_eq!(repay(&mut v, &mut b, 50, 1_000, START), Err(ErrorCode::MathOverflow));
    assert_eq!(v.total_borrowed, 5);
    assert_eq!(b.borrowed, 50);
    // reserves above what the vault is worth
    let mut v = fresh_vault();
    v.total_reserves = 10;
    let mut p = UserInfo::new();
    assert_eq!(deposit(&mut v, &mut p, 1, 5, START), Err(ErrorCode::MathOverflow));
}
