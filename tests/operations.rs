use amm_core::{
    deposit, initialize, AmmError, Asset, Config, Deposit, Key, LedgerOp, Swap, Withdraw,
};

fn key(n: u64) -> Key {
    Key { w0: n, w1: 0, w2: 0, w3: 0 }
}

fn config(locked: bool, fee: u16) -> Config {
    let mut c = initialize(7, fee, Some(key(42)), key(1), key(2), 250, 251, 252).unwrap();
    if locked {
        c.set_locked(key(42), true).unwrap();
    }
    c
}

fn swap_ctx(locked: bool, fee: u16, x: u64, y: u64) -> Swap {
    Swap { config: config(locked, fee), vault_x: x, vault_y: y, decimals_x: 6, decimals_y: 9 }
}

fn withdraw_ctx(locked: bool, x: u64, y: u64, supply: u64) -> Withdraw {
    Withdraw {
        config: config(locked, 0),
        vault_x: x,
        vault_y: y,
        lp_supply: supply,
        decimals_x: 6,
        decimals_y: 9,
    }
}

fn deposit_ctx(locked: bool, x: u64, y: u64, supply: u64) -> Deposit {
    Deposit {
        config: config(locked, 0),
        vault_x: x,
        vault_y: y,
        lp_supply: supply,
        decimals_x: 6,
        decimals_y: 9,
    }
}

#[test]
fn initialize_validates() {
    let c = initialize(1, 30, None, key(10), key(11), 1, 2, 3).unwrap();
    assert_eq!(c.fee, 30);
    assert!(!c.locked);
    assert_eq!((c.mint_x, c.mint_y, c.seed), (key(10), key(11), 1));
    assert_eq!(initialize(1, 10001, None, key(10), key(11), 1, 2, 3), Err(AmmError::InvalidFee));
    assert_eq!(initialize(1, 30, None, key(10), Key { w0: 10, w1: 0, w2: 0, w3: 0 }, 1, 2, 3), Err(AmmError::IdenticalAssets));
}

#[test]
fn lock_needs_authority() {
    let mut c = config(false, 0);
    assert_eq!(c.set_locked(key(41), true), Err(AmmError::Unauthorized));
    let near = Key { w0: 42, w1: 0, w2: 0, w3: 1 };
    assert_eq!(c.set_locked(near, true), Err(AmmError::Unauthorized));
    assert!(!c.locked);
    assert_eq!(c.set_locked(key(42), true), Ok(()));
    assert!(c.locked);
    assert_eq!(c.set_locked(key(42), false), Ok(()));
    assert!(!c.locked);
    let mut fixed = initialize(1, 0, None, key(1), key(2), 0, 0, 0).unwrap();
    assert_eq!(fixed.set_locked(key(42), true), Err(AmmError::Unauthorized));
    assert!(!fixed.locked);
}

#[test]
fn swap_x_for_y() {
    let s = swap_ctx(false, 0, 1000, 1000);
    assert_eq!(
        s.swap(true, 100, 90, 100, 50),
        Ok(vec![
            LedgerOp::PayIn { asset: Asset::X, amount: 100, decimals: 6 },
            LedgerOp::PayOut { asset: Asset::Y, amount: 90, decimals: 9 },
        ])
    );
}

#[test]
fn swap_y_for_x() {
    let s = swap_ctx(false, 30, 2000, 1000);
    assert_eq!(
        s.swap(false, 1000, 1, 100, 100),
        Ok(vec![
            LedgerOp::PayIn { asset: Asset::Y, amount: 1000, decimals: 9 },
            LedgerOp::PayOut { asset: Asset::X, amount: 998, decimals: 6 },
        ])
    );
}

#[test]
fn swap_guards() {
    assert_eq!(swap_ctx(true, 0, 1000, 1000).swap(true, 100, 1, 100, 200), Err(AmmError::Locked));
    assert_eq!(swap_ctx(true, 0, 1000, 1000).swap(true, 0, 5000, 0, 0), Err(AmmError::Locked));
    assert_eq!(swap_ctx(false, 0, 1000, 1000).swap(true, 100, 1, 100, 101), Err(AmmError::Expired));
    assert_eq!(swap_ctx(false, 0, 1000, 1000).swap(true, 0, 1, 100, 100), Err(AmmError::ZeroAmount));
}

#[test]
fn swap_floor_at_or_above_reserve_is_slippage() {
    let s = swap_ctx(false, 0, 1000, 1000);
    assert_eq!(s.swap(true, 100, 1000, 100, 0), Err(AmmError::SlippageExceeded));
    assert_eq!(s.swap(true, 100, u64::MAX, 100, 0), Err(AmmError::SlippageExceeded));
}

#[test]
fn swap_on_empty_reserve_is_insufficient_liquidity() {
    let empty_in = swap_ctx(false, 0, 0, 1000);
    assert_eq!(empty_in.swap(true, 100, 1, 100, 0), Err(AmmError::InsufficientLiquidity));
    let empty_out = swap_ctx(false, 0, 1000, 0);
    assert_eq!(empty_out.swap(true, 100, 0, 100, 0), Err(AmmError::InsufficientLiquidity));
    assert_eq!(empty_out.swap(false, 100, 0, 100, 0), Err(AmmError::InsufficientLiquidity));
}

#[test]
fn swap_slippage() {
    let s = swap_ctx(false, 0, 1000, 1000);
    assert_eq!(s.swap(true, 100, 91, 100, 0), Err(AmmError::SlippageExceeded));
}

#[test]
fn swap_overflowing_vault_fails() {
    let s = swap_ctx(false, 0, u64::MAX, 1000);
    assert_eq!(s.swap(true, 1, 0, 100, 0), Err(AmmError::ArithmeticOverflow));
}

#[test]
fn swap_single_moves() {
    let s = swap_ctx(false, 0, 1, 1);
    assert_eq!(s.deposit(false, 5), LedgerOp::PayIn { asset: Asset::Y, amount: 5, decimals: 9 });
    assert_eq!(s.withdraw(true, 5), LedgerOp::PayOut { asset: Asset::X, amount: 5, decimals: 6 });
}

#[test]
fn withdraw_pays_then_burns() {
    let w = withdraw_ctx(false, 1001, 509, 100);
    assert_eq!(
        w.withdraw(10, 100, 50, 10, 10),
        Ok(vec![
            LedgerOp::PayOut { asset: Asset::X, amount: 100, decimals: 6 },
            LedgerOp::PayOut { asset: Asset::Y, amount: 50, decimals: 9 },
            LedgerOp::BurnShares { amount: 10 },
        ])
    );
}

#[test]
fn withdraw_errors_in_order() {
    assert_eq!(withdraw_ctx(true, 1001, 509, 100).withdraw(10, 1, 1, 0, 10), Err(AmmError::Locked));
    assert_eq!(withdraw_ctx(false, 1001, 509, 100).withdraw(10, 1, 1, 0, 10), Err(AmmError::Expired));
    assert_eq!(withdraw_ctx(false, 1001, 509, 100).withdraw(10, 0, 1, 10, 0), Err(AmmError::ZeroAmount));
    assert_eq!(withdraw_ctx(false, 1001, 509, 0).withdraw(10, 1, 1, 10, 0), Err(AmmError::DivideByZero));
    assert_eq!(
        withdraw_ctx(false, 1001, 509, 100).withdraw(101, 1, 1, 10, 0),
        Err(AmmError::InsufficientShares)
    );
    assert_eq!(
        withdraw_ctx(false, 1001, 509, 100).withdraw(10, 100, 51, 10, 0),
        Err(AmmError::SlippageExceeded)
    );
}

#[test]
fn withdraw_single_steps() {
    let w = withdraw_ctx(false, 1, 1, 1);
    assert_eq!(w.withdraw_tokens(false, 3), LedgerOp::PayOut { asset: Asset::Y, amount: 3, decimals: 9 });
    assert_eq!(w.burn_lp_tokens(3), LedgerOp::BurnShares { amount: 3 });
}

#[test]
fn first_deposit_sets_price() {
    let d = deposit_ctx(false, 0, 0, 0);
    assert_eq!(
        deposit(&d, 500, 40, 70, 10, 10),
        Ok(vec![
            LedgerOp::PayIn { asset: Asset::X, amount: 40, decimals: 6 },
            LedgerOp::PayIn { asset: Asset::Y, amount: 70, decimals: 9 },
            LedgerOp::MintShares { amount: 500 },
        ])
    );
}

#[test]
fn later_deposit_is_proportional() {
    let d = deposit_ctx(false, 1001, 500, 100);
    assert_eq!(
        d.deposit(10, 101, 50, 10, 0),
        Ok(vec![
            LedgerOp::PayIn { asset: Asset::X, amount: 101, decimals: 6 },
            LedgerOp::PayIn { asset: Asset::Y, amount: 50, decimals: 9 },
            LedgerOp::MintShares { amount: 10 },
        ])
    );
    assert_eq!(d.deposit(10, 100, 50, 10, 0), Err(AmmError::SlippageExceeded));
}

#[test]
fn deposit_errors_in_order() {
    assert_eq!(deposit_ctx(true, 10, 10, 10).deposit(0, 0, 0, 0, 10), Err(AmmError::Locked));
    assert_eq!(deposit_ctx(false, 10, 10, 10).deposit(1, 1, 1, 0, 10), Err(AmmError::Expired));
    assert_eq!(deposit_ctx(false, 10, 10, 10).deposit(1, 0, 1, 10, 0), Err(AmmError::ZeroAmount));
    assert_eq!(deposit_ctx(false, 0, 10, 10).deposit(1, 5, 5, 10, 0), Err(AmmError::ZeroLiquidity));
    assert_eq!(
        deposit_ctx(false, u64::MAX, 1, 1).deposit(2, u64::MAX, u64::MAX, 10, 0),
        Err(AmmError::ArithmeticOverflow)
    );
    assert_eq!(
        deposit_ctx(false, u64::MAX, 1, 1).deposit(1, u64::MAX, u64::MAX, 10, 0),
        Err(AmmError::ArithmeticOverflow)
    );
    assert_eq!(
        deposit_ctx(false, 1, 1, u64::MAX).deposit(1, 5, 5, 10, 0),
        Err(AmmError::ArithmeticOverflow)
    );
}

#[test]
fn deposit_single_steps() {
    let d = deposit_ctx(false, 1, 1, 1);
    assert_eq!(d.deposit_tokens(true, 3), LedgerOp::PayIn { asset: Asset::X, amount: 3, decimals: 6 });
    assert_eq!(d.mint_lp_tokens(3), LedgerOp::MintShares { amount: 3 });
}

#[test]
fn deposit_then_withdraw_returns_no_more() {
    let d = deposit_ctx(false, 1001, 333, 97);
    let ops = d.deposit(13, 1000, 1000, 10, 0).unwrap();
    let (ax, ay) = match (ops[0], ops[1]) {
        (LedgerOp::PayIn { amount: a, .. }, LedgerOp::PayIn { amount: b, .. }) => (a, b),
        _ => panic!("unexpected ops"),
    };
    let w = withdraw_ctx(false, 1001 + ax, 333 + ay, 97 + 13);
    let out = w.withdraw(13, 1, 1, 10, 0).unwrap();
    match (out[0], out[1]) {
        (LedgerOp::PayOut { amount: a, .. }, LedgerOp::PayOut { amount: b, .. }) => {
            assert!(a <= ax && b <= ay);
        }
        _ => panic!("unexpected ops"),
    }
}
