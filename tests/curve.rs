use amm_core::curve::{deposit_amounts_for_shares, swap_output, withdraw_amounts_from_shares};
use amm_core::AmmError;

#[test]
fn swap_without_fee_on_even_pool() {
    assert_eq!(swap_output(1000, 1000, 100, 0), Ok(90));
}

#[test]
fn swap_with_fee_truncates_input() {
    // 100 * 9970 / 10000 = 99 reaches the curve; 1000 * 99 / 1099 = 90.08...
    assert_eq!(swap_output(1000, 1000, 100, 30), Ok(90));
    // 1000 * 9970 / 10000 = 997; 2000 * 997 / 1997 = 998.49...
    assert_eq!(swap_output(1000, 2000, 1000, 30), Ok(998));
}

#[test]
fn swap_with_full_fee_pays_nothing() {
    assert_eq!(swap_output(1000, 1000, 100, 10000), Ok(0));
}

#[test]
fn swap_keeps_product() {
    let cases: [(u64, u64, u64, u16); 5] = [
        (1000, 1000, 100, 0),
        (7, 13, 5, 25),
        (1, u64::MAX, u64::MAX, 0),
        (u64::MAX, 3, 1, 9999),
        (123456, 654321, 99999, 300),
    ];
    for (x, y, a, f) in cases {
        let out = swap_output(x, y, a, f).unwrap();
        assert!(out < y);
        let before = (x as u128) * (y as u128);
        let after = (x as u128 + a as u128) * ((y - out) as u128);
        assert!(after >= before);
    }
}

#[test]
fn swap_on_empty_reserve_fails() {
    assert_eq!(swap_output(0, 1000, 100, 0), Err(AmmError::InsufficientLiquidity));
    assert_eq!(swap_output(1000, 0, 100, 0), Err(AmmError::InsufficientLiquidity));
    assert_eq!(swap_output(0, 0, 0, 0), Err(AmmError::InsufficientLiquidity));
}

#[test]
fn swap_with_large_values_does_not_wrap() {
    // u64::MAX * u64::MAX / (1 + u64::MAX) rounds down to u64::MAX - 1.
    assert_eq!(swap_output(1, u64::MAX, u64::MAX, 0), Ok(u64::MAX - 1));
}

#[test]
fn deposit_into_empty_pool_takes_seed_amounts() {
    assert_eq!(deposit_amounts_for_shares(0, 0, 0, 500, 40, 70), Ok((40, 70)));
}

#[test]
fn deposit_rounds_up() {
    // 10 * 1001 / 100 = 100.1 -> 101; 10 * 500 / 100 = 50 exactly.
    assert_eq!(deposit_amounts_for_shares(1001, 500, 100, 10, 0, 0), Ok((101, 50)));
}

#[test]
fn deposit_on_corrupt_pool_fails() {
    assert_eq!(deposit_amounts_for_shares(0, 500, 100, 10, 1, 1), Err(AmmError::ZeroLiquidity));
    assert_eq!(deposit_amounts_for_shares(500, 0, 100, 10, 1, 1), Err(AmmError::ZeroLiquidity));
}

#[test]
fn deposit_too_large_overflows() {
    assert_eq!(
        deposit_amounts_for_shares(u64::MAX, 1, 1, 2, 0, 0),
        Err(AmmError::ArithmeticOverflow)
    );
}

#[test]
fn withdraw_rounds_down() {
    // 10 * 1001 / 100 = 100.1 -> 100; 10 * 509 / 100 = 50.9 -> 50.
    assert_eq!(withdraw_amounts_from_shares(1001, 509, 100, 10), Ok((100, 50)));
}

#[test]
fn withdraw_full_supply_drains_exactly() {
    assert_eq!(withdraw_amounts_from_shares(1001, 509, 100, 100), Ok((1001, 509)));
    assert_eq!(
        withdraw_amounts_from_shares(u64::MAX, 7, u64::MAX, u64::MAX),
        Ok((u64::MAX, 7))
    );
}

#[test]
fn withdraw_errors() {
    assert_eq!(withdraw_amounts_from_shares(10, 10, 0, 0), Err(AmmError::DivideByZero));
    assert_eq!(withdraw_amounts_from_shares(10, 10, 5, 6), Err(AmmError::InsufficientShares));
}

#[test]
fn deposit_then_withdraw_favours_pool() {
    let (rx, ry, supply, shares) = (1001u64, 333u64, 97u64, 13u64);
    let (ax, ay) = deposit_amounts_for_shares(rx, ry, supply, shares, 0, 0).unwrap();
    let (wx, wy) = withdraw_amounts_from_shares(rx + ax, ry + ay, supply + shares, shares).unwrap();
    assert!(wx <= ax && wy <= ay);
    assert_eq!((ax, ay), (135, 45));
    assert_eq!((wx, wy), (134, 44));
}
