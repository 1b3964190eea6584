//! Constant-product pricing: swap outputs, deposit requirements and
//! withdrawal payouts, on 64-bit quantities with 128-bit intermediates.
use vstd::prelude::*;
use vstd::arithmetic::div_mod::{
    lemma_div_is_ordered,
    lemma_div_by_multiple,
    lemma_multiply_divide_le,
    lemma_multiply_divide_lt,
    lemma_fundamental_div_mod,
    lemma_mod_pos_bound,
};

use crate::error::AmmError;

verus! {

/// Basis points in one whole.
pub const BPS_DENOMINATOR: u64 = 10000;

/// The part of `amount_in` that reaches the curve after the fee, truncated
/// toward zero.
pub open spec fn after_fee(amount_in: int, fee_bps: int) -> int {
    amount_in * (10000 - fee_bps) / 10000
}

/// The output of a swap: the largest `out` with
/// `(reserve_in + a) * (reserve_out - out) >= reserve_in * reserve_out`,
/// where `a` is the input after the fee.
pub open spec fn swap_out(reserve_in: int, reserve_out: int, amount_in: int, fee_bps: int) -> int {
    let a = after_fee(amount_in, fee_bps);
    reserve_out * a / (reserve_in + a)
}

/// `shares / supply` of `reserve`, rounded up.
pub open spec fn share_ceil(shares: int, reserve: int, supply: int) -> int {
    (shares * reserve + supply - 1) / supply
}

/// `shares / supply` of `reserve`, rounded down.
pub open spec fn share_floor(shares: int, reserve: int, supply: int) -> int {
    shares * reserve / supply
}

proof fn lemma_after_fee_bounds(amount_in: int, fee_bps: int)
    requires
        0 <= amount_in,
        0 <= fee_bps <= 10000,
    ensures
        0 <= after_fee(amount_in, fee_bps) <= amount_in,
{
    assert(0 <= amount_in * (10000 - fee_bps) <= amount_in * 10000) by (nonlinear_arith)
        requires
            0 <= amount_in,
            0 <= fee_bps <= 10000,
    ;
    lemma_div_by_multiple(amount_in, 10000);
    lemma_div_is_ordered(0, amount_in * (10000 - fee_bps), 10000);
    lemma_div_is_ordered(amount_in * (10000 - fee_bps), amount_in * 10000, 10000);
}

/// Computes how much of the other asset a swap of `amount_in` pays out,
/// charging `fee_bps` on the input. The products are taken in 128 bits, so
/// no intermediate overflows; the swap fails only where a reserve is empty.
pub fn swap_output(reserve_in: u64, reserve_out: u64, amount_in: u64, fee_bps: u16) -> (r: Result<
    u64,
    AmmError,
>)
    requires
        fee_bps <= 10000,
    ensures
        r is Ok <==> (reserve_in > 0 && reserve_out > 0),
        r matches Ok(out) ==> out == swap_out(
            reserve_in as int,
            reserve_out as int,
            amount_in as int,
            fee_bps as int,
        ),
        r matches Ok(out) ==> out < reserve_out,
        r matches Err(e) ==> e == AmmError::InsufficientLiquidity,
{
    let keep: u128 = (BPS_DENOMINATOR - fee_bps as u64) as u128;
    assert((amount_in as u128) * keep <= 0xffff_ffff_ffff_ffff * 10000) by (nonlinear_arith)
        requires
            keep <= 10000,
    ;
    let a: u128 = (amount_in as u128) * keep / (BPS_DENOMINATOR as u128);
    proof {
        lemma_after_fee_bounds(amount_in as int, fee_bps as int);
    }
    assert(a == after_fee(amount_in as int, fee_bps as int));
    let denom: u128 = reserve_in as u128 + a;
    if denom == 0 {
        return Err(AmmError::InsufficientLiquidity);
    }
    assert((reserve_out as u128) * a <= 0xffff_ffff_ffff_ffff * 0xffff_ffff_ffff_ffff)
        by (nonlinear_arith)
        requires
            a <= 0xffff_ffff_ffff_ffff,
    ;
    let num: u128 = (reserve_out as u128) * a;
    let out: u128 = num / denom;
    proof {
        if reserve_in > 0 && reserve_out > 0 {
            assert(num < denom * reserve_out) by (nonlinear_arith)
                requires
                    num == reserve_out * a,
                    denom == reserve_in + a,
                    reserve_in > 0,
                    reserve_out > 0,
            ;
            lemma_multiply_divide_lt(num as int, denom as int, reserve_out as int);
        } else if reserve_out == 0 {
            assert(num == 0) by (nonlinear_arith)
                requires
                    num == reserve_out * a,
                    reserve_out == 0,
            ;
        } else {
            assert(num == denom * reserve_out) by (nonlinear_arith)
                requires
                    num == reserve_out * a,
                    denom == reserve_in + a,
                    reserve_in == 0,
            ;
            lemma_div_by_multiple(reserve_out as int, denom as int);
            assert(denom * reserve_out == reserve_out * denom) by (nonlinear_arith);
        }
    }
    if out >= reserve_out as u128 {
        return Err(AmmError::InsufficientLiquidity);
    }
    Ok(out as u64)
}

/// The amounts of each asset that a deposit of `shares` costs: the caller's
/// seed amounts while no shares exist, else each reserve's share rounded up.
pub open spec fn deposit_amounts(
    reserve_x: int,
    reserve_y: int,
    lp_supply: int,
    shares: int,
    seed_x: int,
    seed_y: int,
) -> (int, int) {
    if lp_supply == 0 {
        (seed_x, seed_y)
    } else {
        (share_ceil(shares, reserve_x, lp_supply), share_ceil(shares, reserve_y, lp_supply))
    }
}

/// The amounts of each asset that burning `shares` pays out, rounded down.
pub open spec fn withdraw_amounts(reserve_x: int, reserve_y: int, lp_supply: int, shares: int) -> (
    int,
    int,
) {
    (share_floor(shares, reserve_x, lp_supply), share_floor(shares, reserve_y, lp_supply))
}

proof fn lemma_share_ceil_covers(shares: int, reserve: int, supply: int)
    requires
        0 <= shares,
        0 <= reserve,
        0 < supply,
    ensures
        share_ceil(shares, reserve, supply) * supply >= shares * reserve,
        share_ceil(shares, reserve, supply) >= 0,
{
    let n = shares * reserve + supply - 1;
    assert(shares * reserve >= 0) by (nonlinear_arith)
        requires
            0 <= shares,
            0 <= reserve,
    ;
    lemma_fundamental_div_mod(n, supply);
    lemma_mod_pos_bound(n, supply);
    lemma_div_is_ordered(0, n, supply);
    let q = n / supply;
    assert(q * supply == supply * q) by (nonlinear_arith);
}

proof fn lemma_share_floor_bound(shares: int, reserve: int, supply: int)
    requires
        0 <= shares <= supply,
        0 <= reserve,
        0 < supply,
    ensures
        0 <= share_floor(shares, reserve, supply) <= reserve,
{
    assert(0 <= shares * reserve <= supply * reserve) by (nonlinear_arith)
        requires
            0 <= shares <= supply,
            0 <= reserve,
    ;
    lemma_multiply_divide_le(shares * reserve, supply, reserve);
    lemma_div_is_ordered(0, shares * reserve, supply);
}

/// `a * b / d` rounded up, or `None` where it does not fit 64 bits.
fn mul_div_ceil(a: u64, b: u64, d: u64) -> (r: Option<u64>)
    requires
        d > 0,
    ensures
        r matches Some(v) ==> v == share_ceil(a as int, b as int, d as int),
        r is None <==> share_ceil(a as int, b as int, d as int) > u64::MAX,
{
    assert((a as u128) * (b as u128) <= 0xffff_ffff_ffff_ffff * 0xffff_ffff_ffff_ffff)
        by (nonlinear_arith)
    ;
    let n: u128 = (a as u128) * (b as u128) + (d as u128) - 1;
    let q: u128 = n / (d as u128);
    if q > u64::MAX as u128 {
        None
    } else {
        Some(q as u64)
    }
}

/// `a * b / d` rounded down, for `a <= d`.
fn mul_div_floor(a: u64, b: u64, d: u64) -> (r: u64)
    requires
        0 < d,
        a <= d,
    ensures
        r == share_floor(a as int, b as int, d as int),
{
    proof {
        lemma_share_floor_bound(a as int, b as int, d as int);
    }
    assert((a as u128) * (b as u128) <= 0xffff_ffff_ffff_ffff * 0xffff_ffff_ffff_ffff)
        by (nonlinear_arith)
    ;
    let q: u128 = (a as u128) * (b as u128) / (d as u128);
    q as u64
}

/// Computes what a deposit of `requested_shares` costs in each asset. While
/// the pool has no shares the caller's `seed_x` and `seed_y` are taken as
/// they are and set the initial price; otherwise each amount is the
/// proportional share of its reserve, rounded up.
pub fn deposit_amounts_for_shares(
    reserve_x: u64,
    reserve_y: u64,
    lp_supply: u64,
    requested_shares: u64,
    seed_x: u64,
    seed_y: u64,
) -> (r: Result<(u64, u64), AmmError>)
    ensures
        lp_supply == 0 ==> r == Ok::<(u64, u64), AmmError>((seed_x, seed_y)),
        lp_supply > 0 && (reserve_x == 0 || reserve_y == 0) ==> r == Err::<(u64, u64), AmmError>(
            AmmError::ZeroLiquidity,
        ),
        lp_supply > 0 && reserve_x > 0 && reserve_y > 0 ==> {
            let (ax, ay) = deposit_amounts(
                reserve_x as int,
                reserve_y as int,
                lp_supply as int,
                requested_shares as int,
                seed_x as int,
                seed_y as int,
            );
            if ax <= u64::MAX && ay <= u64::MAX {
                r matches Ok((x, y)) && x == ax && y == ay
            } else {
                r == Err::<(u64, u64), AmmError>(AmmError::ArithmeticOverflow)
            }
        },
{
    if lp_supply == 0 {
        return Ok((seed_x, seed_y));
    }
    if reserve_x == 0 || reserve_y == 0 {
        return Err(AmmError::ZeroLiquidity);
    }
    let ax = match mul_div_ceil(requested_shares, reserve_x, lp_supply) {
        Some(v) => v,
        None => return Err(AmmError::ArithmeticOverflow),
    };
    let ay = match mul_div_ceil(requested_shares, reserve_y, lp_supply) {
        Some(v) => v,
        None => return Err(AmmError::ArithmeticOverflow),
    };
    Ok((ax, ay))
}

/// Computes what burning `burn_shares` pays out in each asset: the
/// proportional share of each reserve, rounded down.
pub fn withdraw_amounts_from_shares(
    reserve_x: u64,
    reserve_y: u64,
    lp_supply: u64,
    burn_shares: u64,
) -> (r: Result<(u64, u64), AmmError>)
    ensures
        lp_supply == 0 ==> r == Err::<(u64, u64), AmmError>(AmmError::DivideByZero),
        lp_supply > 0 && burn_shares > lp_supply ==> r == Err::<(u64, u64), AmmError>(
            AmmError::InsufficientShares,
        ),
        lp_supply > 0 && burn_shares <= lp_supply ==> (r matches Ok((x, y)) && (x as int, y as int)
            == withdraw_amounts(
            reserve_x as int,
            reserve_y as int,
            lp_supply as int,
            burn_shares as int,
        )),
        burn_shares == lp_supply && lp_supply > 0 ==> r == Ok::<(u64, u64), AmmError>(
            (reserve_x, reserve_y),
        ),
{
    if lp_supply == 0 {
        return Err(AmmError::DivideByZero);
    }
    if burn_shares > lp_supply {
        return Err(AmmError::InsufficientShares);
    }
    let ax = mul_div_floor(burn_shares, reserve_x, lp_supply);
    let ay = mul_div_floor(burn_shares, reserve_y, lp_supply);
    proof {
        if burn_shares == lp_supply {
            lemma_full_burn_drains(reserve_x as int, reserve_y as int, lp_supply as int);
        }
    }
    Ok((ax, ay))
}

/// Burning the whole share supply pays out both reserves exactly, with no
/// rounding residue.
pub proof fn lemma_full_burn_drains(reserve_x: int, reserve_y: int, lp_supply: int)
    requires
        lp_supply > 0,
        reserve_x >= 0,
        reserve_y >= 0,
    ensures
        withdraw_amounts(reserve_x, reserve_y, lp_supply, lp_supply) == (reserve_x, reserve_y),
{
    lemma_div_by_multiple(reserve_x, lp_supply);
    lemma_div_by_multiple(reserve_y, lp_supply);
    assert(lp_supply * reserve_x == reserve_x * lp_supply) by (nonlinear_arith);
    assert(lp_supply * reserve_y == reserve_y * lp_supply) by (nonlinear_arith);
}

/// A swap never lowers the product of the reserves: with the whole input
/// added to one side and the output taken from the other, the new product is
/// at least the old one.
pub proof fn lemma_swap_keeps_product(reserve_in: int, reserve_out: int, amount_in: int, fee_bps: int)
    requires
        reserve_in > 0,
        reserve_out > 0,
        amount_in >= 0,
        0 <= fee_bps <= 10000,
    ensures
        (reserve_in + amount_in) * (reserve_out - swap_out(reserve_in, reserve_out, amount_in, fee_bps))
            >= reserve_in * reserve_out,
{
    lemma_after_fee_bounds(amount_in, fee_bps);
    let a = after_fee(amount_in, fee_bps);
    let d = reserve_in + a;
    let n = reserve_out * a;
    let out = n / d;
    assert(0 <= n <= d * reserve_out) by (nonlinear_arith)
        requires
            n == reserve_out * a,
            d == reserve_in + a,
            0 <= a,
            reserve_in > 0,
            reserve_out > 0,
    ;
    lemma_fundamental_div_mod(n, d);
    lemma_mod_pos_bound(n, d);
    lemma_multiply_divide_le(n, d, reserve_out);
    assert((reserve_in + amount_in) * (reserve_out - out) >= reserve_in * reserve_out)
        by (nonlinear_arith)
        requires
            n == d * out + n % d,
            n % d >= 0,
            n == reserve_out * a,
            d == reserve_in + a,
            out <= reserve_out,
            0 <= a <= amount_in,
    ;
}

/// Depositing `shares` and at once burning the same `shares` never pays out
/// more of either asset than the deposit cost: rounding favours the pool.
pub proof fn lemma_deposit_then_withdraw(
    reserve_x: int,
    reserve_y: int,
    lp_supply: int,
    shares: int,
    seed_x: int,
    seed_y: int,
)
    requires
        reserve_x >= 0,
        reserve_y >= 0,
        lp_supply >= 0,
        shares > 0,
        seed_x >= 0,
        seed_y >= 0,
        lp_supply == 0 ==> reserve_x == 0 && reserve_y == 0,
    ensures
        ({
            let (ax, ay) = deposit_amounts(reserve_x, reserve_y, lp_supply, shares, seed_x, seed_y);
            let (wx, wy) = withdraw_amounts(
                reserve_x + ax,
                reserve_y + ay,
                lp_supply + shares,
                shares,
            );
            wx <= ax && wy <= ay
        }),
{
    let (ax, ay) = deposit_amounts(reserve_x, reserve_y, lp_supply, shares, seed_x, seed_y);
    if lp_supply > 0 {
        lemma_share_ceil_covers(shares, reserve_x, lp_supply);
        lemma_share_ceil_covers(shares, reserve_y, lp_supply);
    }
    assert(shares * (reserve_x + ax) <= (lp_supply + shares) * ax) by (nonlinear_arith)
        requires
            ax * lp_supply >= shares * reserve_x,
    ;
    assert(shares * (reserve_y + ay) <= (lp_supply + shares) * ay) by (nonlinear_arith)
        requires
            ay * lp_supply >= shares * reserve_y,
    ;
    lemma_multiply_divide_le(shares * (reserve_x + ax), lp_supply + shares, ax);
    lemma_multiply_divide_le(shares * (reserve_y + ay), lp_supply + shares, ay);
}

} // verus!
