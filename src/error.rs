use vstd::prelude::*;

verus! {

/// Every way an operation on a pool can fail.
#[derive(Clone, Copy, Debug, PartialEq, Eq, Structural)]
pub enum AmmError {
    /// The pool is paused.
    Locked,
    /// The request's deadline has passed.
    Expired,
    /// A required quantity was zero.
    ZeroAmount,
    /// An intermediate or resulting quantity does not fit the integer width.
    ArithmeticOverflow,
    /// The curve would leave a non-positive reserve.
    InsufficientLiquidity,
    /// A computed amount violates the caller's bound.
    SlippageExceeded,
    /// More shares are burned than exist.
    InsufficientShares,
    /// The pool has outstanding shares but an empty reserve.
    ZeroLiquidity,
    /// The share supply is zero where a proportional payout is asked for.
    DivideByZero,
    /// The fee rate exceeds 10000 basis points.
    InvalidFee,
    /// Both sides of the pool name the same asset.
    IdenticalAssets,
    /// The signer is not the pool's update authority.
    Unauthorized,
}

} // verus!
