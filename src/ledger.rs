//! The instructions that an operation hands to the token ledger.
use vstd::prelude::*;

verus! {

/// One side of a pool.
#[derive(Clone, Copy, Debug, PartialEq, Eq, Structural)]
pub enum Asset {
    X,
    Y,
}

/// A move, mint or burn for the ledger to carry out, in the order given.
#[derive(Clone, Copy, Debug, PartialEq, Eq, Structural)]
pub enum LedgerOp {
    /// Moves `amount` of `asset` from the user's account into the pool's
    /// vault, signed by the user.
    PayIn { asset: Asset, amount: u64, decimals: u8 },
    /// Moves `amount` of `asset` from the pool's vault to the user's account,
    /// signed with the pool's authority.
    PayOut { asset: Asset, amount: u64, decimals: u8 },
    /// Mints `amount` shares to the user, signed with the pool's authority.
    MintShares { amount: u64 },
    /// Burns `amount` shares from the user's account, signed by the user.
    BurnShares { amount: u64 },
}

} // verus!
