//! Burning liquidity shares for a proportional part of both reserves.
use vstd::prelude::*;

use crate::curve::{withdraw_amounts, withdraw_amounts_from_shares};
use crate::error::AmmError;
use crate::ledger::{Asset, LedgerOp};
use crate::state::{check_guards, guard, Config};

verus! {

/// What a withdrawal reads of a pool: its record, both vaults and the share
/// supply.
#[derive(Clone, Copy, Debug, PartialEq, Eq, Structural)]
pub struct Withdraw {
    pub config: Config,
    /// The pool's holding of asset X.
    pub vault_x: u64,
    /// The pool's holding of asset Y.
    pub vault_y: u64,
    /// Shares outstanding.
    pub lp_supply: u64,
    /// Decimal places of asset X.
    pub decimals_x: u8,
    /// Decimal places of asset Y.
    pub decimals_y: u8,
}

impl Withdraw {
    /// The outcome of burning `amount` shares for at least `min_x` and
    /// `min_y`: the first failed check, or the two payouts and the burn.
    pub open spec fn withdraw_plan(
        &self,
        amount: u64,
        min_x: u64,
        min_y: u64,
        expiration: i64,
        now: i64,
    ) -> Result<Seq<LedgerOp>, AmmError> {
        let (wx, wy) = withdraw_amounts(
            self.vault_x as int,
            self.vault_y as int,
            self.lp_supply as int,
            amount as int,
        );
        if let Some(e) = guard(self.config.locked, expiration, now) {
            Err(e)
        } else if amount == 0 || min_x == 0 || min_y == 0 {
            Err(AmmError::ZeroAmount)
        } else if self.lp_supply == 0 {
            Err(AmmError::DivideByZero)
        } else if amount > self.lp_supply {
            Err(AmmError::InsufficientShares)
        } else if wx < min_x || wy < min_y {
            Err(AmmError::SlippageExceeded)
        } else {
            Ok(
                seq![
                    LedgerOp::PayOut { asset: Asset::X, amount: wx as u64, decimals: self.decimals_x },
                    LedgerOp::PayOut { asset: Asset::Y, amount: wy as u64, decimals: self.decimals_y },
                    LedgerOp::BurnShares { amount },
                ],
            )
        }
    }

    /// Burns `amount` shares for the proportional part of each reserve,
    /// rounded down, refusing less than `min_x` of X or `min_y` of Y. All
    /// checks come before the first ledger move, and the shares are burned
    /// only after both payouts.
    pub fn withdraw(&self, amount: u64, min_x: u64, min_y: u64, expiration: i64, now: i64) -> (r:
        Result<Vec<LedgerOp>, AmmError>)
        ensures
            self.config.locked ==> r == Err::<Vec<LedgerOp>, AmmError>(AmmError::Locked),
            !self.config.locked && now > expiration ==> r == Err::<Vec<LedgerOp>, AmmError>(
                AmmError::Expired,
            ),
            r matches Ok(ops) ==> self.withdraw_plan(amount, min_x, min_y, expiration, now)
                == Ok::<Seq<LedgerOp>, AmmError>(ops@),
            r matches Err(e) ==> self.withdraw_plan(amount, min_x, min_y, expiration, now)
                == Err::<Seq<LedgerOp>, AmmError>(e),
    {
        check_guards(self.config.locked, expiration, now)?;
        if amount == 0 || min_x == 0 || min_y == 0 {
            return Err(AmmError::ZeroAmount);
        }
        let (ax, ay) = withdraw_amounts_from_shares(
            self.vault_x,
            self.vault_y,
            self.lp_supply,
            amount,
        )?;
        if !(min_x <= ax && min_y <= ay) {
            return Err(AmmError::SlippageExceeded);
        }
        let mut ops: Vec<LedgerOp> = Vec::new();
        ops.push(self.withdraw_tokens(true, ax));
        ops.push(self.withdraw_tokens(false, ay));
        ops.push(self.burn_lp_tokens(amount));
        proof {
            assert(ops@ =~= self.withdraw_plan(amount, min_x, min_y, expiration, now)->Ok_0);
        }
        Ok(ops)
    }

    /// The move of `amount` of one asset (`is_x`: asset X) from the pool's
    /// vault to the user, under the pool's authority.
    pub fn withdraw_tokens(&self, is_x: bool, amount: u64) -> (r: LedgerOp)
        ensures
            is_x ==> r == (LedgerOp::PayOut { asset: Asset::X, amount, decimals: self.decimals_x }),
            !is_x ==> r == (LedgerOp::PayOut { asset: Asset::Y, amount, decimals: self.decimals_y }),
    {
        if is_x {
            LedgerOp::PayOut { asset: Asset::X, amount, decimals: self.decimals_x }
        } else {
            LedgerOp::PayOut { asset: Asset::Y, amount, decimals: self.decimals_y }
        }
    }

    /// The burn of `amount` of the user's shares, signed by the user.
    pub fn burn_lp_tokens(&self, amount: u64) -> (r: LedgerOp)
        ensures
            r == (LedgerOp::BurnShares { amount }),
    {
        LedgerOp::BurnShares { amount }
    }
}

} // verus!
