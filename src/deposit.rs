//! Adding both assets to a pool in exchange for newly minted shares.
use vstd::prelude::*;

use crate::curve::{deposit_amounts, deposit_amounts_for_shares, lemma_deposit_then_withdraw};
use crate::error::AmmError;
use crate::ledger::{Asset, LedgerOp};
use crate::state::{check_guards, guard, Config};
use crate::withdraw::Withdraw;

verus! {

/// What a deposit reads of a pool: its record, both vaults and the share
/// supply.
#[derive(Clone, Copy, Debug, PartialEq, Eq, Structural)]
pub struct Deposit {
    pub config: Config,
    /// The pool's holding of asset X.
    pub vault_x: u64,
    /// The pool's holding of asset Y.
    pub vault_y: u64,
    /// Shares outstanding.
    pub lp_supply: u64,
    /// Decimal places of asset X.
    pub decimals_x: u8,
    /// Decimal places of asset Y.
    pub decimals_y: u8,
}

impl Deposit {
    /// The outcome of a deposit for `amount` shares paying at most `max_x`
    /// and `max_y`: the first failed check, or the two moves in and the mint.
    pub open spec fn deposit_plan(
        &self,
        amount: u64,
        max_x: u64,
        max_y: u64,
        expiration: i64,
        now: i64,
    ) -> Result<Seq<LedgerOp>, AmmError> {
        let (ax, ay) = deposit_amounts(
            self.vault_x as int,
            self.vault_y as int,
            self.lp_supply as int,
            amount as int,
            max_x as int,
            max_y as int,
        );
        if let Some(e) = guard(self.config.locked, expiration, now) {
            Err(e)
        } else if amount == 0 || max_x == 0 || max_y == 0 {
            Err(AmmError::ZeroAmount)
        } else if self.lp_supply > 0 && (self.vault_x == 0 || self.vault_y == 0) {
            Err(AmmError::ZeroLiquidity)
        } else if ax > u64::MAX || ay > u64::MAX {
            Err(AmmError::ArithmeticOverflow)
        } else if ax > max_x || ay > max_y {
            Err(AmmError::SlippageExceeded)
        } else if self.vault_x + ax > u64::MAX || self.vault_y + ay > u64::MAX || self.lp_supply
            + amount > u64::MAX {
            Err(AmmError::ArithmeticOverflow)
        } else {
            Ok(
                seq![
                    LedgerOp::PayIn { asset: Asset::X, amount: ax as u64, decimals: self.decimals_x },
                    LedgerOp::PayIn { asset: Asset::Y, amount: ay as u64, decimals: self.decimals_y },
                    LedgerOp::MintShares { amount },
                ],
            )
        }
    }

    /// Mints `amount` shares against both assets: on an empty pool `max_x`
    /// and `max_y` are taken as they are and set the price; otherwise the
    /// proportional part of each reserve, rounded up, which must not exceed
    /// `max_x` and `max_y`. All checks come before the first ledger move,
    /// and the shares are minted only after both assets are paid in.
    pub fn deposit(&self, amount: u64, max_x: u64, max_y: u64, expiration: i64, now: i64) -> (r:
        Result<Vec<LedgerOp>, AmmError>)
        ensures
            self.config.locked ==> r == Err::<Vec<LedgerOp>, AmmError>(AmmError::Locked),
            !self.config.locked && now > expiration ==> r == Err::<Vec<LedgerOp>, AmmError>(
                AmmError::Expired,
            ),
            r matches Ok(ops) ==> self.deposit_plan(amount, max_x, max_y, expiration, now)
                == Ok::<Seq<LedgerOp>, AmmError>(ops@),
            r matches Err(e) ==> self.deposit_plan(amount, max_x, max_y, expiration, now)
                == Err::<Seq<LedgerOp>, AmmError>(e),
    {
        check_guards(self.config.locked, expiration, now)?;
        if amount == 0 || max_x == 0 || max_y == 0 {
            return Err(AmmError::ZeroAmount);
        }
        let (ax, ay) = deposit_amounts_for_shares(
            self.vault_x,
            self.vault_y,
            self.lp_supply,
            amount,
            max_x,
            max_y,
        )?;
        if !(ax <= max_x && ay <= max_y) {
            return Err(AmmError::SlippageExceeded);
        }
        if self.vault_x > u64::MAX - ax || self.vault_y > u64::MAX - ay || self.lp_supply
            > u64::MAX - amount {
            return Err(AmmError::ArithmeticOverflow);
        }
        let mut ops: Vec<LedgerOp> = Vec::new();
        ops.push(self.deposit_tokens(true, ax));
        ops.push(self.deposit_tokens(false, ay));
        ops.push(self.mint_lp_tokens(amount));
        proof {
            assert(ops@ =~= self.deposit_plan(amount, max_x, max_y, expiration, now)->Ok_0);
        }
        Ok(ops)
    }

    /// The move of `amount` of one asset (`is_x`: asset X) from the user
    /// into the pool's vault, signed by the user.
    pub fn deposit_tokens(&self, is_x: bool, amount: u64) -> (r: LedgerOp)
        ensures
            is_x ==> r == (LedgerOp::PayIn { asset: Asset::X, amount, decimals: self.decimals_x }),
            !is_x ==> r == (LedgerOp::PayIn { asset: Asset::Y, amount, decimals: self.decimals_y }),
    {
        if is_x {
            LedgerOp::PayIn { asset: Asset::X, amount, decimals: self.decimals_x }
        } else {
            LedgerOp::PayIn { asset: Asset::Y, amount, decimals: self.decimals_y }
        }
    }

    /// The mint of `amount` new shares to the user, under the pool's
    /// authority.
    pub fn mint_lp_tokens(&self, amount: u64) -> (r: LedgerOp)
        ensures
            r == (LedgerOp::MintShares { amount }),
    {
        LedgerOp::MintShares { amount }
    }
}

/// Deposits liquidity into the pool that `ctx` describes; see
/// [`Deposit::deposit`].
pub fn deposit(ctx: &Deposit, amount: u64, max_x: u64, max_y: u64, expiration: i64, now: i64) -> (r:
    Result<Vec<LedgerOp>, AmmError>)
    ensures
        ctx.config.locked ==> r == Err::<Vec<LedgerOp>, AmmError>(AmmError::Locked),
        !ctx.config.locked && now > expiration ==> r == Err::<Vec<LedgerOp>, AmmError>(
            AmmError::Expired,
        ),
        r matches Ok(ops) ==> ctx.deposit_plan(amount, max_x, max_y, expiration, now) == Ok::<
            Seq<LedgerOp>,
            AmmError,
        >(ops@),
        r matches Err(e) ==> ctx.deposit_plan(amount, max_x, max_y, expiration, now) == Err::<
            Seq<LedgerOp>,
            AmmError,
        >(e),
{
    ctx.deposit(amount, max_x, max_y, expiration, now)
}

/// Depositing for `amount` shares and then, with nothing in between,
/// withdrawing the same `amount` shares from the pool as the deposit left it
/// never pays out more of either asset than the deposit paid in.
pub proof fn lemma_deposit_then_withdraw_plans(
    pool: Deposit,
    amount: u64,
    max_x: u64,
    max_y: u64,
    min_x: u64,
    min_y: u64,
    expiration: i64,
    now: i64,
)
    requires
        pool.lp_supply == 0 ==> pool.vault_x == 0 && pool.vault_y == 0,
        pool.deposit_plan(amount, max_x, max_y, expiration, now) is Ok,
    ensures
        ({
            let ins = pool.deposit_plan(amount, max_x, max_y, expiration, now)->Ok_0;
            let paid_x = ins[0]->PayIn_amount;
            let paid_y = ins[1]->PayIn_amount;
            let after = Withdraw {
                config: pool.config,
                vault_x: (pool.vault_x + paid_x) as u64,
                vault_y: (pool.vault_y + paid_y) as u64,
                lp_supply: (pool.lp_supply + amount) as u64,
                decimals_x: pool.decimals_x,
                decimals_y: pool.decimals_y,
            };
            after.withdraw_plan(amount, min_x, min_y, expiration, now) matches Ok(outs) ==> outs[0]->PayOut_amount
                <= paid_x && outs[1]->PayOut_amount <= paid_y
        }),
{
    lemma_deposit_then_withdraw(
        pool.vault_x as int,
        pool.vault_y as int,
        pool.lp_supply as int,
        amount as int,
        max_x as int,
        max_y as int,
    );
}

} // verus!
