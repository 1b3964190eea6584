//! Exchanging one asset of a pool for the other.
use vstd::prelude::*;

use crate::curve::{lemma_swap_keeps_product, swap_out, swap_output};
use crate::error::AmmError;
use crate::ledger::{Asset, LedgerOp};
use crate::state::{check_guards, guard, Config};

verus! {

/// What a swap reads of a pool: its record and both vaults.
#[derive(Clone, Copy, Debug, PartialEq, Eq, Structural)]
pub struct Swap {
    pub config: Config,
    /// The pool's holding of asset X.
    pub vault_x: u64,
    /// The pool's holding of asset Y.
    pub vault_y: u64,
    /// Decimal places of asset X.
    pub decimals_x: u8,
    /// Decimal places of asset Y.
    pub decimals_y: u8,
}

impl Swap {
    /// The reserve that receives the input (`is_x`: asset X goes in).
    pub open spec fn reserve_in(&self, is_x: bool) -> u64 {
        if is_x {
            self.vault_x
        } else {
            self.vault_y
        }
    }

    /// The reserve that pays the output.
    pub open spec fn reserve_out(&self, is_x: bool) -> u64 {
        self.reserve_in(!is_x)
    }

    /// The side that `is_x` names.
    pub open spec fn asset(is_x: bool) -> Asset {
        if is_x {
            Asset::X
        } else {
            Asset::Y
        }
    }

    /// Decimal places of the side that `is_x` names.
    pub open spec fn decimals(&self, is_x: bool) -> u8 {
        if is_x {
            self.decimals_x
        } else {
            self.decimals_y
        }
    }

    /// The outcome of a swap of `amount` of one asset (`is_x`: asset X) for
    /// at least `min_out` of the other: the first failed check, or the two
    /// ledger moves.
    pub open spec fn swap_plan(
        &self,
        is_x: bool,
        amount: u64,
        min_out: u64,
        expiration: i64,
        now: i64,
    ) -> Result<Seq<LedgerOp>, AmmError> {
        let r_in = self.reserve_in(is_x);
        let r_out = self.reserve_out(is_x);
        let out = swap_out(r_in as int, r_out as int, amount as int, self.config.fee as int);
        if let Some(e) = guard(self.config.locked, expiration, now) {
            Err(e)
        } else if amount == 0 {
            Err(AmmError::ZeroAmount)
        } else if r_in == 0 || r_out == 0 {
            Err(AmmError::InsufficientLiquidity)
        } else if out < min_out {
            Err(AmmError::SlippageExceeded)
        } else if r_in + amount > u64::MAX {
            Err(AmmError::ArithmeticOverflow)
        } else {
            Ok(
                seq![
                    self.deposit_op(is_x, amount),
                    LedgerOp::PayOut {
                        asset: Self::asset(!is_x),
                        amount: out as u64,
                        decimals: self.decimals(!is_x),
                    },
                ],
            )
        }
    }

    /// The trader's payment of `amount` of one side (`is_x`: asset X) into
    /// the pool's vault.
    pub open spec fn deposit_op(&self, is_x: bool, amount: u64) -> LedgerOp {
        LedgerOp::PayIn { asset: Self::asset(is_x), amount, decimals: self.decimals(is_x) }
    }

    /// Exchanges `amount` of one asset (`is_x`: asset X) for the curve's
    /// output of the other, net of the pool's fee, refusing to pay less than
    /// `min_out`. All checks come before the first ledger move: the trader
    /// pays in, then the pool pays out.
    pub fn swap(&self, is_x: bool, amount: u64, min_out: u64, expiration: i64, now: i64) -> (r:
        Result<Vec<LedgerOp>, AmmError>)
        requires
            self.config.wf(),
        ensures
            self.config.locked ==> r == Err::<Vec<LedgerOp>, AmmError>(AmmError::Locked),
            !self.config.locked && now > expiration ==> r == Err::<Vec<LedgerOp>, AmmError>(
                AmmError::Expired,
            ),
            guard(self.config.locked, expiration, now) is None && amount > 0 && (self.reserve_in(is_x)
                == 0 || self.reserve_out(is_x) == 0) ==> r == Err::<Vec<LedgerOp>, AmmError>(
                AmmError::InsufficientLiquidity,
            ),
            guard(self.config.locked, expiration, now) is None && amount > 0 && self.reserve_in(is_x)
                > 0 && self.reserve_out(is_x) > 0 && swap_out(
                self.reserve_in(is_x) as int,
                self.reserve_out(is_x) as int,
                amount as int,
                self.config.fee as int,
            ) < min_out ==> r == Err::<Vec<LedgerOp>, AmmError>(AmmError::SlippageExceeded),
            r matches Ok(ops) ==> self.swap_plan(is_x, amount, min_out, expiration, now) == Ok::<
                Seq<LedgerOp>,
                AmmError,
            >(ops@),
            r matches Err(e) ==> self.swap_plan(is_x, amount, min_out, expiration, now) == Err::<
                Seq<LedgerOp>,
                AmmError,
            >(e),
            r matches Ok(ops) ==> (ops@[1] matches LedgerOp::PayOut { amount: out, .. } && (
            self.reserve_in(is_x) + amount) * (self.reserve_out(is_x) - out) >= self.reserve_in(
                is_x,
            ) * self.reserve_out(is_x)),
    {
        check_guards(self.config.locked, expiration, now)?;
        if amount == 0 {
            return Err(AmmError::ZeroAmount);
        }
        let (r_in, r_out) = if is_x {
            (self.vault_x, self.vault_y)
        } else {
            (self.vault_y, self.vault_x)
        };
        if r_in == 0 || r_out == 0 {
            return Err(AmmError::InsufficientLiquidity);
        }
        let out = swap_output(r_in, r_out, amount, self.config.fee)?;
        if out < min_out {
            return Err(AmmError::SlippageExceeded);
        }
        if r_in > u64::MAX - amount {
            return Err(AmmError::ArithmeticOverflow);
        }
        let mut ops: Vec<LedgerOp> = Vec::new();
        ops.push(self.deposit(is_x, amount));
        ops.push(self.withdraw(!is_x, out));
        proof {
            assert(ops@ =~= self.swap_plan(is_x, amount, min_out, expiration, now)->Ok_0);
            lemma_swap_keeps_product(r_in as int, r_out as int, amount as int, self.config.fee as int);
        }
        Ok(ops)
    }

    /// The move of `amount` of one asset (`is_x`: asset X) from the trader
    /// into the pool's vault.
    pub fn deposit(&self, is_x: bool, amount: u64) -> (r: LedgerOp)
        ensures
            r == self.deposit_op(is_x, amount),
    {
        if is_x {
            LedgerOp::PayIn { asset: Asset::X, amount, decimals: self.decimals_x }
        } else {
            LedgerOp::PayIn { asset: Asset::Y, amount, decimals: self.decimals_y }
        }
    }

    /// The move of `amount` of one asset (`is_x`: asset X) from the pool's
    /// vault to the trader, under the pool's authority.
    pub fn withdraw(&self, is_x: bool, amount: u64) -> (r: LedgerOp)
        ensures
            r == (LedgerOp::PayOut {
                asset: Self::asset(is_x),
                amount,
                decimals: self.decimals(is_x),
            }),
    {
        if is_x {
            LedgerOp::PayOut { asset: Asset::X, amount, decimals: self.decimals_x }
        } else {
            LedgerOp::PayOut { asset: Asset::Y, amount, decimals: self.decimals_y }
        }
    }
}

} // verus!
