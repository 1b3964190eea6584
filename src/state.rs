//! The durable record of a pool and its pause switch.
use vstd::prelude::*;

use crate::error::AmmError;

verus! {

/// A 32-byte account identity, as four little-endian words.
#[derive(Clone, Copy, Debug, PartialEq, Eq, Structural)]
pub struct Key {
    pub w0: u64,
    pub w1: u64,
    pub w2: u64,
    pub w3: u64,
}

/// A pool's identity and parameters.
#[derive(Clone, Copy, Debug, PartialEq, Eq, Structural)]
pub struct Config {
    /// Tells apart pools over the same pair of assets.
    pub seed: u64,
    /// The identity allowed to lock and unlock the pool, if any.
    pub authority: Option<Key>,
    /// The asset on the X side.
    pub mint_x: Key,
    /// The asset on the Y side.
    pub mint_y: Key,
    /// The swap fee in basis points.
    pub fee: u16,
    /// Whether deposits, withdrawals and swaps are paused.
    pub locked: bool,
    /// Derivation salt of the pool's signing authority.
    pub auth_bump: u8,
    /// Derivation salt of this record's address.
    pub config_bump: u8,
    /// Derivation salt of the share mint's address.
    pub lp_bump: u8,
}

impl Config {
    /// The two sides are distinct assets and the fee is at most one whole.
    pub open spec fn wf(&self) -> bool {
        self.mint_x != self.mint_y && self.fee <= 10000
    }

    /// Pauses or resumes the pool. Only the update authority may do so; a
    /// pool without one can never change its lock state.
    pub fn set_locked(&mut self, signer: Key, locked: bool) -> (r: Result<(), AmmError>)
        ensures
            r is Ok <==> old(self).authority == Some(signer),
            r is Ok ==> *final(self) == (Config { locked, ..*old(self) }),
            r is Err ==> *final(self) == *old(self),
            r matches Err(e) ==> e == AmmError::Unauthorized,
    {
        match self.authority {
            Some(a) => {
                if a == signer {
                    self.locked = locked;
                    Ok(())
                } else {
                    Err(AmmError::Unauthorized)
                }
            },
            None => Err(AmmError::Unauthorized),
        }
    }
}

/// Creates the record of a new, unlocked pool, refusing a fee above 10000
/// basis points or two sides that name the same asset.
pub fn initialize(
    seed: u64,
    fee: u16,
    authority: Option<Key>,
    mint_x: Key,
    mint_y: Key,
    auth_bump: u8,
    config_bump: u8,
    lp_bump: u8,
) -> (r: Result<Config, AmmError>)
    ensures
        fee > 10000 ==> r == Err::<Config, AmmError>(AmmError::InvalidFee),
        fee <= 10000 && mint_x == mint_y ==> r == Err::<Config, AmmError>(
            AmmError::IdenticalAssets,
        ),
        fee <= 10000 && mint_x != mint_y ==> r == Ok::<Config, AmmError>(
            (Config {
                seed,
                authority,
                mint_x,
                mint_y,
                fee,
                locked: false,
                auth_bump,
                config_bump,
                lp_bump,
            }),
        ),
        r matches Ok(c) ==> c.wf(),
{
    if fee > 10000 {
        return Err(AmmError::InvalidFee);
    }
    if mint_x == mint_y {
        return Err(AmmError::IdenticalAssets);
    }
    Ok(Config { seed, authority, mint_x, mint_y, fee, locked: false, auth_bump, config_bump, lp_bump })
}

/// A request fails first if the pool is paused, then if its deadline has
/// passed.
pub open spec fn guard(locked: bool, expiration: i64, now: i64) -> Option<AmmError> {
    if locked {
        Some(AmmError::Locked)
    } else if now > expiration {
        Some(AmmError::Expired)
    } else {
        None
    }
}

/// Refuses a request on a paused pool, or one whose deadline `expiration` is
/// before `now`.
pub fn check_guards(locked: bool, expiration: i64, now: i64) -> (r: Result<(), AmmError>)
    ensures
        r is Ok <==> guard(locked, expiration, now) is None,
        r matches Err(e) ==> guard(locked, expiration, now) == Some(e),
{
    if locked {
        return Err(AmmError::Locked);
    }
    if now > expiration {
        return Err(AmmError::Expired);
    }
    Ok(())
}

} // verus!
