use vstd::prelude::*;

use crate::error::AmmError;
use crate::state::{Address, Config};

verus! {

/// The bump seeds found for the pool's config account and LP mint.
#[derive(Clone, Copy, Debug, PartialEq, Eq, Structural)]
pub struct InitializeBumps {
    pub config: u8,
    pub lp_mint: u8,
}

/// What initialization reads and writes: the two token mints and the new
/// config account.
#[derive(Clone, Copy, Debug)]
pub struct Initialize {
    pub mint_x: Address,
    pub mint_y: Address,
    pub config: Config,
}

/// The configuration of a freshly initialized pool: it records the seed,
/// both mints, the fee, the authority and the bumps, and starts unlocked.
pub open spec fn initial_config(
    seed: u8,
    mint_x: Address,
    mint_y: Address,
    authority: Option<Address>,
    fee: u16,
    bumps: InitializeBumps,
) -> Config {
    Config {
        seed,
        mint_x,
        mint_y,
        fee,
        authority,
        is_locked: false,
        config_bump: bumps.config,
        lp_bump: bumps.lp_mint,
    }
}

impl Initialize {
    /// Writes the pool's configuration. Initialization always succeeds.
    pub fn init(&mut self, seed: u8, authority: Option<Address>, fee: u16, bumps: InitializeBumps) -> (r:
        Result<(), AmmError>)
        ensures
            r is Ok,
            final(self).mint_x == old(self).mint_x,
            final(self).mint_y == old(self).mint_y,
            final(self).config == initial_config(seed, old(self).mint_x, old(self).mint_y, authority, fee, bumps),
            final(self).config.mint_x == old(self).mint_x,
            final(self).config.mint_y == old(self).mint_y,
            final(self).config.seed == seed && final(self).config.fee == fee && final(self).config.authority == authority,
            final(self).config.config_bump == bumps.config && final(self).config.lp_bump == bumps.lp_mint,
            !final(self).config.is_locked,
    {
        self.config = Config {
            seed,
            mint_x: self.mint_x,
            mint_y: self.mint_y,
            fee,
            authority,
            is_locked: false,
            config_bump: bumps.config,
            lp_bump: bumps.lp_mint,
        };
        Ok(())
    }
}

} // verus!
