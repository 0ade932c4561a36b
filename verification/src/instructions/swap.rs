use vstd::prelude::*;

use crate::balances::Balances;
use crate::curve::SwapResult;
use crate::error::{AmmError, Failure};
use crate::moves::{ConfigSigner, Movement, apply_movement, apply_movements, movement_spec, movements_spec};
use crate::state::{Address, Config};

verus! {

/// What a swap reads and changes: the pool's configuration and its account
/// address, and the balances of the vaults, the LP mint and the trader's
/// accounts.
#[derive(Clone, Copy, Debug)]
pub struct Swap {
    pub config: Config,
    pub config_key: Address,
    pub balances: Balances,
}

/// The curve's answer honours the trader's minimum: a swap it prices never
/// pays out less than `min`.
pub open spec fn outcome_respects_min(outcome: Option<SwapResult>, min: u64) -> bool {
    outcome matches Some(res) ==> res.withdraw >= min
}

/// The legs of a swap of `amount`. `outcome` is the curve's answer for the
/// current vaults, LP supply, the pool's fee, the direction, `amount` and
/// the trader's minimum, `None` where the curve refused.
///
/// The pool must be locked for a swap to go through, and neither leg may be
/// zero.
pub open spec fn swap_amounts_spec(c: Config, amount: u64, outcome: Option<SwapResult>) -> Result<
    SwapResult,
    AmmError,
> {
    if amount == 0 {
        Err(AmmError::InvalidAmount)
    } else if !c.is_locked {
        Err(AmmError::PoolLocked)
    } else {
        match outcome {
            None => Err(AmmError::CurveError),
            Some(res) => if res.deposit == 0 {
                Err(AmmError::InvalidAmount)
            } else if res.withdraw == 0 {
                Err(AmmError::InvalidAmount)
            } else {
                Ok(res)
            },
        }
    }
}

/// The token movements of a swap, in order: the deposit leg from the trader
/// into the vault of the side named by `is_x`, then the withdraw leg out of
/// the vault of that same side, signed for the config with the pool's seed.
pub open spec fn swap_moves_spec(res: SwapResult, is_x: bool) -> Seq<Movement> {
    seq![
        Movement::ToVault { is_x, amount: res.deposit },
        Movement::ToUser { is_x, amount: res.withdraw, signer: ConfigSigner::BySeed },
    ]
}

/// The balances after a whole swap.
pub open spec fn swap_spec(
    c: Config,
    config_key: Address,
    b: Balances,
    amount: u64,
    is_x: bool,
    outcome: Option<SwapResult>,
) -> Result<Balances, Failure> {
    match swap_amounts_spec(c, amount, outcome) {
        Err(e) => Err(Failure::Amm(e)),
        Ok(res) => movements_spec(c, config_key, b, swap_moves_spec(res, is_x)),
    }
}

impl Swap {
    /// Whether a swap of `amount` reaches the curve: the amount is positive
    /// and the pool is locked.
    pub fn needs_outcome(&self, amount: u64) -> (r: bool)
        ensures
            r == (amount > 0 && self.config.is_locked),
    {
        amount > 0 && self.config.is_locked
    }

    /// Decides the legs of a swap of `amount` from the curve's outcome.
    pub fn swap_amounts(&self, amount: u64, outcome: Option<SwapResult>) -> (r: Result<
        SwapResult,
        AmmError,
    >)
        ensures
            r == swap_amounts_spec(self.config, amount, outcome),
            r is Ok ==> outcome is Some && r == Ok::<SwapResult, AmmError>(outcome->Some_0),
    {
        if amount == 0 {
            return Err(AmmError::InvalidAmount);
        }
        if !self.config.is_locked {
            return Err(AmmError::PoolLocked);
        }
        match outcome {
            None => Err(AmmError::CurveError),
            Some(res) => {
                if res.deposit == 0 {
                    return Err(AmmError::InvalidAmount);
                }
                if res.withdraw == 0 {
                    return Err(AmmError::InvalidAmount);
                }
                Ok(res)
            },
        }
    }

    /// The ordered token movements that a swap asks for, or the program's
    /// refusal. `min` is the trader's minimum, which only the curve enforces:
    /// where its outcome honours `min`, so does the planned payout.
    pub fn swap_moves(&self, amount: u64, is_x: bool, min: u64, outcome: Option<SwapResult>) -> (r: Result<
        Vec<Movement>,
        AmmError,
    >)
        ensures
            match swap_amounts_spec(self.config, amount, outcome) {
                Ok(res) => r is Ok && r->Ok_0@ == swap_moves_spec(res, is_x) && (outcome_respects_min(outcome, min) ==> res.withdraw >= min),
                Err(e) => r is Err && r->Err_0 == e,
            },
    {
        let res = match self.swap_amounts(amount, outcome) {
            Ok(res) => res,
            Err(e) => return Err(e),
        };
        let moves = vec![
            Movement::ToVault { is_x, amount: res.deposit },
            Movement::ToUser { is_x, amount: res.withdraw, signer: ConfigSigner::BySeed },
        ];
        assert(moves@ =~= swap_moves_spec(res, is_x));
        Ok(moves)
    }

    /// Performs a swap of `amount`. `min` is the trader's lower bound on the
    /// payout, which only the curve enforces. A refused swap changes nothing;
    /// where the curve's outcome honours `min`, a swap that goes through pays
    /// out at least `min`.
    pub fn swap(&mut self, amount: u64, is_x: bool, min: u64, outcome: Option<SwapResult>) -> (r:
        Result<(), Failure>)
        ensures
            final(self).config == old(self).config,
            final(self).config_key == old(self).config_key,
            match swap_spec(old(self).config, old(self).config_key, old(self).balances, amount, is_x, outcome) {
                Ok(b) => r is Ok && final(self).balances == b,
                Err(e) => r == Err::<(), Failure>(e) && final(self).balances == old(self).balances,
            },
            r is Ok ==> outcome is Some && (outcome_respects_min(outcome, min) ==> outcome->Some_0.withdraw >= min),
            final(self).balances.lp_supply == old(self).balances.lp_supply,
            final(self).balances.user_lp == old(self).balances.user_lp,
    {
        let moves = match self.swap_moves(amount, is_x, min, outcome) {
            Ok(ms) => ms,
            Err(e) => return Err(Failure::Amm(e)),
        };
        let config = self.config;
        let key = self.config_key;
        let ghost before = self.balances;
        let r = apply_movements(&config, &key, &mut self.balances, &moves);
        proof {
            if r is Ok {
                crate::laws::lemma_swap_effect(config, key, before, amount, is_x, min, outcome);
            }
        }
        r
    }

    /// Moves `amount` of X (when `is_x`) or Y from the trader into the
    /// matching vault.
    pub fn deposit_tokens(&mut self, is_x: bool, amount: u64) -> (r: Result<(), Failure>)
        ensures
            final(self).config == old(self).config,
            final(self).config_key == old(self).config_key,
            match movement_spec(old(self).config, old(self).config_key, old(self).balances, Movement::ToVault { is_x, amount }) {
                Ok(b) => r is Ok && final(self).balances == b,
                Err(e) => r == Err::<(), Failure>(e) && final(self).balances == old(self).balances,
            },
    {
        let config = self.config;
        let key = self.config_key;
        apply_movement(&config, &key, &mut self.balances, Movement::ToVault { is_x, amount })
    }

    /// Pays `amount` of X (when `is_x`) or Y from the matching vault to the
    /// trader, signed for the config with the pool's seed.
    pub fn withdraw(&mut self, is_x: bool, amount: u64) -> (r: Result<(), Failure>)
        ensures
            final(self).config == old(self).config,
            final(self).config_key == old(self).config_key,
            match movement_spec(old(self).config, old(self).config_key, old(self).balances, Movement::ToUser { is_x, amount, signer: ConfigSigner::BySeed }) {
                Ok(b) => r is Ok && final(self).balances == b,
                Err(e) => r == Err::<(), Failure>(e) && final(self).balances == old(self).balances,
            },
    {
        let config = self.config;
        let key = self.config_key;
        apply_movement(&config, &key, &mut self.balances, Movement::ToUser { is_x, amount, signer: ConfigSigner::BySeed })
    }
}

} // verus!
