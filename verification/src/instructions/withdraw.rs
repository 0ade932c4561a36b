use vstd::prelude::*;

use crate::balances::Balances;
use crate::curve::XYAmounts;
use crate::error::{AmmError, Failure};
use crate::moves::{ConfigSigner, Movement, apply_movement, apply_movements, movement_spec, movements_spec};
use crate::state::{Address, Config};

verus! {

/// What a withdrawal reads and changes: the pool's configuration and its
/// account address, and the balances of the vaults, the LP mint and the
/// withdrawer's accounts.
#[derive(Clone, Copy, Debug)]
pub struct Withdraw {
    pub config: Config,
    pub config_key: Address,
    pub balances: Balances,
}

/// The amounts of X and Y that burning `amount` LP tokens pays out. `quote`
/// is the curve's answer for the current vaults, LP supply and `amount`,
/// `None` where the curve refused.
///
/// The pool must be locked for a withdrawal to go through.
pub open spec fn withdraw_amounts_spec(
    c: Config,
    amount: u64,
    min_x: u64,
    min_y: u64,
    quote: Option<XYAmounts>,
) -> Result<XYAmounts, AmmError> {
    if amount == 0 {
        Err(AmmError::InvalidAmount)
    } else if !c.is_locked {
        Err(AmmError::PoolLocked)
    } else {
        match quote {
            None => Err(AmmError::CurveError),
            Some(q) => if q.x >= min_x && q.y >= min_y {
                Ok(q)
            } else {
                Err(AmmError::SlippageExceeded)
            },
        }
    }
}

/// The token movements of a withdrawal, in order: X out of its vault, Y out
/// of its vault, both signed for the config with the config account's
/// address as the second seed, then `amount` LP tokens burned from the
/// withdrawer.
pub open spec fn withdraw_moves_spec(q: XYAmounts, amount: u64) -> Seq<Movement> {
    seq![
        Movement::ToUser { is_x: true, amount: q.x, signer: ConfigSigner::ByKey },
        Movement::ToUser { is_x: false, amount: q.y, signer: ConfigSigner::ByKey },
        Movement::BurnLp { amount },
    ]
}

/// The balances after a whole withdrawal.
pub open spec fn withdraw_spec(
    c: Config,
    config_key: Address,
    b: Balances,
    amount: u64,
    min_x: u64,
    min_y: u64,
    quote: Option<XYAmounts>,
) -> Result<Balances, Failure> {
    match withdraw_amounts_spec(c, amount, min_x, min_y, quote) {
        Err(e) => Err(Failure::Amm(e)),
        Ok(q) => movements_spec(c, config_key, b, withdraw_moves_spec(q, amount)),
    }
}

impl Withdraw {
    /// Whether a withdrawal of `amount` reaches the curve: the amount is
    /// positive and the pool is locked.
    pub fn needs_quote(&self, amount: u64) -> (r: bool)
        ensures
            r == (amount > 0 && self.config.is_locked),
    {
        amount > 0 && self.config.is_locked
    }

    /// Decides what burning `amount` LP tokens pays out to the withdrawer.
    pub fn withdraw_amounts(
        &self,
        amount: u64,
        min_x: u64,
        min_y: u64,
        quote: Option<XYAmounts>,
    ) -> (r: Result<XYAmounts, AmmError>)
        ensures
            r == withdraw_amounts_spec(self.config, amount, min_x, min_y, quote),
            r is Ok ==> quote is Some && r == Ok::<XYAmounts, AmmError>(quote->Some_0),
    {
        if amount == 0 {
            return Err(AmmError::InvalidAmount);
        }
        if !self.config.is_locked {
            return Err(AmmError::PoolLocked);
        }
        match quote {
            None => Err(AmmError::CurveError),
            Some(q) => {
                if q.x >= min_x && q.y >= min_y {
                    Ok(q)
                } else {
                    Err(AmmError::SlippageExceeded)
                }
            },
        }
    }

    /// The ordered token movements that a withdrawal asks for, or the
    /// program's refusal.
    pub fn withdraw_moves(&self, amount: u64, min_x: u64, min_y: u64, quote: Option<XYAmounts>) -> (r: Result<
        Vec<Movement>,
        AmmError,
    >)
        ensures
            match withdraw_amounts_spec(self.config, amount, min_x, min_y, quote) {
                Ok(q) => r is Ok && r->Ok_0@ == withdraw_moves_spec(q, amount),
                Err(e) => r is Err && r->Err_0 == e,
            },
    {
        let q = match self.withdraw_amounts(amount, min_x, min_y, quote) {
            Ok(q) => q,
            Err(e) => return Err(e),
        };
        let moves = vec![
            Movement::ToUser { is_x: true, amount: q.x, signer: ConfigSigner::ByKey },
            Movement::ToUser { is_x: false, amount: q.y, signer: ConfigSigner::ByKey },
            Movement::BurnLp { amount },
        ];
        assert(moves@ =~= withdraw_moves_spec(q, amount));
        Ok(moves)
    }

    /// Performs a withdrawal: pays the computed X and Y out of the vaults and
    /// burns `amount` LP tokens from the withdrawer. A refused withdrawal
    /// changes nothing.
    pub fn withdraw(&mut self, amount: u64, min_x: u64, min_y: u64, quote: Option<XYAmounts>) -> (r:
        Result<(), Failure>)
        ensures
            final(self).config == old(self).config,
            final(self).config_key == old(self).config_key,
            match withdraw_spec(old(self).config, old(self).config_key, old(self).balances, amount, min_x, min_y, quote) {
                Ok(b) => r is Ok && final(self).balances == b,
                Err(e) => r == Err::<(), Failure>(e) && final(self).balances == old(self).balances,
            },
    {
        let moves = match self.withdraw_moves(amount, min_x, min_y, quote) {
            Ok(ms) => ms,
            Err(e) => return Err(Failure::Amm(e)),
        };
        let config = self.config;
        let key = self.config_key;
        apply_movements(&config, &key, &mut self.balances, &moves)
    }

    /// Pays `amount` of X (when `is_x`) or Y from the matching vault to the
    /// withdrawer, signed for the config with the config account's address as
    /// the second seed.
    pub fn withdraw_token(&mut self, is_x: bool, amount: u64) -> (r: Result<(), Failure>)
        ensures
            final(self).config == old(self).config,
            final(self).config_key == old(self).config_key,
            match movement_spec(old(self).config, old(self).config_key, old(self).balances, Movement::ToUser { is_x, amount, signer: ConfigSigner::ByKey }) {
                Ok(b) => r is Ok && final(self).balances == b,
                Err(e) => r == Err::<(), Failure>(e) && final(self).balances == old(self).balances,
            },
    {
        let config = self.config;
        let key = self.config_key;
        apply_movement(&config, &key, &mut self.balances, Movement::ToUser { is_x, amount, signer: ConfigSigner::ByKey })
    }

    /// Burns `amount` LP tokens from the withdrawer.
    pub fn burn(&mut self, amount: u64) -> (r: Result<(), Failure>)
        ensures
            final(self).config == old(self).config,
            final(self).config_key == old(self).config_key,
            match movement_spec(old(self).config, old(self).config_key, old(self).balances, Movement::BurnLp { amount }) {
                Ok(b) => r is Ok && final(self).balances == b,
                Err(e) => r == Err::<(), Failure>(e) && final(self).balances == old(self).balances,
            },
    {
        let config = self.config;
        let key = self.config_key;
        apply_movement(&config, &key, &mut self.balances, Movement::BurnLp { amount })
    }
}

} // verus!
