use vstd::prelude::*;

use crate::balances::Balances;
use crate::curve::XYAmounts;
use crate::error::{AmmError, Failure};
use crate::moves::{ConfigSigner, Movement, apply_movement, apply_movements, movement_spec, movements_spec};
use crate::state::{Address, Config};

verus! {

/// What a deposit reads and changes: the pool's configuration and its
/// account address, and the balances of the vaults, the LP mint and the
/// depositor's accounts.
#[derive(Clone, Copy, Debug)]
pub struct Deposit {
    pub config: Config,
    pub config_key: Address,
    pub balances: Balances,
}

/// A pool with no LP supply and two empty vaults.
pub open spec fn pool_is_empty(b: Balances) -> bool {
    b.lp_supply == 0 && b.vault_x == 0 && b.vault_y == 0
}

/// The deposit reaches the curve: the pool is open, the amount is positive
/// and the pool already holds liquidity.
pub open spec fn deposit_needs_quote(c: Config, b: Balances, amount: u64) -> bool {
    !c.is_locked && amount > 0 && !pool_is_empty(b)
}

/// The amounts of X and Y that a deposit of `amount` LP tokens takes from the
/// depositor. The first deposit into an empty pool takes the depositor's
/// limits as they are; later deposits take what the curve quotes.
pub open spec fn deposit_amounts_spec(
    c: Config,
    b: Balances,
    amount: u64,
    max_x: u64,
    max_y: u64,
    quote: Option<XYAmounts>,
) -> Result<XYAmounts, AmmError> {
    if c.is_locked {
        Err(AmmError::PoolLocked)
    } else if amount == 0 {
        Err(AmmError::InvalidAmount)
    } else {
        let q = if pool_is_empty(b) { XYAmounts { x: max_x, y: max_y } } else { quote.unwrap() };
        if q.x <= max_x && q.y <= max_y {
            Ok(q)
        } else {
            Err(AmmError::SlippageExceeded)
        }
    }
}

/// The token movements of a deposit, in order: X into its vault, Y into its
/// vault, then `amount` LP tokens minted to the depositor, signed for the
/// config with the pool's seed.
pub open spec fn deposit_moves_spec(q: XYAmounts, amount: u64) -> Seq<Movement> {
    seq![
        Movement::ToVault { is_x: true, amount: q.x },
        Movement::ToVault { is_x: false, amount: q.y },
        Movement::MintLp { amount, signer: ConfigSigner::BySeed },
    ]
}

/// The balances after a whole deposit.
pub open spec fn deposit_spec(
    c: Config,
    config_key: Address,
    b: Balances,
    amount: u64,
    max_x: u64,
    max_y: u64,
    quote: Option<XYAmounts>,
) -> Result<Balances, Failure> {
    match deposit_amounts_spec(c, b, amount, max_x, max_y, quote) {
        Err(e) => Err(Failure::Amm(e)),
        Ok(q) => movements_spec(c, config_key, b, deposit_moves_spec(q, amount)),
    }
}

impl Deposit {
    /// Whether a deposit of `amount` reaches the curve, so that its quote
    /// must be computed and handed to `deposit`.
    pub fn needs_quote(&self, amount: u64) -> (r: bool)
        ensures
            r == deposit_needs_quote(self.config, self.balances, amount),
    {
        !self.config.is_locked && amount > 0 && !(self.balances.lp_supply == 0 && self.balances.vault_x == 0
            && self.balances.vault_y == 0)
    }

    /// Decides what a deposit of `amount` LP tokens takes from the depositor.
    ///
    /// `quote` is the curve's answer for the current vaults, LP supply and
    /// `amount`; it must be present whenever the deposit reaches the curve
    /// (the program stops otherwise).
    pub fn deposit_amounts(
        &self,
        amount: u64,
        max_amount_x: u64,
        max_amount_y: u64,
        quote: Option<XYAmounts>,
    ) -> (r: Result<XYAmounts, AmmError>)
        requires
            deposit_needs_quote(self.config, self.balances, amount) ==> quote is Some,
        ensures
            r == deposit_amounts_spec(self.config, self.balances, amount, max_amount_x, max_amount_y, quote),
            r is Ok && pool_is_empty(self.balances) ==> r == Ok::<XYAmounts, AmmError>(XYAmounts { x: max_amount_x, y: max_amount_y }),
            r is Ok && !pool_is_empty(self.balances) ==> r == Ok::<XYAmounts, AmmError>(quote->Some_0),
    {
        if self.config.is_locked {
            return Err(AmmError::PoolLocked);
        }
        if amount == 0 {
            return Err(AmmError::InvalidAmount);
        }
        let b = &self.balances;
        let q = if b.lp_supply == 0 && b.vault_x == 0 && b.vault_y == 0 {
            XYAmounts { x: max_amount_x, y: max_amount_y }
        } else {
            quote.unwrap()
        };
        if q.x <= max_amount_x && q.y <= max_amount_y {
            Ok(q)
        } else {
            Err(AmmError::SlippageExceeded)
        }
    }

    /// The ordered token movements that a deposit asks for, or the program's
    /// refusal.
    pub fn deposit_moves(
        &self,
        amount: u64,
        max_amount_x: u64,
        max_amount_y: u64,
        quote: Option<XYAmounts>,
    ) -> (r: Result<Vec<Movement>, AmmError>)
        requires
            deposit_needs_quote(self.config, self.balances, amount) ==> quote is Some,
        ensures
            match deposit_amounts_spec(self.config, self.balances, amount, max_amount_x, max_amount_y, quote) {
                Ok(q) => r is Ok && r->Ok_0@ == deposit_moves_spec(q, amount),
                Err(e) => r is Err && r->Err_0 == e,
            },
    {
        let q = match self.deposit_amounts(amount, max_amount_x, max_amount_y, quote) {
            Ok(q) => q,
            Err(e) => return Err(e),
        };
        let moves = vec![
            Movement::ToVault { is_x: true, amount: q.x },
            Movement::ToVault { is_x: false, amount: q.y },
            Movement::MintLp { amount, signer: ConfigSigner::BySeed },
        ];
        assert(moves@ =~= deposit_moves_spec(q, amount));
        Ok(moves)
    }

    /// Performs a deposit: takes the computed X and Y into the vaults and
    /// mints `amount` LP tokens to the depositor. A refused deposit changes
    /// nothing.
    pub fn deposit(
        &mut self,
        amount: u64,
        max_amount_x: u64,
        max_amount_y: u64,
        quote: Option<XYAmounts>,
    ) -> (r: Result<(), Failure>)
        requires
            deposit_needs_quote(old(self).config, old(self).balances, amount) ==> quote is Some,
        ensures
            final(self).config == old(self).config,
            final(self).config_key == old(self).config_key,
            match deposit_spec(old(self).config, old(self).config_key, old(self).balances, amount, max_amount_x, max_amount_y, quote) {
                Ok(b) => r is Ok && final(self).balances == b,
                Err(e) => r == Err::<(), Failure>(e) && final(self).balances == old(self).balances,
            },
    {
        let moves = match self.deposit_moves(amount, max_amount_x, max_amount_y, quote) {
            Ok(ms) => ms,
            Err(e) => return Err(Failure::Amm(e)),
        };
        let config = self.config;
        let key = self.config_key;
        apply_movements(&config, &key, &mut self.balances, &moves)
    }

    /// Moves `amount` of X (when `is_x`) or Y from the depositor into the
    /// matching vault.
    pub fn deposit_token(&mut self, is_x: bool, amount: u64) -> (r: Result<(), Failure>)
        ensures
            final(self).config == old(self).config,
            final(self).config_key == old(self).config_key,
            match movement_spec(old(self).config, old(self).config_key, old(self).balances, Movement::ToVault { is_x, amount }) {
                Ok(b) => r is Ok && final(self).balances == b,
                Err(e) => r == Err::<(), Failure>(e) && final(self).balances == old(self).balances,
            },
    {
        let config = self.config;
        let key = self.config_key;
        apply_movement(&config, &key, &mut self.balances, Movement::ToVault { is_x, amount })
    }

    /// Mints `amount` LP tokens to the depositor, signed for the config with
    /// the pool's seed.
    pub fn mint_lp_tokens(&mut self, amount: u64) -> (r: Result<(), Failure>)
        ensures
            final(self).config == old(self).config,
            final(self).config_key == old(self).config_key,
            match movement_spec(old(self).config, old(self).config_key, old(self).balances, Movement::MintLp { amount, signer: ConfigSigner::BySeed }) {
                Ok(b) => r is Ok && final(self).balances == b,
                Err(e) => r == Err::<(), Failure>(e) && final(self).balances == old(self).balances,
            },
    {
        let config = self.config;
        let key = self.config_key;
        apply_movement(&config, &key, &mut self.balances, Movement::MintLp { amount, signer: ConfigSigner::BySeed })
    }
}

} // verus!
