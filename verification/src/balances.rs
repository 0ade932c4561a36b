use vstd::prelude::*;

use crate::error::TokenError;

verus! {

/// The token balances that an instruction reads and changes: the pool's two
/// vaults, the supply of the LP mint, and the user's accounts for X, Y and
/// the LP token.
#[derive(Clone, Copy, Debug, PartialEq, Eq, Structural)]
pub struct Balances {
    pub vault_x: u64,
    pub vault_y: u64,
    pub lp_supply: u64,
    pub user_x: u64,
    pub user_y: u64,
    pub user_lp: u64,
}

/// Moving `amount` of X (or Y) from the user's account into the vault: refused
/// when the user holds less than `amount`, or when the vault would overflow.
pub open spec fn transfer_to_vault_spec(b: Balances, is_x: bool, amount: u64) -> Result<Balances, TokenError> {
    if is_x {
        if b.user_x < amount {
            Err(TokenError::InsufficientFunds)
        } else if b.vault_x + amount > u64::MAX {
            Err(TokenError::Overflow)
        } else {
            Ok(Balances { user_x: (b.user_x - amount) as u64, vault_x: (b.vault_x + amount) as u64, ..b })
        }
    } else {
        if b.user_y < amount {
            Err(TokenError::InsufficientFunds)
        } else if b.vault_y + amount > u64::MAX {
            Err(TokenError::Overflow)
        } else {
            Ok(Balances { user_y: (b.user_y - amount) as u64, vault_y: (b.vault_y + amount) as u64, ..b })
        }
    }
}

/// Moving `amount` of X (or Y) from the vault to the user's account: refused
/// when the vault holds less than `amount`, or when the user's account would
/// overflow.
pub open spec fn transfer_to_user_spec(b: Balances, is_x: bool, amount: u64) -> Result<Balances, TokenError> {
    if is_x {
        if b.vault_x < amount {
            Err(TokenError::InsufficientFunds)
        } else if b.user_x + amount > u64::MAX {
            Err(TokenError::Overflow)
        } else {
            Ok(Balances { vault_x: (b.vault_x - amount) as u64, user_x: (b.user_x + amount) as u64, ..b })
        }
    } else {
        if b.vault_y < amount {
            Err(TokenError::InsufficientFunds)
        } else if b.user_y + amount > u64::MAX {
            Err(TokenError::Overflow)
        } else {
            Ok(Balances { vault_y: (b.vault_y - amount) as u64, user_y: (b.user_y + amount) as u64, ..b })
        }
    }
}

/// Minting `amount` LP tokens to the user: refused when the user's LP
/// balance or the LP supply would overflow.
pub open spec fn mint_lp_spec(b: Balances, amount: u64) -> Result<Balances, TokenError> {
    if b.user_lp + amount > u64::MAX || b.lp_supply + amount > u64::MAX {
        Err(TokenError::Overflow)
    } else {
        Ok(Balances { user_lp: (b.user_lp + amount) as u64, lp_supply: (b.lp_supply + amount) as u64, ..b })
    }
}

/// Burning `amount` LP tokens from the user: refused when the user holds
/// fewer than `amount`, or when the supply is smaller than `amount`.
pub open spec fn burn_lp_spec(b: Balances, amount: u64) -> Result<Balances, TokenError> {
    if b.user_lp < amount {
        Err(TokenError::InsufficientFunds)
    } else if b.lp_supply < amount {
        Err(TokenError::Overflow)
    } else {
        Ok(Balances { user_lp: (b.user_lp - amount) as u64, lp_supply: (b.lp_supply - amount) as u64, ..b })
    }
}

/// Tokens of X held by the user and the vault together.
pub open spec fn total_x(b: Balances) -> int {
    b.user_x + b.vault_x
}

/// Tokens of Y held by the user and the vault together.
pub open spec fn total_y(b: Balances) -> int {
    b.user_y + b.vault_y
}

/// LP tokens in circulation outside the user's account.
pub open spec fn lp_held_elsewhere(b: Balances) -> int {
    b.lp_supply - b.user_lp
}

/// The bounds that hold of balances read on chain: the user's account and the
/// vault of one mint together hold at most that mint's supply, which fits in
/// a `u64`, and the user's LP tokens are part of the LP supply.
pub open spec fn supply_bounded(b: Balances) -> bool {
    &&& b.user_x + b.vault_x <= u64::MAX
    &&& b.user_y + b.vault_y <= u64::MAX
    &&& b.user_lp <= b.lp_supply
}

/// On balances within their supply bounds, no transfer and no burn overflows,
/// a mint overflows exactly when the LP supply would, and every movement that
/// goes through keeps the bounds.
pub proof fn lemma_bounded_balances(b: Balances, is_x: bool, amount: u64)
    requires
        supply_bounded(b),
    ensures
        transfer_to_vault_spec(b, is_x, amount) != Err::<Balances, TokenError>(TokenError::Overflow),
        transfer_to_user_spec(b, is_x, amount) != Err::<Balances, TokenError>(TokenError::Overflow),
        burn_lp_spec(b, amount) != Err::<Balances, TokenError>(TokenError::Overflow),
        (mint_lp_spec(b, amount) == Err::<Balances, TokenError>(TokenError::Overflow)) <==> b.lp_supply + amount > u64::MAX,
        transfer_to_vault_spec(b, is_x, amount) matches Ok(b2) ==> supply_bounded(b2),
        transfer_to_user_spec(b, is_x, amount) matches Ok(b2) ==> supply_bounded(b2),
        burn_lp_spec(b, amount) matches Ok(b2) ==> supply_bounded(b2),
        mint_lp_spec(b, amount) matches Ok(b2) ==> supply_bounded(b2),
{
}

/// Each movement does what its name says and nothing else: a transfer
/// moves exactly `amount` of one token between the user and its vault, leaving
/// the other token and the LP untouched; a mint or a burn changes the user's LP
/// and the LP supply by exactly `amount`. A transfer or burn is refused for
/// insufficient funds exactly when its source holds less than `amount`.
pub proof fn lemma_movements_move_exactly(b: Balances, is_x: bool, amount: u64)
    ensures
        (transfer_to_vault_spec(b, is_x, amount) == Err::<Balances, TokenError>(TokenError::InsufficientFunds))
            <==> (if is_x { b.user_x < amount } else { b.user_y < amount }),
        (transfer_to_user_spec(b, is_x, amount) == Err::<Balances, TokenError>(TokenError::InsufficientFunds))
            <==> (if is_x { b.vault_x < amount } else { b.vault_y < amount }),
        (burn_lp_spec(b, amount) == Err::<Balances, TokenError>(TokenError::InsufficientFunds)) <==> b.user_lp < amount,
        transfer_to_vault_spec(b, is_x, amount) matches Ok(b2) ==> {
            &&& total_x(b2) == total_x(b) && total_y(b2) == total_y(b)
            &&& is_x ==> b2.vault_x == b.vault_x + amount && b2.vault_y == b.vault_y
            &&& !is_x ==> b2.vault_y == b.vault_y + amount && b2.vault_x == b.vault_x
            &&& b2.user_lp == b.user_lp && b2.lp_supply == b.lp_supply
        },
        transfer_to_user_spec(b, is_x, amount) matches Ok(b2) ==> {
            &&& total_x(b2) == total_x(b) && total_y(b2) == total_y(b)
            &&& is_x ==> b2.user_x == b.user_x + amount && b2.user_y == b.user_y
            &&& !is_x ==> b2.user_y == b.user_y + amount && b2.user_x == b.user_x
            &&& b2.user_lp == b.user_lp && b2.lp_supply == b.lp_supply
        },
        mint_lp_spec(b, amount) matches Ok(b2) ==> {
            &&& b2.user_lp == b.user_lp + amount && b2.lp_supply == b.lp_supply + amount
            &&& b2.user_x == b.user_x && b2.user_y == b.user_y && b2.vault_x == b.vault_x && b2.vault_y == b.vault_y
        },
        burn_lp_spec(b, amount) matches Ok(b2) ==> {
            &&& b2.user_lp + amount == b.user_lp && b2.lp_supply + amount == b.lp_supply
            &&& b2.user_x == b.user_x && b2.user_y == b.user_y && b2.vault_x == b.vault_x && b2.vault_y == b.vault_y
        },
{
}

impl Balances {
    /// Moves `amount` of X (when `is_x`) or Y from the user into the vault.
    /// A refusal leaves the balances unchanged.
    pub fn transfer_to_vault(&mut self, is_x: bool, amount: u64) -> (r: Result<(), TokenError>)
        ensures
            match transfer_to_vault_spec(*old(self), is_x, amount) {
                Ok(b) => r == Ok::<(), TokenError>(()) && *final(self) == b,
                Err(e) => r == Err::<(), TokenError>(e) && *final(self) == *old(self),
            },
    {
        if is_x {
            if self.user_x < amount {
                return Err(TokenError::InsufficientFunds);
            }
            if self.vault_x > u64::MAX - amount {
                return Err(TokenError::Overflow);
            }
            self.user_x = self.user_x - amount;
            self.vault_x = self.vault_x + amount;
        } else {
            if self.user_y < amount {
                return Err(TokenError::InsufficientFunds);
            }
            if self.vault_y > u64::MAX - amount {
                return Err(TokenError::Overflow);
            }
            self.user_y = self.user_y - amount;
            self.vault_y = self.vault_y + amount;
        }
        Ok(())
    }

    /// Moves `amount` of X (when `is_x`) or Y from the vault to the user.
    /// A refusal leaves the balances unchanged.
    pub fn transfer_to_user(&mut self, is_x: bool, amount: u64) -> (r: Result<(), TokenError>)
        ensures
            match transfer_to_user_spec(*old(self), is_x, amount) {
                Ok(b) => r == Ok::<(), TokenError>(()) && *final(self) == b,
                Err(e) => r == Err::<(), TokenError>(e) && *final(self) == *old(self),
            },
    {
        if is_x {
            if self.vault_x < amount {
                return Err(TokenError::InsufficientFunds);
            }
            if self.user_x > u64::MAX - amount {
                return Err(TokenError::Overflow);
            }
            self.vault_x = self.vault_x - amount;
            self.user_x = self.user_x + amount;
        } else {
            if self.vault_y < amount {
                return Err(TokenError::InsufficientFunds);
            }
            if self.user_y > u64::MAX - amount {
                return Err(TokenError::Overflow);
            }
            self.vault_y = self.vault_y - amount;
            self.user_y = self.user_y + amount;
        }
        Ok(())
    }

    /// Mints `amount` LP tokens to the user. A refusal leaves the balances
    /// unchanged.
    pub fn mint_lp(&mut self, amount: u64) -> (r: Result<(), TokenError>)
        ensures
            match mint_lp_spec(*old(self), amount) {
                Ok(b) => r == Ok::<(), TokenError>(()) && *final(self) == b,
                Err(e) => r == Err::<(), TokenError>(e) && *final(self) == *old(self),
            },
    {
        if self.user_lp > u64::MAX - amount || self.lp_supply > u64::MAX - amount {
            return Err(TokenError::Overflow);
        }
        self.user_lp = self.user_lp + amount;
        self.lp_supply = self.lp_supply + amount;
        Ok(())
    }

    /// Burns `amount` LP tokens from the user. A refusal leaves the balances
    /// unchanged.
    pub fn burn_lp(&mut self, amount: u64) -> (r: Result<(), TokenError>)
        ensures
            match burn_lp_spec(*old(self), amount) {
                Ok(b) => r == Ok::<(), TokenError>(()) && *final(self) == b,
                Err(e) => r == Err::<(), TokenError>(e) && *final(self) == *old(self),
            },
    {
        if self.user_lp < amount {
            return Err(TokenError::InsufficientFunds);
        }
        if self.lp_supply < amount {
            return Err(TokenError::Overflow);
        }
        self.user_lp = self.user_lp - amount;
        self.lp_supply = self.lp_supply - amount;
        Ok(())
    }
}

} // verus!
