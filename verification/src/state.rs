use vstd::prelude::*;

verus! {

/// A 32-byte account address.
pub type Address = [u8; 32];

/// The pool's configuration account.
#[derive(Clone, Copy, Debug)]
pub struct Config {
    pub seed: u8,
    pub mint_x: Address,
    pub mint_y: Address,
    pub config_bump: u8,
    pub lp_bump: u8,
    /// Swap fee in basis points, handed to the curve.
    pub fee: u16,
    pub authority: Option<Address>,
    pub is_locked: bool,
}

/// The seed prefix `b"config"`.
pub open spec fn config_prefix() -> Seq<u8> {
    seq![99u8, 111u8, 110u8, 102u8, 105u8, 103u8]
}

/// The seeds that the config account's address is derived from: the prefix,
/// the pool's seed byte, and the bump found at initialization.
pub open spec fn config_pda_seeds(c: Config) -> Seq<Seq<u8>> {
    seq![config_prefix(), seq![c.seed], seq![c.config_bump]]
}

/// A zeroed configuration, as a freshly created account holds before
/// initialization writes it.
impl Default for Config {
    fn default() -> (c: Config)
        ensures
            c.seed == 0,
            forall|i: int| 0 <= i < 32 ==> c.mint_x[i] == 0 && c.mint_y[i] == 0,
            c.config_bump == 0,
            c.lp_bump == 0,
            c.fee == 0,
            c.authority is None,
            !c.is_locked,
    {
        Config {
            seed: 0,
            mint_x: [0u8; 32],
            mint_y: [0u8; 32],
            config_bump: 0,
            lp_bump: 0,
            fee: 0,
            authority: None,
            is_locked: false,
        }
    }
}

} // verus!
