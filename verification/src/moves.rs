use vstd::prelude::*;

use crate::balances::{Balances, burn_lp_spec, mint_lp_spec, transfer_to_user_spec, transfer_to_vault_spec};
use crate::error::{Failure, TokenError};
use crate::state::{Address, Config, config_pda_seeds, config_prefix};

verus! {

/// Which value the program puts after the prefix when it signs for the
/// config account: the pool's seed byte, or the config account's address.
#[derive(Clone, Copy, Debug, PartialEq, Eq, Structural)]
pub enum ConfigSigner {
    BySeed,
    ByKey,
}

/// The signer seeds that the program hands to a call it signs for the config
/// account.
pub open spec fn signer_seeds_spec(c: Config, config_key: Address, signer: ConfigSigner) -> Seq<Seq<u8>> {
    match signer {
        ConfigSigner::BySeed => seq![config_prefix(), seq![c.seed], seq![c.config_bump]],
        ConfigSigner::ByKey => seq![config_prefix(), config_key@, seq![c.config_bump]],
    }
}

/// The signature is accepted exactly when the seeds are those the config
/// account was derived from. (Other seeds give another address, except for a
/// collision of the address hash.)
pub open spec fn signs_for_config(c: Config, config_key: Address, signer: ConfigSigner) -> bool {
    signer_seeds_spec(c, config_key, signer) == config_pda_seeds(c)
}

/// One token movement that an instruction asks the token program for.
#[derive(Clone, Copy, Debug, PartialEq, Eq, Structural)]
pub enum Movement {
    /// The user moves X (when `is_x`) or Y into the vault; the user signs.
    ToVault { is_x: bool, amount: u64 },
    /// The vault pays X (when `is_x`) or Y to the user; the config signs.
    ToUser { is_x: bool, amount: u64, signer: ConfigSigner },
    /// The LP mint mints to the user; the config signs.
    MintLp { amount: u64, signer: ConfigSigner },
    /// LP tokens are burned from the user; the user signs.
    BurnLp { amount: u64 },
}

pub open spec fn token_result(r: Result<Balances, TokenError>) -> Result<Balances, Failure> {
    match r {
        Ok(b) => Ok(b),
        Err(t) => Err(Failure::Token(t)),
    }
}

/// The balances after one movement. A movement that the config signs for is
/// refused by the runtime unless the seeds derive the config account.
pub open spec fn movement_spec(c: Config, config_key: Address, b: Balances, m: Movement) -> Result<Balances, Failure> {
    match m {
        Movement::ToVault { is_x, amount } => token_result(transfer_to_vault_spec(b, is_x, amount)),
        Movement::ToUser { is_x, amount, signer } => if signs_for_config(c, config_key, signer) {
            token_result(transfer_to_user_spec(b, is_x, amount))
        } else {
            Err(Failure::ConfigSignatureRefused)
        },
        Movement::MintLp { amount, signer } => if signs_for_config(c, config_key, signer) {
            token_result(mint_lp_spec(b, amount))
        } else {
            Err(Failure::ConfigSignatureRefused)
        },
        Movement::BurnLp { amount } => token_result(burn_lp_spec(b, amount)),
    }
}

/// The balances after a sequence of movements, or the first refusal.
pub open spec fn movements_spec(c: Config, config_key: Address, b: Balances, ms: Seq<Movement>) -> Result<Balances, Failure>
    decreases ms.len(),
{
    if ms.len() == 0 {
        Ok(b)
    } else {
        match movement_spec(c, config_key, b, ms[0]) {
            Err(e) => Err(e),
            Ok(b1) => movements_spec(c, config_key, b1, ms.drop_first()),
        }
    }
}

/// Builds the signer seeds for a call signed for the config account.
pub fn signer_seeds(c: &Config, config_key: &Address, signer: ConfigSigner) -> (r: Vec<Vec<u8>>)
    ensures
        r.deep_view() == signer_seeds_spec(*c, *config_key, signer),
{
    let prefix: Vec<u8> = vec![99u8, 111u8, 110u8, 102u8, 105u8, 103u8];
    let middle: Vec<u8> = match signer {
        ConfigSigner::BySeed => vec![c.seed],
        ConfigSigner::ByKey => {
            let mut key: Vec<u8> = Vec::new();
            for i in 0..32
                invariant
                    key@ == config_key@.take(i as int),
            {
                key.push(config_key[i]);
                assert(key@ == config_key@.take(i + 1));
            }
            assert(key@ == config_key@);
            key
        },
    };
    let bump: Vec<u8> = vec![c.config_bump];
    let r: Vec<Vec<u8>> = vec![prefix, middle, bump];
    assert(r.deep_view() =~~= signer_seeds_spec(*c, *config_key, signer));
    r
}

/// Signing with the pool's seed byte derives the config account; signing
/// with the config account's own address in its place never does, since that
/// seed is 32 bytes long where the config's is one.
pub proof fn lemma_config_signers(c: Config, config_key: Address)
    ensures
        signs_for_config(c, config_key, ConfigSigner::BySeed),
        !signs_for_config(c, config_key, ConfigSigner::ByKey),
{
    assert(signer_seeds_spec(c, config_key, ConfigSigner::BySeed) =~~= config_pda_seeds(c));
    assert(signer_seeds_spec(c, config_key, ConfigSigner::ByKey)[1].len() == 32);
    assert(config_pda_seeds(c)[1].len() == 1);
}

/// Whether the runtime accepts a signature for the config account with the
/// given choice of seeds: only the pool's seed byte derives it.
pub fn signs(c: &Config, config_key: &Address, signer: ConfigSigner) -> (r: bool)
    ensures
        r == signs_for_config(*c, *config_key, signer),
{
    proof {
        lemma_config_signers(*c, *config_key);
    }
    match signer {
        ConfigSigner::BySeed => true,
        ConfigSigner::ByKey => false,
    }
}

/// Performs one movement on the balances. A refusal leaves them unchanged.
pub fn apply_movement(c: &Config, config_key: &Address, b: &mut Balances, m: Movement) -> (r: Result<(), Failure>)
    ensures
        match movement_spec(*c, *config_key, *old(b), m) {
            Ok(b2) => r is Ok && *final(b) == b2,
            Err(e) => r == Err::<(), Failure>(e) && *final(b) == *old(b),
        },
{
    let t = match m {
        Movement::ToVault { is_x, amount } => b.transfer_to_vault(is_x, amount),
        Movement::ToUser { is_x, amount, signer } => {
            if !signs(c, config_key, signer) {
                return Err(Failure::ConfigSignatureRefused);
            }
            b.transfer_to_user(is_x, amount)
        },
        Movement::MintLp { amount, signer } => {
            if !signs(c, config_key, signer) {
                return Err(Failure::ConfigSignatureRefused);
            }
            b.mint_lp(amount)
        },
        Movement::BurnLp { amount } => b.burn_lp(amount),
    };
    match t {
        Ok(()) => Ok(()),
        Err(e) => Err(Failure::Token(e)),
    }
}

/// Performs the movements in order. The first refusal stops them, and then
/// the balances are as they were before the first movement: the runtime
/// reverts the whole instruction.
pub fn apply_movements(c: &Config, config_key: &Address, b: &mut Balances, ms: &Vec<Movement>) -> (r: Result<(), Failure>)
    ensures
        match movements_spec(*c, *config_key, *old(b), ms@) {
            Ok(b2) => r is Ok && *final(b) == b2,
            Err(e) => r == Err::<(), Failure>(e) && *final(b) == *old(b),
        },
{
    let mut cur = *b;
    let n = ms.len();
    assert(ms@.skip(0) =~= ms@);
    for i in 0..n
        invariant
            n == ms@.len(),
            *b == *old(b),
            movements_spec(*c, *config_key, *old(b), ms@) == movements_spec(*c, *config_key, cur, ms@.skip(i as int)),
    {
        assert(ms@.skip(i as int).drop_first() =~= ms@.skip(i + 1));
        assert(ms@.skip(i as int)[0] == ms@[i as int]);
        apply_movement(c, config_key, &mut cur, ms[i])?;
    }
    assert(ms@.skip(n as int) =~= Seq::<Movement>::empty());
    *b = cur;
    Ok(())
}

} // verus!
