use amm::balances::Balances;
use amm::curve::{SwapResult, XYAmounts};
use amm::error::{AmmError, Failure, TokenError};
use amm::instructions::deposit::Deposit;
use amm::instructions::initialize::{Initialize, InitializeBumps};
use amm::instructions::swap::Swap;
use amm::instructions::withdraw::Withdraw;
use amm::moves::{ConfigSigner, Movement};
use amm::state::Config;

const CONFIG_KEY: [u8; 32] = [42u8; 32];

fn config(is_locked: bool) -> Config {
    Config {
        seed: 7,
        mint_x: [1u8; 32],
        mint_y: [2u8; 32],
        config_bump: 254,
        lp_bump: 253,
        fee: 30,
        authority: None,
        is_locked,
    }
}

fn balances(vault_x: u64, vault_y: u64, lp_supply: u64, user_x: u64, user_y: u64, user_lp: u64) -> Balances {
    Balances { vault_x, vault_y, lp_supply, user_x, user_y, user_lp }
}

fn xy(x: u64, y: u64) -> XYAmounts {
    XYAmounts { x, y }
}

fn swap_result(deposit: u64, withdraw: u64) -> SwapResult {
    SwapResult { deposit, withdraw, fee: 1 }
}

#[test]
fn init_writes_an_unlocked_config() {
    let mut ix = Initialize { mint_x: [9u8; 32], mint_y: [8u8; 32], config: Config::default() };
    let r = ix.init(3, Some([5u8; 32]), 25, InitializeBumps { config: 250, lp_mint: 249 });
    assert_eq!(r, Ok(()));
    let c = ix.config;
    assert_eq!(c.seed, 3);
    assert_eq!(c.mint_x, [9u8; 32]);
    assert_eq!(c.mint_y, [8u8; 32]);
    assert_eq!(c.fee, 25);
    assert_eq!(c.authority, Some([5u8; 32]));
    assert!(!c.is_locked);
    assert_eq!(c.config_bump, 250);
    assert_eq!(c.lp_bump, 249);
    assert_eq!(ix.mint_x, [9u8; 32]);
}

#[test]
fn default_config_is_zeroed() {
    let c = Config::default();
    assert_eq!(c.seed, 0);
    assert_eq!(c.mint_x, [0u8; 32]);
    assert_eq!(c.mint_y, [0u8; 32]);
    assert_eq!(c.fee, 0);
    assert_eq!(c.authority, None);
    assert!(!c.is_locked);
}

#[test]
fn deposit_refused_on_locked_pool() {
    let b = balances(10, 10, 10, 100, 100, 0);
    let mut d = Deposit { config: config(true), config_key: CONFIG_KEY, balances: b };
    assert_eq!(d.deposit(5, 50, 50, Some(xy(5, 5))), Err(Failure::Amm(AmmError::PoolLocked)));
    assert_eq!(d.balances, b);
    // the lock check comes before the amount check
    assert_eq!(d.deposit(0, 50, 50, None), Err(Failure::Amm(AmmError::PoolLocked)));
}

#[test]
fn deposit_of_zero_is_invalid() {
    let b = balances(10, 10, 10, 100, 100, 0);
    let mut d = Deposit { config: config(false), config_key: CONFIG_KEY, balances: b };
    assert_eq!(d.deposit(0, 50, 50, None), Err(Failure::Amm(AmmError::InvalidAmount)));
    assert_eq!(d.balances, b);
}

#[test]
fn first_deposit_takes_the_limits() {
    let mut d = Deposit { config: config(false), config_key: CONFIG_KEY, balances: balances(0, 0, 0, 100, 200, 0) };
    assert!(!d.needs_quote(10));
    assert_eq!(d.deposit_amounts(10, 40, 70, None), Ok(xy(40, 70)));
    assert_eq!(d.deposit(10, 40, 70, Some(xy(1, 1))), Ok(()));
    assert_eq!(d.balances, balances(40, 70, 10, 60, 130, 10));
}

#[test]
fn later_deposit_takes_the_quote() {
    let mut d = Deposit { config: config(false), config_key: CONFIG_KEY, balances: balances(100, 400, 200, 50, 80, 0) };
    assert!(d.needs_quote(20));
    assert_eq!(d.deposit(20, 10, 40, Some(xy(10, 40))), Ok(()));
    assert_eq!(d.balances, balances(110, 440, 220, 40, 40, 20));
}

#[test]
fn deposit_beyond_limits_is_slippage() {
    let b = balances(100, 400, 200, 50, 80, 0);
    let mut d = Deposit { config: config(false), config_key: CONFIG_KEY, balances: b };
    assert_eq!(d.deposit(20, 9, 40, Some(xy(10, 40))), Err(Failure::Amm(AmmError::SlippageExceeded)));
    assert_eq!(d.deposit(20, 10, 39, Some(xy(10, 40))), Err(Failure::Amm(AmmError::SlippageExceeded)));
    assert_eq!(d.balances, b);
}

#[test]
fn deposit_without_funds_changes_nothing() {
    let b = balances(100, 400, 200, 50, 30, 0);
    let mut d = Deposit { config: config(false), config_key: CONFIG_KEY, balances: b };
    // X moves, then Y is short: the whole deposit is refused
    assert_eq!(d.deposit(20, 10, 40, Some(xy(10, 40))), Err(Failure::Token(TokenError::InsufficientFunds)));
    assert_eq!(d.balances, b);
}

#[test]
fn deposit_minting_past_supply_limit_overflows() {
    let b = balances(100, 400, u64::MAX - 5, 50, 80, 0);
    let mut d = Deposit { config: config(false), config_key: CONFIG_KEY, balances: b };
    assert_eq!(d.deposit(6, 10, 40, Some(xy(10, 40))), Err(Failure::Token(TokenError::Overflow)));
    assert_eq!(d.balances, b);
}

#[test]
fn deposit_token_and_mint_lp_tokens_move_balances() {
    let mut d = Deposit { config: config(false), config_key: CONFIG_KEY, balances: balances(1, 2, 3, 10, 20, 0) };
    assert_eq!(d.deposit_token(true, 4), Ok(()));
    assert_eq!(d.deposit_token(false, 5), Ok(()));
    assert_eq!(d.mint_lp_tokens(7), Ok(()));
    assert_eq!(d.balances, balances(5, 7, 10, 6, 15, 7));
    assert_eq!(d.deposit_token(true, 7), Err(Failure::Token(TokenError::InsufficientFunds)));
    assert_eq!(d.balances, balances(5, 7, 10, 6, 15, 7));
}

#[test]
fn withdraw_of_zero_is_invalid() {
    let mut w = Withdraw { config: config(false), config_key: CONFIG_KEY, balances: balances(10, 10, 10, 0, 0, 10) };
    assert_eq!(w.withdraw(0, 0, 0, Some(xy(1, 1))), Err(Failure::Amm(AmmError::InvalidAmount)));
}

#[test]
fn withdraw_refused_on_unlocked_pool() {
    let b = balances(10, 10, 10, 0, 0, 10);
    let mut w = Withdraw { config: config(false), config_key: CONFIG_KEY, balances: b };
    assert_eq!(w.withdraw(5, 0, 0, Some(xy(5, 5))), Err(Failure::Amm(AmmError::PoolLocked)));
    assert_eq!(w.balances, b);
}

#[test]
fn withdraw_refused_by_curve() {
    let mut w = Withdraw { config: config(true), config_key: CONFIG_KEY, balances: balances(10, 10, 10, 0, 0, 10) };
    assert_eq!(w.withdraw_amounts(5, 0, 0, None), Err(AmmError::CurveError));
    assert_eq!(w.withdraw(5, 0, 0, None), Err(Failure::Amm(AmmError::CurveError)));
}

#[test]
fn withdraw_below_minimum_is_slippage() {
    let mut w = Withdraw { config: config(true), config_key: CONFIG_KEY, balances: balances(100, 400, 200, 0, 0, 50) };
    assert_eq!(w.withdraw(20, 11, 0, Some(xy(10, 40))), Err(Failure::Amm(AmmError::SlippageExceeded)));
    assert_eq!(w.withdraw(20, 0, 41, Some(xy(10, 40))), Err(Failure::Amm(AmmError::SlippageExceeded)));
}

#[test]
fn withdraw_payout_is_never_authorized() {
    let b = balances(100, 400, 200, 3, 4, 50);
    let mut w = Withdraw { config: config(true), config_key: CONFIG_KEY, balances: b };
    assert_eq!(w.withdraw_amounts(20, 10, 40, Some(xy(10, 40))), Ok(xy(10, 40)));
    assert_eq!(w.withdraw(20, 10, 40, Some(xy(10, 40))), Err(Failure::ConfigSignatureRefused));
    assert_eq!(w.balances, b);
}

#[test]
fn withdraw_moves_sign_with_the_config_address() {
    let w = Withdraw { config: config(true), config_key: CONFIG_KEY, balances: balances(100, 400, 200, 3, 4, 50) };
    assert_eq!(
        w.withdraw_moves(20, 10, 40, Some(xy(10, 40))),
        Ok(vec![
            Movement::ToUser { is_x: true, amount: 10, signer: ConfigSigner::ByKey },
            Movement::ToUser { is_x: false, amount: 40, signer: ConfigSigner::ByKey },
            Movement::BurnLp { amount: 20 },
        ])
    );
    assert_eq!(w.withdraw_moves(20, 11, 40, Some(xy(10, 40))), Err(AmmError::SlippageExceeded));
}

#[test]
fn withdraw_token_is_refused_and_burn_moves_balances() {
    let mut w = Withdraw { config: config(true), config_key: CONFIG_KEY, balances: balances(10, 20, 30, 0, 0, 5) };
    assert_eq!(w.withdraw_token(true, 10), Err(Failure::ConfigSignatureRefused));
    assert_eq!(w.withdraw_token(false, 0), Err(Failure::ConfigSignatureRefused));
    assert_eq!(w.burn(5), Ok(()));
    assert_eq!(w.balances, balances(10, 20, 25, 0, 0, 0));
    assert_eq!(w.burn(1), Err(Failure::Token(TokenError::InsufficientFunds)));
}

#[test]
fn swap_of_zero_is_invalid() {
    let mut s = Swap { config: config(true), config_key: CONFIG_KEY, balances: balances(10, 10, 10, 10, 10, 0) };
    assert_eq!(s.swap(0, true, 0, Some(swap_result(1, 1))), Err(Failure::Amm(AmmError::InvalidAmount)));
}

#[test]
fn swap_refused_on_unlocked_pool() {
    let mut s = Swap { config: config(false), config_key: CONFIG_KEY, balances: balances(10, 10, 10, 10, 10, 0) };
    assert_eq!(s.swap(5, true, 0, Some(swap_result(5, 4))), Err(Failure::Amm(AmmError::PoolLocked)));
}

#[test]
fn swap_refused_by_curve() {
    let mut s = Swap { config: config(true), config_key: CONFIG_KEY, balances: balances(10, 10, 10, 10, 10, 0) };
    assert_eq!(s.swap(5, true, 0, None), Err(Failure::Amm(AmmError::CurveError)));
}

#[test]
fn swap_with_a_zero_leg_is_invalid() {
    let s = Swap { config: config(true), config_key: CONFIG_KEY, balances: balances(10, 10, 10, 10, 10, 0) };
    assert_eq!(s.swap_amounts(5, Some(swap_result(0, 4))), Err(AmmError::InvalidAmount));
    assert_eq!(s.swap_amounts(5, Some(swap_result(5, 0))), Err(AmmError::InvalidAmount));
    assert_eq!(s.swap_amounts(5, Some(swap_result(5, 4))), Ok(swap_result(5, 4)));
}

#[test]
fn swap_moves_both_legs_through_one_vault() {
    let mut s = Swap { config: config(true), config_key: CONFIG_KEY, balances: balances(100, 200, 50, 30, 40, 0) };
    assert_eq!(s.swap(10, true, 7, Some(swap_result(10, 8))), Ok(()));
    assert_eq!(s.balances, balances(102, 200, 50, 28, 40, 0));
    assert_eq!(s.swap(10, false, 7, Some(swap_result(10, 9))), Ok(()));
    assert_eq!(s.balances, balances(102, 201, 50, 28, 39, 0));
}

#[test]
fn swap_without_funds_changes_nothing() {
    let b = balances(100, 200, 50, 5, 40, 0);
    let mut s = Swap { config: config(true), config_key: CONFIG_KEY, balances: b };
    assert_eq!(s.swap(10, true, 0, Some(swap_result(10, 8))), Err(Failure::Token(TokenError::InsufficientFunds)));
    assert_eq!(s.balances, b);
}

#[test]
fn swap_deposit_tokens_and_withdraw_move_balances() {
    let mut s = Swap { config: config(true), config_key: CONFIG_KEY, balances: balances(1, 1, 0, 5, 5, 0) };
    assert_eq!(s.deposit_tokens(false, 5), Ok(()));
    assert_eq!(s.withdraw(true, 1), Ok(()));
    assert_eq!(s.balances, balances(0, 6, 0, 6, 0, 0));
    assert_eq!(s.withdraw(true, 1), Err(Failure::Token(TokenError::InsufficientFunds)));
}

#[test]
fn deposit_moves_are_the_token_calls_in_order() {
    let d = Deposit { config: config(false), config_key: CONFIG_KEY, balances: balances(100, 400, 200, 50, 80, 0) };
    assert_eq!(
        d.deposit_moves(20, 10, 40, Some(xy(10, 40))),
        Ok(vec![
            Movement::ToVault { is_x: true, amount: 10 },
            Movement::ToVault { is_x: false, amount: 40 },
            Movement::MintLp { amount: 20, signer: ConfigSigner::BySeed },
        ])
    );
    let locked = Deposit { config: config(true), config_key: CONFIG_KEY, balances: balances(0, 0, 0, 0, 0, 0) };
    assert_eq!(locked.deposit_moves(1, 1, 1, None), Err(AmmError::PoolLocked));
}

#[test]
fn swap_moves_use_one_side_and_reach_the_minimum() {
    let s = Swap { config: config(true), config_key: CONFIG_KEY, balances: balances(100, 200, 50, 30, 40, 0) };
    assert_eq!(
        s.swap_moves(10, false, 8, Some(swap_result(10, 8))),
        Ok(vec![
            Movement::ToVault { is_x: false, amount: 10 },
            Movement::ToUser { is_x: false, amount: 8, signer: ConfigSigner::BySeed },
        ])
    );
    assert_eq!(s.swap_moves(10, false, 8, Some(swap_result(10, 0))), Err(AmmError::InvalidAmount));
}

#[test]
fn swap_leaves_the_minimum_to_the_curve() {
    // The program hands `min` to the curve and checks nothing of it itself.
    let mut s = Swap { config: config(true), config_key: CONFIG_KEY, balances: balances(100, 200, 50, 30, 40, 7) };
    assert_eq!(s.swap(10, true, 50, Some(swap_result(10, 8))), Ok(()));
    assert_eq!(s.balances, balances(102, 200, 50, 28, 40, 7));
}

#[test]
fn bounded_balances_never_overflow_on_transfers() {
    // Each mint's accounts together hold at most its supply.
    let mut b = balances(u64::MAX - 10, 5, 20, 10, 3, 20);
    assert_eq!(b.transfer_to_vault(true, 10), Ok(()));
    assert_eq!(b.transfer_to_user(true, u64::MAX), Ok(()));
    assert_eq!(b.burn_lp(20), Ok(()));
    assert_eq!(b, balances(0, 5, 0, u64::MAX, 3, 0));
}
