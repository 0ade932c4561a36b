use vstd::prelude::*;

use crate::balances::{Balances, lp_held_elsewhere, total_x, total_y};
use crate::curve::{SwapResult, XYAmounts};
use crate::error::{AmmError, Failure};
use crate::instructions::deposit::{deposit_amounts_spec, deposit_moves_spec, deposit_spec, pool_is_empty};
use crate::instructions::initialize::{InitializeBumps, initial_config};
use crate::instructions::swap::{outcome_respects_min, swap_amounts_spec, swap_moves_spec, swap_spec};
use crate::instructions::withdraw::{withdraw_amounts_spec, withdraw_moves_spec, withdraw_spec};
use crate::moves::{ConfigSigner, Movement, lemma_config_signers, movements_spec};
use crate::state::{Address, Config};

verus! {

/// The lock flag splits the instructions: a deposit of a positive amount is
/// refused as `PoolLocked` exactly when the pool is locked, while a
/// withdrawal or a swap of a positive amount is refused as `PoolLocked`
/// exactly when it is not. So no configuration lets both a deposit and a
/// withdrawal (or a swap) through.
pub proof fn lemma_lock_flag_splits_instructions(
    c: Config,
    config_key: Address,
    b: Balances,
    deposit_amount: u64,
    max_x: u64,
    max_y: u64,
    deposit_quote: Option<XYAmounts>,
    withdraw_amount: u64,
    min_x: u64,
    min_y: u64,
    withdraw_quote: Option<XYAmounts>,
    swap_amount: u64,
    outcome: Option<SwapResult>,
)
    requires
        deposit_amount > 0,
        withdraw_amount > 0,
        swap_amount > 0,
    ensures
        (deposit_amounts_spec(c, b, deposit_amount, max_x, max_y, deposit_quote) == Err::<XYAmounts, AmmError>(AmmError::PoolLocked)) <==> c.is_locked,
        (withdraw_amounts_spec(c, withdraw_amount, min_x, min_y, withdraw_quote) == Err::<XYAmounts, AmmError>(AmmError::PoolLocked)) <==> !c.is_locked,
        (swap_amounts_spec(c, swap_amount, outcome) == Err::<SwapResult, AmmError>(AmmError::PoolLocked)) <==> !c.is_locked,
        !(deposit_spec(c, config_key, b, deposit_amount, max_x, max_y, deposit_quote) is Ok
            && swap_spec(c, config_key, b, swap_amount, true, outcome) is Ok),
        !(deposit_spec(c, config_key, b, deposit_amount, max_x, max_y, deposit_quote) is Ok
            && swap_spec(c, config_key, b, swap_amount, false, outcome) is Ok),
{
}

/// A freshly initialized pool is unlocked: it refuses every withdrawal and
/// every swap of a positive amount as `PoolLocked`, while its deposits pass
/// the lock check.
pub proof fn lemma_fresh_pool_refuses_withdraw_and_swap(
    seed: u8,
    mint_x: Address,
    mint_y: Address,
    authority: Option<Address>,
    fee: u16,
    bumps: InitializeBumps,
    config_key: Address,
    b: Balances,
    amount: u64,
    max_x: u64,
    max_y: u64,
    deposit_quote: Option<XYAmounts>,
    min_x: u64,
    min_y: u64,
    withdraw_quote: Option<XYAmounts>,
    is_x: bool,
    outcome: Option<SwapResult>,
)
    requires
        amount > 0,
    ensures
        ({
            let c = initial_config(seed, mint_x, mint_y, authority, fee, bumps);
            &&& withdraw_amounts_spec(c, amount, min_x, min_y, withdraw_quote) == Err::<XYAmounts, AmmError>(AmmError::PoolLocked)
            &&& withdraw_spec(c, config_key, b, amount, min_x, min_y, withdraw_quote) == Err::<Balances, Failure>(Failure::Amm(AmmError::PoolLocked))
            &&& swap_amounts_spec(c, amount, outcome) == Err::<SwapResult, AmmError>(AmmError::PoolLocked)
            &&& swap_spec(c, config_key, b, amount, is_x, outcome) == Err::<Balances, Failure>(Failure::Amm(AmmError::PoolLocked))
            &&& deposit_amounts_spec(c, b, amount, max_x, max_y, deposit_quote) != Err::<XYAmounts, AmmError>(AmmError::PoolLocked)
        }),
{
}

/// A zero amount is never accepted: a withdrawal or a swap of zero is
/// refused as `InvalidAmount`, and so is a deposit of zero into an unlocked
/// pool (a locked pool refuses it as `PoolLocked` first).
pub proof fn lemma_zero_amount_refused(
    c: Config,
    b: Balances,
    max_x: u64,
    max_y: u64,
    deposit_quote: Option<XYAmounts>,
    min_x: u64,
    min_y: u64,
    withdraw_quote: Option<XYAmounts>,
    outcome: Option<SwapResult>,
)
    ensures
        withdraw_amounts_spec(c, 0, min_x, min_y, withdraw_quote) == Err::<XYAmounts, AmmError>(AmmError::InvalidAmount),
        swap_amounts_spec(c, 0, outcome) == Err::<SwapResult, AmmError>(AmmError::InvalidAmount),
        deposit_amounts_spec(c, b, 0, max_x, max_y, deposit_quote) == Err::<XYAmounts, AmmError>(
            if c.is_locked { AmmError::PoolLocked } else { AmmError::InvalidAmount },
        ),
{
}

/// The first deposit into an empty, unlocked pool takes exactly the
/// depositor's limits, whatever the curve would quote.
pub proof fn lemma_first_deposit_takes_limits(
    c: Config,
    b: Balances,
    amount: u64,
    max_x: u64,
    max_y: u64,
    quote: Option<XYAmounts>,
)
    requires
        !c.is_locked,
        amount > 0,
        pool_is_empty(b),
    ensures
        deposit_amounts_spec(c, b, amount, max_x, max_y, quote) == Ok::<XYAmounts, AmmError>(XYAmounts { x: max_x, y: max_y }),
{
}

/// A successful deposit moves exactly the computed amounts, which stay
/// within the depositor's limits, from the depositor into the vaults, and
/// mints exactly `amount` LP tokens to the depositor. The X and Y held by
/// depositor and vaults together, and the LP held by everyone else, are
/// unchanged.
pub proof fn lemma_deposit_effect(
    c: Config,
    config_key: Address,
    b: Balances,
    amount: u64,
    max_x: u64,
    max_y: u64,
    quote: Option<XYAmounts>,
)
    requires
        deposit_spec(c, config_key, b, amount, max_x, max_y, quote) is Ok,
    ensures
        ({
            let q = deposit_amounts_spec(c, b, amount, max_x, max_y, quote)->Ok_0;
            let b2 = deposit_spec(c, config_key, b, amount, max_x, max_y, quote)->Ok_0;
            &&& deposit_amounts_spec(c, b, amount, max_x, max_y, quote) is Ok
            &&& pool_is_empty(b) ==> q == XYAmounts { x: max_x, y: max_y }
            &&& !pool_is_empty(b) ==> q == quote->Some_0
            &&& q.x <= max_x && q.y <= max_y
            &&& b2.user_x == b.user_x - q.x && b2.vault_x == b.vault_x + q.x
            &&& b2.user_y == b.user_y - q.y && b2.vault_y == b.vault_y + q.y
            &&& b2.user_lp == b.user_lp + amount && b2.lp_supply == b.lp_supply + amount
            &&& total_x(b2) == total_x(b) && total_y(b2) == total_y(b)
            &&& lp_held_elsewhere(b2) == lp_held_elsewhere(b)
        }),
{
    lemma_config_signers(c, config_key);
    let q = deposit_amounts_spec(c, b, amount, max_x, max_y, quote)->Ok_0;
    let ms = deposit_moves_spec(q, amount);
    assert(ms.drop_first().drop_first().drop_first().len() == 0);
    reveal_with_fuel(movements_spec, 4);
}

/// A withdrawal is never paid out: every one that passes the program's
/// checks (with payouts that reach the withdrawer's minimums) asks the vault
/// for X signed with the config account's address as seed, which does not
/// derive the config, so the runtime refuses it and nothing changes.
pub proof fn lemma_withdrawal_never_authorized(
    c: Config,
    config_key: Address,
    b: Balances,
    amount: u64,
    min_x: u64,
    min_y: u64,
    quote: Option<XYAmounts>,
)
    ensures
        !(withdraw_spec(c, config_key, b, amount, min_x, min_y, quote) is Ok),
        withdraw_amounts_spec(c, amount, min_x, min_y, quote) matches Ok(q) ==> {
            &&& q.x >= min_x && q.y >= min_y
            &&& withdraw_spec(c, config_key, b, amount, min_x, min_y, quote) == Err::<Balances, Failure>(Failure::ConfigSignatureRefused)
        },
{
    lemma_config_signers(c, config_key);
    if let Ok(q) = withdraw_amounts_spec(c, amount, min_x, min_y, quote) {
        let ms = withdraw_moves_spec(q, amount);
        assert(ms[0] == withdraw_moves_spec(q, amount)[0]);
        reveal_with_fuel(movements_spec, 2);
    }
}

/// A successful swap moves both of its legs through the vault of the side
/// named by `is_x`: that vault changes by the deposit leg minus the withdraw
/// leg, the payout reaches the trader's minimum wherever the curve's outcome
/// does, the other vault and the LP
/// balances stay as they were, and the tokens held by trader and vaults
/// together are unchanged.
pub proof fn lemma_swap_effect(
    c: Config,
    config_key: Address,
    b: Balances,
    amount: u64,
    is_x: bool,
    min: u64,
    outcome: Option<SwapResult>,
)
    requires
        swap_spec(c, config_key, b, amount, is_x, outcome) is Ok,
    ensures
        ({
            let res = swap_amounts_spec(c, amount, outcome)->Ok_0;
            let b2 = swap_spec(c, config_key, b, amount, is_x, outcome)->Ok_0;
            &&& swap_amounts_spec(c, amount, outcome) is Ok
            &&& outcome is Some && res == outcome->Some_0
            &&& res.deposit > 0 && res.withdraw > 0
            &&& outcome_respects_min(outcome, min) ==> res.withdraw >= min
            &&& is_x ==> b2.vault_x == b.vault_x + res.deposit - res.withdraw && b2.vault_y == b.vault_y
                && b2.user_x == b.user_x - res.deposit + res.withdraw
            &&& !is_x ==> b2.vault_y == b.vault_y + res.deposit - res.withdraw && b2.vault_x == b.vault_x
                && b2.user_y == b.user_y - res.deposit + res.withdraw
            &&& b2.user_lp == b.user_lp && b2.lp_supply == b.lp_supply
            &&& total_x(b2) == total_x(b) && total_y(b2) == total_y(b)
        }),
{
    lemma_config_signers(c, config_key);
    let res = swap_amounts_spec(c, amount, outcome)->Ok_0;
    let ms = swap_moves_spec(res, is_x);
    assert(ms.drop_first().drop_first().len() == 0);
    reveal_with_fuel(movements_spec, 3);
}

/// A swap on a locked pool of a positive amount goes through the program's
/// checks exactly when the curve answered with two non-zero legs, and then
/// it takes those legs as the curve gave them: no other bound on the legs
/// (their ratio, the fee) is checked by the program.
pub proof fn lemma_swap_takes_the_curve_legs(c: Config, amount: u64, outcome: Option<SwapResult>)
    ensures
        swap_amounts_spec(c, amount, outcome) is Ok <==> (c.is_locked && amount > 0 && outcome is Some
            && outcome->Some_0.deposit != 0 && outcome->Some_0.withdraw != 0),
        swap_amounts_spec(c, amount, outcome) is Ok ==> swap_amounts_spec(c, amount, outcome)
            == Ok::<SwapResult, AmmError>(outcome->Some_0),
{
}

/// A swap that goes through takes exactly the curve's deposit leg from the
/// trader and pays exactly its withdraw leg back, both on the side named by
/// `is_x`, whatever the other fields of the outcome.
pub proof fn lemma_swap_moves_the_curve_legs(
    c: Config,
    config_key: Address,
    b: Balances,
    amount: u64,
    is_x: bool,
    outcome: Option<SwapResult>,
)
    requires
        swap_spec(c, config_key, b, amount, is_x, outcome) is Ok,
    ensures
        ({
            let res = outcome->Some_0;
            let b2 = swap_spec(c, config_key, b, amount, is_x, outcome)->Ok_0;
            &&& outcome is Some
            &&& is_x ==> b2.user_x + res.deposit == b.user_x + res.withdraw
                && b2.vault_x + res.withdraw == b.vault_x + res.deposit
            &&& !is_x ==> b2.user_y + res.deposit == b.user_y + res.withdraw
                && b2.vault_y + res.withdraw == b.vault_y + res.deposit
        }),
{
    lemma_swap_effect(c, config_key, b, amount, is_x, 0, outcome);
}

/// On a pool that already holds liquidity, a deposit takes exactly the
/// curve's quote: it goes through the program's checks exactly when the pool
/// is unlocked, the amount positive and the quote within both limits, and it
/// is refused for slippage when the quote exceeds a limit.
pub proof fn lemma_deposit_takes_the_quote(
    c: Config,
    b: Balances,
    amount: u64,
    max_x: u64,
    max_y: u64,
    q: XYAmounts,
)
    requires
        !pool_is_empty(b),
    ensures
        deposit_amounts_spec(c, b, amount, max_x, max_y, Some(q)) is Ok <==> (!c.is_locked && amount > 0
            && q.x <= max_x && q.y <= max_y),
        deposit_amounts_spec(c, b, amount, max_x, max_y, Some(q)) is Ok ==> deposit_amounts_spec(
            c,
            b,
            amount,
            max_x,
            max_y,
            Some(q),
        ) == Ok::<XYAmounts, AmmError>(q),
        !c.is_locked && amount > 0 && (q.x > max_x || q.y > max_y) ==> deposit_amounts_spec(
            c,
            b,
            amount,
            max_x,
            max_y,
            Some(q),
        ) == Err::<XYAmounts, AmmError>(AmmError::SlippageExceeded),
{
}

/// A deposit that goes through moves exactly the amounts it decided: on a
/// pool holding liquidity, the curve's quote; on an empty pool, the
/// depositor's limits. The depositor pays them and the vaults receive them.
pub proof fn lemma_deposit_moves_the_quote(
    c: Config,
    config_key: Address,
    b: Balances,
    amount: u64,
    max_x: u64,
    max_y: u64,
    quote: Option<XYAmounts>,
)
    requires
        deposit_spec(c, config_key, b, amount, max_x, max_y, quote) is Ok,
    ensures
        ({
            let b2 = deposit_spec(c, config_key, b, amount, max_x, max_y, quote)->Ok_0;
            let paid = if pool_is_empty(b) { XYAmounts { x: max_x, y: max_y } } else { quote->Some_0 };
            &&& b2.user_x + paid.x == b.user_x && b2.vault_x == b.vault_x + paid.x
            &&& b2.user_y + paid.y == b.user_y && b2.vault_y == b.vault_y + paid.y
            &&& b2.user_lp == b.user_lp + amount
        }),
{
    lemma_deposit_effect(c, config_key, b, amount, max_x, max_y, quote);
}

/// A withdrawal decides to pay out exactly the curve's quote: the program's
/// checks pass exactly when the pool is locked, the amount positive, and the
/// quote reaches both minimums; a quote below a minimum is refused for
/// slippage, and a missing quote as the curve's refusal.
pub proof fn lemma_withdraw_pays_the_quote(
    c: Config,
    amount: u64,
    min_x: u64,
    min_y: u64,
    quote: Option<XYAmounts>,
)
    ensures
        withdraw_amounts_spec(c, amount, min_x, min_y, quote) is Ok <==> (c.is_locked && amount > 0
            && quote is Some && quote->Some_0.x >= min_x && quote->Some_0.y >= min_y),
        withdraw_amounts_spec(c, amount, min_x, min_y, quote) is Ok ==> withdraw_amounts_spec(
            c,
            amount,
            min_x,
            min_y,
            quote,
        ) == Ok::<XYAmounts, AmmError>(quote->Some_0),
        c.is_locked && amount > 0 && quote is None ==> withdraw_amounts_spec(c, amount, min_x, min_y, quote)
            == Err::<XYAmounts, AmmError>(AmmError::CurveError),
        c.is_locked && amount > 0 && quote is Some && (quote->Some_0.x < min_x || quote->Some_0.y < min_y)
            ==> withdraw_amounts_spec(c, amount, min_x, min_y, quote) == Err::<XYAmounts, AmmError>(
            AmmError::SlippageExceeded,
        ),
{
}

/// Initialization records every argument where it belongs: the mints as
/// given (X as X, Y as Y), the seed, fee, authority and both bumps, and an
/// unlocked pool.
pub proof fn lemma_init_records_its_arguments(
    seed: u8,
    mint_x: Address,
    mint_y: Address,
    authority: Option<Address>,
    fee: u16,
    bumps: InitializeBumps,
)
    ensures
        ({
            let c = initial_config(seed, mint_x, mint_y, authority, fee, bumps);
            &&& c.mint_x == mint_x
            &&& c.mint_y == mint_y
            &&& c.seed == seed
            &&& c.fee == fee
            &&& c.authority == authority
            &&& c.config_bump == bumps.config
            &&& c.lp_bump == bumps.lp_mint
            &&& !c.is_locked
        }),
{
}

/// A withdrawal that passes the program's checks asks the vaults to pay out
/// exactly the curve's quote, X first and then Y, both signed for the config
/// with its address, and then burns exactly `amount` LP tokens.
pub proof fn lemma_withdraw_plan_pays_the_quote(
    c: Config,
    amount: u64,
    min_x: u64,
    min_y: u64,
    quote: Option<XYAmounts>,
)
    requires
        withdraw_amounts_spec(c, amount, min_x, min_y, quote) is Ok,
    ensures
        ({
            let ms = withdraw_moves_spec(withdraw_amounts_spec(c, amount, min_x, min_y, quote)->Ok_0, amount);
            &&& ms.len() == 3
            &&& ms[0] == Movement::ToUser { is_x: true, amount: quote->Some_0.x, signer: ConfigSigner::ByKey }
            &&& ms[1] == Movement::ToUser { is_x: false, amount: quote->Some_0.y, signer: ConfigSigner::ByKey }
            &&& ms[2] == Movement::BurnLp { amount }
        }),
{
}

/// One instruction sent to a pool, with the curve's answer for it.
pub enum Step {
    Deposit { amount: u64, max_x: u64, max_y: u64, quote: Option<XYAmounts> },
    Withdraw { amount: u64, min_x: u64, min_y: u64, quote: Option<XYAmounts> },
    Swap { amount: u64, is_x: bool, outcome: Option<SwapResult> },
}

/// The balances after one instruction; a refused instruction leaves them
/// as they were.
pub open spec fn apply_step(c: Config, config_key: Address, b: Balances, s: Step) -> Balances {
    let r = match s {
        Step::Deposit { amount, max_x, max_y, quote } => deposit_spec(c, config_key, b, amount, max_x, max_y, quote),
        Step::Withdraw { amount, min_x, min_y, quote } => withdraw_spec(c, config_key, b, amount, min_x, min_y, quote),
        Step::Swap { amount, is_x, outcome } => swap_spec(c, config_key, b, amount, is_x, outcome),
    };
    match r {
        Ok(b2) => b2,
        Err(_) => b,
    }
}

/// The balances after a sequence of instructions. No instruction changes
/// the configuration, so every step sees the same one.
pub open spec fn run_steps(c: Config, config_key: Address, b: Balances, steps: Seq<Step>) -> Balances
    decreases steps.len(),
{
    if steps.len() == 0 {
        b
    } else {
        run_steps(c, config_key, apply_step(c, config_key, b, steps[0]), steps.drop_first())
    }
}

/// No instruction pays out of an initialized pool: its configuration stays
/// unlocked, so every withdrawal and swap is refused, and whatever sequence
/// of instructions follows, both vaults and the LP supply only grow, and the
/// depositor's X and Y only shrink.
pub proof fn lemma_initialized_pool_only_grows(
    seed: u8,
    mint_x: Address,
    mint_y: Address,
    authority: Option<Address>,
    fee: u16,
    bumps: InitializeBumps,
    config_key: Address,
    b: Balances,
    steps: Seq<Step>,
)
    ensures
        ({
            let c = initial_config(seed, mint_x, mint_y, authority, fee, bumps);
            let b2 = run_steps(c, config_key, b, steps);
            &&& b2.vault_x >= b.vault_x
            &&& b2.vault_y >= b.vault_y
            &&& b2.lp_supply >= b.lp_supply
            &&& b2.user_x <= b.user_x
            &&& b2.user_y <= b.user_y
        }),
    decreases steps.len(),
{
    let c = initial_config(seed, mint_x, mint_y, authority, fee, bumps);
    if steps.len() > 0 {
        let b1 = apply_step(c, config_key, b, steps[0]);
        match steps[0] {
            Step::Deposit { amount, max_x, max_y, quote } => {
                if deposit_spec(c, config_key, b, amount, max_x, max_y, quote) is Ok {
                    lemma_deposit_effect(c, config_key, b, amount, max_x, max_y, quote);
                }
            },
            Step::Withdraw { amount, min_x, min_y, quote } => {
                lemma_withdrawal_never_authorized(c, config_key, b, amount, min_x, min_y, quote);
            },
            Step::Swap { .. } => {},
        }
        assert(b1.vault_x >= b.vault_x && b1.vault_y >= b.vault_y && b1.lp_supply >= b.lp_supply
            && b1.user_x <= b.user_x && b1.user_y <= b.user_y);
        lemma_initialized_pool_only_grows(seed, mint_x, mint_y, authority, fee, bumps, config_key, b1, steps.drop_first());
    }
}

} // verus!
