use vstd::prelude::*;

verus! {

/// Errors raised by the AMM program itself.
#[derive(Clone, Copy, Debug, PartialEq, Eq, Structural)]
pub enum AmmError {
    /// The pool's lock flag forbids the instruction.
    PoolLocked,
    /// A zero amount was requested, or the curve produced a zero leg.
    InvalidAmount,
    /// The computed amounts fall outside the caller's limits.
    SlippageExceeded,
    /// The constant-product curve refused the computation.
    CurveError,
}

/// Refusals of the token program when it moves, mints or burns tokens.
#[derive(Clone, Copy, Debug, PartialEq, Eq, Structural)]
pub enum TokenError {
    /// The source account holds fewer tokens than requested.
    InsufficientFunds,
    /// A balance or the supply would leave the range of `u64`.
    Overflow,
}

/// Why an instruction failed: the program refused it, a token movement that
/// it requested was refused, or the runtime refused a call that the program
/// signed for the config account.
#[derive(Clone, Copy, Debug, PartialEq, Eq, Structural)]
pub enum Failure {
    Amm(AmmError),
    Token(TokenError),
    /// The program signed for the config account with seeds that do not
    /// derive it. The runtime refuses such a call: with a privilege-escalation
    /// error where the seeds give another program address, or with an
    /// invalid-seeds error where the address they hash to lies on the curve
    /// and so is no program address. Which of the two depends on that hash,
    /// so the library does not tell them apart.
    ConfigSignatureRefused,
}

} // verus!
