use vstd::prelude::*;

verus! {

/// Amounts of token X and token Y that the curve computes for a change of
/// liquidity.
#[derive(Clone, Copy, Debug, PartialEq, Eq, Structural)]
pub struct XYAmounts {
    pub x: u64,
    pub y: u64,
}

/// The outcome of a swap on the curve: what the user pays in, what the
/// pool pays out, and the fee taken.
#[derive(Clone, Copy, Debug, PartialEq, Eq, Structural)]
pub struct SwapResult {
    pub deposit: u64,
    pub withdraw: u64,
    pub fee: u64,
}

} // verus!
