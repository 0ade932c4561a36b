//! Verified core of a constant-product automated market maker.
//!
//! The pool holds two vaults (tokens X and Y) and an LP mint. Each
//! instruction (initialize, deposit, withdraw, swap) is stated here as a
//! function from the accounts' balances and the instruction's arguments to
//! the balances after the instruction, or to the error that refuses it.
//! The amounts that the constant-product curve computes are handed in as
//! plain values; the token movements are modelled by their effect on the
//! balances.

pub mod error;
pub mod state;
pub mod curve;
pub mod balances;
pub mod moves;
pub mod instructions;
pub mod laws;
