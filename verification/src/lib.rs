//! Game logic of a provably fair Mines game: a 5x5 board, a player's bet,
//! mines placed from verifiable randomness, tile reveals that raise a payout
//! multiplier, and a cash-out that pays the bet times the multiplier minus the
//! house edge.
//!
//! Every instruction is a function from the values it reads (the accounts of
//! the instruction, held as plain values) to its result and new state, with a
//! contract over the spec functions of this crate. Moving tokens, reading the
//! clock and the floating-point risk curve are left to the caller.
use vstd::prelude::*;

pub mod error;
pub mod instructions;
pub mod keys;
pub mod laws;
pub mod state;
