//! The values of `GameState::status`.
use vstd::prelude::*;

verus! {

/// The game accepts fulfillment, reveals and a cash-out.
pub const ACTIVE: u8 = 0;
/// The player cashed out.
pub const CASHED_OUT: u8 = 1;
/// The player revealed a mine.
pub const LOST: u8 = 2;
/// The game timed out.
pub const EXPIRED: u8 = 3;

} // verus!
