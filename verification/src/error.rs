//! The errors that the game's instructions return.
use vstd::prelude::*;

verus! {

/// Why an instruction was refused.
#[derive(Debug, Clone, Copy, PartialEq, Eq, Structural)]
pub enum MinesError {
    /// Invalid number of mines. Must be between 1 and 24.
    InvalidMinesCount,
    /// Invalid tile index. Must be between 0 and 24.
    InvalidTileIndex,
    /// Tile already revealed.
    TileAlreadyRevealed,
    /// Game not ready. VRF not fulfilled yet.
    GameNotReady,
    /// Game already ended.
    GameEnded,
    /// Game still active. Cannot perform this action.
    GameStillActive,
    /// Bet amount below minimum.
    BetTooLow,
    /// Bet amount above maximum.
    BetTooHigh,
    /// Insufficient funds in house vault.
    InsufficientVaultFunds,
    /// VRF request expired. Game timed out.
    VrfRequestExpired,
    /// Invalid VRF fulfillment. Proof verification failed.
    InvalidVrfFulfillment,
    /// Unauthorized. Only house authority can perform this action.
    Unauthorized,
    /// Invalid house edge. Must be between 0 and 100.
    InvalidHouseEdge,
    /// Cannot cash out with zero multiplier.
    ZeroMultiplier,
    /// Invalid game state transition.
    InvalidGameState,
    /// VRF already fulfilled for this game.
    VrfAlreadyFulfilled,
}

} // verus!
