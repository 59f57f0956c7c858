//! Revealing a tile: a mine ends the game, a safe tile raises the multiplier.
use vstd::prelude::*;

use anchor_lang::solana_program::pubkey::Pubkey;

use crate::error::MinesError;
use crate::keys::pubkey_eq;
use crate::state::game_status;
use crate::state::{
    bit_indices, lemma_bit_indices_finite, lemma_set_bit,
    GameState, BASE_MULTIPLIER_BPS, MAX_MULTIPLIER_BPS, TOTAL_TILES,
};

verus! {

/// What `reveal_tile` reads besides the game: the game account's key and the signer.
#[derive(Clone, Copy)]
pub struct RevealTile {
    /// Key of the game account.
    pub game_state_key: Pubkey,
    /// The signer, who must be the game's player.
    pub player: Pubkey,
}

/// Event of a safe reveal.
#[derive(Clone, Copy)]
pub struct TileRevealed {
    pub game_state: Pubkey,
    pub player: Pubkey,
    pub tile_index: u8,
    pub revealed_count: u8,
    pub multiplier: u64,
}

/// Event of a revealed mine.
#[derive(Clone, Copy)]
pub struct MineHit {
    pub game_state: Pubkey,
    pub player: Pubkey,
    pub tile_index: u8,
}

/// What a reveal announces.
#[derive(Clone, Copy)]
pub enum RevealEvent {
    /// The tile was a mine: the game is lost.
    MineHit(MineHit),
    /// The tile was safe.
    TileRevealed(TileRevealed),
}

/// The multiplier cap applied to a value of the risk curve.
pub open spec fn capped(v: u64) -> u64 {
    if v < MAX_MULTIPLIER_BPS {
        v
    } else {
        MAX_MULTIPLIER_BPS
    }
}

/// `r` is a multiplier that `calculate_multiplier` may give: 1.0x before any
/// reveal, else the capped value of the risk curve for the revealed count.
pub open spec fn is_multiplier_for<F: Fn(u8, u8, u8) -> u64>(
    risk_curve: F,
    revealed_count: u8,
    mines_count: u8,
    total_tiles: u8,
    r: u64,
) -> bool {
    if revealed_count == 0 {
        r == BASE_MULTIPLIER_BPS
    } else {
        exists|v: u64|
            risk_curve.ensures((revealed_count, mines_count, total_tiles), v) && r == capped(v)
    }
}

/// Multiplier after `revealed_count` safe reveals: 1.0x before any reveal,
/// else the risk curve's value, capped at 100x. Every safe reveal takes the
/// curve's value, the reveal of the last safe tile included: there is no
/// fall back to 1.0x once no safe tile remains. The risk curve gives the
/// uncapped value in basis points (`(1 + 0.15 * (2 * mines / tiles + 1)) ^ revealed`
/// times 10000, in floating point).
pub fn calculate_multiplier<F: Fn(u8, u8, u8) -> u64>(
    revealed_count: u8,
    mines_count: u8,
    total_tiles: u8,
    risk_curve: F,
) -> (r: u64)
    requires
        revealed_count != 0 ==> risk_curve.requires((revealed_count, mines_count, total_tiles)),
    ensures
        is_multiplier_for(risk_curve, revealed_count, mines_count, total_tiles, r),
        r <= MAX_MULTIPLIER_BPS,
{
    if revealed_count == 0 {
        return BASE_MULTIPLIER_BPS;
    }
    let v = risk_curve(revealed_count, mines_count, total_tiles);
    let r = if v < MAX_MULTIPLIER_BPS {
        v
    } else {
        MAX_MULTIPLIER_BPS
    };
    assert(risk_curve.ensures((revealed_count, mines_count, total_tiles), v) && r == capped(v));
    r
}

/// Why `reveal_tile` refuses, if it does.
pub open spec fn reveal_error(game: GameState, player: Pubkey, tile_index: u8) -> Option<MinesError> {
    if game.player != player {
        Some(MinesError::Unauthorized)
    } else if tile_index >= 25 {
        Some(MinesError::InvalidTileIndex)
    } else if game.status != game_status::ACTIVE {
        Some(MinesError::GameEnded)
    } else if game.vrf_fulfilled_at <= 0 {
        Some(MinesError::GameNotReady)
    } else if game.tile_revealed(tile_index as int) {
        Some(MinesError::TileAlreadyRevealed)
    } else {
        None
    }
}

/// The bitmap after revealing `tile_index`.
pub open spec fn revealed_bits(game: GameState, tile_index: u8) -> u32 {
    game.revealed_tiles | (1u32 << (tile_index as u32))
}

/// The inputs on which a reveal is defined: when the reveal gets as far as
/// looking for a mine, the mine list fits its array. Every well-formed game
/// satisfies it (`lemma_wf_reveal_defined`).
pub open spec fn reveal_defined(game: GameState, player: Pubkey, tile_index: u8) -> bool {
    reveal_error(game, player, tile_index) is None ==> game.mines_placed <= 24
}

/// Every well-formed game can take any reveal.
pub proof fn lemma_wf_reveal_defined(game: GameState, player: Pubkey, tile_index: u8)
    requires
        game.wf(),
    ensures
        reveal_defined(game, player, tile_index),
{
}

/// Whether a reveal is defined on these inputs: a caller that cannot show
/// `reveal_defined` tests it here before calling `reveal_tile`.
pub fn reveal_tile_defined(game_state: &GameState, player: &Pubkey, tile_index: u8) -> (r: bool)
    ensures
        r == reveal_defined(*game_state, *player, tile_index),
{
    if !pubkey_eq(&game_state.player, player) || tile_index >= TOTAL_TILES || game_state.status
        != game_status::ACTIVE || !(game_state.vrf_fulfilled_at > 0) || game_state.is_tile_revealed(
        tile_index,
    ) {
        return true;
    }
    game_state.mines_placed <= 24
}

/// Reveal a tile. A mine ends the game as lost; a safe tile is marked revealed
/// and the multiplier becomes the one for the new number of revealed tiles.
pub fn reveal_tile<F: Fn(u8, u8, u8) -> u64>(
    ctx: &RevealTile,
    game_state: &mut GameState,
    tile_index: u8,
    risk_curve: F,
) -> (r: Result<RevealEvent, MinesError>)
    requires
        reveal_defined(*old(game_state), ctx.player, tile_index),
        forall|a: u8, b: u8, c: u8| risk_curve.requires((a, b, c)),
    ensures
        match reveal_error(*old(game_state), ctx.player, tile_index) {
            Some(e) => r == Err::<RevealEvent, MinesError>(e) && *final(game_state) == *old(
                game_state,
            ),
            None => if old(game_state).mines().contains(tile_index) {
                &&& r == Ok::<RevealEvent, MinesError>(
                    RevealEvent::MineHit(
                        MineHit {
                            game_state: ctx.game_state_key,
                            player: old(game_state).player,
                            tile_index,
                        },
                    ),
                )
                &&& *final(game_state) == old(game_state).with_status(game_status::LOST)
            } else {
                let bits = revealed_bits(*old(game_state), tile_index);
                let count = bit_indices(bits).len() as u8;
                &&& *final(game_state) == (GameState {
                    revealed_tiles: bits,
                    current_multiplier: final(game_state).current_multiplier,
                    ..*old(game_state)
                })
                &&& is_multiplier_for(
                    risk_curve,
                    count,
                    old(game_state).mines_count,
                    TOTAL_TILES,
                    final(game_state).current_multiplier,
                )
                &&& r == Ok::<RevealEvent, MinesError>(
                    RevealEvent::TileRevealed(
                        TileRevealed {
                            game_state: ctx.game_state_key,
                            player: old(game_state).player,
                            tile_index,
                            revealed_count: count,
                            multiplier: final(game_state).current_multiplier,
                        },
                    ),
                )
            },
        },
        old(game_state).reveals_only_safe_tiles() ==> final(game_state).reveals_only_safe_tiles(),
        old(game_state).wf() ==> final(game_state).wf(),
{
    let ghost pre = *game_state;
    if !pubkey_eq(&game_state.player, &ctx.player) {
        return Err(MinesError::Unauthorized);
    }
    if tile_index >= TOTAL_TILES {
        return Err(MinesError::InvalidTileIndex);
    }
    if game_state.status != game_status::ACTIVE {
        return Err(MinesError::GameEnded);
    }
    if !(game_state.vrf_fulfilled_at > 0) {
        return Err(MinesError::GameNotReady);
    }
    if game_state.is_tile_revealed(tile_index) {
        return Err(MinesError::TileAlreadyRevealed);
    }
    if game_state.is_mine(tile_index) {
        game_state.status = game_status::LOST;
        proof {
            if pre.reveals_only_safe_tiles() {
                assert(game_state.mines() == pre.mines());
                assert forall|i: int| #[trigger] game_state.tile_revealed(i) implies !game_state.mines().contains(
                    i as u8,
                ) by {
                    assert(pre.tile_revealed(i));
                }
            }
        }
        return Ok(
            RevealEvent::MineHit(
                MineHit { game_state: ctx.game_state_key, player: game_state.player, tile_index },
            ),
        );
    }
    game_state.reveal_tile(tile_index);
    let revealed_count = game_state.revealed_count();
    proof {
        lemma_set_bit(pre.revealed_tiles, tile_index as u32);
        lemma_bit_indices_finite(pre.revealed_tiles);
        assert(!pre.revealed_set().contains(tile_index as int));
        assert(game_state.revealed_set().len() == pre.revealed_set().len() + 1);
    }
    let multiplier = calculate_multiplier(
        revealed_count,
        game_state.mines_count,
        TOTAL_TILES,
        risk_curve,
    );
    game_state.current_multiplier = multiplier;
    proof {
        if pre.reveals_only_safe_tiles() {
            assert(game_state.mines() == pre.mines());
            assert forall|i: int| #[trigger] game_state.tile_revealed(i) implies !game_state.mines().contains(
                i as u8,
            ) by {
                assert(game_state.revealed_set().contains(i));
                if i != tile_index as int {
                    assert(pre.revealed_set().contains(i));
                    assert(pre.tile_revealed(i));
                }
            }
            assert(game_state.revealed_tiles < 0x200_0000) by {
                let t = tile_index as u32;
                let b = pre.revealed_tiles;
                assert((b | (1u32 << t)) < 0x200_0000u32) by (bit_vector)
                    requires
                        b < 0x200_0000u32,
                        t < 25,
                ;
            }
        }
    }
    Ok(
        RevealEvent::TileRevealed(
            TileRevealed {
                game_state: ctx.game_state_key,
                player: game_state.player,
                tile_index,
                revealed_count,
                multiplier,
            },
        ),
    )
}

} // verus!
