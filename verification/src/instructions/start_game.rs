//! Starting a game: the bet and the mine count are checked, and a fresh game is made.
use vstd::prelude::*;

use anchor_lang::solana_program::pubkey::Pubkey;

use crate::error::MinesError;
use crate::state::game_status;
use crate::state::{Config, GameState, BASE_MULTIPLIER_BPS};

verus! {

/// What `start_game` reads from its accounts.
#[derive(Clone, Copy)]
pub struct StartGame {
    /// The global configuration.
    pub config: Config,
    /// The signer, who becomes the game's player.
    pub player: Pubkey,
    /// Key of the new game account.
    pub game_state_key: Pubkey,
    /// Unix time of the clock.
    pub now: i64,
    /// Bump seed of the game address.
    pub game_bump: u8,
}

/// Event of a started game.
#[derive(Clone, Copy)]
pub struct GameStarted {
    pub player: Pubkey,
    pub bet_amount: u64,
    pub mines_count: u8,
    pub game_state: Pubkey,
}

/// Why `start_game` refuses, if it does: a bet below the minimum is
/// `BetTooLow`, a bet above the maximum is `BetTooHigh` (each error as its
/// message describes), then a mine count outside the configured range.
pub open spec fn start_game_error(config: Config, bet_amount: u64, mines_count: u8) -> Option<
    MinesError,
> {
    if bet_amount < config.min_bet {
        Some(MinesError::BetTooLow)
    } else if bet_amount > config.max_bet {
        Some(MinesError::BetTooHigh)
    } else if !(config.min_mines <= mines_count && mines_count <= config.max_mines) {
        Some(MinesError::InvalidMinesCount)
    } else {
        None
    }
}

/// `game` is a fresh game: active, nothing revealed, multiplier 1.0x, no mines
/// placed yet (every slot holds the out-of-board value 255), no randomness.
pub open spec fn is_new_game(
    game: GameState,
    player: Pubkey,
    bet_amount: u64,
    mines_count: u8,
    now: i64,
    bump: u8,
) -> bool {
    &&& game == (GameState {
        player,
        bet_amount,
        mines_count,
        vrf_request_id: None,
        revealed_tiles: 0,
        current_multiplier: BASE_MULTIPLIER_BPS,
        status: game_status::ACTIVE,
        mine_positions: game.mine_positions,
        mines_placed: 0,
        created_at: now,
        vrf_fulfilled_at: 0,
        vrf_randomness: None,
        bump,
    })
    &&& forall|k: int| 0 <= k < 24 ==> #[trigger] game.mine_positions@[k] == 255
}

/// Start a game. The caller moves `bet_amount` from the player to the house
/// vault and stores the returned game.
pub fn start_game(ctx: &StartGame, bet_amount: u64, mines_count: u8) -> (r: Result<
    (GameState, GameStarted),
    MinesError,
>)
    ensures
        match start_game_error(ctx.config, bet_amount, mines_count) {
            Some(e) => r == Err::<(GameState, GameStarted), MinesError>(e),
            None => r matches Ok((game, event)) && is_new_game(
                game,
                ctx.player,
                bet_amount,
                mines_count,
                ctx.now,
                ctx.game_bump,
            ) && event == (GameStarted {
                player: ctx.player,
                bet_amount,
                mines_count,
                game_state: ctx.game_state_key,
            }),
        },
        ctx.config.wf() ==> (r matches Ok((game, _)) ==> game.wf()),
        r is Ok <==> (ctx.config.min_bet <= bet_amount <= ctx.config.max_bet
            && ctx.config.min_mines <= mines_count <= ctx.config.max_mines),
        r matches Ok((game, _)) ==> ctx.config.min_mines <= game.mines_count
            <= ctx.config.max_mines,
{
    if bet_amount < ctx.config.min_bet {
        return Err(MinesError::BetTooLow);
    }
    if bet_amount > ctx.config.max_bet {
        return Err(MinesError::BetTooHigh);
    }
    if !(mines_count >= ctx.config.min_mines && mines_count <= ctx.config.max_mines) {
        return Err(MinesError::InvalidMinesCount);
    }
    let game = GameState {
        player: ctx.player,
        bet_amount,
        mines_count,
        vrf_request_id: None,
        revealed_tiles: 0,
        current_multiplier: BASE_MULTIPLIER_BPS,
        status: game_status::ACTIVE,
        mine_positions: [255u8; 24],
        mines_placed: 0,
        created_at: ctx.now,
        vrf_fulfilled_at: 0,
        vrf_randomness: None,
        bump: ctx.game_bump,
    };
    proof {
        assert(game.mines() =~= Seq::<u8>::empty());
        assert forall|i: int| #[trigger] game.tile_revealed(i) implies !game.mines().contains(
            i as u8,
        ) by {
            if 0 <= i < 32 {
                let iu = i as u32;
                assert((0u32 >> iu) & 1u32 == 0u32) by (bit_vector);
            }
        }
    }
    let event = GameStarted {
        player: ctx.player,
        bet_amount,
        mines_count,
        game_state: ctx.game_state_key,
    };
    Ok((game, event))
}

} // verus!
