//! Cashing out: the player receives the bet times the multiplier, minus the house edge.
use vstd::prelude::*;

use anchor_lang::solana_program::pubkey::Pubkey;

use crate::error::MinesError;
use crate::keys::pubkey_eq;
use crate::state::game_status;
use crate::state::{Config, GameState};

verus! {

/// What `cash_out` reads besides the game.
#[derive(Clone, Copy)]
pub struct CashOut {
    /// The global configuration.
    pub config: Config,
    /// Key of the game account.
    pub game_state_key: Pubkey,
    /// The signer, who must be the game's player.
    pub player: Pubkey,
    /// Balance of the house vault.
    pub house_vault_amount: u64,
}

/// Event of a cash-out.
#[derive(Clone, Copy)]
pub struct CashOutEvent {
    pub game_state: Pubkey,
    pub player: Pubkey,
    pub payout: u64,
    pub multiplier: u64,
    pub revealed_count: u8,
}

/// The bet times the multiplier, in whole units (rounded down).
pub open spec fn gross_payout(bet_amount: u64, multiplier: u64) -> int {
    (bet_amount as int * multiplier as int) / 10000
}

/// The house's share of a gross payout (rounded down).
pub open spec fn house_fee(gross: int, house_edge_bps: u16) -> int {
    (gross * house_edge_bps as int) / 10000
}

/// What the player receives: the gross payout minus the house's share.
pub open spec fn net_payout(bet_amount: u64, multiplier: u64, house_edge_bps: u16) -> int {
    gross_payout(bet_amount, multiplier) - house_fee(
        gross_payout(bet_amount, multiplier),
        house_edge_bps,
    )
}

/// Why `cash_out` refuses, if it does.
pub open spec fn cash_out_error(
    game: GameState,
    config: Config,
    player: Pubkey,
    house_vault_amount: u64,
) -> Option<MinesError> {
    let gross = gross_payout(game.bet_amount, game.current_multiplier);
    if game.player != player {
        Some(MinesError::Unauthorized)
    } else if game.status != game_status::ACTIVE {
        Some(MinesError::GameEnded)
    } else if game.vrf_fulfilled_at <= 0 {
        Some(MinesError::GameNotReady)
    } else if game.current_multiplier == 0 {
        Some(MinesError::ZeroMultiplier)
    } else if game.bet_amount as int * game.current_multiplier as int > u64::MAX {
        Some(MinesError::InvalidGameState)
    } else if gross * config.house_edge_bps as int > u64::MAX {
        Some(MinesError::InvalidGameState)
    } else if house_fee(gross, config.house_edge_bps) > gross {
        Some(MinesError::InvalidGameState)
    } else if house_vault_amount < net_payout(
        game.bet_amount,
        game.current_multiplier,
        config.house_edge_bps,
    ) {
        Some(MinesError::InsufficientVaultFunds)
    } else {
        None
    }
}

/// Cash out: compute the payout, check the vault can pay it, and end the game.
/// The caller moves `payout` from the vault to the player.
pub fn cash_out(ctx: &CashOut, game_state: &mut GameState) -> (r: Result<CashOutEvent, MinesError>)
    ensures
        match cash_out_error(*old(game_state), ctx.config, ctx.player, ctx.house_vault_amount) {
            Some(e) => r == Err::<CashOutEvent, MinesError>(e) && *final(game_state) == *old(
                game_state,
            ),
            None => {
                &&& r == Ok::<CashOutEvent, MinesError>(
                    CashOutEvent {
                        game_state: ctx.game_state_key,
                        player: old(game_state).player,
                        payout: net_payout(
                            old(game_state).bet_amount,
                            old(game_state).current_multiplier,
                            ctx.config.house_edge_bps,
                        ) as u64,
                        multiplier: old(game_state).current_multiplier,
                        revealed_count: old(game_state).revealed_set().len() as u8,
                    },
                )
                &&& *final(game_state) == old(game_state).with_status(game_status::CASHED_OUT)
            },
        },
        old(game_state).wf() ==> final(game_state).wf(),
        r == Err::<CashOutEvent, MinesError>(MinesError::InsufficientVaultFunds) ==> ({
            let gross = (old(game_state).bet_amount as int * old(game_state).current_multiplier as int)
                / 10000;
            ctx.house_vault_amount < gross - (gross * ctx.config.house_edge_bps as int) / 10000
        }),
        r matches Ok(e) ==> ({
            let gross = (old(game_state).bet_amount as int * old(game_state).current_multiplier as int)
                / 10000;
            &&& e.payout == gross - (gross * ctx.config.house_edge_bps as int) / 10000
            &&& e.payout <= ctx.house_vault_amount
        }),
{
    let ghost pre = *game_state;
    if !pubkey_eq(&game_state.player, &ctx.player) {
        return Err(MinesError::Unauthorized);
    }
    if game_state.status != game_status::ACTIVE {
        return Err(MinesError::GameEnded);
    }
    if !(game_state.vrf_fulfilled_at > 0) {
        return Err(MinesError::GameNotReady);
    }
    if !(game_state.current_multiplier > 0) {
        return Err(MinesError::ZeroMultiplier);
    }
    let product = match game_state.bet_amount.checked_mul(game_state.current_multiplier) {
        Some(p) => p,
        None => {
            return Err(MinesError::InvalidGameState);
        },
    };
    let gross_payout = product / 10000;
    let fee_product = match gross_payout.checked_mul(ctx.config.house_edge_bps as u64) {
        Some(p) => p,
        None => {
            return Err(MinesError::InvalidGameState);
        },
    };
    let house_edge_amount = fee_product / 10000;
    let net_payout = match gross_payout.checked_sub(house_edge_amount) {
        Some(n) => n,
        None => {
            return Err(MinesError::InvalidGameState);
        },
    };
    if !(ctx.house_vault_amount >= net_payout) {
        return Err(MinesError::InsufficientVaultFunds);
    }
    let revealed_count = game_state.revealed_count();
    game_state.status = game_status::CASHED_OUT;
    proof {
        if pre.wf() {
            assert(game_state.mines() == pre.mines());
            assert forall|i: int| #[trigger] game_state.tile_revealed(i) implies !game_state.mines().contains(
                i as u8,
            ) by {
                assert(pre.tile_revealed(i));
            }
        }
    }
    Ok(
        CashOutEvent {
            game_state: ctx.game_state_key,
            player: game_state.player,
            payout: net_payout,
            multiplier: game_state.current_multiplier,
            revealed_count,
        },
    )
}

} // verus!
