//! Creating the global configuration.
use vstd::prelude::*;

use anchor_lang::solana_program::pubkey::Pubkey;

use crate::error::MinesError;
use crate::state::Config;

verus! {

/// What `initialize` reads from its accounts.
#[derive(Clone, Copy)]
pub struct Initialize {
    /// The signer, who becomes the authority.
    pub authority: Pubkey,
    /// Fee wallet for randomness requests.
    pub fee_wallet: Pubkey,
    /// House vault.
    pub house_vault: Pubkey,
    /// Bump seed of the config address.
    pub config_bump: u8,
}

/// Why `initialize` refuses, if it does.
pub open spec fn initialize_error(
    house_edge_bps: u16,
    min_bet: u64,
    max_bet: u64,
    min_mines: u8,
    max_mines: u8,
) -> Option<MinesError> {
    if house_edge_bps > 10000 {
        Some(MinesError::InvalidHouseEdge)
    } else if min_bet == 0 || max_bet < min_bet {
        Some(MinesError::BetTooLow)
    } else if min_mines < 1 || max_mines > 24 || max_mines < min_mines {
        Some(MinesError::InvalidMinesCount)
    } else {
        None
    }
}

/// Initialize the global configuration.
pub fn initialize(
    ctx: &Initialize,
    house_edge_bps: u16,
    min_bet: u64,
    max_bet: u64,
    min_mines: u8,
    max_mines: u8,
    vrf_queue: Pubkey,
    vrf_oracle: Pubkey,
) -> (r: Result<Config, MinesError>)
    ensures
        match initialize_error(house_edge_bps, min_bet, max_bet, min_mines, max_mines) {
            Some(e) => r == Err::<Config, MinesError>(e),
            None => r == Ok::<Config, MinesError>(
                Config {
                    authority: ctx.authority,
                    house_edge_bps,
                    min_bet,
                    max_bet,
                    min_mines,
                    max_mines,
                    vrf_queue,
                    vrf_oracle,
                    fee_wallet: ctx.fee_wallet,
                    house_vault: ctx.house_vault,
                    bump: ctx.config_bump,
                },
            ),
        },
        r is Ok <==> (house_edge_bps <= 10000 && 0 < min_bet <= max_bet && 1 <= min_mines
            <= max_mines <= 24),
        r matches Ok(c) ==> c.wf() && c.min_bet <= c.max_bet && c.min_mines <= c.max_mines,
{
    if !(house_edge_bps <= 10000) {
        return Err(MinesError::InvalidHouseEdge);
    }
    if !(min_bet > 0) {
        return Err(MinesError::BetTooLow);
    }
    if !(max_bet >= min_bet) {
        return Err(MinesError::BetTooLow);
    }
    if !(min_mines >= 1) {
        return Err(MinesError::InvalidMinesCount);
    }
    if !(max_mines <= 24) {
        return Err(MinesError::InvalidMinesCount);
    }
    if !(max_mines >= min_mines) {
        return Err(MinesError::InvalidMinesCount);
    }
    Ok(
        Config {
            authority: ctx.authority,
            house_edge_bps,
            min_bet,
            max_bet,
            min_mines,
            max_mines,
            vrf_queue,
            vrf_oracle,
            fee_wallet: ctx.fee_wallet,
            house_vault: ctx.house_vault,
            bump: ctx.config_bump,
        },
    )
}

} // verus!
