//! Updating the global configuration.
use vstd::prelude::*;

use anchor_lang::solana_program::pubkey::Pubkey;

use crate::error::MinesError;
use crate::keys::pubkey_eq;
use crate::state::Config;

verus! {

/// What `update_config` reads besides the config.
#[derive(Clone, Copy)]
pub struct UpdateConfig {
    /// The signer, who must be the configured authority.
    pub authority: Pubkey,
}

/// The house-edge update, if any.
pub open spec fn apply_house_edge(c: Config, house_edge_bps: Option<u16>) -> Result<Config, MinesError> {
    match house_edge_bps {
        None => Ok(c),
        Some(edge) => if edge <= 10000 {
            Ok(Config { house_edge_bps: edge, ..c })
        } else {
            Err(MinesError::InvalidHouseEdge)
        },
    }
}

/// The minimum-bet update, if any.
pub open spec fn apply_min_bet(c: Config, min_bet: Option<u64>) -> Result<Config, MinesError> {
    match min_bet {
        None => Ok(c),
        Some(min) => if min > 0 {
            Ok(Config { min_bet: min, ..c })
        } else {
            Err(MinesError::BetTooLow)
        },
    }
}

/// The maximum-bet update, if any; checked against the minimum bet as it
/// stands after the previous updates.
pub open spec fn apply_max_bet(c: Config, max_bet: Option<u64>) -> Result<Config, MinesError> {
    match max_bet {
        None => Ok(c),
        Some(max) => if max >= c.min_bet {
            Ok(Config { max_bet: max, ..c })
        } else {
            Err(MinesError::BetTooHigh)
        },
    }
}

/// The minimum-mines update, if any.
pub open spec fn apply_min_mines(c: Config, min_mines: Option<u8>) -> Result<Config, MinesError> {
    match min_mines {
        None => Ok(c),
        Some(min) => if 1 <= min && min <= 24 {
            Ok(Config { min_mines: min, ..c })
        } else {
            Err(MinesError::InvalidMinesCount)
        },
    }
}

/// The maximum-mines update, if any; checked against the minimum as it stands
/// after the previous updates.
pub open spec fn apply_max_mines(c: Config, max_mines: Option<u8>) -> Result<Config, MinesError> {
    match max_mines {
        None => Ok(c),
        Some(max) => if max >= c.min_mines && max <= 24 {
            Ok(Config { max_mines: max, ..c })
        } else {
            Err(MinesError::InvalidMinesCount)
        },
    }
}

/// The randomness-key updates, if any.
pub open spec fn apply_vrf_keys(c: Config, vrf_queue: Option<Pubkey>, vrf_oracle: Option<Pubkey>) -> Config {
    let c1 = match vrf_queue {
        None => c,
        Some(q) => Config { vrf_queue: q, ..c },
    };
    match vrf_oracle {
        None => c1,
        Some(o) => Config { vrf_oracle: o, ..c1 },
    }
}

/// The config after the updates, applied in order, or the first refusal.
pub open spec fn updated_config(
    c: Config,
    authority: Pubkey,
    house_edge_bps: Option<u16>,
    min_bet: Option<u64>,
    max_bet: Option<u64>,
    min_mines: Option<u8>,
    max_mines: Option<u8>,
    vrf_queue: Option<Pubkey>,
    vrf_oracle: Option<Pubkey>,
) -> Result<Config, MinesError> {
    if authority != c.authority {
        Err(MinesError::Unauthorized)
    } else {
        match apply_house_edge(c, house_edge_bps) {
            Err(e) => Err(e),
            Ok(c1) => match apply_min_bet(c1, min_bet) {
                Err(e) => Err(e),
                Ok(c2) => match apply_max_bet(c2, max_bet) {
                    Err(e) => Err(e),
                    Ok(c3) => match apply_min_mines(c3, min_mines) {
                        Err(e) => Err(e),
                        Ok(c4) => match apply_max_mines(c4, max_mines) {
                            Err(e) => Err(e),
                            Ok(c5) => Ok(apply_vrf_keys(c5, vrf_queue, vrf_oracle)),
                        },
                    },
                },
            },
        }
    }
}

/// Update configuration parameters (authority only). Each given value is
/// checked and applied in order; on a refusal the config is left as it was.
pub fn update_config(
    ctx: &UpdateConfig,
    config: &mut Config,
    house_edge_bps: Option<u16>,
    min_bet: Option<u64>,
    max_bet: Option<u64>,
    min_mines: Option<u8>,
    max_mines: Option<u8>,
    vrf_queue: Option<Pubkey>,
    vrf_oracle: Option<Pubkey>,
) -> (r: Result<(), MinesError>)
    ensures
        match updated_config(
            *old(config),
            ctx.authority,
            house_edge_bps,
            min_bet,
            max_bet,
            min_mines,
            max_mines,
            vrf_queue,
            vrf_oracle,
        ) {
            Ok(c) => r == Ok::<(), MinesError>(()) && *final(config) == c,
            Err(e) => r == Err::<(), MinesError>(e) && *final(config) == *old(config),
        },
        old(config).wf() ==> final(config).wf(),
{
    if !pubkey_eq(&ctx.authority, &config.authority) {
        return Err(MinesError::Unauthorized);
    }
    let mut c = *config;
    if let Some(edge) = house_edge_bps {
        if !(edge <= 10000) {
            return Err(MinesError::InvalidHouseEdge);
        }
        c.house_edge_bps = edge;
    }
    if let Some(min) = min_bet {
        if !(min > 0) {
            return Err(MinesError::BetTooLow);
        }
        c.min_bet = min;
    }
    if let Some(max) = max_bet {
        if !(max >= c.min_bet) {
            return Err(MinesError::BetTooHigh);
        }
        c.max_bet = max;
    }
    if let Some(min) = min_mines {
        if !(min >= 1 && min <= 24) {
            return Err(MinesError::InvalidMinesCount);
        }
        c.min_mines = min;
    }
    if let Some(max) = max_mines {
        if !(max >= c.min_mines && max <= 24) {
            return Err(MinesError::InvalidMinesCount);
        }
        c.max_mines = max;
    }
    if let Some(queue) = vrf_queue {
        c.vrf_queue = queue;
    }
    if let Some(oracle) = vrf_oracle {
        c.vrf_oracle = oracle;
    }
    *config = c;
    Ok(())
}

} // verus!
