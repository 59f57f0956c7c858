//! Laws of the game that relate its instructions, stated over the spec
//! functions that the instructions' contracts use.
use vstd::prelude::*;

use anchor_lang::solana_program::pubkey::Pubkey;

use crate::error::MinesError;
use crate::instructions::cash_out::{cash_out_error, gross_payout, house_fee, net_payout};
use crate::instructions::fulfill::{
    fulfill_error, fulfilled, lemma_mine_positions_valid, lemma_no_bit_of_zero, lemma_shuffled_permutation, lemma_shuffled_prefix_stable,
    mine_positions_for, shuffled, vrf_seed,
};
use crate::instructions::reveal_tile::{reveal_error, revealed_bits};
use crate::instructions::initialize::initialize_error;
use crate::instructions::start_game::{is_new_game, start_game_error};
use crate::instructions::withdraw_house::{withdraw_error, WithdrawHouse};
use crate::instructions::update_config::updated_config;
use crate::state::game_status;
use crate::state::{
    bit_indices, lemma_bits_on_board, lemma_safe_set_fits, lemma_set_bit, Config, GameState,
    MAX_MULTIPLIER_BPS,
};

verus! {

/// Provable fairness: after a fulfillment, the stored mines are exactly the
/// mines that the stored randomness places, and they are `mines_count`
/// distinct tiles of the board. Anyone holding the randomness can recompute them.
pub proof fn law_mines_match_randomness(pre: GameState, post: GameState, randomness: [u8; 32], now: i64)
    requires
        pre.mines_count <= 24,
        fulfilled(post, pre, randomness, now),
    ensures
        post.vrf_randomness == Some(randomness),
        post.mines() == mine_positions_for(randomness@, post.mines_count as nat),
        post.mines().len() == post.mines_count,
        post.mines().no_duplicates(),
        forall|k: int| 0 <= k < post.mines_count ==> #[trigger] post.mines()[k] < 25,
{
    lemma_mine_positions_valid(randomness@, pre.mines_count as nat);
    assert(post.mines() =~= mine_positions_for(randomness@, post.mines_count as nat));
}

/// Asking for more mines never moves the earlier ones: the mines for `c1` are
/// the first `c1` of the mines for any `c2 >= c1`.
pub proof fn law_mine_positions_prefix(randomness: Seq<u8>, c1: nat, c2: nat)
    requires
        c1 <= c2 <= 25,
    ensures
        mine_positions_for(randomness, c1) == mine_positions_for(randomness, c2).take(c1 as int),
{
    lemma_shuffled_prefix_stable(vrf_seed(randomness), c1, c2);
    let s2 = shuffled(vrf_seed(randomness), c2);
    lemma_shuffled_permutation(vrf_seed(randomness), c2);
    assert(mine_positions_for(randomness, c2).take(c1 as int) =~= s2.take(c1 as int));
}

/// A fulfillment at a positive time marks the game fulfilled and stores the randomness.
pub proof fn law_fulfillment_at_positive_time(pre: GameState, post: GameState, randomness: [u8; 32], now: i64)
    requires
        fulfilled(post, pre, randomness, now),
        now > 0,
    ensures
        post.vrf_fulfilled_at > 0,
        post.vrf_randomness == Some(randomness),
{
}

/// A game is fulfilled exactly when it holds randomness; an unfulfilled game
/// has no mines; a fulfilled game's mines are exactly those its randomness
/// places. This holds of every game whose history keeps `history_inv`, that
/// is, of every game whose fulfillments all came at a positive time
/// (`law_history_starts`, `law_history_fulfill`, `law_history_reveal`,
/// `law_history_cash_out`).
pub proof fn law_fulfilled_iff_randomness(g: GameState)
    requires
        g.history_inv(),
    ensures
        g.vrf_fulfilled_at > 0 <==> g.vrf_randomness is Some,
        g.vrf_fulfilled_at == 0 ==> g.mines_placed == 0,
        g.vrf_randomness matches Some(r) ==> g.mines_placed == g.mines_count && g.mines()
            == mine_positions_for(r@, g.mines_count as nat),
{
}

/// The mines cannot be re-rolled: a game that holds randomness refuses every
/// further fulfillment, as already fulfilled or as ended (and a refused
/// fulfillment leaves the game unchanged, by `fulfill`'s contract).
pub proof fn law_no_reroll(g: GameState)
    requires
        g.history_inv(),
        g.vrf_randomness is Some,
    ensures
        fulfill_error(g) == Some(MinesError::VrfAlreadyFulfilled) || fulfill_error(g) == Some(
            MinesError::GameEnded,
        ),
{
}

/// The game after `reveal_tile` on `pre` and tile `t`, when a safe reveal sets
/// the multiplier to `multiplier` (as `reveal_tile`'s contract gives it).
pub open spec fn reveal_outcome(pre: GameState, player: Pubkey, t: u8, multiplier: u64) -> GameState {
    if reveal_error(pre, player, t) is Some {
        pre
    } else if pre.mines().contains(t) {
        pre.with_status(game_status::LOST)
    } else {
        GameState { revealed_tiles: revealed_bits(pre, t), current_multiplier: multiplier, ..pre }
    }
}

/// Whatever a reveal returns, only tiles of the board stay marked revealed and
/// no revealed tile is a mine.
pub proof fn law_reveal_keeps_safe_marks(pre: GameState, player: Pubkey, t: u8, multiplier: u64)
    requires
        pre.reveals_only_safe_tiles(),
    ensures
        reveal_outcome(pre, player, t, multiplier).reveals_only_safe_tiles(),
{
    let post = reveal_outcome(pre, player, t, multiplier);
    if reveal_error(pre, player, t) is None && !pre.mines().contains(t) {
        lemma_set_bit(pre.revealed_tiles, t as u32);
        assert(post.mines() == pre.mines());
        assert forall|i: int| #[trigger] post.tile_revealed(i) implies !post.mines().contains(
            i as u8,
        ) by {
            assert(bit_indices(post.revealed_tiles).contains(i));
            if i != t as int {
                assert(pre.tile_revealed(i));
            }
        }
        let b = pre.revealed_tiles;
        let tu = t as u32;
        assert((b | (1u32 << tu)) < 0x200_0000u32) by (bit_vector)
            requires
                b < 0x200_0000u32,
                tu < 25,
        ;
    } else {
        assert(post.mines() == pre.mines());
        assert forall|i: int| #[trigger] post.tile_revealed(i) implies !post.mines().contains(
            i as u8,
        ) by {
            assert(pre.tile_revealed(i));
        }
    }
}

/// A game that `start_game` makes under a well-formed config (at most 24 mines)
/// starts the history invariant.
pub proof fn law_history_starts(
    g: GameState,
    player: Pubkey,
    bet_amount: u64,
    mines_count: u8,
    now: i64,
    bump: u8,
)
    requires
        is_new_game(g, player, bet_amount, mines_count, now, bump),
        mines_count <= 24,
    ensures
        g.history_inv(),
{
    assert(g.mines() =~= Seq::<u8>::empty());
    assert forall|i: int| #[trigger] g.tile_revealed(i) implies !g.mines().contains(i as u8) by {
        lemma_no_bit_of_zero(i);
    }
}

/// A fulfillment at a positive time keeps the history invariant, and from then
/// on the game refuses every further fulfillment.
pub proof fn law_history_fulfill(pre: GameState, post: GameState, randomness: [u8; 32], now: i64)
    requires
        pre.history_inv(),
        fulfill_error(pre) is None,
        fulfilled(post, pre, randomness, now),
        now > 0,
    ensures
        post.history_inv(),
        fulfill_error(post) == Some(MinesError::VrfAlreadyFulfilled),
{
    law_mines_match_randomness(pre, post, randomness, now);
    assert forall|k: int| 0 <= k < post.mines_placed implies #[trigger] post.mine_positions@[k] < 25 by {
        assert(post.mines()[k] == post.mine_positions@[k]);
    }
    assert(post.revealed_tiles == 0);
    assert forall|i: int| #[trigger] post.tile_revealed(i) implies !post.mines().contains(i as u8) by {
        lemma_no_bit_of_zero(i);
    }
}

/// Every reveal keeps the history invariant, whatever it returns, as long as
/// the new multiplier respects the 100x cap (as `calculate_multiplier` ensures).
pub proof fn law_history_reveal(pre: GameState, player: Pubkey, t: u8, multiplier: u64)
    requires
        pre.history_inv(),
        multiplier <= MAX_MULTIPLIER_BPS,
    ensures
        reveal_outcome(pre, player, t, multiplier).history_inv(),
{
    law_reveal_keeps_safe_marks(pre, player, t, multiplier);
    let post = reveal_outcome(pre, player, t, multiplier);
    assert(post.mines() == pre.mines());
}

/// A cash-out keeps the history invariant.
pub proof fn law_history_cash_out(pre: GameState)
    requires
        pre.history_inv(),
    ensures
        pre.with_status(game_status::CASHED_OUT).history_inv(),
{
    let post = pre.with_status(game_status::CASHED_OUT);
    assert(post.mines() == pre.mines());
    assert forall|i: int| #[trigger] post.tile_revealed(i) implies !post.mines().contains(i as u8) by {
        assert(pre.tile_revealed(i));
    }
}

/// In a well-formed game whose mines are placed, the revealed tiles never
/// outnumber the safe tiles: revealed plus mines is at most 25.
pub proof fn law_revealed_within_safe_tiles(g: GameState)
    requires
        g.wf(),
        g.vrf_fulfilled_at > 0,
    ensures
        g.revealed_set().finite(),
        g.revealed_set().len() + g.mines_count <= 25,
{
    assert forall|i: int| #[trigger] g.revealed_set().contains(i) implies 0 <= i < 25
        && !g.mines().contains(i as u8) by {
        lemma_bits_on_board(g.revealed_tiles, i);
        assert(g.tile_revealed(i));
    }
    lemma_safe_set_fits(g, g.revealed_set());
}

/// Revealing tile `t` marks exactly that tile: the revealed set gains `t`.
pub proof fn law_reveal_marks_tile(g: GameState, t: u8)
    requires
        t < 25,
    ensures
        bit_indices(revealed_bits(g, t)) == g.revealed_set().insert(t as int),
        g.with_revealed(revealed_bits(g, t)).tile_revealed(t as int),
{
    lemma_set_bit(g.revealed_tiles, t as u32);
    assert(bit_indices(revealed_bits(g, t)).contains(t as int));
}

/// A tile is revealed at most once: after a safe reveal of `t`, revealing `t`
/// again is refused as already revealed, whatever the new multiplier.
pub proof fn law_tile_reveals_once(g: GameState, player: Pubkey, t: u8, multiplier: u64)
    requires
        reveal_error(g, player, t) is None,
    ensures
        reveal_error(
            GameState { revealed_tiles: revealed_bits(g, t), current_multiplier: multiplier, ..g },
            player,
            t,
        ) == Some(MinesError::TileAlreadyRevealed),
{
    law_reveal_marks_tile(g, t);
}

/// A game that has ended takes no further fulfillment, reveal or cash-out
/// from its player: each is refused because the game ended.
pub proof fn law_ended_game_is_final(
    g: GameState,
    config: Config,
    player: Pubkey,
    t: u8,
    house_vault_amount: u64,
)
    requires
        g.status != game_status::ACTIVE,
        g.player == player,
        t < 25,
    ensures
        fulfill_error(g) == Some(MinesError::GameEnded),
        reveal_error(g, player, t) == Some(MinesError::GameEnded),
        cash_out_error(g, config, player, house_vault_amount) == Some(MinesError::GameEnded),
{
}

/// A game pays out at most once: after a cash-out, a second cash-out is
/// refused; after a mine is hit, a cash-out is refused.
pub proof fn law_single_payout(g: GameState, config: Config, player: Pubkey, vault: u64, vault2: u64)
    ensures
        cash_out_error(g, config, player, vault) is None ==> cash_out_error(
            g.with_status(game_status::CASHED_OUT),
            config,
            player,
            vault2,
        ) == Some(MinesError::GameEnded),
        g.player == player ==> cash_out_error(
            g.with_status(game_status::LOST),
            config,
            player,
            vault2,
        ) == Some(MinesError::GameEnded),
{
}

/// With a house edge of at most 100%, the house's share never exceeds the
/// gross payout, the player receives between nothing and the gross payout,
/// and the only arithmetic refusal of a cash-out is an overflow of bet times
/// multiplier.
pub proof fn law_payout_bounds(bet_amount: u64, multiplier: u64, house_edge_bps: u16)
    requires
        house_edge_bps <= 10000,
        bet_amount as int * multiplier as int <= u64::MAX,
    ensures
        0 <= gross_payout(bet_amount, multiplier) <= bet_amount as int * multiplier as int,
        gross_payout(bet_amount, multiplier) * house_edge_bps as int <= u64::MAX,
        0 <= house_fee(gross_payout(bet_amount, multiplier), house_edge_bps) <= gross_payout(
            bet_amount,
            multiplier,
        ),
        0 <= net_payout(bet_amount, multiplier, house_edge_bps) <= gross_payout(
            bet_amount,
            multiplier,
        ),
{
    let p = bet_amount as int * multiplier as int;
    let g = gross_payout(bet_amount, multiplier);
    let e = house_edge_bps as int;
    assert(0 <= g <= p) by (nonlinear_arith)
        requires
            g == p / 10000,
            p >= 0,
    ;
    assert(g * e <= p) by (nonlinear_arith)
        requires
            g == p / 10000,
            p >= 0,
            0 <= e <= 10000,
    ;
    assert(0 <= (g * e) / 10000 <= g) by (nonlinear_arith)
        requires
            g >= 0,
            0 <= e <= 10000,
    ;
}

/// Under a well-formed config, a cash-out is never refused for the house's
/// share: `InvalidGameState` comes only from an overflow of bet times multiplier.
pub proof fn law_cash_out_arithmetic(g: GameState, config: Config, player: Pubkey, vault: u64)
    requires
        config.wf(),
        g.bet_amount as int * g.current_multiplier as int <= u64::MAX,
    ensures
        cash_out_error(g, config, player, vault) != Some(MinesError::InvalidGameState),
{
    law_payout_bounds(g.bet_amount, g.current_multiplier, config.house_edge_bps);
}

/// Only the authority changes the config, and no update changes who the
/// authority is, nor the fee wallet, the house vault or the bump.
pub proof fn law_update_config_keeps_owner(
    c: Config,
    authority: Pubkey,
    house_edge_bps: Option<u16>,
    min_bet: Option<u64>,
    max_bet: Option<u64>,
    min_mines: Option<u8>,
    max_mines: Option<u8>,
    vrf_queue: Option<Pubkey>,
    vrf_oracle: Option<Pubkey>,
)
    ensures
        authority != c.authority ==> updated_config(
            c,
            authority,
            house_edge_bps,
            min_bet,
            max_bet,
            min_mines,
            max_mines,
            vrf_queue,
            vrf_oracle,
        ) == Err::<Config, MinesError>(MinesError::Unauthorized),
        updated_config(
            c,
            authority,
            house_edge_bps,
            min_bet,
            max_bet,
            min_mines,
            max_mines,
            vrf_queue,
            vrf_oracle,
        ) matches Ok(n) ==> {
            &&& n.authority == c.authority
            &&& n.fee_wallet == c.fee_wallet
            &&& n.house_vault == c.house_vault
            &&& n.bump == c.bump
            &&& (c.wf() ==> n.wf())
        },
{
}

/// A game starts exactly when the bet lies within the configured bet limits
/// and the mine count within the configured mine limits; a bet in range with a
/// mine count out of range is refused as `InvalidMinesCount`, a bet below the
/// minimum as `BetTooLow`, a bet above the maximum as `BetTooHigh`.
pub proof fn law_start_game_respects_limits(config: Config, bet_amount: u64, mines_count: u8)
    ensures
        start_game_error(config, bet_amount, mines_count) is None <==> (config.min_bet <= bet_amount
            <= config.max_bet && config.min_mines <= mines_count <= config.max_mines),
        bet_amount < config.min_bet ==> start_game_error(config, bet_amount, mines_count) == Some(
            MinesError::BetTooLow,
        ),
        config.min_bet <= bet_amount && bet_amount > config.max_bet ==> start_game_error(
            config,
            bet_amount,
            mines_count,
        ) == Some(MinesError::BetTooHigh),
        config.min_bet <= bet_amount <= config.max_bet && !(config.min_mines <= mines_count
            <= config.max_mines) ==> start_game_error(config, bet_amount, mines_count) == Some(
            MinesError::InvalidMinesCount,
        ),
{
}

/// A cash-out that passes the game checks and whose arithmetic fits in 64 bits
/// is refused for funds exactly when the vault holds less than
/// `bet * multiplier / 10000 - (bet * multiplier / 10000) * edge / 10000`,
/// compared as whole numbers; otherwise it pays exactly that amount.
pub proof fn law_cash_out_pays_when_vault_suffices(
    g: GameState,
    config: Config,
    player: Pubkey,
    house_vault_amount: u64,
)
    requires
        g.player == player,
        g.status == game_status::ACTIVE,
        g.vrf_fulfilled_at > 0,
        g.current_multiplier > 0,
        g.bet_amount as int * g.current_multiplier as int <= u64::MAX,
        config.house_edge_bps <= 10000,
    ensures
        ({
            let gross = (g.bet_amount as int * g.current_multiplier as int) / 10000;
            let payout = gross - (gross * config.house_edge_bps as int) / 10000;
            &&& 0 <= payout <= gross
            &&& (cash_out_error(g, config, player, house_vault_amount) == Some(
                MinesError::InsufficientVaultFunds,
            ) <==> house_vault_amount < payout)
            &&& (cash_out_error(g, config, player, house_vault_amount) is None <==> payout
                <= house_vault_amount)
            &&& net_payout(g.bet_amount, g.current_multiplier, config.house_edge_bps) == payout
        }),
{
    law_payout_bounds(g.bet_amount, g.current_multiplier, config.house_edge_bps);
}

/// Every valid update by the authority is accepted and stored: each given
/// value replaces the old one and the rest stay. Valid means a house edge of
/// at most 100%, a positive minimum bet, a maximum bet at least the (new)
/// minimum bet, a minimum mine count in 1..=24, and a maximum mine count
/// between the (new) minimum and 24.
pub proof fn law_update_config_accepts_valid_updates(
    c: Config,
    house_edge_bps: Option<u16>,
    min_bet: Option<u64>,
    max_bet: Option<u64>,
    min_mines: Option<u8>,
    max_mines: Option<u8>,
    vrf_queue: Option<Pubkey>,
    vrf_oracle: Option<Pubkey>,
)
    requires
        house_edge_bps matches Some(e) ==> e <= 10000,
        min_bet matches Some(b) ==> b > 0,
        max_bet matches Some(b) ==> b >= (if let Some(m) = min_bet { m } else { c.min_bet }),
        min_mines matches Some(m) ==> 1 <= m <= 24,
        max_mines matches Some(m) ==> (if let Some(n) = min_mines { n } else { c.min_mines }) <= m
            <= 24,
    ensures
        updated_config(
            c,
            c.authority,
            house_edge_bps,
            min_bet,
            max_bet,
            min_mines,
            max_mines,
            vrf_queue,
            vrf_oracle,
        ) == Ok::<Config, MinesError>(
            Config {
                house_edge_bps: if let Some(e) = house_edge_bps { e } else { c.house_edge_bps },
                min_bet: if let Some(b) = min_bet { b } else { c.min_bet },
                max_bet: if let Some(b) = max_bet { b } else { c.max_bet },
                min_mines: if let Some(m) = min_mines { m } else { c.min_mines },
                max_mines: if let Some(m) = max_mines { m } else { c.max_mines },
                vrf_queue: if let Some(q) = vrf_queue { q } else { c.vrf_queue },
                vrf_oracle: if let Some(o) = vrf_oracle { o } else { c.vrf_oracle },
                ..c
            },
        ),
{
}

/// `initialize` succeeds exactly on valid parameters: a house edge of at most
/// 100%, `0 < min_bet <= max_bet` and `1 <= min_mines <= max_mines <= 24`.
pub proof fn law_initialize_accepts_exactly_valid(
    house_edge_bps: u16,
    min_bet: u64,
    max_bet: u64,
    min_mines: u8,
    max_mines: u8,
)
    ensures
        initialize_error(house_edge_bps, min_bet, max_bet, min_mines, max_mines) is None <==> (
        house_edge_bps <= 10000 && 0 < min_bet <= max_bet && 1 <= min_mines <= max_mines <= 24),
{
}

/// A withdrawal succeeds exactly when the signer is the authority and the
/// amount is at most the vault's balance, compared as whole numbers.
pub proof fn law_withdraw_exactly_when_authorized_and_funded(ctx: WithdrawHouse, amount: u64)
    ensures
        withdraw_error(ctx, amount) is None <==> (ctx.authority == ctx.config.authority
            && amount <= ctx.house_vault_amount),
        ctx.authority == ctx.config.authority && ctx.house_vault_amount < amount ==> withdraw_error(
            ctx,
            amount,
        ) == Some(MinesError::InsufficientVaultFunds),
{
}

/// Every update that `update_config` accepts is valid: each given value was
/// checked (house edge at most 100%, a positive minimum bet, a maximum bet at
/// least the resulting minimum bet, a minimum mine count in 1..=24, a maximum
/// mine count between the resulting minimum and 24) and is the one stored.
pub proof fn law_update_config_accepts_only_valid_updates(
    c: Config,
    authority: Pubkey,
    house_edge_bps: Option<u16>,
    min_bet: Option<u64>,
    max_bet: Option<u64>,
    min_mines: Option<u8>,
    max_mines: Option<u8>,
    vrf_queue: Option<Pubkey>,
    vrf_oracle: Option<Pubkey>,
)
    ensures
        updated_config(
            c,
            authority,
            house_edge_bps,
            min_bet,
            max_bet,
            min_mines,
            max_mines,
            vrf_queue,
            vrf_oracle,
        ) matches Ok(n) ==> {
            &&& authority == c.authority
            &&& (house_edge_bps matches Some(e) ==> e <= 10000 && n.house_edge_bps == e)
            &&& (min_bet matches Some(b) ==> b > 0 && n.min_bet == b)
            &&& (max_bet matches Some(b) ==> b >= n.min_bet && n.max_bet == b)
            &&& (min_mines matches Some(m) ==> 1 <= m <= 24 && n.min_mines == m)
            &&& (max_mines matches Some(m) ==> n.min_mines <= m <= 24 && n.max_mines == m)
        },
{
}

/// A cash-out is accepted exactly when the signer is the game's player, the
/// game is active, fulfilled and has a positive multiplier, the payout
/// arithmetic fits in 64 bits, the house's share does not exceed the gross
/// payout, and the vault holds the payout.
pub proof fn law_cash_out_accepted_exactly_when(
    g: GameState,
    config: Config,
    player: Pubkey,
    house_vault_amount: u64,
)
    ensures
        ({
            let product = g.bet_amount as int * g.current_multiplier as int;
            let gross = product / 10000;
            let fee = (gross * config.house_edge_bps as int) / 10000;
            cash_out_error(g, config, player, house_vault_amount) is None <==> {
                &&& g.player == player
                &&& g.status == game_status::ACTIVE
                &&& g.vrf_fulfilled_at > 0
                &&& g.current_multiplier > 0
                &&& product <= u64::MAX
                &&& gross * config.house_edge_bps as int <= u64::MAX
                &&& fee <= gross
                &&& gross - fee <= house_vault_amount
            }
        }),
{
}

} // verus!
