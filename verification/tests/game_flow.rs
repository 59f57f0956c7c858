use anchor_lang::solana_program::pubkey::Pubkey;
use mines_game::error::MinesError;
use mines_game::instructions::cash_out::{cash_out, CashOut};
use mines_game::instructions::fulfill::{fulfill, generate_mine_positions, Fulfill};
use mines_game::instructions::initialize::{initialize, Initialize};
use mines_game::instructions::reveal_tile::{reveal_tile, RevealEvent, RevealTile};
use mines_game::instructions::start_game::{start_game, StartGame};
use mines_game::state::game_status;
use mines_game::state::{Config, GameState};

fn key(n: u8) -> Pubkey {
    Pubkey::new_from_array([n; 32])
}

/// The floating-point risk curve of the program, in basis points.
fn risk_curve_bps(revealed_count: u8, mines_count: u8, total_tiles: u8) -> u64 {
    let risk_factor = (mines_count as f64 / total_tiles as f64) * 2.0 + 1.0;
    let base_multiplier = 1.0 + (risk_factor * 0.15);
    let multiplier = base_multiplier.powi(revealed_count as i32);
    (multiplier * 10000.0) as u64
}

fn config(house_edge_bps: u16) -> Config {
    initialize(
        &Initialize { authority: key(1), fee_wallet: key(2), house_vault: key(3), config_bump: 254 },
        house_edge_bps,
        1_000,
        1_000_000_000,
        1,
        24,
        key(4),
        key(5),
    )
    .unwrap()
}

fn started(mines: u8, bet: u64) -> GameState {
    let ctx = StartGame { config: config(500), player: key(9), game_state_key: key(10), now: 100, game_bump: 7 };
    start_game(&ctx, bet, mines).unwrap().0
}

fn fulfilled_game(mines: u8, bet: u64, randomness: [u8; 32]) -> GameState {
    let mut game = started(mines, bet);
    fulfill(&Fulfill { game_state_key: key(10), now: 200 }, &mut game, randomness).unwrap();
    game
}

fn reveal_ctx() -> RevealTile {
    RevealTile { game_state_key: key(10), player: key(9) }
}

#[test]
fn start_game_makes_fresh_game() {
    let ctx = StartGame { config: config(500), player: key(9), game_state_key: key(10), now: 100, game_bump: 7 };
    let (game, event) = start_game(&ctx, 10_000_000, 3).unwrap();
    assert_eq!(game.player, key(9));
    assert_eq!(game.bet_amount, 10_000_000);
    assert_eq!(game.mines_count, 3);
    assert_eq!(game.vrf_request_id, None);
    assert_eq!(game.revealed_tiles, 0);
    assert_eq!(game.current_multiplier, 10000);
    assert_eq!(game.status, game_status::ACTIVE);
    assert_eq!(game.mine_positions, [255u8; 24]);
    assert_eq!(game.mines_placed, 0);
    assert_eq!(game.created_at, 100);
    assert_eq!(game.vrf_fulfilled_at, 0);
    assert_eq!(game.vrf_randomness, None);
    assert_eq!(game.bump, 7);
    assert_eq!(event.player, key(9));
    assert_eq!(event.bet_amount, 10_000_000);
    assert_eq!(event.mines_count, 3);
    assert_eq!(event.game_state, key(10));
}

#[test]
fn start_game_refuses_bets_out_of_range() {
    let ctx = StartGame { config: config(500), player: key(9), game_state_key: key(10), now: 100, game_bump: 7 };
    assert_eq!(start_game(&ctx, 999, 3).err(), Some(MinesError::BetTooLow));
    assert_eq!(start_game(&ctx, 1_000_000_001, 3).err(), Some(MinesError::BetTooHigh));
    assert_eq!(start_game(&ctx, u64::MAX, 30).err(), Some(MinesError::BetTooHigh));
    assert!(start_game(&ctx, 1_000, 3).is_ok());
    assert!(start_game(&ctx, 1_000_000_000, 3).is_ok());
}

#[test]
fn start_game_refuses_mine_counts_out_of_range() {
    let ctx = StartGame { config: config(500), player: key(9), game_state_key: key(10), now: 100, game_bump: 7 };
    assert_eq!(start_game(&ctx, 5_000, 0).err(), Some(MinesError::InvalidMinesCount));
    assert_eq!(start_game(&ctx, 5_000, 25).err(), Some(MinesError::InvalidMinesCount));
    assert!(start_game(&ctx, 5_000, 24).is_ok());
    // the bet is checked first
    assert_eq!(start_game(&ctx, 1, 30).err(), Some(MinesError::BetTooLow));
}

#[test]
fn fulfill_places_the_generated_mines() {
    let randomness = [0u8; 32];
    let mut game = started(3, 10_000);
    let event = fulfill(&Fulfill { game_state_key: key(10), now: 200 }, &mut game, randomness).unwrap();
    assert_eq!(event.game_state, key(10));
    assert_eq!(event.vrf_randomness, randomness);
    assert_eq!(event.mines_count, 3);
    assert_eq!(game.vrf_randomness, Some(randomness));
    assert_eq!(game.vrf_fulfilled_at, 200);
    assert_eq!(game.mines_placed, 3);
    assert_eq!(&game.mine_positions[..3], &[20, 7, 12]);
    assert!(game.mine_positions[3..].iter().all(|&p| p == 255));
    // anyone can recompute the mines from the stored randomness
    let recomputed = generate_mine_positions(game.vrf_randomness.unwrap(), game.mines_count);
    assert_eq!(&game.mine_positions[..3], recomputed.as_slice());
}

#[test]
fn fulfill_refuses_twice() {
    let mut game = fulfilled_game(3, 10_000, [0u8; 32]);
    let before = game;
    let r = fulfill(&Fulfill { game_state_key: key(10), now: 300 }, &mut game, [9u8; 32]);
    assert_eq!(r.err(), Some(MinesError::VrfAlreadyFulfilled));
    assert_eq!(game.mine_positions, before.mine_positions);
    assert_eq!(game.vrf_randomness, before.vrf_randomness);
    assert_eq!(game.vrf_fulfilled_at, 200);
}

#[test]
fn fulfill_refuses_ended_game() {
    let mut game = started(3, 10_000);
    game.status = game_status::LOST;
    let r = fulfill(&Fulfill { game_state_key: key(10), now: 300 }, &mut game, [9u8; 32]);
    assert_eq!(r.err(), Some(MinesError::GameEnded));
    assert_eq!(game.mines_placed, 0);
}

#[test]
fn reveal_safe_tile_raises_multiplier() {
    let mut game = fulfilled_game(3, 10_000, [0u8; 32]);
    let r = reveal_tile(&reveal_ctx(), &mut game, 0, risk_curve_bps).unwrap();
    let expected = risk_curve_bps(1, 3, 25);
    assert_eq!(expected, 11860);
    match r {
        RevealEvent::TileRevealed(e) => {
            assert_eq!(e.game_state, key(10));
            assert_eq!(e.player, key(9));
            assert_eq!(e.tile_index, 0);
            assert_eq!(e.revealed_count, 1);
            assert_eq!(e.multiplier, expected);
        }
        RevealEvent::MineHit(_) => panic!("tile 0 is safe"),
    }
    assert_eq!(game.revealed_tiles, 1);
    assert_eq!(game.current_multiplier, expected);
    assert_eq!(game.status, game_status::ACTIVE);
    let r = reveal_tile(&reveal_ctx(), &mut game, 1, risk_curve_bps).unwrap();
    match r {
        RevealEvent::TileRevealed(e) => {
            assert_eq!(e.revealed_count, 2);
            assert_eq!(e.multiplier, risk_curve_bps(2, 3, 25));
        }
        RevealEvent::MineHit(_) => panic!("tile 1 is safe"),
    }
    assert_eq!(game.revealed_tiles, 0b11);
}

#[test]
fn reveal_mine_loses_game() {
    let mut game = fulfilled_game(3, 10_000, [0u8; 32]);
    let r = reveal_tile(&reveal_ctx(), &mut game, 20, risk_curve_bps).unwrap();
    match r {
        RevealEvent::MineHit(e) => {
            assert_eq!(e.game_state, key(10));
            assert_eq!(e.player, key(9));
            assert_eq!(e.tile_index, 20);
        }
        RevealEvent::TileRevealed(_) => panic!("tile 20 is a mine"),
    }
    assert_eq!(game.status, game_status::LOST);
    assert_eq!(game.revealed_tiles, 0);
    assert_eq!(game.current_multiplier, 10000);
    // the game is over: no further reveal or cash-out
    assert_eq!(reveal_tile(&reveal_ctx(), &mut game, 0, risk_curve_bps).err(), Some(MinesError::GameEnded));
    let ctx = CashOut { config: config(500), game_state_key: key(10), player: key(9), house_vault_amount: u64::MAX };
    assert_eq!(cash_out(&ctx, &mut game).err(), Some(MinesError::GameEnded));
}

#[test]
fn reveal_refusals() {
    let mut game = fulfilled_game(3, 10_000, [0u8; 32]);
    let other = RevealTile { game_state_key: key(10), player: key(8) };
    assert_eq!(reveal_tile(&other, &mut game, 0, risk_curve_bps).err(), Some(MinesError::Unauthorized));
    assert_eq!(reveal_tile(&reveal_ctx(), &mut game, 25, risk_curve_bps).err(), Some(MinesError::InvalidTileIndex));
    reveal_tile(&reveal_ctx(), &mut game, 4, risk_curve_bps).unwrap();
    let before = game.revealed_tiles;
    assert_eq!(reveal_tile(&reveal_ctx(), &mut game, 4, risk_curve_bps).err(), Some(MinesError::TileAlreadyRevealed));
    assert_eq!(game.revealed_tiles, before);
    let mut waiting = started(3, 10_000);
    assert_eq!(reveal_tile(&reveal_ctx(), &mut waiting, 0, risk_curve_bps).err(), Some(MinesError::GameNotReady));
}

#[test]
fn revealing_the_last_safe_tile_raises_multiplier() {
    let mut game = fulfilled_game(24, 10_000, [0xffu8; 32]);
    let mines = generate_mine_positions([0xffu8; 32], 24);
    let safe = (0u8..25).find(|t| !mines.contains(t)).unwrap();
    assert_eq!(safe, 12);
    match reveal_tile(&reveal_ctx(), &mut game, safe, risk_curve_bps).unwrap() {
        RevealEvent::TileRevealed(e) => {
            assert_eq!(e.revealed_count, 1);
            assert_eq!(e.multiplier, risk_curve_bps(1, 24, 25));
            assert_eq!(e.multiplier, 14380);
        }
        RevealEvent::MineHit(_) => panic!("tile is safe"),
    }
}

#[test]
fn cash_out_pays_bet_times_multiplier_minus_edge() {
    let mut game = fulfilled_game(3, 1_000_000, [0u8; 32]);
    reveal_tile(&reveal_ctx(), &mut game, 0, risk_curve_bps).unwrap();
    assert_eq!(game.current_multiplier, 11860);
    let ctx = CashOut { config: config(500), game_state_key: key(10), player: key(9), house_vault_amount: 1_126_700 };
    let event = cash_out(&ctx, &mut game).unwrap();
    // gross 1_186_000, house share 59_300
    assert_eq!(event.payout, 1_126_700);
    assert_eq!(event.multiplier, 11860);
    assert_eq!(event.revealed_count, 1);
    assert_eq!(event.player, key(9));
    assert_eq!(event.game_state, key(10));
    assert_eq!(game.status, game_status::CASHED_OUT);
    // a second cash-out is refused
    assert_eq!(cash_out(&ctx, &mut game).err(), Some(MinesError::GameEnded));
}

#[test]
fn cash_out_before_any_reveal_returns_bet_minus_edge() {
    let mut game = fulfilled_game(5, 20_000, [3u8; 32]);
    let ctx = CashOut { config: config(100), game_state_key: key(10), player: key(9), house_vault_amount: 1_000_000 };
    assert_eq!(cash_out(&ctx, &mut game).unwrap().payout, 19_800);
}

#[test]
fn cash_out_refusals() {
    let ctx = CashOut { config: config(500), game_state_key: key(10), player: key(9), house_vault_amount: 1_000_000 };
    let mut game = fulfilled_game(3, 1_000_000, [0u8; 32]);
    let other = CashOut { player: key(8), ..ctx };
    assert_eq!(cash_out(&other, &mut game).err(), Some(MinesError::Unauthorized));
    let poor = CashOut { house_vault_amount: 949_999, ..ctx };
    let exact = CashOut { house_vault_amount: 950_000, ..ctx };
    let mut copy = game;
    assert_eq!(cash_out(&exact, &mut copy).unwrap().payout, 950_000);
    assert_eq!(cash_out(&poor, &mut game).err(), Some(MinesError::InsufficientVaultFunds));
    assert_eq!(game.status, game_status::ACTIVE);
    let mut waiting = started(3, 10_000);
    assert_eq!(cash_out(&ctx, &mut waiting).err(), Some(MinesError::GameNotReady));
    let mut zero = game;
    zero.current_multiplier = 0;
    assert_eq!(cash_out(&ctx, &mut zero).err(), Some(MinesError::ZeroMultiplier));
    let mut huge = game;
    huge.bet_amount = u64::MAX;
    assert_eq!(cash_out(&ctx, &mut huge).err(), Some(MinesError::InvalidGameState));
    let mut bad_edge = ctx;
    bad_edge.config.house_edge_bps = 20000;
    assert_eq!(cash_out(&bad_edge, &mut game).err(), Some(MinesError::InvalidGameState));
    let mut fee_overflow = game;
    fee_overflow.bet_amount = u64::MAX / 10000;
    fee_overflow.current_multiplier = 10000;
    let mut max_edge = ctx;
    max_edge.config.house_edge_bps = u16::MAX;
    max_edge.house_vault_amount = u64::MAX;
    assert_eq!(cash_out(&max_edge, &mut fee_overflow).err(), Some(MinesError::InvalidGameState));
    // under a valid edge the same game pays out
    let rich = CashOut { house_vault_amount: u64::MAX, ..ctx };
    assert!(cash_out(&rich, &mut fee_overflow).is_ok());
    assert_eq!(game.status, game_status::ACTIVE);
}

#[test]
fn every_game_stays_within_the_board() {
    for seed in 0u8..40 {
        for mines in [1u8, 3, 10, 24] {
            let mut randomness = [0u8; 32];
            randomness[0] = seed;
            randomness[3] = seed.wrapping_mul(7);
            let mut game = fulfilled_game(mines, 10_000, randomness);
            for tile in 0u8..25 {
                let r = reveal_tile(&reveal_ctx(), &mut game, tile, risk_curve_bps);
                if game.status == game_status::LOST {
                    assert!(matches!(r, Ok(RevealEvent::MineHit(_))));
                    break;
                }
                assert!(game.revealed_count() + mines <= 25);
                assert!(game.current_multiplier <= 1_000_000);
            }
            if game.status == game_status::ACTIVE {
                assert_eq!(game.revealed_count() + mines, 25);
                let expected = risk_curve_bps(25 - mines, mines, 25).min(1_000_000);
                assert_eq!(game.current_multiplier, expected);
                assert!(game.current_multiplier > 10000);
            }
        }
    }
}

#[test]
fn fulfilled_exactly_when_randomness_is_stored() {
    let mut game = started(4, 10_000);
    assert!(game.vrf_randomness.is_none());
    assert_eq!(game.vrf_fulfilled_at, 0);
    assert_eq!(game.mines_placed, 0);
    let r = [42u8; 32];
    fulfill(&Fulfill { game_state_key: key(10), now: 1 }, &mut game, r).unwrap();
    assert!(game.vrf_fulfilled_at > 0);
    assert_eq!(game.vrf_randomness, Some(r));
    assert_eq!(&game.mine_positions[..game.mines_placed as usize], generate_mine_positions(r, 4).as_slice());
    // reveals and a cash-out keep the link
    reveal_tile(&reveal_ctx(), &mut game, generate_mine_positions(r, 25)[24], risk_curve_bps).unwrap();
    assert_eq!(game.vrf_randomness, Some(r));
    assert_eq!(&game.mine_positions[..4], generate_mine_positions(r, 4).as_slice());
}

#[test]
fn mines_cannot_be_rerolled() {
    let r1 = [5u8; 32];
    let mut game = fulfilled_game(6, 10_000, r1);
    let mines = game.mine_positions;
    let safe = generate_mine_positions(r1, 25)[24];
    reveal_tile(&reveal_ctx(), &mut game, safe, risk_curve_bps).unwrap();
    let r = fulfill(&Fulfill { game_state_key: key(10), now: 500 }, &mut game, [6u8; 32]);
    assert_eq!(r.err(), Some(MinesError::VrfAlreadyFulfilled));
    assert_eq!(game.mine_positions, mines);
    assert_eq!(game.vrf_randomness, Some(r1));
    assert_eq!(game.vrf_fulfilled_at, 200);
    let ctx = CashOut { config: config(500), game_state_key: key(10), player: key(9), house_vault_amount: u64::MAX };
    cash_out(&ctx, &mut game).unwrap();
    let r = fulfill(&Fulfill { game_state_key: key(10), now: 600 }, &mut game, [6u8; 32]);
    assert_eq!(r.err(), Some(MinesError::GameEnded));
    assert_eq!(game.mine_positions, mines);
}
