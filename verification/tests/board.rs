use anchor_lang::solana_program::pubkey::Pubkey;
use mines_game::instructions::fulfill::{generate_mine_positions, seed_from_randomness};
use mines_game::instructions::reveal_tile::{calculate_multiplier, reveal_tile_defined};
use mines_game::state::game_status;
use mines_game::state::GameState;

fn game() -> GameState {
    GameState {
        player: Pubkey::new_from_array([9; 32]),
        bet_amount: 1_000,
        mines_count: 3,
        vrf_request_id: None,
        revealed_tiles: 0,
        current_multiplier: 10000,
        status: game_status::ACTIVE,
        mine_positions: [255; 24],
        mines_placed: 0,
        created_at: 0,
        vrf_fulfilled_at: 0,
        vrf_randomness: None,
        bump: 0,
    }
}

#[test]
fn seed_is_first_eight_bytes_little_endian() {
    let mut r = [0u8; 32];
    for (i, b) in r.iter_mut().enumerate() {
        *b = i as u8 + 1;
    }
    assert_eq!(seed_from_randomness(&r), 0x0807060504030201);
    assert_eq!(seed_from_randomness(&[0xff; 32]), u64::MAX);
}

#[test]
fn mine_positions_of_known_randomness() {
    assert_eq!(generate_mine_positions([0; 32], 3), vec![20, 7, 12]);
    let mut r = [0u8; 32];
    for (i, b) in r.iter_mut().enumerate() {
        *b = i as u8 + 1;
    }
    assert_eq!(generate_mine_positions(r, 5), vec![0, 24, 23, 8, 11]);
    assert_eq!(
        generate_mine_positions([0xff; 32], 24),
        vec![16, 14, 17, 1, 5, 22, 20, 8, 6, 4, 13, 0, 23, 18, 21, 11, 3, 9, 24, 2, 15, 19, 10, 7]
    );
    assert_eq!(generate_mine_positions([0; 32], 0), Vec::<u8>::new());
}

#[test]
fn mine_positions_are_distinct_board_tiles() {
    for seed in 0u8..=255 {
        let mut r = [0u8; 32];
        r[0] = seed;
        r[5] = seed.wrapping_mul(31);
        for count in [1u8, 3, 12, 24, 25] {
            let m = generate_mine_positions(r, count);
            assert_eq!(m.len(), count as usize);
            let mut seen = [false; 25];
            for &t in &m {
                assert!(t < 25);
                assert!(!seen[t as usize]);
                seen[t as usize] = true;
            }
        }
        // the same randomness always gives the same mines
        assert_eq!(generate_mine_positions(r, 7), generate_mine_positions(r, 7));
    }
    let all = generate_mine_positions([7; 32], 25);
    assert_eq!(all, vec![15, 14, 7, 18, 16, 10, 2, 24, 1, 8, 21, 6, 23, 22, 5, 11, 0, 13, 3, 4, 20, 17, 9, 19, 12]);
}

#[test]
fn only_later_bytes_do_not_move_mines() {
    let mut r = [0u8; 32];
    r[8] = 200;
    r[31] = 1;
    assert_eq!(generate_mine_positions(r, 3), vec![20, 7, 12]);
}

#[test]
fn tile_bits() {
    let mut g = game();
    assert!(!g.is_tile_revealed(0));
    g.reveal_tile(0);
    g.reveal_tile(24);
    assert_eq!(g.revealed_tiles, 1 | (1 << 24));
    assert!(g.is_tile_revealed(0));
    assert!(g.is_tile_revealed(24));
    assert!(!g.is_tile_revealed(1));
    assert_eq!(g.revealed_count(), 2);
    g.reveal_tile(24);
    assert_eq!(g.revealed_count(), 2);
    // out-of-board indices are ignored
    g.reveal_tile(25);
    g.reveal_tile(200);
    assert_eq!(g.revealed_tiles, 1 | (1 << 24));
    g.revealed_tiles |= 1 << 30;
    assert!(!g.is_tile_revealed(30));
    assert_eq!(g.revealed_count(), 3);
    g.revealed_tiles = u32::MAX;
    assert_eq!(g.revealed_count(), 32);
}

#[test]
fn mines_are_the_placed_prefix() {
    let mut g = game();
    g.mine_positions[0] = 4;
    g.mine_positions[1] = 9;
    g.mine_positions[2] = 17;
    assert!(!g.is_mine(4));
    g.mines_placed = 2;
    assert!(g.is_mine(4));
    assert!(g.is_mine(9));
    assert!(!g.is_mine(17));
    g.mines_placed = 24;
    assert!(g.is_mine(255));
}

#[test]
fn multiplier_branches() {
    let curve = |r: u8, _m: u8, _t: u8| 10000u64 + r as u64 * 5000;
    assert_eq!(calculate_multiplier(0, 3, 25, curve), 10000);
    assert_eq!(calculate_multiplier(1, 3, 25, curve), 15000);
    assert_eq!(calculate_multiplier(22, 3, 25, curve), 120000);
    assert_eq!(calculate_multiplier(21, 3, 25, curve), 115000);
    let steep = |_r: u8, _m: u8, _t: u8| 5_000_000u64;
    assert_eq!(calculate_multiplier(3, 24, 30, steep), 1_000_000);
    let exact = |_r: u8, _m: u8, _t: u8| 1_000_000u64;
    assert_eq!(calculate_multiplier(3, 5, 25, exact), 1_000_000);
}

#[test]
fn reveal_defined_on_reachable_games() {
    let player = Pubkey::new_from_array([9; 32]);
    let mut g = game();
    g.vrf_fulfilled_at = 10;
    g.mines_placed = 3;
    g.mine_positions[0] = 1;
    g.mine_positions[1] = 2;
    g.mine_positions[2] = 3;
    assert!(reveal_tile_defined(&g, &player, 0));
    // twenty-one safe tiles revealed: the last safe tile still fits
    g.revealed_tiles = 0x1ff_fff1 & !(1 << 4);
    assert!(reveal_tile_defined(&g, &player, 4));
    g.revealed_tiles = 0x1ff_ffff & !(1 << 4);
    assert!(reveal_tile_defined(&g, &player, 4));
    // refused reveals are always defined
    assert!(reveal_tile_defined(&g, &player, 25));
    g.mines_placed = 30;
    assert!(!reveal_tile_defined(&g, &player, 4));
    assert!(reveal_tile_defined(&g, &Pubkey::new_from_array([8; 32]), 4));
}

#[test]
fn more_mines_keep_the_earlier_ones() {
    for seed in 0u8..50 {
        let mut r = [0u8; 32];
        r[1] = seed;
        r[7] = seed ^ 0x5a;
        let all = generate_mine_positions(r, 25);
        for c in 0u8..=25 {
            assert_eq!(generate_mine_positions(r, c).as_slice(), &all[..c as usize]);
        }
    }
}
