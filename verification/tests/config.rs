use anchor_lang::solana_program::pubkey::Pubkey;
use mines_game::error::MinesError;
use mines_game::instructions::initialize::{initialize, Initialize};
use mines_game::instructions::update_config::{update_config, UpdateConfig};
use mines_game::instructions::withdraw_house::{withdraw_house, WithdrawHouse};
use mines_game::state::{Config, GameState};

fn key(n: u8) -> Pubkey {
    Pubkey::new_from_array([n; 32])
}

fn init_ctx() -> Initialize {
    Initialize { authority: key(1), fee_wallet: key(2), house_vault: key(3), config_bump: 254 }
}

fn config() -> Config {
    initialize(&init_ctx(), 500, 1_000, 1_000_000, 1, 24, key(4), key(5)).unwrap()
}

#[test]
fn initialize_sets_every_field() {
    let c = config();
    assert_eq!(c.authority, key(1));
    assert_eq!(c.house_edge_bps, 500);
    assert_eq!(c.min_bet, 1_000);
    assert_eq!(c.max_bet, 1_000_000);
    assert_eq!(c.min_mines, 1);
    assert_eq!(c.max_mines, 24);
    assert_eq!(c.vrf_queue, key(4));
    assert_eq!(c.vrf_oracle, key(5));
    assert_eq!(c.fee_wallet, key(2));
    assert_eq!(c.house_vault, key(3));
    assert_eq!(c.bump, 254);
}

#[test]
fn initialize_refusals() {
    let ctx = init_ctx();
    assert_eq!(initialize(&ctx, 10_001, 1, 2, 1, 24, key(4), key(5)).err(), Some(MinesError::InvalidHouseEdge));
    assert!(initialize(&ctx, 10_000, 1, 2, 1, 24, key(4), key(5)).is_ok());
    assert_eq!(initialize(&ctx, 0, 0, 2, 1, 24, key(4), key(5)).err(), Some(MinesError::BetTooLow));
    assert_eq!(initialize(&ctx, 0, 3, 2, 1, 24, key(4), key(5)).err(), Some(MinesError::BetTooLow));
    assert_eq!(initialize(&ctx, 0, 1, 2, 0, 24, key(4), key(5)).err(), Some(MinesError::InvalidMinesCount));
    assert_eq!(initialize(&ctx, 0, 1, 2, 1, 25, key(4), key(5)).err(), Some(MinesError::InvalidMinesCount));
    assert_eq!(initialize(&ctx, 0, 1, 2, 5, 4, key(4), key(5)).err(), Some(MinesError::InvalidMinesCount));
    // the house edge is checked first
    assert_eq!(initialize(&ctx, 20_000, 0, 0, 0, 30, key(4), key(5)).err(), Some(MinesError::InvalidHouseEdge));
}

#[test]
fn update_config_applies_given_values() {
    let mut c = config();
    let ctx = UpdateConfig { authority: key(1) };
    update_config(&ctx, &mut c, Some(250), Some(2_000), Some(5_000), Some(2), Some(10), Some(key(6)), None).unwrap();
    assert_eq!(c.house_edge_bps, 250);
    assert_eq!(c.min_bet, 2_000);
    assert_eq!(c.max_bet, 5_000);
    assert_eq!(c.min_mines, 2);
    assert_eq!(c.max_mines, 10);
    assert_eq!(c.vrf_queue, key(6));
    assert_eq!(c.vrf_oracle, key(5));
    assert_eq!(c.authority, key(1));
    update_config(&ctx, &mut c, None, None, None, None, None, None, Some(key(7))).unwrap();
    assert_eq!(c.vrf_oracle, key(7));
    assert_eq!(c.house_edge_bps, 250);
}

#[test]
fn update_config_refusals_leave_config_unchanged() {
    let ctx = UpdateConfig { authority: key(1) };
    let cases: Vec<(Option<u16>, Option<u64>, Option<u64>, Option<u8>, Option<u8>, MinesError)> = vec![
        (Some(10_001), None, None, None, None, MinesError::InvalidHouseEdge),
        (Some(100), Some(0), None, None, None, MinesError::BetTooLow),
        (None, Some(5_000), Some(4_999), None, None, MinesError::BetTooHigh),
        (None, None, Some(999), None, None, MinesError::BetTooHigh),
        (None, None, None, Some(0), None, MinesError::InvalidMinesCount),
        (None, None, None, Some(25), None, MinesError::InvalidMinesCount),
        (None, None, None, Some(6), Some(5), MinesError::InvalidMinesCount),
        (None, None, None, None, Some(25), MinesError::InvalidMinesCount),
    ];
    for (edge, min_bet, max_bet, min_mines, max_mines, err) in cases {
        let mut c = config();
        let r = update_config(&ctx, &mut c, edge, min_bet, max_bet, min_mines, max_mines, Some(key(8)), None);
        assert_eq!(r.err(), Some(err));
        assert_eq!(c.house_edge_bps, 500);
        assert_eq!(c.min_bet, 1_000);
        assert_eq!(c.max_bet, 1_000_000);
        assert_eq!(c.min_mines, 1);
        assert_eq!(c.max_mines, 24);
        assert_eq!(c.vrf_queue, key(4));
    }
}

#[test]
fn update_config_min_bet_may_pass_max_bet() {
    let mut c = config();
    let ctx = UpdateConfig { authority: key(1) };
    update_config(&ctx, &mut c, None, Some(2_000_000), None, Some(20), None, None, None).unwrap();
    assert_eq!(c.min_bet, 2_000_000);
    assert_eq!(c.max_bet, 1_000_000);
    assert_eq!(c.min_mines, 20);
}

#[test]
fn update_config_needs_authority() {
    let mut c = config();
    let ctx = UpdateConfig { authority: key(2) };
    assert_eq!(
        update_config(&ctx, &mut c, Some(100), None, None, None, None, None, None).err(),
        Some(MinesError::Unauthorized)
    );
    assert_eq!(c.house_edge_bps, 500);
}

#[test]
fn withdraw_house_checks_authority_and_balance() {
    let ctx = WithdrawHouse { config: config(), authority: key(1), house_vault_amount: 500 };
    assert_eq!(withdraw_house(&ctx, 500), Ok(()));
    assert_eq!(withdraw_house(&ctx, 0), Ok(()));
    assert_eq!(withdraw_house(&ctx, 501), Err(MinesError::InsufficientVaultFunds));
    let other = WithdrawHouse { authority: key(9), ..ctx };
    assert_eq!(withdraw_house(&other, 1), Err(MinesError::Unauthorized));
}

#[test]
fn account_sizes() {
    assert_eq!(Config::LEN, 189);
    assert_eq!(GameState::LEN, 170);
}
