//! The instructions of the game, each over the values it reads from its accounts.
pub mod cash_out;
pub mod fulfill;
pub mod initialize;
pub mod reveal_tile;
pub mod start_game;
pub mod update_config;
pub mod withdraw_house;
