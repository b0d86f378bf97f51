//! Media Player.
pub mod movie_player;
