//! The simulation core of a falling-block puzzle game: the board, the piece
//! catalogue, collision rules, locking, line clearing and level progression.

pub mod components;
pub mod game_color;
pub mod game_constants;
pub mod game_types;
pub mod laws;
pub mod piece_utils;
pub mod resources;
pub mod session;
pub mod state;
pub mod systems;
