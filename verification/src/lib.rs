//! Tic-tac-toe against an opponent that looks one move ahead.
//!
//! [`GameEngine`] owns a game: the board, the status and the side to move.
//! The human plays `X`, the opponent `O`. The opponent takes a cell that
//! wins at once, else the cell on which the human would win at once, else
//! an empty cell drawn at random.
//!
//! Contracts are stated over [`grid::Grid`] and [`state::EngineState`], the
//! board and the game as mathematical values; `laws` holds what is proved
//! of them.

pub mod board;
pub mod engine;
pub mod grid;
pub mod laws;
mod random;
pub mod state;
pub mod types;

pub use board::Board;
pub use engine::GameEngine;
pub use types::{Cell, GameStatus, Player};
