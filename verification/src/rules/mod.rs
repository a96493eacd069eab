//! Game rules core: a pure domain library with no I/O and no persistence.

pub mod board;
pub mod hashing;
pub mod moves;
pub mod zobrist;

pub use board::{Board, GameResult, GameState, GameStatus, Side, SQUARES};
pub use moves::{Move, MoveFlags};
pub use zobrist::Zobrist;
