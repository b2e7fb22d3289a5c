//! A verified rules engine for English draughts (checkers).
//!
//! The `board` module holds the geometric state: an 8x8 grid of optional
//! pieces together with the coordinate conventions.  The `rules` module
//! states, as specification functions, what a legal move is and what a move
//! does to the board; the `game` module implements the engine that enforces
//! those rules and proves it against them.

pub mod board;
pub mod error;
pub mod game;
pub mod rules;

pub use board::{Board, Coordinate, GamePiece, Move, PieceColor};
pub use error::EngineError;
pub use game::{GameEngine, MoveResult};
