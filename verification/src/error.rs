//! The failure conditions of the engine.
//!
//! Every variant is a local, recoverable condition: a refused operation
//! reports one of these and leaves the board and the turn untouched.

use vstd::prelude::*;

verus! {

/// Why a query or a move attempt was refused.
#[derive(Clone, Copy, PartialEq, Eq, Structural, Debug)]
pub enum EngineError {
    /// A coordinate lies outside the 8x8 grid.
    OutOfBounds,
    /// A move endpoint is outside the grid or on a non-playable square.
    InvalidCoordinate,
    /// The source square of a move holds no piece.
    NoPieceAtSource,
    /// The source square holds a piece of the side not on turn.
    WrongTurn,
    /// The destination square of a move is already occupied.
    DestinationOccupied,
    /// The move is neither a legal step nor a legal jump.
    IllegalMove,
    /// A capture is available, so a non-capturing move is refused.
    MustCapture,
}

} // verus!
