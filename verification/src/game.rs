//! The engine: turn state and the move state machine.
//!
//! The engine owns one board and the side to move.  Its one mutating
//! operation, `move_piece`, validates an attempted move in the order the
//! rules prescribe, executes it, crowns the piece when it reaches its
//! farthest row, and flips or retains the turn.  A multi-jump sequence is
//! played as repeated `move_piece` calls: after a capture that leaves the
//! moved piece another capture, the turn stays with the same side.

use vstd::prelude::*;

use crate::board::{
    at, in_bounds, initial_piece, lemma_sq_inverse, sq, Board, Coordinate, GamePiece, Move,
    PieceColor,
};
use crate::error::EngineError;
use crate::rules::{
    board_after, can_jump, can_step, capture_ok, crown_row, jump_shape, move_crowns, move_err,
    side_can_move, side_has_capture, simple_shape, square_attacks, square_can_act,
    step_ok, turn_after,
};

verus! {

/// What a successful move did: the move itself, and whether it crowned the
/// moved piece at its destination.
#[derive(Clone, Copy, PartialEq, Eq, Structural, Debug)]
pub struct MoveResult {
    pub mv: Move,
    pub crowned: bool,
}

/// Whether the move from `from` to `to` has the one-square diagonal shape a
/// step needs, in a direction permitted to `p`.
fn simple_shape_exec(p: GamePiece, from: Coordinate, to: Coordinate) -> (r: bool)
    requires
        in_bounds(from),
        in_bounds(to),
    ensures
        r == simple_shape(p, Move { from, to }),
{
    let dx_ok = to.0 == from.0 + 1 || from.0 == to.0 + 1;
    let dy_ok = to.1 == from.1 + 1 || from.1 == to.1 + 1;
    let dir_ok = p.crowned || (p.color == PieceColor::Black && to.1 > from.1) || (p.color
        == PieceColor::White && to.1 < from.1);
    dx_ok && dy_ok && dir_ok
}

/// Whether the move from `from` to `to` has the two-square diagonal shape a
/// jump needs, in a direction permitted to `p`.
fn jump_shape_exec(p: GamePiece, from: Coordinate, to: Coordinate) -> (r: bool)
    requires
        in_bounds(from),
        in_bounds(to),
    ensures
        r == jump_shape(p, Move { from, to }),
{
    let dx_ok = to.0 == from.0 + 2 || from.0 == to.0 + 2;
    let dy_ok = to.1 == from.1 + 2 || from.1 == to.1 + 2;
    let dir_ok = p.crowned || (p.color == PieceColor::Black && to.1 > from.1) || (p.color
        == PieceColor::White && to.1 < from.1);
    dx_ok && dy_ok && dir_ok
}

/// Whether a piece is crowned by arriving on `to`: it was uncrowned and
/// `to` lies on the farthest row for its side.
fn should_crown(p: GamePiece, to: Coordinate) -> (r: bool)
    ensures
        r == (!p.crowned && to.1 == crown_row(p.color)),
{
    !p.crowned && ((p.color == PieceColor::Black && to.1 == 7) || (p.color == PieceColor::White
        && to.1 == 0))
}

/// Whether piece `p`, standing on `from`, may capture by jumping to `to`.
fn capture_ok_exec(board: &Board, p: GamePiece, from: Coordinate, to: Coordinate) -> (r: bool)
    requires
        board.wf(),
    ensures
        r == capture_ok(board@, p, from, to),
{
    if !(board.is_playable(from) && board.is_playable(to)) {
        return false;
    }
    if !jump_shape_exec(p, from, to) {
        return false;
    }
    if board.occupant(to).is_some() {
        return false;
    }
    let mid = Coordinate((from.0 + to.0) / 2, (from.1 + to.1) / 2);
    match board.occupant(mid) {
        Some(q) => q.color != p.color,
        None => false,
    }
}

/// Whether piece `p`, standing on `from`, has any capture available: the
/// four diagonal landing squares two away are the only candidates.
fn piece_has_capture(board: &Board, p: GamePiece, from: Coordinate) -> (r: bool)
    requires
        board.wf(),
        in_bounds(from),
    ensures
        r == can_jump(board@, p, from),
{
    let fx = from.0;
    let fy = from.1;
    if fx + 2 < 8 && fy + 2 < 8 {
        if capture_ok_exec(board, p, from, Coordinate(fx + 2, fy + 2)) {
            return true;
        }
    }
    if fx >= 2 && fy + 2 < 8 {
        if capture_ok_exec(board, p, from, Coordinate(fx - 2, fy + 2)) {
            return true;
        }
    }
    if fx + 2 < 8 && fy >= 2 {
        if capture_ok_exec(board, p, from, Coordinate(fx + 2, fy - 2)) {
            return true;
        }
    }
    if fx >= 2 && fy >= 2 {
        if capture_ok_exec(board, p, from, Coordinate(fx - 2, fy - 2)) {
            return true;
        }
    }
    proof {
        assert forall|to: Coordinate| !capture_ok(board@, p, from, to) by {
            if capture_ok(board@, p, from, to) {
                assert(to.0 == fx + 2 || fx == to.0 + 2);
                assert(to.1 == fy + 2 || fy == to.1 + 2);
                assert(to.0 < 8 && to.1 < 8);
            }
        }
    }
    false
}

/// Whether piece `p`, standing on `from`, may step to the empty playable
/// square `to`.
fn step_ok_exec(board: &Board, p: GamePiece, from: Coordinate, to: Coordinate) -> (r: bool)
    requires
        board.wf(),
    ensures
        r == step_ok(board@, p, from, to),
{
    if !(board.is_playable(from) && board.is_playable(to)) {
        return false;
    }
    if !simple_shape_exec(p, from, to) {
        return false;
    }
    board.occupant(to).is_none()
}

/// Whether piece `p`, standing on `from`, has any step available: the four
/// diagonal neighbours are the only candidates.
fn piece_has_step(board: &Board, p: GamePiece, from: Coordinate) -> (r: bool)
    requires
        board.wf(),
        in_bounds(from),
    ensures
        r == can_step(board@, p, from),
{
    let fx = from.0;
    let fy = from.1;
    if fx + 1 < 8 && fy + 1 < 8 {
        if step_ok_exec(board, p, from, Coordinate(fx + 1, fy + 1)) {
            return true;
        }
    }
    if fx >= 1 && fy + 1 < 8 {
        if step_ok_exec(board, p, from, Coordinate(fx - 1, fy + 1)) {
            return true;
        }
    }
    if fx + 1 < 8 && fy >= 1 {
        if step_ok_exec(board, p, from, Coordinate(fx + 1, fy - 1)) {
            return true;
        }
    }
    if fx >= 1 && fy >= 1 {
        if step_ok_exec(board, p, from, Coordinate(fx - 1, fy - 1)) {
            return true;
        }
    }
    proof {
        assert forall|to: Coordinate| !step_ok(board@, p, from, to) by {
            if step_ok(board@, p, from, to) {
                assert(to.0 == fx + 1 || fx == to.0 + 1);
                assert(to.1 == fy + 1 || fy == to.1 + 1);
                assert(to.0 < 8 && to.1 < 8);
            }
        }
    }
    false
}

/// Whether side `color` can act at all: some piece of that side has a step
/// or a capture.
fn board_side_can_move(board: &Board, color: PieceColor) -> (r: bool)
    requires
        board.wf(),
    ensures
        r == side_can_move(board@, color),
{
    let mut i: usize = 0;
    while i < 64
        invariant
            board.wf(),
            i <= 64,
            forall|from: Coordinate|
                in_bounds(from) && sq(from) < i ==> !square_can_act(board@, color, from),
        decreases 64 - i,
    {
        let x: usize = i % 8;
        let y: usize = i / 8;
        let c = Coordinate(x, y);
        proof {
            vstd::arithmetic::div_mod::lemma_fundamental_div_mod(i as int, 8);
            assert(in_bounds(c));
            assert(sq(c) == i);
        }
        match board.occupant(c) {
            Some(p) => {
                if p.color == color {
                    if piece_has_step(board, p, c) || piece_has_capture(board, p, c) {
                        proof {
                            assert(square_can_act(board@, color, c));
                        }
                        return true;
                    }
                }
            },
            None => {},
        }
        proof {
            assert(!square_can_act(board@, color, c));
            assert forall|from: Coordinate|
                in_bounds(from) && sq(from) < i + 1 implies !square_can_act(
                board@,
                color,
                from,
            ) by {
                if sq(from) == i {
                    lemma_sq_inverse(from, i as int);
                    lemma_sq_inverse(c, i as int);
                    assert(from == c);
                }
            }
        }
        i += 1;
    }
    proof {
        assert forall|from: Coordinate| !square_can_act(board@, color, from) by {
            if in_bounds(from) {
                assert(sq(from) < 64);
            }
        }
    }
    false
}

/// Whether side `color` has at least one capture available anywhere on the
/// board.
fn board_has_capture(board: &Board, color: PieceColor) -> (r: bool)
    requires
        board.wf(),
    ensures
        r == side_has_capture(board@, color),
{
    let mut i: usize = 0;
    while i < 64
        invariant
            board.wf(),
            i <= 64,
            forall|from: Coordinate|
                in_bounds(from) && sq(from) < i ==> !square_attacks(board@, color, from),
        decreases 64 - i,
    {
        let x: usize = i % 8;
        let y: usize = i / 8;
        let c = Coordinate(x, y);
        proof {
            vstd::arithmetic::div_mod::lemma_fundamental_div_mod(i as int, 8);
            assert(in_bounds(c));
            assert(sq(c) == i);
        }
        match board.occupant(c) {
            Some(p) => {
                if p.color == color {
                    if piece_has_capture(board, p, c) {
                        proof {
                            assert(square_attacks(board@, color, c));
                        }
                        return true;
                    }
                }
            },
            None => {},
        }
        proof {
            assert(!square_attacks(board@, color, c));
            assert forall|from: Coordinate|
                in_bounds(from) && sq(from) < i + 1 implies !square_attacks(
                board@,
                color,
                from,
            ) by {
                if sq(from) == i {
                    lemma_sq_inverse(from, i as int);
                    lemma_sq_inverse(c, i as int);
                    assert(from == c);
                }
            }
        }
        i += 1;
    }
    proof {
        assert forall|from: Coordinate| !square_attacks(board@, color, from) by {
            if in_bounds(from) {
                assert(sq(from) < 64);
            }
        }
    }
    false
}

/// The rules engine: one board, and the side whose move is next.
pub struct GameEngine {
    pub board: Board,
    pub turn: PieceColor,
}

impl GameEngine {
    /// The engine's state is coherent: the board has one slot per square.
    pub open spec fn wf(&self) -> bool {
        self.board.wf()
    }

    /// A fresh game: the standard starting layout, black to move.
    pub fn new() -> (e: GameEngine)
        ensures
            e.wf(),
            e.turn == PieceColor::Black,
            forall|c: Coordinate| in_bounds(c) ==> at(e.board@, c) == initial_piece(c),
    {
        GameEngine { board: Board::new(), turn: PieceColor::Black }
    }

    /// An engine over a given position with a given side to move; for
    /// setting up positions other than the standard start.
    pub fn from_parts(board: Board, turn: PieceColor) -> (e: GameEngine)
        requires
            board.wf(),
        ensures
            e.wf(),
            e.board@ == board@,
            e.turn == turn,
    {
        GameEngine { board, turn }
    }

    /// The occupant of `c`, or `OutOfBounds` when `c` is off the grid.
    pub fn get_piece(&self, c: Coordinate) -> (r: Result<Option<GamePiece>, EngineError>)
        requires
            self.wf(),
        ensures
            in_bounds(c) ==> r == Ok::<Option<GamePiece>, EngineError>(at(self.board@, c)),
            !in_bounds(c) ==> r == Err::<Option<GamePiece>, EngineError>(
                EngineError::OutOfBounds,
            ),
    {
        self.board.get(c)
    }

    /// The side whose move is next.
    pub fn current_turn(&self) -> (r: PieceColor)
        ensures
            r == self.turn,
    {
        self.turn
    }

    /// Whether side `color` has a capture available anywhere on the board.
    pub fn has_capture(&self, color: PieceColor) -> (r: bool)
        requires
            self.wf(),
        ensures
            r == side_has_capture(self.board@, color),
    {
        board_has_capture(&self.board, color)
    }

    /// Whether side `color` has any move at all: some piece of that side
    /// can step or capture.
    pub fn can_move(&self, color: PieceColor) -> (r: bool)
        requires
            self.wf(),
        ensures
            r == side_can_move(self.board@, color),
    {
        board_side_can_move(&self.board, color)
    }

    /// Whether side `color` has lost: it has no legal move on its turn.
    pub fn has_lost(&self, color: PieceColor) -> (r: bool)
        requires
            self.wf(),
        ensures
            r == !side_can_move(self.board@, color),
    {
        !board_side_can_move(&self.board, color)
    }

    /// Attempt the move `mv`.  A failed attempt reports why, exactly as
    /// `move_err` classifies the attempt, and changes nothing.  A successful
    /// move rewrites the board as `board_after` says, reports whether it
    /// crowned the piece, and flips the turn unless the moved piece can
    /// capture again from its new square.
    pub fn move_piece(&mut self, mv: &Move) -> (r: Result<MoveResult, EngineError>)
        requires
            old(self).wf(),
        ensures
            final(self).wf(),
            r matches Err(e) ==> {
                &&& final(self).board@ == old(self).board@
                &&& final(self).turn == old(self).turn
                &&& move_err(old(self).board@, old(self).turn, *mv) == Some(e)
            },
            r matches Ok(res) ==> {
                &&& move_err(old(self).board@, old(self).turn, *mv) is None
                &&& final(self).board@ == board_after(old(self).board@, *mv)
                &&& final(self).turn == turn_after(old(self).board@, old(self).turn, *mv)
                &&& res.crowned == move_crowns(old(self).board@, *mv)
                &&& res.mv == *mv
            },
    {
        let from = mv.from;
        let to = mv.to;
        if !(self.board.is_playable(from) && self.board.is_playable(to)) {
            return Err(EngineError::InvalidCoordinate);
        }
        let p = match self.board.occupant(from) {
            None => {
                return Err(EngineError::NoPieceAtSource);
            },
            Some(p) => p,
        };
        if p.color != self.turn {
            return Err(EngineError::WrongTurn);
        }
        if self.board.occupant(to).is_some() {
            return Err(EngineError::DestinationOccupied);
        }
        if simple_shape_exec(p, from, to) {
            if board_has_capture(&self.board, self.turn) {
                return Err(EngineError::MustCapture);
            }
            let crowned_now = should_crown(p, to);
            let placed = GamePiece { color: p.color, crowned: p.crowned || crowned_now };
            self.board.put(from, None);
            self.board.put(to, Some(placed));
            self.turn = self.turn.opponent();
            Ok(MoveResult { mv: *mv, crowned: crowned_now })
        } else if jump_shape_exec(p, from, to) {
            let mid = Coordinate((from.0 + to.0) / 2, (from.1 + to.1) / 2);
            let captures = match self.board.occupant(mid) {
                Some(q) => q.color != p.color,
                None => false,
            };
            if !captures {
                return Err(EngineError::IllegalMove);
            }
            let crowned_now = should_crown(p, to);
            let placed = GamePiece { color: p.color, crowned: p.crowned || crowned_now };
            self.board.put(from, None);
            self.board.put(mid, None);
            self.board.put(to, Some(placed));
            if !piece_has_capture(&self.board, placed, to) {
                self.turn = self.turn.opponent();
            }
            Ok(MoveResult { mv: *mv, crowned: crowned_now })
        } else {
            Err(EngineError::IllegalMove)
        }
    }
}

} // verus!
