//! The rules of the game, as specifications.
//!
//! Everything here is ghost: these functions say what a legal move is, which
//! error an illegal attempt earns, and what a legal move does to the board
//! and the turn.  The engine in `game` is proved against them.

use vstd::prelude::*;

use crate::board::{
    at, in_bounds, lemma_sq_distinct, opposite, playable, sq, Coordinate, GamePiece, Move,
    PieceColor,
};
use crate::error::EngineError;

verus! {

/// The farthest row for a side: reaching it crowns an uncrowned piece.
pub open spec fn crown_row(color: PieceColor) -> int {
    match color {
        PieceColor::Black => 7,
        PieceColor::White => 0,
    }
}

/// Whether a piece may move with row displacement `dy`: crowned pieces move
/// either way, black men only toward increasing rows, white men only toward
/// decreasing rows.
pub open spec fn dir_allowed(p: GamePiece, dy: int) -> bool {
    ||| p.crowned
    ||| p.color == PieceColor::Black && dy > 0
    ||| p.color == PieceColor::White && dy < 0
}

/// A simple step: one square along a diagonal, in a permitted direction.
pub open spec fn simple_shape(p: GamePiece, mv: Move) -> bool {
    let dx = mv.to.0 - mv.from.0;
    let dy = mv.to.1 - mv.from.1;
    (dx == 1 || dx == -1) && (dy == 1 || dy == -1) && dir_allowed(p, dy)
}

/// A jump: two squares along a diagonal, in a permitted direction.
pub open spec fn jump_shape(p: GamePiece, mv: Move) -> bool {
    let dx = mv.to.0 - mv.from.0;
    let dy = mv.to.1 - mv.from.1;
    (dx == 2 || dx == -2) && (dy == 2 || dy == -2) && dir_allowed(p, dy)
}

/// The square strictly between the endpoints of a jump.
pub open spec fn jump_mid(from: Coordinate, to: Coordinate) -> Coordinate {
    Coordinate(((from.0 + to.0) / 2) as usize, ((from.1 + to.1) / 2) as usize)
}

/// Whether piece `p`, standing on `from`, may capture by jumping to `to`:
/// both squares playable, jump geometry permitted for `p`, the landing
/// square empty, and an opponent piece on the square in between.
pub open spec fn capture_ok(
    b: Seq<Option<GamePiece>>,
    p: GamePiece,
    from: Coordinate,
    to: Coordinate,
) -> bool {
    &&& playable(from)
    &&& playable(to)
    &&& jump_shape(p, Move { from, to })
    &&& at(b, to) is None
    &&& at(b, jump_mid(from, to)) matches Some(q) && q.color == opposite(p.color)
}

/// Whether piece `p`, standing on `from`, has some capture available.
pub open spec fn can_jump(b: Seq<Option<GamePiece>>, p: GamePiece, from: Coordinate) -> bool {
    exists|to: Coordinate| capture_ok(b, p, from, to)
}

/// Whether the piece of `color` on square `from`, if any, has a capture.
pub open spec fn square_attacks(
    b: Seq<Option<GamePiece>>,
    color: PieceColor,
    from: Coordinate,
) -> bool {
    &&& in_bounds(from)
    &&& at(b, from) matches Some(p) && p.color == color && can_jump(b, p, from)
}

/// Whether side `color` has at least one capture available anywhere.
pub open spec fn side_has_capture(b: Seq<Option<GamePiece>>, color: PieceColor) -> bool {
    exists|from: Coordinate| square_attacks(b, color, from)
}

/// A step that piece `p`, standing on `from`, could make to `to`: both
/// squares playable, step geometry permitted for `p`, the landing square
/// empty.
pub open spec fn step_ok(
    b: Seq<Option<GamePiece>>,
    p: GamePiece,
    from: Coordinate,
    to: Coordinate,
) -> bool {
    &&& playable(from)
    &&& playable(to)
    &&& simple_shape(p, Move { from, to })
    &&& at(b, to) is None
}

/// Whether piece `p`, standing on `from`, has some step available.
pub open spec fn can_step(b: Seq<Option<GamePiece>>, p: GamePiece, from: Coordinate) -> bool {
    exists|to: Coordinate| step_ok(b, p, from, to)
}

/// Whether the piece of `color` on square `from`, if any, can act at all.
pub open spec fn square_can_act(
    b: Seq<Option<GamePiece>>,
    color: PieceColor,
    from: Coordinate,
) -> bool {
    &&& in_bounds(from)
    &&& at(b, from) matches Some(p) && p.color == color && (can_step(b, p, from) || can_jump(
        b,
        p,
        from,
    ))
}

/// Whether side `color` can move at all: some piece of that side has a step
/// or a capture.  A side with no move on its turn has lost.
pub open spec fn side_can_move(b: Seq<Option<GamePiece>>, color: PieceColor) -> bool {
    exists|from: Coordinate| square_can_act(b, color, from)
}

/// Whether the move spans two rows, i.e. is a jump rather than a step.
pub open spec fn is_jump_move(mv: Move) -> bool {
    mv.to.1 - mv.from.1 == 2 || mv.from.1 - mv.to.1 == 2
}

/// The error an attempted move earns, or `None` when it is legal.  The
/// checks happen in the order the engine makes them: endpoints first, then
/// the source piece and the turn, then the destination, then the shape, and
/// last the mandatory-capture rule.
pub open spec fn move_err(
    b: Seq<Option<GamePiece>>,
    turn: PieceColor,
    mv: Move,
) -> Option<EngineError> {
    if !(playable(mv.from) && playable(mv.to)) {
        Some(EngineError::InvalidCoordinate)
    } else if at(b, mv.from) is None {
        Some(EngineError::NoPieceAtSource)
    } else if at(b, mv.from)->0.color != turn {
        Some(EngineError::WrongTurn)
    } else if at(b, mv.to) is Some {
        Some(EngineError::DestinationOccupied)
    } else {
        let p = at(b, mv.from)->0;
        if simple_shape(p, mv) {
            if side_has_capture(b, turn) {
                Some(EngineError::MustCapture)
            } else {
                None
            }
        } else if jump_shape(p, mv) {
            if at(b, jump_mid(mv.from, mv.to)) matches Some(q) && q.color == opposite(p.color) {
                None
            } else {
                Some(EngineError::IllegalMove)
            }
        } else {
            Some(EngineError::IllegalMove)
        }
    }
}

/// A move attempt is legal exactly when it earns no error.
pub open spec fn move_legal(b: Seq<Option<GamePiece>>, turn: PieceColor, mv: Move) -> bool {
    move_err(b, turn, mv) is None
}

/// Whether a legal move crowns its piece: the piece was uncrowned and the
/// destination lies on the farthest row for its side.
pub open spec fn move_crowns(b: Seq<Option<GamePiece>>, mv: Move) -> bool {
    let p = at(b, mv.from)->0;
    !p.crowned && mv.to.1 == crown_row(p.color)
}

/// The piece as it stands on the destination after a legal move: the moved
/// piece, crowned if the move crowns it.
pub open spec fn moved_piece(b: Seq<Option<GamePiece>>, mv: Move) -> GamePiece {
    let p = at(b, mv.from)->0;
    GamePiece { color: p.color, crowned: p.crowned || mv.to.1 == crown_row(p.color) }
}

/// The board after a legal move: the source cleared, the jumped square (if
/// the move is a jump) cleared, and the moved piece on the destination.
pub open spec fn board_after(b: Seq<Option<GamePiece>>, mv: Move) -> Seq<Option<GamePiece>> {
    let cleared = if is_jump_move(mv) {
        b.update(sq(mv.from), None).update(sq(jump_mid(mv.from, mv.to)), None)
    } else {
        b.update(sq(mv.from), None)
    };
    cleared.update(sq(mv.to), Some(moved_piece(b, mv)))
}

/// The side to move after a legal move: unchanged when the move was a jump
/// and the moved piece has a further capture from its new square (the
/// multi-jump continuation, played as repeated calls), the opponent
/// otherwise.
pub open spec fn turn_after(b: Seq<Option<GamePiece>>, turn: PieceColor, mv: Move) -> PieceColor {
    if is_jump_move(mv) && can_jump(board_after(b, mv), moved_piece(b, mv), mv.to) {
        turn
    } else {
        opposite(turn)
    }
}

/// How many pieces of `color` stand on the board.
pub open spec fn color_count(b: Seq<Option<GamePiece>>, color: PieceColor) -> int
    decreases b.len(),
{
    if b.len() == 0 {
        0
    } else {
        color_count(b.drop_last(), color) + occupant_count(b.last(), color)
    }
}

/// Whether one square's occupant counts toward `color`'s piece count.
pub open spec fn occupant_count(o: Option<GamePiece>, color: PieceColor) -> int {
    if o matches Some(p) && p.color == color {
        1
    } else {
        0
    }
}

/// Writing one square changes a side's piece count by the difference the
/// write makes on that square.
pub proof fn lemma_color_count_update(
    b: Seq<Option<GamePiece>>,
    i: int,
    v: Option<GamePiece>,
    color: PieceColor,
)
    requires
        0 <= i < b.len(),
    ensures
        color_count(b.update(i, v), color) == color_count(b, color) - occupant_count(b[i], color)
            + occupant_count(v, color),
    decreases b.len(),
{
    let updated = b.update(i, v);
    if i == b.len() - 1 {
        assert(updated.drop_last() =~= b.drop_last());
        assert(updated.last() == v);
    } else {
        assert(updated.drop_last() =~= b.drop_last().update(i, v));
        assert(updated.last() == b.last());
        lemma_color_count_update(b.drop_last(), i, v, color);
    }
}

/// A move between playable squares whose source square is empty is refused
/// with `NoPieceAtSource`; by `move_piece`'s contract a refused move leaves
/// the board and the turn unchanged.
pub proof fn lemma_empty_source_rejected(b: Seq<Option<GamePiece>>, turn: PieceColor, mv: Move)
    requires
        playable(mv.from),
        playable(mv.to),
        at(b, mv.from) is None,
    ensures
        move_err(b, turn, mv) == Some(EngineError::NoPieceAtSource),
{
}

/// A move of a piece of the side not on turn is refused with `WrongTurn`;
/// by `move_piece`'s contract a refused move leaves the board and the turn
/// unchanged.
pub proof fn lemma_wrong_turn_rejected(b: Seq<Option<GamePiece>>, turn: PieceColor, mv: Move)
    requires
        playable(mv.from),
        playable(mv.to),
        at(b, mv.from) matches Some(p) && p.color != turn,
    ensures
        move_err(b, turn, mv) == Some(EngineError::WrongTurn),
{
}

/// While the side on turn has a capture available anywhere, an otherwise
/// well-formed simple move is refused with `MustCapture`.
pub proof fn lemma_capture_is_mandatory(b: Seq<Option<GamePiece>>, turn: PieceColor, mv: Move)
    requires
        playable(mv.from),
        playable(mv.to),
        at(b, mv.from) matches Some(p) && p.color == turn && simple_shape(p, mv),
        at(b, mv.to) is None,
        side_has_capture(b, turn),
    ensures
        move_err(b, turn, mv) == Some(EngineError::MustCapture),
{
}

/// A legal simple move passes the turn to the opponent and leaves both
/// sides' piece counts unchanged.
pub proof fn lemma_simple_move_effect(
    b: Seq<Option<GamePiece>>,
    turn: PieceColor,
    mv: Move,
    color: PieceColor,
)
    requires
        b.len() == 64,
        move_legal(b, turn, mv),
        simple_shape(at(b, mv.from)->0, mv),
    ensures
        turn_after(b, turn, mv) == opposite(turn),
        color_count(board_after(b, mv), color) == color_count(b, color),
{
    let p = at(b, mv.from)->0;
    lemma_sq_distinct(mv.from, mv.to);
    lemma_color_count_update(b, sq(mv.from), None, color);
    let b1 = b.update(sq(mv.from), None);
    lemma_color_count_update(b1, sq(mv.to), Some(moved_piece(b, mv)), color);
}

/// A legal capture removes exactly one opponent piece, relocates the moving
/// piece, clears the jumped square, and retains the turn exactly when the
/// moved piece has a further capture from its new square.
pub proof fn lemma_capture_move_effect(b: Seq<Option<GamePiece>>, turn: PieceColor, mv: Move)
    requires
        b.len() == 64,
        move_legal(b, turn, mv),
        jump_shape(at(b, mv.from)->0, mv),
    ensures
        at(board_after(b, mv), mv.to) == Some(moved_piece(b, mv)),
        at(board_after(b, mv), mv.from) is None,
        at(board_after(b, mv), jump_mid(mv.from, mv.to)) is None,
        color_count(board_after(b, mv), opposite(turn)) == color_count(b, opposite(turn)) - 1,
        color_count(board_after(b, mv), turn) == color_count(b, turn),
        turn_after(b, turn, mv) == turn <==> can_jump(board_after(b, mv), moved_piece(b, mv), mv.to),
        !can_jump(board_after(b, mv), moved_piece(b, mv), mv.to) ==> turn_after(b, turn, mv)
            == opposite(turn),
{
    let p = at(b, mv.from)->0;
    let mid = jump_mid(mv.from, mv.to);
    let p2 = moved_piece(b, mv);
    assert(mv.to.0 == mv.from.0 + 2 || mv.from.0 == mv.to.0 + 2);
    assert(mv.to.1 == mv.from.1 + 2 || mv.from.1 == mv.to.1 + 2);
    assert(in_bounds(mid));
    lemma_sq_distinct(mv.from, mv.to);
    lemma_sq_distinct(mv.from, mid);
    lemma_sq_distinct(mid, mv.to);
    let b1 = b.update(sq(mv.from), None);
    let b2 = b1.update(sq(mid), None);
    lemma_color_count_update(b, sq(mv.from), None, turn);
    lemma_color_count_update(b, sq(mv.from), None, opposite(turn));
    lemma_color_count_update(b1, sq(mid), None, turn);
    lemma_color_count_update(b1, sq(mid), None, opposite(turn));
    lemma_color_count_update(b2, sq(mv.to), Some(p2), turn);
    lemma_color_count_update(b2, sq(mv.to), Some(p2), opposite(turn));
}

/// A side with a legal move attempt is a side that can move, so a side that
/// `has_lost` (it cannot move) has no legal move attempt at all: every
/// `move_piece` call it makes is refused.
pub proof fn lemma_legal_move_implies_can_move(
    b: Seq<Option<GamePiece>>,
    turn: PieceColor,
    mv: Move,
)
    requires
        move_legal(b, turn, mv),
    ensures
        side_can_move(b, turn),
{
    let p = at(b, mv.from)->0;
    if simple_shape(p, mv) {
        assert(step_ok(b, p, mv.from, mv.to));
        assert(square_can_act(b, turn, mv.from));
    } else {
        assert(capture_ok(b, p, mv.from, mv.to));
        assert(square_can_act(b, turn, mv.from));
    }
}

/// Crowning happens exactly once: an uncrowned piece arriving on its
/// farthest row comes out crowned and the move reports it; a piece already
/// crowned stays crowned and no later move reports a crowning again.
pub proof fn lemma_crowning_once(b: Seq<Option<GamePiece>>, mv: Move)
    requires
        at(b, mv.from) is Some,
    ensures
        at(b, mv.from)->0.crowned ==> moved_piece(b, mv).crowned && !move_crowns(b, mv),
        !at(b, mv.from)->0.crowned && mv.to.1 == crown_row(at(b, mv.from)->0.color) ==> moved_piece(
            b,
            mv,
        ).crowned && move_crowns(b, mv),
        !at(b, mv.from)->0.crowned && mv.to.1 != crown_row(at(b, mv.from)->0.color) ==> !moved_piece(
            b,
            mv,
        ).crowned && !move_crowns(b, mv),
{
}

} // verus!
