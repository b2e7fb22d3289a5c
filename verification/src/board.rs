//! The board: pieces, coordinates and the 8x8 grid of squares.
//!
//! The board is a pure state container with no rule knowledge: it answers
//! what occupies a square, whether a square is on the grid and whether it is
//! one of the 32 playable (dark) squares, and it performs unchecked writes.
//! The grid is stored row by row as a vector of 64 optional pieces; the
//! square `(x, y)` lives at index `y * 8 + x`.

use vstd::prelude::*;

use crate::error::EngineError;

verus! {

/// The side a piece belongs to.
#[derive(Clone, Copy, PartialEq, Eq, Structural, Debug)]
pub enum PieceColor {
    Black,
    White,
}

/// The side that `color` plays against.
pub open spec fn opposite(color: PieceColor) -> PieceColor {
    match color {
        PieceColor::Black => PieceColor::White,
        PieceColor::White => PieceColor::Black,
    }
}

impl PieceColor {
    /// The opposing side.
    pub fn opponent(&self) -> (r: PieceColor)
        ensures
            r == opposite(*self),
    {
        match self {
            PieceColor::Black => PieceColor::White,
            PieceColor::White => PieceColor::Black,
        }
    }
}

/// A piece on the board: its side, and whether it has been crowned.
#[derive(Clone, Copy, PartialEq, Eq, Structural, Debug)]
pub struct GamePiece {
    pub color: PieceColor,
    pub crowned: bool,
}

/// The numeric encoding of a piece at the external boundary: the color is
/// one bit-flag (1 for black, 2 for white) and the crown another (4).
pub open spec fn piece_code(p: GamePiece) -> int {
    (if p.color == PieceColor::Black {
        1int
    } else {
        2int
    }) + (if p.crowned {
        4int
    } else {
        0int
    })
}

impl GamePiece {
    /// A fresh, uncrowned piece of the given side.
    pub fn new(color: PieceColor) -> (p: GamePiece)
        ensures
            p == (GamePiece { color, crowned: false }),
    {
        GamePiece { color, crowned: false }
    }

    /// The bit-flag encoding of this piece for an external caller.
    pub fn encode(&self) -> (v: i32)
        ensures
            v == piece_code(*self),
    {
        let base: i32 = if self.color == PieceColor::Black {
            1
        } else {
            2
        };
        if self.crowned {
            base + 4
        } else {
            base
        }
    }
}

/// A square of the grid, addressed as (column, row), both zero-based.
#[derive(Clone, Copy, PartialEq, Eq, Structural, Debug)]
pub struct Coordinate(pub usize, pub usize);

/// Whether a coordinate lies on the 8x8 grid.
pub open spec fn in_bounds(c: Coordinate) -> bool {
    c.0 < 8 && c.1 < 8
}

/// Whether a coordinate is one of the 32 playable (dark) squares: on the
/// grid, with column and row of equal parity.
pub open spec fn playable(c: Coordinate) -> bool {
    in_bounds(c) && (c.0 + c.1) % 2 == 0
}

/// The index of a square in the row-by-row storage order.
pub open spec fn sq(c: Coordinate) -> int {
    c.1 * 8 + c.0
}

/// The occupant of square `c` on the board view `b`.
pub open spec fn at(b: Seq<Option<GamePiece>>, c: Coordinate) -> Option<GamePiece> {
    b[sq(c)]
}

/// An attempted relocation of a piece from one square to another.
#[derive(Clone, Copy, PartialEq, Eq, Structural, Debug)]
pub struct Move {
    pub from: Coordinate,
    pub to: Coordinate,
}

impl Move {
    /// A move between the two squares given as raw (column, row) pairs.
    pub fn new(from: (usize, usize), to: (usize, usize)) -> (m: Move)
        ensures
            m.from == Coordinate(from.0, from.1),
            m.to == Coordinate(to.0, to.1),
    {
        Move { from: Coordinate(from.0, from.1), to: Coordinate(to.0, to.1) }
    }
}

/// The occupant the standard starting layout puts on square `c`: black
/// pieces on the playable squares of rows 0 to 2, white pieces on those of
/// rows 5 to 7, every other square empty.
pub open spec fn initial_piece(c: Coordinate) -> Option<GamePiece> {
    if playable(c) && c.1 < 3 {
        Some(GamePiece { color: PieceColor::Black, crowned: false })
    } else if playable(c) && c.1 >= 5 {
        Some(GamePiece { color: PieceColor::White, crowned: false })
    } else {
        None
    }
}

/// Two distinct in-bounds coordinates occupy distinct storage slots.
pub(crate) proof fn lemma_sq_distinct(a: Coordinate, b: Coordinate)
    requires
        in_bounds(a),
        in_bounds(b),
        a != b,
    ensures
        sq(a) != sq(b),
{
    assert(a.0 != b.0 || a.1 != b.1);
}

/// The storage slot of an in-bounds coordinate determines the coordinate.
pub(crate) proof fn lemma_sq_inverse(c: Coordinate, i: int)
    requires
        in_bounds(c),
        sq(c) == i,
    ensures
        0 <= i < 64,
        c.0 == i % 8,
        c.1 == i / 8,
{
    vstd::arithmetic::div_mod::lemma_fundamental_div_mod_converse(
        i,
        8,
        c.1 as int,
        c.0 as int,
    );
}

/// The 8x8 grid: a mapping from coordinates to optional pieces, stored row
/// by row.  Purely a queryable and mutable store; it enforces no rule beyond
/// grid bounds.
pub struct Board {
    pub squares: Vec<Option<GamePiece>>,
}

impl View for Board {
    type V = Seq<Option<GamePiece>>;

    open spec fn view(&self) -> Seq<Option<GamePiece>> {
        self.squares@
    }
}

impl Board {
    /// The board holds exactly one slot per square of the grid.
    pub open spec fn wf(&self) -> bool {
        self@.len() == 64
    }

    /// A board in the standard starting layout.
    pub fn new() -> (b: Board)
        ensures
            b.wf(),
            forall|c: Coordinate| in_bounds(c) ==> at(b@, c) == initial_piece(c),
    {
        let mut squares: Vec<Option<GamePiece>> = Vec::new();
        let mut i: usize = 0;
        while i < 64
            invariant
                i <= 64,
                squares@.len() == i,
                forall|c: Coordinate|
                    in_bounds(c) && sq(c) < i ==> squares@[sq(c)] == initial_piece(c),
            decreases 64 - i,
        {
            let x: usize = i % 8;
            let y: usize = i / 8;
            let c = Coordinate(x, y);
            let piece: Option<GamePiece> = if (x + y) % 2 == 0 {
                if y < 3 {
                    Some(GamePiece { color: PieceColor::Black, crowned: false })
                } else if y >= 5 {
                    Some(GamePiece { color: PieceColor::White, crowned: false })
                } else {
                    None
                }
            } else {
                None
            };
            proof {
                vstd::arithmetic::div_mod::lemma_fundamental_div_mod(i as int, 8);
                assert(in_bounds(c));
                assert(sq(c) == i);
                assert(piece == initial_piece(c));
            }
            squares.push(piece);
            proof {
                assert forall|d: Coordinate| in_bounds(d) && sq(d) < i + 1 implies squares@[sq(
                    d,
                )] == initial_piece(d) by {
                    if sq(d) == i {
                        lemma_sq_inverse(d, i as int);
                        lemma_sq_inverse(c, i as int);
                        assert(d == c);
                    }
                }
            }
            i += 1;
        }
        Board { squares }
    }

    /// The occupant of `c`, or `OutOfBounds` when `c` is off the grid.
    pub fn get(&self, c: Coordinate) -> (r: Result<Option<GamePiece>, EngineError>)
        requires
            self.wf(),
        ensures
            in_bounds(c) ==> r == Ok::<Option<GamePiece>, EngineError>(at(self@, c)),
            !in_bounds(c) ==> r == Err::<Option<GamePiece>, EngineError>(
                EngineError::OutOfBounds,
            ),
    {
        if c.0 < 8 && c.1 < 8 {
            let idx: usize = c.1 * 8 + c.0;
            Ok(self.squares[idx])
        } else {
            Err(EngineError::OutOfBounds)
        }
    }

    /// The occupant of an in-bounds square, read without the bounds wrapper.
    pub(crate) fn occupant(&self, c: Coordinate) -> (r: Option<GamePiece>)
        requires
            self.wf(),
            in_bounds(c),
        ensures
            r == at(self@, c),
    {
        let idx: usize = c.1 * 8 + c.0;
        self.squares[idx]
    }

    /// Place a piece on a square or clear it, with no legality check; fails
    /// only when the coordinate is off the grid.
    pub fn set(&mut self, c: Coordinate, piece: Option<GamePiece>) -> (r: Result<
        (),
        EngineError,
    >)
        requires
            old(self).wf(),
        ensures
            final(self).wf(),
            in_bounds(c) ==> r == Ok::<(), EngineError>(()) && final(self)@ == old(self)@.update(
                sq(c),
                piece,
            ),
            !in_bounds(c) ==> r == Err::<(), EngineError>(EngineError::OutOfBounds) && final(self)@
                == old(self)@,
    {
        if c.0 < 8 && c.1 < 8 {
            let idx: usize = c.1 * 8 + c.0;
            self.squares[idx] = piece;
            Ok(())
        } else {
            Err(EngineError::OutOfBounds)
        }
    }

    /// Place a piece on an in-bounds square, without the bounds wrapper.
    pub(crate) fn put(&mut self, c: Coordinate, piece: Option<GamePiece>)
        requires
            old(self).wf(),
            in_bounds(c),
        ensures
            final(self).wf(),
            final(self)@ == old(self)@.update(sq(c), piece),
    {
        let idx: usize = c.1 * 8 + c.0;
        self.squares[idx] = piece;
    }

    /// Whether `c` is one of the 32 playable (dark) squares.
    pub fn is_playable(&self, c: Coordinate) -> (r: bool)
        ensures
            r == playable(c),
    {
        c.0 < 8 && c.1 < 8 && (c.0 + c.1) % 2 == 0
    }
}

} // verus!
