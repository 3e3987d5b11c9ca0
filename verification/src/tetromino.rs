//! The seven tetromino kinds and their footprints.
//!
//! A footprint is described relative to a reference cell: footprint row 0 is
//! the piece's *bottom* row and footprint rows grow toward the top of the
//! piece, while absolute grid rows grow toward the floor. Translating a
//! footprint cell `(r, c)` to the grid therefore *subtracts* `r` from the
//! reference row and *adds* `c` to the reference column.
use vstd::prelude::*;

use crate::TetrisError;
use crate::grid::Coord;

verus! {

/// The identifier of a tetromino kind: square, the two skew pieces, the
/// T piece, the line piece and the two hooks.
#[derive(Clone, Copy, Debug, PartialEq, Eq, Structural)]
pub enum TetroShape {
    Q,
    Z,
    S,
    T,
    I,
    L,
    J,
}

/// The four occupied footprint cells of a shape, each as
/// `(row above the reference row, column right of the reference column)`,
/// listed bottom row first and left to right within a row.
///
/// This is the footprint table: for example `Q` occupies a 2-by-2 square
/// (bottom row columns 0-1, next row columns 0-1) and `I` lies flat
/// (bottom row columns 0-3).
pub open spec fn cells_of(s: TetroShape) -> Seq<(int, int)> {
    match s {
        TetroShape::Q => seq![(0int, 0int), (0int, 1int), (1int, 0int), (1int, 1int)],
        TetroShape::S => seq![(0int, 0int), (0int, 1int), (1int, 1int), (1int, 2int)],
        TetroShape::Z => seq![(0int, 1int), (0int, 2int), (1int, 0int), (1int, 1int)],
        TetroShape::T => seq![(0int, 1int), (1int, 0int), (1int, 1int), (1int, 2int)],
        TetroShape::I => seq![(0int, 0int), (0int, 1int), (0int, 2int), (0int, 3int)],
        TetroShape::L => seq![(0int, 0int), (0int, 1int), (1int, 0int), (2int, 0int)],
        TetroShape::J => seq![(0int, 0int), (0int, 1int), (1int, 1int), (2int, 1int)],
    }
}

/// The highest footprint row a shape occupies: how far the piece reaches
/// above its reference row.
pub open spec fn piece_top(s: TetroShape) -> int {
    match s {
        TetroShape::I => 0,
        TetroShape::Q | TetroShape::S | TetroShape::Z | TetroShape::T => 1,
        TetroShape::L | TetroShape::J => 2,
    }
}

/// The rightmost footprint column a shape occupies: how far the piece
/// reaches right of its reference column.
pub open spec fn piece_right(s: TetroShape) -> int {
    match s {
        TetroShape::Q | TetroShape::L | TetroShape::J => 1,
        TetroShape::S | TetroShape::Z | TetroShape::T => 2,
        TetroShape::I => 3,
    }
}

/// What resolving one identifier character yields: the shape for the seven
/// known letters, and `UnknownShape` for every other character.
pub open spec fn resolved_shape(identifier: char) -> Result<TetroShape, TetrisError> {
    if identifier == 'Q' {
        Ok(TetroShape::Q)
    } else if identifier == 'Z' {
        Ok(TetroShape::Z)
    } else if identifier == 'S' {
        Ok(TetroShape::S)
    } else if identifier == 'T' {
        Ok(TetroShape::T)
    } else if identifier == 'I' {
        Ok(TetroShape::I)
    } else if identifier == 'L' {
        Ok(TetroShape::L)
    } else if identifier == 'J' {
        Ok(TetroShape::J)
    } else {
        Err(TetrisError::UnknownShape)
    }
}

/// Every footprint cell lies between the reference cell and the shape's
/// top and right extents, and the top extent is attained.
pub proof fn lemma_cells_bounds(s: TetroShape)
    ensures
        forall|k: int|
            0 <= k < 4 ==> {
                &&& 0 <= (#[trigger] cells_of(s)[k]).0 <= piece_top(s)
                &&& 0 <= cells_of(s)[k].1 <= piece_right(s)
            },
        exists|k: int| 0 <= k < 4 && (#[trigger] cells_of(s)[k]).0 == piece_top(s),
{
    assert(cells_of(s)[3].0 == piece_top(s));
}

/// The four footprint cells of a shape are pairwise distinct.
pub proof fn lemma_cells_distinct(s: TetroShape)
    ensures
        forall|i: int, j: int|
            0 <= i < j < 4 ==> #[trigger] cells_of(s)[i] != #[trigger] cells_of(s)[j],
{
}

impl TetroShape {
    /// Resolves a one-character shape identifier, failing with
    /// `UnknownShape` on anything outside the alphabet; no default is ever
    /// substituted.
    pub fn from_char(identifier: char) -> (r: Result<TetroShape, TetrisError>)
        ensures
            r == resolved_shape(identifier),
    {
        match identifier {
            'Q' => Ok(TetroShape::Q),
            'Z' => Ok(TetroShape::Z),
            'S' => Ok(TetroShape::S),
            'T' => Ok(TetroShape::T),
            'I' => Ok(TetroShape::I),
            'L' => Ok(TetroShape::L),
            'J' => Ok(TetroShape::J),
            _ => Err(TetrisError::UnknownShape),
        }
    }

    /// How far the shape reaches above its reference row.
    pub fn top_extent(&self) -> (r: usize)
        ensures
            r as int == piece_top(*self),
    {
        match self {
            TetroShape::I => 0,
            TetroShape::Q | TetroShape::S | TetroShape::Z | TetroShape::T => 1,
            TetroShape::L | TetroShape::J => 2,
        }
    }

    /// How far the shape reaches right of its reference column.
    pub fn right_extent(&self) -> (r: usize)
        ensures
            r as int == piece_right(*self),
    {
        match self {
            TetroShape::Q | TetroShape::L | TetroShape::J => 1,
            TetroShape::S | TetroShape::Z | TetroShape::T => 2,
            TetroShape::I => 3,
        }
    }
}

/// A piece value: a shape together with its fixed footprint, resolved once
/// per placement.
#[derive(Clone, Copy, Debug, PartialEq, Eq, Structural)]
pub struct Tetromino {
    shape: TetroShape,
}

impl Tetromino {
    /// The shape whose footprint this piece carries.
    pub closed spec fn shape(&self) -> TetroShape {
        self.shape
    }

    /// The one constructor: builds the piece for a shape identifier.
    pub fn new(shape: TetroShape) -> (t: Tetromino)
        ensures
            t.shape() == shape,
    {
        Tetromino { shape }
    }

    /// The square piece.
    pub fn q_shape() -> (t: Tetromino)
        ensures
            t.shape() == TetroShape::Q,
    {
        Tetromino { shape: TetroShape::Q }
    }

    /// The skew piece whose top row is shifted right.
    pub fn s_shape() -> (t: Tetromino)
        ensures
            t.shape() == TetroShape::S,
    {
        Tetromino { shape: TetroShape::S }
    }

    /// The skew piece whose bottom row is shifted right.
    pub fn z_shape() -> (t: Tetromino)
        ensures
            t.shape() == TetroShape::Z,
    {
        Tetromino { shape: TetroShape::Z }
    }

    /// The T piece, stem downward.
    pub fn t_shape() -> (t: Tetromino)
        ensures
            t.shape() == TetroShape::T,
    {
        Tetromino { shape: TetroShape::T }
    }

    /// The flat line piece.
    pub fn i_shape() -> (t: Tetromino)
        ensures
            t.shape() == TetroShape::I,
    {
        Tetromino { shape: TetroShape::I }
    }

    /// The hook piece whose upright column is on the left.
    pub fn l_shape() -> (t: Tetromino)
        ensures
            t.shape() == TetroShape::L,
    {
        Tetromino { shape: TetroShape::L }
    }

    /// The hook piece whose upright column is on the right.
    pub fn j_shape() -> (t: Tetromino)
        ensures
            t.shape() == TetroShape::J,
    {
        Tetromino { shape: TetroShape::J }
    }

    /// The absolute grid coordinates of the piece's four cells when its
    /// reference cell sits at `coordinates`, in footprint order: bottom
    /// row first, left to right within a row.
    pub fn get_relative_location(&self, coordinates: Coord) -> (coords: Vec<Coord>)
        requires
            coordinates.row as int >= piece_top(self.shape()),
            coordinates.col as int + piece_right(self.shape()) <= usize::MAX as int,
        ensures
            coords@.len() == 4,
            forall|k: int|
                0 <= k < 4 ==> {
                    &&& (#[trigger] coords@[k]).row as int == coordinates.row as int - cells_of(
                        self.shape(),
                    )[k].0
                    &&& coords@[k].col as int == coordinates.col as int + cells_of(
                        self.shape(),
                    )[k].1
                },
    {
        let r = coordinates.row;
        let c = coordinates.col;
        let mut coords: Vec<Coord> = Vec::new();
        match self.shape {
            TetroShape::Q => {
                coords.push(Coord::new(r, c));
                coords.push(Coord::new(r, c + 1));
                coords.push(Coord::new(r - 1, c));
                coords.push(Coord::new(r - 1, c + 1));
            },
            TetroShape::S => {
                coords.push(Coord::new(r, c));
                coords.push(Coord::new(r, c + 1));
                coords.push(Coord::new(r - 1, c + 1));
                coords.push(Coord::new(r - 1, c + 2));
            },
            TetroShape::Z => {
                coords.push(Coord::new(r, c + 1));
                coords.push(Coord::new(r, c + 2));
                coords.push(Coord::new(r - 1, c));
                coords.push(Coord::new(r - 1, c + 1));
            },
            TetroShape::T => {
                coords.push(Coord::new(r, c + 1));
                coords.push(Coord::new(r - 1, c));
                coords.push(Coord::new(r - 1, c + 1));
                coords.push(Coord::new(r - 1, c + 2));
            },
            TetroShape::I => {
                coords.push(Coord::new(r, c));
                coords.push(Coord::new(r, c + 1));
                coords.push(Coord::new(r, c + 2));
                coords.push(Coord::new(r, c + 3));
            },
            TetroShape::L => {
                coords.push(Coord::new(r, c));
                coords.push(Coord::new(r, c + 1));
                coords.push(Coord::new(r - 1, c));
                coords.push(Coord::new(r - 2, c));
            },
            TetroShape::J => {
                coords.push(Coord::new(r, c));
                coords.push(Coord::new(r, c + 1));
                coords.push(Coord::new(r - 1, c + 1));
                coords.push(Coord::new(r - 2, c + 1));
            },
        }
        coords
    }
}

} // verus!
