//! Running a whole line of drops: a fresh well, one placement per
//! (shape, column) pair, then the resulting stack height.
use vstd::prelude::*;

use crate::TetrisError;
use crate::grid::Grid;
use crate::grid::GridView;
use crate::grid::HEIGHT;
use crate::grid::WIDTH;
use crate::grid::empty_well;
use crate::grid::place_result;
use crate::tetromino::TetroShape;
use crate::tetromino::Tetromino;
use crate::tetromino::piece_right;
use crate::tetromino::piece_top;

verus! {

/// The outcome of replaying the drops from position `i` on, starting from
/// well state `v`: the final stack height, or `OutOfBounds` at the first
/// piece whose footprint would leave the grid at its column or for which
/// the stack has grown too close to the top of the well.
pub open spec fn run_outcome(v: GridView, pieces: Seq<(TetroShape, usize)>, i: int) -> Result<
    usize,
    TetrisError,
>
    decreases pieces.len() - i,
{
    if i >= pieces.len() {
        Ok((HEIGHT - v.fur) as usize)
    } else {
        let s = pieces[i].0;
        let col = pieces[i].1;
        if col as int + piece_right(s) >= WIDTH as int || v.fur < piece_top(s) + 2 {
            Err(TetrisError::OutOfBounds)
        } else {
            run_outcome(place_result(v, s, col as int), pieces, i + 1)
        }
    }
}

/// Replays one line of (shape, column) drops into a fresh well and
/// reports the resulting stack height.
///
/// Every piece is validated before it is placed; the first invalid one
/// aborts the whole line with `OutOfBounds` and nothing further is
/// placed. The outcome is a function of the piece sequence alone.
pub fn run_sequence(pieces: &Vec<(TetroShape, usize)>) -> (r: Result<usize, TetrisError>)
    ensures
        r == run_outcome(empty_well(), pieces@, 0),
{
    let mut grid = Grid::new();
    let mut i: usize = 0;
    while i < pieces.len()
        invariant
            i <= pieces@.len(),
            grid.wf(),
            run_outcome(empty_well(), pieces@, 0) == run_outcome(grid@, pieces@, i as int),
        decreases pieces@.len() - i,
    {
        let pair = pieces[i];
        let shape = pair.0;
        let column = pair.1;
        let right = shape.right_extent();
        let top = shape.top_extent();
        if column >= WIDTH || column + right >= WIDTH {
            return Err(TetrisError::OutOfBounds);
        }
        if grid.get_highest_row() + top + 2 > HEIGHT {
            return Err(TetrisError::OutOfBounds);
        }
        grid.place_tetromino(Tetromino::new(shape), column);
        i += 1;
    }
    Ok(grid.get_highest_row())
}

} // verus!
