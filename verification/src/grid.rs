//! The well: a bounded occupancy grid with gravity settling and row
//! clearing.
//!
//! Row 0 is the topmost storable row and row indices grow toward the
//! floor, so a falling piece moves to *larger* row indices. The well is
//! deliberately much taller than any stack a realistic input produces, so
//! pieces never run out of head room in practice.
use vstd::prelude::*;
use vstd::string::StringExecFns;

use crate::tetromino::Tetromino;
use crate::tetromino::TetroShape;
use crate::tetromino::cells_of;
use crate::tetromino::lemma_cells_bounds;
use crate::tetromino::piece_right;
use crate::tetromino::piece_top;

verus! {

/// Number of columns of the well.
pub const WIDTH: usize = 10;

/// Number of rows of the well.
pub const HEIGHT: usize = 100;

/// Number of cells of the well.
pub const CELLS: usize = 1000;

/// A cell position: `row` counts from the top of the well toward the
/// floor, `col` from the left.
#[derive(Clone, Copy, Debug, PartialEq, Eq, Structural)]
pub struct Coord {
    pub row: usize,
    pub col: usize,
}

impl Coord {
    pub fn new(row: usize, col: usize) -> (c: Coord)
        ensures
            c.row == row,
            c.col == col,
    {
        Coord { row, col }
    }

    pub fn get_row(&self) -> (r: usize)
        ensures
            r == self.row,
    {
        self.row
    }

    pub fn get_col(&self) -> (c: usize)
        ensures
            c == self.col,
    {
        self.col
    }
}

/// The mathematical state of a well: the occupancy of every cell, row by
/// row, and the high-water mark `fur` (the first used row: the smallest
/// row index that holds a piece cell; `HEIGHT` when the well is clear).
#[verifier::ext_equal]
pub struct GridView {
    /// Cell occupancy, row-major: cell `(r, c)` is `cells[r * WIDTH + c]`.
    pub cells: Seq<bool>,
    /// The first used row.
    pub fur: int,
}

/// Whether cell `(r, c)` of the well is occupied.
pub open spec fn cell_at(v: GridView, r: int, c: int) -> bool {
    v.cells[r * (WIDTH as int) + c]
}

/// A well is well formed when it has exactly `HEIGHT * WIDTH` cells, its
/// high-water mark lies in the grid (or just past it, for a cleared
/// floor), and every row above the high-water mark is empty.
pub open spec fn grid_wf(v: GridView) -> bool {
    &&& v.cells.len() == CELLS
    &&& 0 <= v.fur <= HEIGHT
    &&& forall|r: int, c: int| 0 <= r < v.fur && 0 <= c < WIDTH ==> !#[trigger] cell_at(v, r, c)
}

/// The state of a freshly created well: no cell occupied, the high-water
/// mark at the floor row.
pub open spec fn empty_well() -> GridView {
    GridView { cells: Seq::new(CELLS as nat, |i: int| false), fur: HEIGHT - 1 }
}

/// Whether shape `s` can rest with its reference cell at `(row, col)`:
/// the reference row is inside the grid and all four footprint cells land
/// on unoccupied grid cells.
pub open spec fn piece_fits(v: GridView, s: TetroShape, row: int, col: int) -> bool {
    &&& row < HEIGHT
    &&& forall|k: int|
        0 <= k < 4 ==> !cell_at(
            v,
            row - (#[trigger] cells_of(s)[k]).0,
            col + cells_of(s)[k].1,
        )
}

/// The row at which a piece tested downward from `row` comes to rest: the
/// first row from which one further step toward the floor is illegal.
pub open spec fn settle_from(v: GridView, s: TetroShape, row: int, col: int) -> int
    decreases HEIGHT - row,
{
    if piece_fits(v, s, row + 1, col) {
        settle_from(v, s, row + 1, col)
    } else {
        row
    }
}

/// The resting row of shape `s` dropped at `col`: the fall is tested
/// straight down starting one row above the global high-water mark.
pub open spec fn settle_row(v: GridView, s: TetroShape, col: int) -> int {
    settle_from(v, s, v.fur - 1, col)
}

/// Whether flat cell index `i` is covered by one of the first `n`
/// footprint cells of shape `s` resting with its reference at
/// `(row, col)`.
pub open spec fn covered_by(s: TetroShape, row: int, col: int, i: int, n: int) -> bool {
    exists|k: int|
        0 <= k < n && i == (row - (#[trigger] cells_of(s)[k]).0) * (WIDTH as int) + col + cells_of(
            s,
        )[k].1
}

/// The well cells after marking the first `n` footprint cells of shape
/// `s`, resting at `(row, col)`, as occupied.
pub open spec fn placed_cells(cells: Seq<bool>, s: TetroShape, row: int, col: int, n: int) -> Seq<
    bool,
> {
    Seq::new(cells.len(), |i: int| cells[i] || covered_by(s, row, col, i, n))
}

/// Whether every cell of row `r` is occupied.
pub open spec fn row_full(v: GridView, r: int) -> bool {
    forall|c: int| 0 <= c < WIDTH ==> #[trigger] cell_at(v, r, c)
}

/// The well cells after removing row `r0`: every row from 1 through `r0`
/// takes the content of the row above it, and row 0 keeps its own.
pub open spec fn shifted_down(v: GridView, r0: int) -> Seq<bool> {
    Seq::new(
        v.cells.len(),
        |i: int|
            if WIDTH <= i < (r0 + 1) * (WIDTH as int) {
                v.cells[i - WIDTH]
            } else {
                v.cells[i]
            },
    )
}

/// The well after the clearing scan has handled rows `r` through the
/// floor: each full row met is removed by shifting everything above it
/// one row toward the floor and the high-water mark moves one row down,
/// unless it already sits past the floor.
pub open spec fn clear_from(v: GridView, r: int) -> GridView
    decreases HEIGHT - r,
{
    if r >= HEIGHT {
        v
    } else if row_full(v, r) {
        let shifted = GridView {
            cells: shifted_down(v, r),
            fur: if v.fur < HEIGHT {
                v.fur + 1
            } else {
                v.fur
            },
        };
        clear_from(shifted, r + 1)
    } else {
        clear_from(v, r + 1)
    }
}

/// The high-water mark that the placement loop reaches after writing the
/// first `n` footprint cells of a piece resting at `row`: the old mark,
/// lowered to each touched row that lies above it.
pub open spec fn mark_step(fur: int, s: TetroShape, row: int, n: int) -> int
    decreases n,
{
    if n <= 0 {
        fur
    } else {
        let prev = mark_step(fur, s, row, n - 1);
        if row - cells_of(s)[n - 1].0 < prev {
            row - cells_of(s)[n - 1].0
        } else {
            prev
        }
    }
}

/// The high-water mark after a piece whose topmost cell reaches
/// `row - piece_top(s)` has been written: the smaller of the old mark and
/// the topmost row touched.
pub open spec fn mark_after_place(fur: int, s: TetroShape, row: int) -> int {
    if row - piece_top(s) < fur {
        row - piece_top(s)
    } else {
        fur
    }
}

/// The whole effect of dropping shape `s` at column `col`: the piece
/// settles, its four cells are written, the high-water mark is updated,
/// and the clearing scan runs from the new mark to the floor.
pub open spec fn place_result(v: GridView, s: TetroShape, col: int) -> GridView {
    let row = settle_row(v, s, col);
    let marked = mark_after_place(v.fur, s, row);
    let placed = GridView { cells: placed_cells(v.cells, s, row, col, 4), fur: marked };
    clear_from(placed, marked)
}

/// Lowering the mark cell by cell ends at the smaller of the old mark
/// and the row of the piece's topmost cell.
proof fn lemma_mark_step_is_min(fur: int, s: TetroShape, row: int)
    ensures
        mark_step(fur, s, row, 4) == mark_after_place(fur, s, row),
{
    lemma_cells_bounds(s);
    assert(cells_of(s)[3].0 == piece_top(s));
    assert(mark_step(fur, s, row, 0) == fur);
    assert(mark_step(fur, s, row, 1) == if row - cells_of(s)[0].0 < fur {
        row - cells_of(s)[0].0
    } else {
        fur
    });
    assert(mark_step(fur, s, row, 2) == if row - cells_of(s)[1].0 < mark_step(fur, s, row, 1) {
        row - cells_of(s)[1].0
    } else {
        mark_step(fur, s, row, 1)
    });
    assert(mark_step(fur, s, row, 3) == if row - cells_of(s)[2].0 < mark_step(fur, s, row, 2) {
        row - cells_of(s)[2].0
    } else {
        mark_step(fur, s, row, 2)
    });
}

/// A piece tested downward from a row inside the grid comes to rest at
/// that row or below, and never below the floor.
pub proof fn lemma_settle_from_range(v: GridView, s: TetroShape, row: int, col: int)
    requires
        row <= HEIGHT - 1,
    ensures
        row <= settle_from(v, s, row, col) <= HEIGHT - 1,
    decreases HEIGHT - row,
{
    if piece_fits(v, s, row + 1, col) {
        lemma_settle_from_range(v, s, row + 1, col);
    }
}

/// The label of a displayed row: the height of that row above the floor,
/// right-aligned to two characters, then a separator.
pub open spec fn row_label(rownum: int) -> Seq<char> {
    if rownum == 90 {
        "10: "@
    } else if rownum == 91 {
        " 9: "@
    } else if rownum == 92 {
        " 8: "@
    } else if rownum == 93 {
        " 7: "@
    } else if rownum == 94 {
        " 6: "@
    } else if rownum == 95 {
        " 5: "@
    } else if rownum == 96 {
        " 4: "@
    } else if rownum == 97 {
        " 3: "@
    } else if rownum == 98 {
        " 2: "@
    } else {
        " 1: "@
    }
}

/// The first `n` cells of row `r` as text: `X` for an occupied cell, `.`
/// for a free one.
pub open spec fn row_cells_text(v: GridView, r: int, n: int) -> Seq<char>
    decreases n,
{
    if n <= 0 {
        Seq::empty()
    } else {
        row_cells_text(v, r, n - 1) + (if cell_at(v, r, n - 1) {
            "X"@
        } else {
            "."@
        })
    }
}

/// One displayed row: its label, its cells, and a line break.
pub open spec fn row_text(v: GridView, r: int) -> Seq<char> {
    row_label(r) + row_cells_text(v, r, WIDTH as int) + "\n"@
}

/// The displayed rows from row 90 up to, but not including, row `n`.
pub open spec fn render_text(v: GridView, n: int) -> Seq<char>
    decreases n,
{
    if n <= 90 {
        Seq::empty()
    } else {
        render_text(v, n - 1) + row_text(v, n - 1)
    }
}

/// The well. Owns the occupancy grid exclusively; cells are written only
/// by placement and row compaction.
pub struct Grid {
    grid: Vec<bool>,
    first_used_row: usize,
}

impl View for Grid {
    type V = GridView;

    closed spec fn view(&self) -> GridView {
        GridView { cells: self.grid@, fur: self.first_used_row as int }
    }
}

impl Grid {
    /// Well-formedness of the underlying grid; every method keeps it.
    pub open spec fn wf(&self) -> bool {
        grid_wf(self@)
    }

    /// A fresh, empty well.
    pub fn new() -> (g: Grid)
        ensures
            g@ == empty_well(),
            g.wf(),
    {
        let mut cells: Vec<bool> = Vec::new();
        let mut i: usize = 0;
        while i < CELLS
            invariant
                i <= CELLS,
                cells@.len() == i,
                forall|k: int| 0 <= k < i ==> !cells@[k],
            decreases CELLS - i,
        {
            cells.push(false);
            i += 1;
        }
        let g = Grid { grid: cells, first_used_row: HEIGHT - 1 };
        proof {
            assert(g@.cells =~= empty_well().cells);
            assert(g@ =~= empty_well());
        }
        g
    }

    /// The height of the stack, measured from the floor: the number of
    /// rows from the high-water mark to the bottom of the grid. A fresh
    /// well reports 1, not 0: its high-water mark starts at the floor row
    /// rather than past it, and that baseline is kept deliberately.
    pub fn get_highest_row(&self) -> (r: usize)
        requires
            self.wf(),
        ensures
            r as int == HEIGHT - self@.fur,
    {
        HEIGHT - self.first_used_row
    }

    /// Whether cell `(row, col)` is occupied.
    pub fn is_occupied(&self, row: usize, col: usize) -> (b: bool)
        requires
            self.wf(),
            row < HEIGHT,
            col < WIDTH,
        ensures
            b == cell_at(self@, row as int, col as int),
    {
        self.grid[row * WIDTH + col]
    }

    /// Renders the bottom 10 rows of the grid as text, one line per row,
    /// labelled with the row's height above the floor. This comes in
    /// handy for debugging.
    pub fn render(&self) -> (out: String)
        requires
            self@.cells.len() == CELLS,
        ensures
            out@ == render_text(self@, HEIGHT as int),
    {
        let mut out = String::new();
        let mut rownum: usize = 90;
        while rownum < HEIGHT
            invariant
                self@.cells.len() == CELLS,
                90 <= rownum <= HEIGHT,
                out@ == render_text(self@, rownum as int),
            decreases HEIGHT - rownum,
        {
            let ghost before = out@;
            match rownum {
                90 => out.append("10: "),
                91 => out.append(" 9: "),
                92 => out.append(" 8: "),
                93 => out.append(" 7: "),
                94 => out.append(" 6: "),
                95 => out.append(" 5: "),
                96 => out.append(" 4: "),
                97 => out.append(" 3: "),
                98 => out.append(" 2: "),
                _ => out.append(" 1: "),
            }
            proof {
                assert(out@ == before + row_label(rownum as int));
            }
            let mut col: usize = 0;
            while col < WIDTH
                invariant
                    self@.cells.len() == CELLS,
                    90 <= rownum < HEIGHT,
                    col <= WIDTH,
                    out@ =~= before + row_label(rownum as int) + row_cells_text(
                        self@,
                        rownum as int,
                        col as int,
                    ),
                decreases WIDTH - col,
            {
                if self.grid[rownum * WIDTH + col] {
                    out.append("X");
                } else {
                    out.append(".");
                }
                col += 1;
            }
            out.append("\n");
            proof {
                assert(out@ =~= render_text(self@, rownum as int + 1));
            }
            rownum += 1;
        }
        out
    }

    /// Whether the piece can rest with its reference cell at `coord`
    /// without leaving the grid at the bottom or overlapping an occupied
    /// cell.
    pub fn can_place_tertomino(&self, tetromino: Tetromino, coord: Coord) -> (r: bool)
        requires
            self.wf(),
            coord.row <= HEIGHT,
            coord.row as int >= piece_top(tetromino.shape()),
            coord.col as int + piece_right(tetromino.shape()) < WIDTH as int,
        ensures
            r == piece_fits(self@, tetromino.shape(), coord.row as int, coord.col as int),
    {
        if coord.row == HEIGHT {
            return false;
        }
        let locations = tetromino.get_relative_location(coord);
        proof {
            lemma_cells_bounds(tetromino.shape());
        }
        let mut i: usize = 0;
        while i < 4
            invariant
                self.wf(),
                locations@.len() == 4,
                i <= 4,
                coord.row < HEIGHT,
                coord.row as int >= piece_top(tetromino.shape()),
                0 <= coord.col as int,
                coord.col as int + piece_right(tetromino.shape()) < WIDTH as int,
                forall|k: int|
                    0 <= k < 4 ==> {
                        &&& (#[trigger] locations@[k]).row as int == coord.row as int - cells_of(
                            tetromino.shape(),
                        )[k].0
                        &&& locations@[k].col as int == coord.col as int + cells_of(
                            tetromino.shape(),
                        )[k].1
                    },
                forall|k: int|
                    0 <= k < 4 ==> {
                        &&& 0 <= (#[trigger] cells_of(tetromino.shape())[k]).0 <= piece_top(
                            tetromino.shape(),
                        )
                        &&& 0 <= cells_of(tetromino.shape())[k].1 <= piece_right(tetromino.shape())
                    },
                forall|k: int|
                    0 <= k < i ==> !cell_at(
                        self@,
                        coord.row as int - (#[trigger] cells_of(tetromino.shape())[k]).0,
                        coord.col as int + cells_of(tetromino.shape())[k].1,
                    ),
            decreases 4 - i,
        {
            let location = locations[i];
            if self.grid[location.row * WIDTH + location.col] {
                proof {
                    assert(cell_at(
                        self@,
                        coord.row as int - cells_of(tetromino.shape())[i as int].0,
                        coord.col as int + cells_of(tetromino.shape())[i as int].1,
                    ));
                }
                return false;
            }
            i += 1;
        }
        true
    }

    /// The row at which the piece dropped at `column` comes to rest. The
    /// fall is tested straight down from one row above the global
    /// high-water mark, regardless of column; the well itself is left
    /// unchanged.
    pub fn find_lowest_row(&mut self, tetromino: Tetromino, column: usize) -> (r: usize)
        requires
            old(self).wf(),
            old(self)@.fur >= piece_top(tetromino.shape()) + 1,
            column as int + piece_right(tetromino.shape()) < WIDTH as int,
        ensures
            *final(self) == *old(self),
            r as int == settle_row(old(self)@, tetromino.shape(), column as int),
    {
        let ghost v0 = self@;
        let mut row: usize = self.first_used_row - 1;
        while self.can_place_tertomino(tetromino, Coord::new(row + 1, column))
            invariant
                *self == *old(self),
                self.wf(),
                self@ == v0,
                column as int + piece_right(tetromino.shape()) < WIDTH as int,
                piece_top(tetromino.shape()) <= row as int + 1,
                row as int + 1 <= HEIGHT,
                settle_from(v0, tetromino.shape(), row as int, column as int) == settle_row(
                    v0,
                    tetromino.shape(),
                    column as int,
                ),
            decreases HEIGHT - row,
        {
            row = row + 1;
        }
        row
    }

    /// Whether every cell of `row` is occupied.
    fn is_row_full(&self, row: usize) -> (b: bool)
        requires
            self@.cells.len() == CELLS,
            row < HEIGHT,
        ensures
            b == row_full(self@, row as int),
    {
        let mut c: usize = 0;
        while c < WIDTH
            invariant
                self@.cells.len() == CELLS,
                row < HEIGHT,
                c <= WIDTH,
                forall|k: int| 0 <= k < c ==> #[trigger] cell_at(self@, row as int, k),
            decreases WIDTH - c,
        {
            if !self.grid[row * WIDTH + c] {
                proof {
                    assert(!cell_at(self@, row as int, c as int));
                }
                return false;
            }
            c += 1;
        }
        true
    }

    /// Removes `row` by copying every row from `row` up to the top of the
    /// grid from the row above it, one row toward the floor; row 0 keeps
    /// its own content.
    fn shift_rows_down(&mut self, row: usize)
        requires
            old(self)@.cells.len() == CELLS,
            row < HEIGHT,
        ensures
            final(self)@.cells == shifted_down(old(self)@, row as int),
            final(self)@.fur == old(self)@.fur,
    {
        let mut idx: usize = (row + 1) * WIDTH;
        while idx > WIDTH
            invariant
                self@.cells.len() == CELLS,
                self@.fur == old(self)@.fur,
                row < HEIGHT,
                WIDTH <= idx,
                idx as int <= (row as int + 1) * (WIDTH as int),
                forall|i: int|
                    idx <= i < (row as int + 1) * (WIDTH as int) ==> self@.cells[i] == old(
                        self,
                    )@.cells[i - WIDTH],
                forall|i: int|
                    (0 <= i < idx || (row as int + 1) * (WIDTH as int) <= i < CELLS)
                        ==> self@.cells[i] == old(self)@.cells[i],
            decreases idx,
        {
            idx -= 1;
            let above = self.grid[idx - WIDTH];
            self.grid[idx] = above;
        }
        proof {
            assert(self@.cells =~= shifted_down(old(self)@, row as int));
        }
    }

    /// Scans every row from the high-water mark to the floor, from top to
    /// bottom, removing each full row it meets: the rows above shift one
    /// row toward the floor and the high-water mark moves one row down,
    /// unless it has already reached past the floor. Several full rows
    /// are cleared within the same scan, compacting progressively.
    pub fn clear_rows(&mut self)
        requires
            old(self).wf(),
            old(self)@.fur >= 1,
        ensures
            final(self).wf(),
            final(self)@ == clear_from(old(self)@, old(self)@.fur),
    {
        let ghost v0 = self@;
        let mut row: usize = self.first_used_row;
        while row < HEIGHT
            invariant
                self@.cells.len() == CELLS,
                1 <= self@.fur,
                self@.fur <= row as int,
                row <= HEIGHT,
                forall|r: int, c: int|
                    0 <= r < self@.fur && 0 <= c < WIDTH ==> !#[trigger] cell_at(self@, r, c),
                clear_from(v0, v0.fur) == clear_from(self@, row as int),
            decreases HEIGHT - row,
        {
            let ghost vpre = self@;
            if self.is_row_full(row) {
                self.shift_rows_down(row);
                if self.first_used_row < HEIGHT {
                    self.first_used_row = self.first_used_row + 1;
                }
                proof {
                    let ghost vstep = GridView {
                        cells: shifted_down(vpre, row as int),
                        fur: vpre.fur + 1,
                    };
                    assert(self@ =~= vstep);
                    // The rows above the new high-water mark are empty:
                    // row 0 keeps its own (empty) content, every other one
                    // takes the content of an empty row above the old mark.
                    assert forall|r: int, c: int|
                        0 <= r < vstep.fur && 0 <= c < WIDTH implies !cell_at(vstep, r, c) by {
                        if r >= 1 {
                            assert(cell_at(vstep, r, c) == cell_at(vpre, r - 1, c));
                        } else {
                            assert(cell_at(vstep, r, c) == cell_at(vpre, r, c));
                        }
                    }
                    assert(clear_from(vpre, row as int) == clear_from(vstep, row as int + 1));
                }
            }
            row += 1;
        }
    }

    /// Drops the piece at `column`: finds its resting row, writes its four
    /// cells into the grid, lowers the high-water mark to the topmost row
    /// touched, and clears any rows the placement completed.
    ///
    /// The column must leave the whole footprint inside the grid, and the
    /// stack must leave the piece head room above the high-water mark;
    /// `sim::run_sequence` validates both before calling.
    pub fn place_tetromino(&mut self, tetromino: Tetromino, column: usize)
        requires
            old(self).wf(),
            old(self)@.fur >= piece_top(tetromino.shape()) + 2,
            column as int + piece_right(tetromino.shape()) < WIDTH as int,
        ensures
            final(self).wf(),
            final(self)@ == place_result(old(self)@, tetromino.shape(), column as int),
    {
        let ghost v0 = self@;
        let ghost s = tetromino.shape();
        let lowest_row = self.find_lowest_row(tetromino, column);
        proof {
            lemma_settle_from_range(v0, s, v0.fur - 1, column as int);
            lemma_cells_bounds(s);
        }
        let ghost settle = lowest_row as int;
        let locations = tetromino.get_relative_location(Coord::new(lowest_row, column));
        let mut i: usize = 0;
        while i < 4
            invariant
                i <= 4,
                locations@.len() == 4,
                self@.cells.len() == CELLS,
                settle == settle_row(v0, s, column as int),
                piece_top(s) <= settle <= HEIGHT - 1,
                column as int + piece_right(s) < WIDTH as int,
                forall|k: int|
                    0 <= k < 4 ==> {
                        &&& (#[trigger] locations@[k]).row as int == settle - cells_of(s)[k].0
                        &&& locations@[k].col as int == column as int + cells_of(s)[k].1
                    },
                forall|k: int|
                    0 <= k < 4 ==> {
                        &&& 0 <= (#[trigger] cells_of(s)[k]).0 <= piece_top(s)
                        &&& 0 <= cells_of(s)[k].1 <= piece_right(s)
                    },
                self@.cells == placed_cells(v0.cells, s, settle, column as int, i as int),
                self@.fur == mark_step(v0.fur, s, settle, i as int),
            decreases 4 - i,
        {
            let location = locations[i];
            if location.row < self.first_used_row {
                self.first_used_row = location.row;
            }
            self.grid[location.row * WIDTH + location.col] = true;
            proof {
                let ghost col = column as int;
                let ghost n = i as int;
                let ghost target = (settle - cells_of(s)[n].0) * (WIDTH as int) + col + cells_of(
                    s,
                )[n].1;
                assert forall|idx: int| 0 <= idx < CELLS implies self@.cells[idx] == placed_cells(
                    v0.cells,
                    s,
                    settle,
                    col,
                    n + 1,
                )[idx] by {
                    if idx == target {
                        assert(covered_by(s, settle, col, idx, n + 1));
                    } else {
                        if covered_by(s, settle, col, idx, n + 1) {
                            let k = choose|k: int|
                                0 <= k < n + 1 && idx == (settle - (#[trigger] cells_of(s)[k]).0)
                                    * (WIDTH as int) + col + cells_of(s)[k].1;
                            assert(k < n);
                            assert(covered_by(s, settle, col, idx, n));
                        }
                        if covered_by(s, settle, col, idx, n) {
                            let k = choose|k: int|
                                0 <= k < n && idx == (settle - (#[trigger] cells_of(s)[k]).0) * (
                                WIDTH as int) + col + cells_of(s)[k].1;
                            assert(covered_by(s, settle, col, idx, n + 1));
                        }
                    }
                }
                assert(self@.cells =~= placed_cells(v0.cells, s, settle, column as int, n + 1));
            }
            i += 1;
        }
        proof {
            lemma_mark_step_is_min(v0.fur, s, settle);
            let ghost col = column as int;
            let ghost marked = mark_after_place(v0.fur, s, settle);
            assert(settle >= v0.fur - 1);
            assert(marked >= 1);
            // Rows above the lowered mark stay empty: old cells there were
            // empty, and every new cell lies at or below the mark.
            assert forall|r: int, c: int| 0 <= r < self@.fur && 0 <= c < WIDTH implies !cell_at(
                self@,
                r,
                c,
            ) by {
                let idx = r * (WIDTH as int) + c;
                assert(!cell_at(v0, r, c));
                assert(!v0.cells[idx]);
                if covered_by(s, settle, col, idx, 4) {
                    let k = choose|k: int|
                        0 <= k < 4 && idx == (settle - (#[trigger] cells_of(s)[k]).0) * (
                        WIDTH as int) + col + cells_of(s)[k].1;
                    assert(idx == (settle - cells_of(s)[k].0) * (WIDTH as int) + col + cells_of(
                        s,
                    )[k].1);
                    assert(r == settle - cells_of(s)[k].0);
                    assert(r >= settle - piece_top(s));
                    assert(false);
                }
            }
        }
        self.clear_rows();
        proof {
            let ghost col = column as int;
            let ghost marked = mark_after_place(v0.fur, s, settle);
            let ghost placed = GridView {
                cells: placed_cells(v0.cells, s, settle, col, 4),
                fur: marked,
            };
            assert(place_result(v0, s, col) == clear_from(placed, marked));
        }
    }
}

} // verus!
