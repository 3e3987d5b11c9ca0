//! The library's general laws, stated and proved over the well model.
use vstd::prelude::*;

use crate::grid::GridView;
use crate::grid::HEIGHT;
use crate::grid::WIDTH;
use crate::grid::cell_at;
use crate::grid::clear_from;
use crate::grid::covered_by;
use crate::grid::empty_well;
use crate::grid::grid_wf;
use crate::grid::mark_after_place;
use crate::grid::piece_fits;
use crate::grid::place_result;
use crate::grid::placed_cells;
use crate::grid::row_full;
use crate::grid::settle_from;
use crate::grid::settle_row;
use crate::grid::shifted_down;
use crate::sim::run_outcome;
use crate::tetromino::TetroShape;
use crate::tetromino::cells_of;
use crate::tetromino::lemma_cells_bounds;
use crate::tetromino::lemma_cells_distinct;
use crate::tetromino::piece_right;
use crate::tetromino::piece_top;

verus! {

/// The cells of the well that are occupied, as (row, column) pairs.
pub open spec fn occupied_cells(v: GridView) -> Set<(int, int)> {
    Set::new(
        |rc: (int, int)|
            0 <= rc.0 < HEIGHT && 0 <= rc.1 < WIDTH && cell_at(v, rc.0, rc.1),
    )
}

/// A freshly constructed well is well formed and reports height 1, not 0:
/// its high-water mark starts at the floor row rather than past it, a
/// baseline that is kept deliberately.
pub proof fn lemma_fresh_well_height()
    ensures
        grid_wf(empty_well()),
        HEIGHT - empty_well().fur == 1,
{
    assert forall|r: int, c: int| 0 <= r < empty_well().fur && 0 <= c < WIDTH implies !cell_at(
        empty_well(),
        r,
        c,
    ) by {
        assert(0 <= r * (WIDTH as int) + c < 1000);
    }
}

/// A clearing scan that meets no full row leaves the well unchanged.
pub proof fn lemma_no_full_row_clear(v: GridView, r: int)
    requires
        forall|rr: int| r <= rr < HEIGHT ==> !#[trigger] row_full(v, rr),
    ensures
        clear_from(v, r) == v,
    decreases HEIGHT - r,
{
    if r < HEIGHT {
        lemma_no_full_row_clear(v, r + 1);
    }
}

/// The clearing scan passes over rows that are not full without touching
/// the well.
proof fn lemma_clear_skip(v: GridView, r: int, row: int)
    requires
        r <= row,
        forall|rr: int| r <= rr < row ==> !#[trigger] row_full(v, rr),
    ensures
        clear_from(v, r) == clear_from(v, row),
    decreases row - r,
{
    if r < row && r < HEIGHT {
        lemma_clear_skip(v, r + 1, row);
    } else if r < row {
        // Both sides are past the floor and return the well unchanged.
        lemma_clear_past_floor(v, r);
        lemma_clear_past_floor(v, row);
    }
}

/// Past the floor the clearing scan does nothing.
proof fn lemma_clear_past_floor(v: GridView, r: int)
    requires
        r >= HEIGHT,
    ensures
        clear_from(v, r) == v,
{
}

/// Clearing a single full row: when exactly one row between the
/// high-water mark and the floor is full, the scan removes that row —
/// every row above it shifts one row toward the floor — and the
/// high-water mark moves one row down, so the reported height is exactly
/// one less than it would be without the clearing.
pub proof fn lemma_single_full_row_cleared(v: GridView, row: int)
    requires
        grid_wf(v),
        v.fur <= row < HEIGHT,
        row_full(v, row),
        forall|rr: int| v.fur <= rr < HEIGHT && rr != row ==> !#[trigger] row_full(v, rr),
    ensures
        clear_from(v, v.fur).fur == v.fur + 1,
        clear_from(v, v.fur).cells == shifted_down(v, row),
{
    lemma_clear_skip(v, v.fur, row);
    let v2 = GridView { cells: shifted_down(v, row), fur: v.fur + 1 };
    assert(clear_from(v, row) == clear_from(v2, row + 1));
    assert forall|rr: int| row + 1 <= rr < HEIGHT implies !#[trigger] row_full(v2, rr) by {
        assert(!row_full(v, rr));
        assert(exists|c: int| 0 <= c < WIDTH && !#[trigger] cell_at(v, rr, c));
        let c = choose|c: int| 0 <= c < WIDTH && !#[trigger] cell_at(v, rr, c);
        assert(v2.cells[rr * (WIDTH as int) + c] == v.cells[rr * (WIDTH as int) + c]);
        assert(!cell_at(v2, rr, c));
    }
    lemma_no_full_row_clear(v2, row + 1);
}

/// Replaying the same (shape, column) sequence from an empty well always
/// yields the same outcome — the same final height, from the same final
/// grid occupancy — since the whole run is a function of the sequence
/// alone.
pub proof fn lemma_replay_deterministic(a: Seq<(TetroShape, usize)>, b: Seq<(TetroShape, usize)>)
    requires
        a == b,
    ensures
        run_outcome(empty_well(), a, 0) == run_outcome(empty_well(), b, 0),
{
}

/// Dropping any shape into an empty well at any column that keeps its
/// footprint inside the grid leaves exactly 4 occupied cells: each
/// footprint has exactly 4 cells, they are pairwise distinct, and no row
/// can become full from a single piece.
pub proof fn lemma_drop_into_empty_occupies_four(s: TetroShape, col: int)
    requires
        0 <= col,
        col + piece_right(s) < WIDTH as int,
    ensures
        occupied_cells(place_result(empty_well(), s, col)).finite(),
        occupied_cells(place_result(empty_well(), s, col)).len() == 4,
{
    let v0 = empty_well();
    lemma_cells_bounds(s);
    lemma_cells_distinct(s);
    assert forall|i: int| 0 <= i < 1000 implies !v0.cells[i] by {}
    // The piece falls to the floor row.
    assert(piece_fits(v0, s, HEIGHT - 1, col)) by {
        assert forall|k: int| 0 <= k < 4 implies !cell_at(
            v0,
            (HEIGHT - 1) - (#[trigger] cells_of(s)[k]).0,
            col + cells_of(s)[k].1,
        ) by {
            let idx = ((HEIGHT - 1) - cells_of(s)[k].0) * (WIDTH as int) + col + cells_of(s)[k].1;
            assert(0 <= idx < 1000);
        }
    }
    assert(!piece_fits(v0, s, HEIGHT as int, col));
    assert(settle_from(v0, s, HEIGHT - 1, col) == HEIGHT - 1);
    assert(settle_from(v0, s, HEIGHT - 2, col) == HEIGHT - 1);
    assert(settle_row(v0, s, col) == HEIGHT - 1);
    let rest = HEIGHT - 1;
    let marked = mark_after_place(v0.fur, s, rest);
    assert(marked == rest - piece_top(s));
    let placed = GridView { cells: placed_cells(v0.cells, s, rest, col, 4), fur: marked };
    // One piece cannot complete a row: some column of every row is free.
    assert forall|rr: int| marked <= rr < HEIGHT implies !#[trigger] row_full(placed, rr) by {
        let cfree = if col + 4 < WIDTH as int {
            col + 4
        } else {
            0
        };
        let idx = rr * (WIDTH as int) + cfree;
        assert(0 <= idx < 1000);
        assert(!v0.cells[idx]);
        if covered_by(s, rest, col, idx, 4) {
            let k = choose|k: int|
                0 <= k < 4 && idx == (rest - (#[trigger] cells_of(s)[k]).0) * (WIDTH as int) + col
                    + cells_of(s)[k].1;
            assert(cfree == col + cells_of(s)[k].1);
            assert(false);
        }
        assert(!cell_at(placed, rr, cfree));
    }
    lemma_no_full_row_clear(placed, marked);
    let result = place_result(v0, s, col);
    assert(result == placed);
    // The occupied cells are exactly the four translated footprint cells.
    let cell0 = (rest - cells_of(s)[0].0, col + cells_of(s)[0].1);
    let cell1 = (rest - cells_of(s)[1].0, col + cells_of(s)[1].1);
    let cell2 = (rest - cells_of(s)[2].0, col + cells_of(s)[2].1);
    let cell3 = (rest - cells_of(s)[3].0, col + cells_of(s)[3].1);
    let four = set![cell0, cell1, cell2, cell3];
    assert(four.contains(cell0) && four.contains(cell1) && four.contains(cell2) && four.contains(cell3));
    assert forall|rc: (int, int)| #[trigger] occupied_cells(result).contains(rc) implies
        four.contains(rc) by {
        assert(cell_at(result, rc.0, rc.1));
        let idx = rc.0 * (WIDTH as int) + rc.1;
        assert(0 <= idx < 1000);
        assert(result.cells[idx]);
        assert(covered_by(s, rest, col, idx, 4));
        let k = choose|k: int|
            0 <= k < 4 && idx == (rest - (#[trigger] cells_of(s)[k]).0) * (WIDTH as int) + col
                + cells_of(s)[k].1;
        assert(rc.0 == rest - cells_of(s)[k].0 && rc.1 == col + cells_of(s)[k].1);
        assert(k == 0 || k == 1 || k == 2 || k == 3);
    }
    assert forall|rc: (int, int)| #[trigger] four.contains(rc) implies occupied_cells(
        result,
    ).contains(rc) by {
        let k: int = if rc == cell0 {
            0
        } else if rc == cell1 {
            1
        } else if rc == cell2 {
            2
        } else {
            3
        };
        assert(rc.0 == rest - cells_of(s)[k].0 && rc.1 == col + cells_of(s)[k].1);
        let idx = rc.0 * (WIDTH as int) + rc.1;
        assert(covered_by(s, rest, col, idx, 4));
        assert(cell_at(result, rc.0, rc.1));
        assert(0 <= rc.0 < HEIGHT && 0 <= rc.1 < WIDTH);
    }
    assert(occupied_cells(result) =~= four);
    // The four pairs are pairwise distinct, so the set has 4 elements.
    assert(cell0 != cell1 && cell0 != cell2 && cell0 != cell3 && cell1 != cell2 && cell1 != cell3 && cell2 != cell3);
    let e = Set::<(int, int)>::empty();
    broadcast use vstd::set::axiom_set_empty_len;
    vstd::set::axiom_set_insert_len(e, cell3);
    vstd::set::axiom_set_insert_len(e.insert(cell3), cell2);
    vstd::set::axiom_set_insert_len(e.insert(cell3).insert(cell2), cell1);
    vstd::set::axiom_set_insert_len(e.insert(cell3).insert(cell2).insert(cell1), cell0);
    assert(four.len() == 4);
}

} // verus!
