use tetris_well::TetrisError;
use tetris_well::grid::Coord;
use tetris_well::grid::Grid;
use tetris_well::sim::run_sequence;
use tetris_well::tetromino::TetroShape;
use tetris_well::tetromino::Tetromino;

#[test]
fn ex1() {
    let mut grid = Grid::new();
    grid.place_tetromino(Tetromino::new(TetroShape::I), 0);
    grid.place_tetromino(Tetromino::new(TetroShape::I), 4);
    grid.place_tetromino(Tetromino::new(TetroShape::Q), 8);

    assert_eq!(1, grid.get_highest_row());
}

#[test]
fn ex2() {
    let mut grid = Grid::new();

    grid.place_tetromino(Tetromino::new(TetroShape::T), 1);
    grid.place_tetromino(Tetromino::new(TetroShape::Z), 3);
    grid.place_tetromino(Tetromino::new(TetroShape::I), 4);

    assert_eq!(4, grid.get_highest_row());
}

#[test]
fn ex3() {
    let mut grid = Grid::new();

    grid.place_tetromino(Tetromino::new(TetroShape::Q), 0);
    grid.place_tetromino(Tetromino::new(TetroShape::I), 2);
    grid.place_tetromino(Tetromino::new(TetroShape::I), 6);
    grid.place_tetromino(Tetromino::new(TetroShape::I), 0);
    grid.place_tetromino(Tetromino::new(TetroShape::I), 6);
    grid.place_tetromino(Tetromino::new(TetroShape::I), 6);
    grid.place_tetromino(Tetromino::new(TetroShape::Q), 2);
    grid.place_tetromino(Tetromino::new(TetroShape::Q), 4);

    assert_eq!(3, grid.get_highest_row());
}

#[test]
fn ex4() {
    let mut grid = Grid::new();

    grid.place_tetromino(Tetromino::new(TetroShape::Q), 0);
    grid.place_tetromino(Tetromino::new(TetroShape::I), 2);
    grid.place_tetromino(Tetromino::new(TetroShape::I), 6);
    grid.place_tetromino(Tetromino::new(TetroShape::I), 0);
    grid.place_tetromino(Tetromino::new(TetroShape::I), 6);
    grid.place_tetromino(Tetromino::new(TetroShape::I), 6);
    grid.place_tetromino(Tetromino::new(TetroShape::Q), 2);
    grid.place_tetromino(Tetromino::new(TetroShape::Q), 2);
    grid.place_tetromino(Tetromino::new(TetroShape::Q), 4);

    assert_eq!(5, grid.get_highest_row());
}

#[test]
fn ex5() {
    let mut grid = Grid::new();

    grid.place_tetromino(Tetromino::new(TetroShape::L), 0);
    grid.place_tetromino(Tetromino::new(TetroShape::J), 3);
    grid.place_tetromino(Tetromino::new(TetroShape::L), 5);
    grid.place_tetromino(Tetromino::new(TetroShape::J), 8);
    grid.place_tetromino(Tetromino::new(TetroShape::T), 1);

    assert_eq!(3, grid.get_highest_row());
}

#[test]
fn get_location() {
    {
        let teromino = Tetromino::new(TetroShape::Q);
        let coords = teromino.get_relative_location(Coord::new(10, 2));
        assert_eq!(coords.len(), 4);
        assert_eq!(coords[0], Coord::new(10, 2));
        assert_eq!(coords[1], Coord::new(10, 3));
        assert_eq!(coords[2], Coord::new(9, 2));
        assert_eq!(coords[3], Coord::new(9, 3));
    }

    {
        let teromino = Tetromino::new(TetroShape::S);
        let coords = teromino.get_relative_location(Coord::new(10, 2));
        assert_eq!(coords.len(), 4);
        assert_eq!(coords[0], Coord::new(10, 2));
        assert_eq!(coords[1], Coord::new(10, 3));
        assert_eq!(coords[2], Coord::new(9, 3));
        assert_eq!(coords[3], Coord::new(9, 4));
    }

    {
        let teromino = Tetromino::new(TetroShape::Z);
        let coords = teromino.get_relative_location(Coord::new(10, 2));
        assert_eq!(coords.len(), 4);
        assert_eq!(coords[0], Coord::new(10, 3));
        assert_eq!(coords[1], Coord::new(10, 4));
        assert_eq!(coords[2], Coord::new(9, 2));
        assert_eq!(coords[3], Coord::new(9, 3));
    }

    {
        let teromino = Tetromino::new(TetroShape::T);
        let coords = teromino.get_relative_location(Coord::new(10, 2));
        assert_eq!(coords.len(), 4);
        assert_eq!(coords[0], Coord::new(10, 3));
        assert_eq!(coords[1], Coord::new(9, 2));
        assert_eq!(coords[2], Coord::new(9, 3));
        assert_eq!(coords[3], Coord::new(9, 4));
    }

    {
        let teromino = Tetromino::new(TetroShape::I);
        let coords = teromino.get_relative_location(Coord::new(10, 2));
        assert_eq!(coords.len(), 4);
        assert_eq!(coords[0], Coord::new(10, 2));
        assert_eq!(coords[1], Coord::new(10, 3));
        assert_eq!(coords[2], Coord::new(10, 4));
        assert_eq!(coords[3], Coord::new(10, 5));
    }

    {
        let teromino = Tetromino::new(TetroShape::L);
        let coords = teromino.get_relative_location(Coord::new(10, 2));
        assert_eq!(coords.len(), 4);
        assert_eq!(coords[0], Coord::new(10, 2));
        assert_eq!(coords[1], Coord::new(10, 3));
        assert_eq!(coords[2], Coord::new(9, 2));
        assert_eq!(coords[3], Coord::new(8, 2));
    }
}

#[test]
fn get_location_j() {
    let teromino = Tetromino::new(TetroShape::J);
    let coords = teromino.get_relative_location(Coord::new(10, 2));
    assert_eq!(coords.len(), 4);
    assert_eq!(coords[0], Coord::new(10, 2));
    assert_eq!(coords[1], Coord::new(10, 3));
    assert_eq!(coords[2], Coord::new(9, 3));
    assert_eq!(coords[3], Coord::new(8, 3));
}

#[test]
fn coord_getters() {
    let c = Coord::new(42, 7);
    assert_eq!(c.get_row(), 42);
    assert_eq!(c.get_col(), 7);
}

#[test]
fn shape_constructors_match_new() {
    assert_eq!(Tetromino::q_shape(), Tetromino::new(TetroShape::Q));
    assert_eq!(Tetromino::s_shape(), Tetromino::new(TetroShape::S));
    assert_eq!(Tetromino::z_shape(), Tetromino::new(TetroShape::Z));
    assert_eq!(Tetromino::t_shape(), Tetromino::new(TetroShape::T));
    assert_eq!(Tetromino::i_shape(), Tetromino::new(TetroShape::I));
    assert_eq!(Tetromino::l_shape(), Tetromino::new(TetroShape::L));
    assert_eq!(Tetromino::j_shape(), Tetromino::new(TetroShape::J));
}

#[test]
fn fresh_well_reports_height_one() {
    let grid = Grid::new();
    assert_eq!(grid.get_highest_row(), 1);
    for row in 0..100 {
        for col in 0..10 {
            assert!(!grid.is_occupied(row, col));
        }
    }
}

#[test]
fn one_piece_occupies_four_cells() {
    let mut grid = Grid::new();
    grid.place_tetromino(Tetromino::new(TetroShape::T), 3);
    let mut count = 0;
    for row in 0..100 {
        for col in 0..10 {
            if grid.is_occupied(row, col) {
                count += 1;
            }
        }
    }
    assert_eq!(count, 4);
}

#[test]
fn row_clear_shifts_cells_down() {
    let mut grid = Grid::new();
    grid.place_tetromino(Tetromino::new(TetroShape::I), 0);
    grid.place_tetromino(Tetromino::new(TetroShape::I), 4);
    // Without a clear this square would leave a stack of height 2; the
    // bottom row it completes is removed and its upper half shifts down
    // into the floor row.
    grid.place_tetromino(Tetromino::new(TetroShape::Q), 8);
    assert_eq!(grid.get_highest_row(), 1);
    for col in 0..10 {
        let expected = col == 8 || col == 9;
        assert_eq!(grid.is_occupied(99, col), expected);
    }
    for row in 0..99 {
        for col in 0..10 {
            assert!(!grid.is_occupied(row, col));
        }
    }
}

#[test]
fn clearing_every_row_empties_the_well() {
    let mut grid = Grid::new();
    grid.place_tetromino(Tetromino::new(TetroShape::Q), 0);
    grid.place_tetromino(Tetromino::new(TetroShape::Q), 2);
    grid.place_tetromino(Tetromino::new(TetroShape::Q), 4);
    grid.place_tetromino(Tetromino::new(TetroShape::Q), 6);
    grid.place_tetromino(Tetromino::new(TetroShape::Q), 8);
    // Both rows of the squares fill completely and are cleared, leaving
    // a well that reports height 0: the high-water mark has moved past
    // the floor.
    assert_eq!(grid.get_highest_row(), 0);
    for row in 0..100 {
        for col in 0..10 {
            assert!(!grid.is_occupied(row, col));
        }
    }
}

#[test]
fn piece_lands_on_existing_stack() {
    let mut grid = Grid::new();
    grid.place_tetromino(Tetromino::new(TetroShape::Q), 0);
    assert_eq!(grid.get_highest_row(), 2);
    // The second square rests on top of the first, adding two more rows.
    grid.place_tetromino(Tetromino::new(TetroShape::Q), 0);
    assert_eq!(grid.get_highest_row(), 4);
    for row in 96..100 {
        for col in 0..10 {
            let expected = col == 0 || col == 1;
            assert_eq!(grid.is_occupied(row, col), expected);
        }
    }
}

#[test]
fn from_char_resolves_the_alphabet() {
    assert_eq!(TetroShape::from_char('Q'), Ok(TetroShape::Q));
    assert_eq!(TetroShape::from_char('Z'), Ok(TetroShape::Z));
    assert_eq!(TetroShape::from_char('S'), Ok(TetroShape::S));
    assert_eq!(TetroShape::from_char('T'), Ok(TetroShape::T));
    assert_eq!(TetroShape::from_char('I'), Ok(TetroShape::I));
    assert_eq!(TetroShape::from_char('L'), Ok(TetroShape::L));
    assert_eq!(TetroShape::from_char('J'), Ok(TetroShape::J));
}

#[test]
fn unknown_shape_rejected_without_touching_the_well() {
    let grid = Grid::new();
    // Resolution fails before any placement could happen, so the well is
    // exactly as freshly constructed.
    assert_eq!(TetroShape::from_char('X'), Err(TetrisError::UnknownShape));
    assert_eq!(TetroShape::from_char('q'), Err(TetrisError::UnknownShape));
    assert_eq!(grid.get_highest_row(), 1);
    for row in 0..100 {
        for col in 0..10 {
            assert!(!grid.is_occupied(row, col));
        }
    }
}

#[test]
fn run_sequence_matches_direct_placement() {
    let line1 = vec![(TetroShape::I, 0), (TetroShape::I, 4), (TetroShape::Q, 8)];
    assert_eq!(run_sequence(&line1), Ok(1));

    let line2 = vec![(TetroShape::T, 1), (TetroShape::Z, 3), (TetroShape::I, 4)];
    assert_eq!(run_sequence(&line2), Ok(4));

    let line3 = vec![
        (TetroShape::Q, 0),
        (TetroShape::I, 2),
        (TetroShape::I, 6),
        (TetroShape::I, 0),
        (TetroShape::I, 6),
        (TetroShape::I, 6),
        (TetroShape::Q, 2),
        (TetroShape::Q, 4),
    ];
    assert_eq!(run_sequence(&line3), Ok(3));
}

#[test]
fn run_sequence_of_nothing_reports_the_baseline() {
    let line: Vec<(TetroShape, usize)> = Vec::new();
    assert_eq!(run_sequence(&line), Ok(1));
}

#[test]
fn run_sequence_rejects_out_of_range_columns() {
    // An I piece spans columns 7 through 10: one past the right edge.
    let line = vec![(TetroShape::I, 7)];
    assert_eq!(run_sequence(&line), Err(TetrisError::OutOfBounds));

    let wide = vec![(TetroShape::Q, 9)];
    assert_eq!(run_sequence(&wide), Err(TetrisError::OutOfBounds));

    // The last legal columns are accepted.
    assert_eq!(run_sequence(&vec![(TetroShape::I, 6)]), Ok(1));
    assert_eq!(run_sequence(&vec![(TetroShape::Q, 8)]), Ok(2));
}

#[test]
fn replaying_a_sequence_is_deterministic() {
    let line = vec![
        (TetroShape::L, 0),
        (TetroShape::J, 3),
        (TetroShape::L, 5),
        (TetroShape::J, 8),
        (TetroShape::T, 1),
    ];
    let first = run_sequence(&line);
    let second = run_sequence(&line);
    assert_eq!(first, Ok(3));
    assert_eq!(first, second);

    let mut once = Grid::new();
    let mut again = Grid::new();
    for (shape, col) in &line {
        once.place_tetromino(Tetromino::new(*shape), *col);
        again.place_tetromino(Tetromino::new(*shape), *col);
    }
    for row in 0..100 {
        for col in 0..10 {
            assert_eq!(once.is_occupied(row, col), again.is_occupied(row, col));
        }
    }
}

#[test]
fn render_shows_the_bottom_rows() {
    let mut grid = Grid::new();
    grid.place_tetromino(Tetromino::new(TetroShape::I), 0);
    grid.place_tetromino(Tetromino::new(TetroShape::I), 4);
    grid.place_tetromino(Tetromino::new(TetroShape::Q), 8);

    let mut expected = String::new();
    for label in ["10", " 9", " 8", " 7", " 6", " 5", " 4", " 3", " 2"] {
        expected.push_str(label);
        expected.push_str(": ..........\n");
    }
    expected.push_str(" 1: ........XX\n");
    assert_eq!(grid.render(), expected);
}

#[test]
fn extents_match_the_footprints() {
    for shape in [
        TetroShape::Q,
        TetroShape::Z,
        TetroShape::S,
        TetroShape::T,
        TetroShape::I,
        TetroShape::L,
        TetroShape::J,
    ] {
        let piece = Tetromino::new(shape);
        let reference = Coord::new(50, 3);
        let coords = piece.get_relative_location(reference);
        let top = coords.iter().map(|c| 50 - c.get_row()).max().unwrap();
        let right = coords.iter().map(|c| c.get_col() - 3).max().unwrap();
        assert_eq!(shape.top_extent(), top);
        assert_eq!(shape.right_extent(), right);
    }
}
