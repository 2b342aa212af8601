use gridchart::color::Color;
use gridchart::grids::{
    BigGrid, FlippedGrid, GridError, GridId, GridOp, GridTrait, SimpleGrid, TiledGrid,
    MAX_GRID_HEIGHT, MAX_GRID_WIDTH,
};

#[test]
fn color_default_is_blank() {
    assert_eq!(Color::default(), Color::White);
}

#[test]
fn color_toggle_gives_the_other_mark() {
    assert_eq!(Color::White.toggle(), Color::Black);
    assert_eq!(Color::Black.toggle(), Color::White);
    assert_eq!(Color::Black.toggle().toggle(), Color::Black);
}

#[test]
fn dense_grid_reports_its_identity_and_size() {
    let grid = SimpleGrid::new(GridId::Back, 4, 7);
    assert_eq!(grid.grid_id(), GridId::Back);
    assert_eq!(grid.num_rows(), 4);
    assert_eq!(grid.num_cols(), 7);
    assert_eq!(grid.cells().len(), 28);
}

#[test]
fn dense_grid_untouched_cells_read_default() {
    let grid = SimpleGrid::new(GridId::Front, 3, 4);
    for row in 0..3 {
        for col in 0..4 {
            assert_eq!(grid.cell(row, col), Color::default());
        }
    }
}

#[test]
fn dense_grid_write_then_read() {
    let mut grid = SimpleGrid::new(GridId::Front, 3, 4);
    for row in 0..3 {
        for col in 0..4 {
            assert_eq!(grid.set_cell(row, col, Color::Black), Ok(()));
            assert_eq!(grid.cell(row, col), Color::Black);
            assert_eq!(grid.set_cell(row, col, Color::White), Ok(()));
            assert_eq!(grid.cell(row, col), Color::White);
        }
    }
}

#[test]
fn dense_grid_write_leaves_other_cells() {
    let mut grid = SimpleGrid::new(GridId::Front, 3, 4);
    assert_eq!(grid.set_cell(1, 2, Color::Black), Ok(()));
    for row in 0..3 {
        for col in 0..4 {
            let expected = if (row, col) == (1, 2) { Color::Black } else { Color::White };
            assert_eq!(grid.cell(row, col), expected);
        }
    }
}

#[test]
fn dense_grid_is_row_major() {
    let mut grid = SimpleGrid::new(GridId::Front, 4, 5);
    assert_eq!(grid.coords_to_index(0, 0), 0);
    assert_eq!(grid.coords_to_index(2, 3), 13);
    assert_eq!(grid.coords_to_index(3, 4), 19);
    assert_eq!(grid.set_cell(2, 3, Color::Black), Ok(()));
    let cells = grid.cells();
    for (index, cell) in cells.iter().enumerate() {
        let expected = if index == 13 { Color::Black } else { Color::White };
        assert_eq!(*cell, expected);
    }
}

#[test]
fn dense_grid_clear_resets_every_cell() {
    let mut grid = SimpleGrid::new(GridId::Front, 3, 3);
    assert_eq!(grid.set_cell(0, 0, Color::Black), Ok(()));
    assert_eq!(grid.set_cell(2, 1, Color::Black), Ok(()));
    assert_eq!(grid.clear(), Ok(()));
    assert_eq!(grid.num_rows(), 3);
    assert_eq!(grid.num_cols(), 3);
    for row in 0..3 {
        for col in 0..3 {
            assert_eq!(grid.cell(row, col), Color::White);
        }
    }
}

#[test]
fn dense_grid_bounds_check_accepts_every_coordinate() {
    let grid = SimpleGrid::new(GridId::Front, 3, 4);
    for row in 0..3 {
        for col in 0..4 {
            assert_eq!(grid.bounds_check(row, col), Ok(()));
        }
    }
}

#[test]
fn dense_grid_bounds_check_names_request_and_size() {
    let grid = SimpleGrid::new(GridId::Front, 3, 4);
    let too_low = GridError::OutOfBounds { row: 3, col: 0, num_rows: 3, num_cols: 4 };
    let too_far = GridError::OutOfBounds { row: 0, col: 4, num_rows: 3, num_cols: 4 };
    let both = GridError::OutOfBounds { row: 17, col: 23, num_rows: 3, num_cols: 4 };
    assert_eq!(grid.bounds_check(3, 0), Err(too_low));
    assert_eq!(grid.bounds_check(0, 4), Err(too_far));
    assert_eq!(grid.bounds_check(17, 23), Err(both));
    assert_eq!(both.message(), "Requested (17, 23) from grid with dimensions, (3, 4)");
}

#[test]
fn empty_dense_grid_has_no_coordinate() {
    let grid = SimpleGrid::new(GridId::Front, 0, 5);
    assert_eq!(grid.num_rows(), 0);
    assert_eq!(grid.num_cols(), 5);
    assert!(grid.bounds_check(0, 0).is_err());
    assert_eq!(grid.cells().len(), 0);
}

#[test]
fn dense_grid_round_trips_through_its_parts() {
    let mut grid = SimpleGrid::new(GridId::Back, 2, 3);
    assert_eq!(grid.set_cell(1, 0, Color::Black), Ok(()));
    let cells = grid.cells().clone();
    assert_eq!(
        cells,
        vec![Color::White, Color::White, Color::White, Color::Black, Color::White, Color::White]
    );
    let rebuilt = SimpleGrid::from_parts(grid.grid_id(), grid.num_rows(), grid.num_cols(), cells);
    let rebuilt = rebuilt.expect("the parts of a grid make a grid");
    assert_eq!(rebuilt.grid_id(), GridId::Back);
    assert_eq!(rebuilt.num_rows(), 2);
    assert_eq!(rebuilt.num_cols(), 3);
    for row in 0..2 {
        for col in 0..3 {
            assert_eq!(rebuilt.cell(row, col), grid.cell(row, col));
        }
    }
}

#[test]
fn dense_grid_rejects_parts_that_do_not_fit() {
    assert!(SimpleGrid::from_parts(GridId::Front, 2, 3, vec![Color::White; 5]).is_none());
    assert!(SimpleGrid::from_parts(GridId::Front, 2, 3, vec![Color::White; 7]).is_none());
    assert!(SimpleGrid::from_parts(GridId::Front, usize::MAX, 2, vec![]).is_none());
    assert!(SimpleGrid::from_parts(GridId::Front, 0, 3, vec![]).is_some());
}

#[test]
fn big_grid_has_room_for_thirty_by_thirty() {
    assert_eq!(MAX_GRID_HEIGHT, 30);
    assert_eq!(MAX_GRID_WIDTH, 30);
    let mut grid: BigGrid<Color> = BigGrid::new(GridId::Front, 30, 30);
    assert_eq!(grid.set_cell(29, 29, Color::Black), Ok(()));
    assert_eq!(grid.cell(29, 29), Color::Black);
    assert_eq!(grid.cell(0, 0), Color::White);
}

#[test]
fn big_grid_stride_is_the_maximum_width() {
    let grid: BigGrid<Color> = BigGrid::new(GridId::Front, 10, 10);
    assert_eq!(grid.coords_to_index(0, 0), 0);
    assert_eq!(grid.coords_to_index(1, 2), 32);
    assert_eq!(grid.coords_to_index(5, 5), 155);
    assert_eq!(grid.coords_to_index(29, 29), 899);
}

#[test]
fn big_grid_data_survives_shrink_and_grow() {
    let mut grid: BigGrid<Color> = BigGrid::new(GridId::Front, 10, 10);
    assert_eq!(grid.num_rows(), 10);
    assert_eq!(grid.num_cols(), 10);
    assert_eq!(grid.set_cell(5, 5, Color::Black), Ok(()));
    assert_eq!(grid.set_cell(1, 1, Color::Black), Ok(()));
    grid.set_height(3);
    grid.set_width(3);
    assert_eq!(grid.num_rows(), 3);
    assert_eq!(grid.num_cols(), 3);
    assert!(grid.bounds_check(5, 5).is_err());
    assert_eq!(grid.cell(1, 1), Color::Black);
    grid.set_height(10);
    grid.set_width(10);
    assert_eq!(grid.bounds_check(5, 5), Ok(()));
    assert_eq!(grid.cell(5, 5), Color::Black);
    assert_eq!(grid.cell(1, 1), Color::Black);
    assert_eq!(grid.cell(5, 4), Color::White);
}

#[test]
fn big_grid_sizes_change_independently() {
    let mut grid: BigGrid<Color> = BigGrid::new(GridId::Back, 4, 6);
    grid.set_height(9);
    assert_eq!((grid.num_rows(), grid.num_cols()), (9, 6));
    grid.set_width(2);
    assert_eq!((grid.num_rows(), grid.num_cols()), (9, 2));
    assert_eq!(grid.grid_id(), GridId::Back);
}

#[test]
fn big_grid_clear_wipes_outside_the_window_too() {
    let mut grid: BigGrid<Color> = BigGrid::new(GridId::Front, 10, 10);
    assert_eq!(grid.set_cell(5, 5, Color::Black), Ok(()));
    assert_eq!(grid.set_cell(0, 0, Color::Black), Ok(()));
    grid.set_height(3);
    grid.set_width(3);
    assert_eq!(grid.clear(), Ok(()));
    assert_eq!(grid.cell(0, 0), Color::White);
    grid.set_height(10);
    grid.set_width(10);
    assert_eq!(grid.cell(5, 5), Color::White);
}

#[test]
fn big_grid_bounds_check_goes_by_the_logical_size() {
    let grid: BigGrid<Color> = BigGrid::new(GridId::Front, 10, 12);
    assert_eq!(grid.bounds_check(9, 11), Ok(()));
    assert_eq!(
        grid.bounds_check(10, 0),
        Err(GridError::OutOfBounds { row: 10, col: 0, num_rows: 10, num_cols: 12 })
    );
    assert_eq!(
        grid.bounds_check(0, 12),
        Err(GridError::OutOfBounds { row: 0, col: 12, num_rows: 10, num_cols: 12 })
    );
}

#[test]
fn big_grid_holds_any_default_constructible_cell() {
    let mut grid: BigGrid<u8> = BigGrid::new(GridId::Front, 2, 2);
    assert_eq!(grid.cell(1, 1), 0);
    assert_eq!(grid.set_cell(1, 1, 200), Ok(()));
    assert_eq!(grid.cell(1, 1), 200);
    assert_eq!(grid.clear(), Ok(()));
    assert_eq!(grid.cell(1, 1), 0);
}

fn three_by_three() -> SimpleGrid {
    let mut base = SimpleGrid::new(GridId::Front, 3, 3);
    assert_eq!(base.set_cell(1, 1, Color::Black), Ok(()));
    assert_eq!(base.set_cell(0, 2, Color::Black), Ok(()));
    base
}

#[test]
fn tiling_two_by_two_over_three_by_three() {
    let base = three_by_three();
    let tiled = TiledGrid::with_repeats(&base, 2, 2);
    assert_eq!(tiled.num_rows(), 6);
    assert_eq!(tiled.num_cols(), 6);
    assert_eq!(tiled.cell(4, 1), base.cell(1, 1));
    assert_eq!(tiled.cell(4, 1), Color::Black);
    assert_eq!(tiled.cell(3, 5), Color::Black);
    assert_eq!(tiled.cell(3, 4), Color::White);
    for row in 0..6 {
        for col in 0..6 {
            assert_eq!(tiled.cell(row, col), base.cell(row % 3, col % 3));
        }
    }
}

#[test]
fn tiling_repeats_each_axis_by_its_own_factor() {
    let base = SimpleGrid::new(GridId::Back, 2, 5);
    let tiled = TiledGrid::with_repeats(&base, 4, 1);
    assert_eq!(tiled.num_rows(), 8);
    assert_eq!(tiled.num_cols(), 5);
    assert_eq!(tiled.grid_id(), GridId::Back);
}

#[test]
fn tiling_repeats_three_times_unless_told() {
    let base = three_by_three();
    let tiled = TiledGrid::new(&base);
    assert_eq!(tiled.num_rows(), 9);
    assert_eq!(tiled.num_cols(), 9);
    assert_eq!(tiled.to_base(7, 5), (1, 2));
    assert_eq!(tiled.cell(7, 4), Color::Black);
}

#[test]
fn tiling_refuses_every_mutation() {
    let base = three_by_three();
    let mut tiled = TiledGrid::with_repeats(&base, 2, 2);
    let no_write = Err(GridError::Unsupported { operation: GridOp::SetCell });
    let no_clear = Err(GridError::Unsupported { operation: GridOp::Clear });
    assert_eq!(tiled.set_cell(0, 0, Color::Black), no_write);
    assert_eq!(tiled.set_cell(4, 1, Color::White), no_write);
    assert_eq!(tiled.set_cell(100, 100, Color::Black), no_write);
    assert_eq!(tiled.clear(), no_clear);
    assert_eq!(tiled.clear(), no_clear);
    assert_eq!(tiled.cell(0, 0), Color::White);
    assert_eq!(tiled.cell(4, 1), Color::Black);
    assert_eq!(base.cell(1, 1), Color::Black);
}

#[test]
fn mirror_swaps_the_outer_columns() {
    let mut base = SimpleGrid::new(GridId::Back, 3, 5);
    assert_eq!(base.set_cell(0, 4, Color::Black), Ok(()));
    assert_eq!(base.set_cell(1, 0, Color::Black), Ok(()));
    assert_eq!(base.set_cell(2, 1, Color::Black), Ok(()));
    let flipped = FlippedGrid::new(&base);
    assert_eq!(flipped.num_rows(), 3);
    assert_eq!(flipped.num_cols(), 5);
    assert_eq!(flipped.grid_id(), GridId::Back);
    for row in 0..3 {
        assert_eq!(flipped.cell(row, 0), base.cell(row, 4));
        assert_eq!(flipped.cell(row, 4), base.cell(row, 0));
        assert_eq!(flipped.cell(row, 2), base.cell(row, 2));
    }
    assert_eq!(flipped.cell(0, 0), Color::Black);
    assert_eq!(flipped.cell(1, 4), Color::Black);
    assert_eq!(flipped.cell(2, 3), Color::Black);
    assert_eq!(flipped.cell(2, 1), Color::White);
    assert_eq!(flipped.to_base(2, 3), (2, 1));
}

#[test]
fn mirror_of_a_mirror_is_the_base() {
    let base = three_by_three();
    let flipped = FlippedGrid::new(&base);
    let back = FlippedGrid::new(&flipped);
    for row in 0..3 {
        for col in 0..3 {
            assert_eq!(back.cell(row, col), base.cell(row, col));
        }
    }
}

#[test]
fn mirror_refuses_every_mutation() {
    let base = three_by_three();
    let mut flipped = FlippedGrid::new(&base);
    let no_write = Err(GridError::Unsupported { operation: GridOp::SetCell });
    let no_clear = Err(GridError::Unsupported { operation: GridOp::Clear });
    assert_eq!(flipped.set_cell(1, 1, Color::White), no_write);
    assert_eq!(flipped.set_cell(9, 9, Color::White), no_write);
    assert_eq!(flipped.clear(), no_clear);
    assert_eq!(flipped.cell(1, 1), Color::Black);
    assert_eq!(flipped.cell(0, 0), Color::Black);
}

#[test]
fn unsupported_names_the_operation() {
    let no_write = GridError::Unsupported { operation: GridOp::SetCell };
    let no_clear = GridError::Unsupported { operation: GridOp::Clear };
    assert_eq!(no_write.message(), "set_cell is not supported: the grid is a read-only view");
    assert_eq!(no_clear.message(), "clear is not supported: the grid is a read-only view");
}
