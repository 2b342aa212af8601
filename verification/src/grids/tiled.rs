//! The tiling view: a base grid repeated along both axes.

use crate::color::Color;
use crate::grids::gridtrait::{GridError, GridId, GridOp, GridTrait, GridView};
use vstd::prelude::*;

verus! {

impl<T> GridView<T> {
    /// The grid repeated `repeat_row` times downwards and `repeat_col` times
    /// across: each axis wraps around the base on its own.
    pub open spec fn tiled(self, repeat_row: nat, repeat_col: nat) -> GridView<T> {
        GridView {
            id: self.id,
            rows: repeat_row * self.rows,
            cols: repeat_col * self.cols,
            cells: Map::new(
                |rc: (int, int)|
                    0 <= rc.0 < repeat_row * self.rows && 0 <= rc.1 < repeat_col * self.cols,
                |rc: (int, int)| self.cells[(rc.0 % (self.rows as int), rc.1 % (self.cols as int))],
            ),
        }
    }
}

/// A coordinate of the tiling lands, by remainder on each axis, on a
/// coordinate of the base, and the tiling reads there.
pub proof fn lemma_tiled_reads<T>(
    base: GridView<T>,
    repeat_row: nat,
    repeat_col: nat,
    row: int,
    col: int,
)
    requires
        base.tiled(repeat_row, repeat_col).in_bounds(row, col),
    ensures
        base.rows > 0,
        base.cols > 0,
        base.in_bounds(row % (base.rows as int), col % (base.cols as int)),
        base.tiled(repeat_row, repeat_col).at(row, col) == base.at(
            row % (base.rows as int),
            col % (base.cols as int),
        ),
        base.tiled(repeat_row, repeat_col).wf(),
{
    assert(base.rows > 0) by (nonlinear_arith)
        requires
            0 <= row < repeat_row * base.rows,
    ;
    assert(base.cols > 0) by (nonlinear_arith)
        requires
            0 <= col < repeat_col * base.cols,
    ;
}

/// A read-only view that repeats a borrowed base grid.
pub struct TiledGrid<'a, G> where G: GridTrait {
    grid: &'a G,
    repeat_row: u8,
    repeat_col: u8,
}

impl<'a, G> TiledGrid<'a, G> where G: GridTrait {
    /// The base grid.
    pub closed spec fn base(&self) -> &G {
        self.grid
    }

    /// How many times the base is repeated downwards.
    pub closed spec fn row_repeat(&self) -> nat {
        self.repeat_row as nat
    }

    /// How many times the base is repeated across.
    pub closed spec fn col_repeat(&self) -> nat {
        self.repeat_col as nat
    }

    /// The view that repeats `grid` three times along each axis.
    pub fn new(grid: &'a G) -> (t: TiledGrid<'a, G>)
        requires
            grid.wf(),
            3 * grid@.rows <= usize::MAX,
            3 * grid@.cols <= usize::MAX,
        ensures
            t.wf(),
            t.base() == grid,
            t.row_repeat() == 3,
            t.col_repeat() == 3,
            t@ == grid@.tiled(3, 3),
    {
        TiledGrid { grid, repeat_row: 3, repeat_col: 3 }
    }

    /// The view that repeats `grid` `repeat_row` times downwards and
    /// `repeat_col` times across.
    pub fn with_repeats(grid: &'a G, repeat_row: u8, repeat_col: u8) -> (t: TiledGrid<'a, G>)
        requires
            grid.wf(),
            repeat_row * grid@.rows <= usize::MAX,
            repeat_col * grid@.cols <= usize::MAX,
        ensures
            t.wf(),
            t.base() == grid,
            t.row_repeat() == repeat_row,
            t.col_repeat() == repeat_col,
            t@ == grid@.tiled(repeat_row as nat, repeat_col as nat),
    {
        TiledGrid { grid, repeat_row, repeat_col }
    }

    /// The coordinate of the base that `(row, col)` shows.
    pub fn to_base(&self, row: usize, col: usize) -> (rc: (usize, usize))
        requires
            self.wf(),
            self@.in_bounds(row as int, col as int),
        ensures
            rc.0 == (row as int) % (self.base()@.rows as int),
            rc.1 == (col as int) % (self.base()@.cols as int),
            self.base()@.in_bounds(rc.0 as int, rc.1 as int),
    {
        proof {
            lemma_tiled_reads(
                self.grid@,
                self.repeat_row as nat,
                self.repeat_col as nat,
                row as int,
                col as int,
            );
        }
        (row % self.grid.num_rows(), col % self.grid.num_cols())
    }
}

impl<'a, G> GridTrait for TiledGrid<'a, G> where G: GridTrait {
    closed spec fn wf(&self) -> bool {
        &&& self.grid.wf()
        &&& self.repeat_row * self.grid@.rows <= usize::MAX
        &&& self.repeat_col * self.grid@.cols <= usize::MAX
    }

    closed spec fn view(&self) -> GridView<Color> {
        self.grid@.tiled(self.repeat_row as nat, self.repeat_col as nat)
    }

    open spec fn writable(&self) -> bool {
        false
    }

    proof fn lemma_view_wf(&self) {
    }

    fn grid_id(&self) -> (id: GridId) {
        self.grid.grid_id()
    }

    fn num_rows(&self) -> (n: usize) {
        self.repeat_row as usize * self.grid.num_rows()
    }

    fn num_cols(&self) -> (n: usize) {
        self.repeat_col as usize * self.grid.num_cols()
    }

    fn cell(&self, row: usize, col: usize) -> (c: Color)
        ensures
            c == self.base()@.at(
                (row as int) % (self.base()@.rows as int),
                (col as int) % (self.base()@.cols as int),
            ),
    {
        let (base_row, base_col) = self.to_base(row, col);
        self.grid.cell(base_row, base_col)
    }

    fn set_cell(&mut self, _row: usize, _col: usize, _value: Color) -> (r: Result<(), GridError>)
        ensures
            *final(self) == *old(self),
    {
        Err(GridError::Unsupported { operation: GridOp::SetCell })
    }

    fn clear(&mut self) -> (r: Result<(), GridError>)
        ensures
            *final(self) == *old(self),
    {
        Err(GridError::Unsupported { operation: GridOp::Clear })
    }
}

} // verus!
