//! The mirroring view: a base grid with its columns reversed.

use crate::color::Color;
use crate::grids::gridtrait::{GridError, GridId, GridOp, GridTrait, GridView};
use vstd::prelude::*;

verus! {

impl<T> GridView<T> {
    /// The grid seen from behind: column `col` shows column
    /// `cols - 1 - col`, rows pass through.
    pub open spec fn mirrored(self) -> GridView<T> {
        GridView {
            id: self.id,
            rows: self.rows,
            cols: self.cols,
            cells: Map::new(
                |rc: (int, int)| 0 <= rc.0 < self.rows && 0 <= rc.1 < self.cols,
                |rc: (int, int)| self.cells[(rc.0, self.cols - 1 - rc.1)],
            ),
        }
    }
}

/// A coordinate of the mirror image reads the reflected column of the base,
/// which is a coordinate of the base.
pub proof fn lemma_mirrored_reads<T>(base: GridView<T>, row: int, col: int)
    requires
        base.in_bounds(row, col),
    ensures
        base.mirrored().wf(),
        base.mirrored().same_shape(base),
        base.in_bounds(row, base.cols - 1 - col),
        base.mirrored().at(row, col) == base.at(row, base.cols - 1 - col),
{
}

/// The first and the last column change places.
pub proof fn lemma_mirrored_edges<T>(base: GridView<T>, row: int)
    requires
        0 <= row < base.rows,
        base.cols > 0,
    ensures
        base.mirrored().at(row, 0) == base.at(row, base.cols - 1),
        base.mirrored().at(row, base.cols - 1) == base.at(row, 0),
{
}

/// A read-only view that shows a borrowed base grid with its columns
/// reversed.
pub struct FlippedGrid<'a, G> where G: GridTrait {
    grid: &'a G,
}

impl<'a, G> FlippedGrid<'a, G> where G: GridTrait {
    /// The base grid.
    pub closed spec fn base(&self) -> &G {
        self.grid
    }

    /// The mirror image of `grid`.
    pub fn new(grid: &'a G) -> (f: FlippedGrid<'a, G>)
        requires
            grid.wf(),
        ensures
            f.wf(),
            f.base() == grid,
            f@ == grid@.mirrored(),
    {
        FlippedGrid { grid }
    }

    /// The coordinate of the base that `(row, col)` shows.
    pub fn to_base(&self, row: usize, col: usize) -> (rc: (usize, usize))
        requires
            self.wf(),
            self@.in_bounds(row as int, col as int),
        ensures
            rc.0 == row,
            rc.1 == self.base()@.cols - 1 - col,
            self.base()@.in_bounds(rc.0 as int, rc.1 as int),
    {
        (row, self.grid.num_cols() - 1 - col)
    }
}

impl<'a, G> GridTrait for FlippedGrid<'a, G> where G: GridTrait {
    closed spec fn wf(&self) -> bool {
        self.grid.wf()
    }

    closed spec fn view(&self) -> GridView<Color> {
        self.grid@.mirrored()
    }

    open spec fn writable(&self) -> bool {
        false
    }

    proof fn lemma_view_wf(&self) {
    }

    fn grid_id(&self) -> (id: GridId) {
        self.grid.grid_id()
    }

    fn num_rows(&self) -> (n: usize) {
        self.grid.num_rows()
    }

    fn num_cols(&self) -> (n: usize) {
        self.grid.num_cols()
    }

    fn cell(&self, row: usize, col: usize) -> (c: Color)
        ensures
            c == self.base()@.at(row as int, self.base()@.cols - 1 - col),
    {
        let (base_row, base_col) = self.to_base(row, col);
        self.grid.cell(base_row, base_col)
    }

    fn set_cell(&mut self, _row: usize, _col: usize, _value: Color) -> (r: Result<(), GridError>)
        ensures
            *final(self) == *old(self),
    {
        Err(GridError::Unsupported { operation: GridOp::SetCell })
    }

    fn clear(&mut self) -> (r: Result<(), GridError>)
        ensures
            *final(self) == *old(self),
    {
        Err(GridError::Unsupported { operation: GridOp::Clear })
    }
}

} // verus!
