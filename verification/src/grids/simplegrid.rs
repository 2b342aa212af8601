//! The dense grid: a backing store of exactly `height * width` cells.

use crate::color::Color;
use crate::grids::gridtrait::{is_default, GridError, GridId, GridTrait, GridView};
use vstd::prelude::*;

verus! {

/// The place of `(row, col)` in a row-major store whose rows are `stride` long.
pub open spec fn row_major_index(row: int, col: int, stride: int) -> int {
    row * stride + col
}

/// A coordinate within `height` rows of `stride` columns has its place
/// within the first `height * stride` slots.
pub proof fn lemma_row_major_in_range(row: int, col: int, height: int, stride: int)
    requires
        0 <= row < height,
        0 <= col < stride,
    ensures
        0 <= row_major_index(row, col, stride) < height * stride,
{
    assert(row * stride + col < height * stride) by (nonlinear_arith)
        requires
            0 <= row < height,
            0 <= col < stride,
    ;
    assert(0 <= row * stride + col) by (nonlinear_arith)
        requires
            0 <= row,
            0 <= col,
            0 < stride,
    ;
}

/// Two coordinates with columns below the stride share a place only if they
/// are the same coordinate.
pub proof fn lemma_row_major_injective(r1: int, c1: int, r2: int, c2: int, stride: int)
    requires
        0 <= c1 < stride,
        0 <= c2 < stride,
        row_major_index(r1, c1, stride) == row_major_index(r2, c2, stride),
    ensures
        r1 == r2,
        c1 == c2,
{
    assert(r1 == r2 && c1 == c2) by (nonlinear_arith)
        requires
            0 <= c1 < stride,
            0 <= c2 < stride,
            r1 * stride + c1 == r2 * stride + c2,
    ;
}

/// A grid that owns a store sized to its dimensions.
pub struct SimpleGrid {
    id: GridId,
    cells: Vec<Color>,
    height: usize,
    width: usize,
}

impl SimpleGrid {
    /// The row-major cell sequence.
    pub closed spec fn store(&self) -> Seq<Color> {
        self.cells@
    }

    /// The model of a dense grid with the given parts.
    pub open spec fn model(id: GridId, height: nat, width: nat, store: Seq<Color>) -> GridView<
        Color,
    > {
        GridView {
            id,
            rows: height,
            cols: width,
            cells: Map::new(
                |rc: (int, int)| 0 <= rc.0 < height && 0 <= rc.1 < width,
                |rc: (int, int)| store[row_major_index(rc.0, rc.1, width as int)],
            ),
        }
    }

    /// A grid of `height` rows and `width` columns, every cell blank.
    pub fn new(id: GridId, height: usize, width: usize) -> (g: SimpleGrid)
        requires
            height * width <= usize::MAX,
        ensures
            g.wf(),
            g@ == GridView::filled(id, height as nat, width as nat, Color::White),
            g.store() == Seq::new((height * width) as nat, |i: int| Color::White),
    {
        let n = height * width;
        let mut cells: Vec<Color> = Vec::new();
        let mut i: usize = 0;
        while i < n
            invariant
                i <= n,
                cells@ == Seq::new(i as nat, |k: int| Color::White),
            decreases n - i,
        {
            cells.push(Color::default());
            i += 1;
        }
        let g = SimpleGrid { id, cells, height, width };
        proof {
            let filled = GridView::filled(id, height as nat, width as nat, Color::White);
            assert forall|rc: (int, int)| #[trigger] filled.cells.dom().contains(rc) implies g@.cells[rc]
                == filled.cells[rc] by {
                lemma_row_major_in_range(rc.0, rc.1, height as int, width as int);
            }
            assert(g@.cells.dom() =~= filled.cells.dom());
            assert(g@.cells =~= filled.cells);
        }
        g
    }

    /// A grid is what its parts say: the model of its identity, its
    /// dimensions and its cell sequence. So the parts of a grid, handed to
    /// `from_parts`, give the same grid back.
    pub proof fn lemma_parts_round_trip(&self)
        requires
            self.wf(),
        ensures
            self.store().len() == self@.rows * self@.cols,
            self@ == Self::model(self@.id, self@.rows, self@.cols, self.store()),
    {
    }

    /// Rebuilds a grid from its serializable parts. The parts are accepted if
    /// and only if the sequence holds one cell for each coordinate.
    pub fn from_parts(id: GridId, height: usize, width: usize, cells: Vec<Color>) -> (r: Option<
        SimpleGrid,
    >)
        ensures
            r is Some <==> cells@.len() == height * width,
            r matches Some(g) ==> g.wf() && g.store() == cells@ && g@ == Self::model(
                id,
                height as nat,
                width as nat,
                cells@,
            ),
    {
        let len = cells.len();
        match height.checked_mul(width) {
            Some(n) => {
                if len == n {
                    Some(SimpleGrid { id, cells, height, width })
                } else {
                    None
                }
            },
            None => None,
        }
    }

    /// The row-major cell sequence, as persisted alongside the identity and
    /// the dimensions.
    pub fn cells(&self) -> (cells: &Vec<Color>)
        requires
            self.wf(),
        ensures
            cells@ == self.store(),
            cells@.len() == self@.rows * self@.cols,
            forall|row: int, col: int|
                self@.in_bounds(row, col) ==> #[trigger] self@.at(row, col) == cells@[row_major_index(
                    row,
                    col,
                    self@.cols as int,
                )],
    {
        &self.cells
    }

    /// Tells whether `(row, col)` is a coordinate of the grid, and if it is
    /// not, names the request and the dimensions.
    pub fn bounds_check(&self, row: usize, col: usize) -> (r: Result<(), GridError>)
        requires
            self.wf(),
        ensures
            r is Ok <==> self@.in_bounds(row as int, col as int),
            r is Err ==> r == Err::<(), GridError>(
                GridError::OutOfBounds {
                    row,
                    col,
                    num_rows: self@.rows as usize,
                    num_cols: self@.cols as usize,
                },
            ),
    {
        if row >= self.num_rows() || col >= self.num_cols() {
            Err(
                GridError::OutOfBounds {
                    row,
                    col,
                    num_rows: self.num_rows(),
                    num_cols: self.num_cols(),
                },
            )
        } else {
            Ok(())
        }
    }

    /// The slot of `(row, col)` in the store.
    pub fn coords_to_index(&self, row: usize, col: usize) -> (index: usize)
        requires
            self.wf(),
            self@.in_bounds(row as int, col as int),
        ensures
            index == row_major_index(row as int, col as int, self@.cols as int),
            index < self.store().len(),
    {
        proof {
            lemma_row_major_in_range(row as int, col as int, self.height as int, self.width as int);
            assert(0 <= row * self.width) by (nonlinear_arith);
            assert(self.cells.len() == self.height * self.width);
        }
        row * self.width + col
    }
}

impl GridTrait for SimpleGrid {
    closed spec fn wf(&self) -> bool {
        self.cells@.len() == self.height * self.width
    }

    closed spec fn view(&self) -> GridView<Color> {
        Self::model(self.id, self.height as nat, self.width as nat, self.cells@)
    }

    open spec fn writable(&self) -> bool {
        true
    }

    proof fn lemma_view_wf(&self) {
    }

    fn grid_id(&self) -> (id: GridId) {
        self.id
    }

    fn num_rows(&self) -> (n: usize) {
        self.height
    }

    fn num_cols(&self) -> (n: usize) {
        self.width
    }

    fn cell(&self, row: usize, col: usize) -> (c: Color) {
        let index = self.coords_to_index(row, col);
        self.cells[index]
    }

    fn set_cell(&mut self, row: usize, col: usize, value: Color) -> (r: Result<(), GridError>)
        ensures
            final(self).store() == old(self).store().update(
                row_major_index(row as int, col as int, old(self)@.cols as int),
                value,
            ),
    {
        let index = self.coords_to_index(row, col);
        self.cells[index] = value;
        proof {
            let before = old(self)@;
            let after = self@;
            let width = self.width as int;
            assert forall|rc: (int, int)| #[trigger]
                after.cells.dom().contains(rc) implies after.cells[rc] == before.write(
                row as int,
                col as int,
                value,
            ).cells[rc] by {
                lemma_row_major_in_range(rc.0, rc.1, self.height as int, width);
                if rc != (row as int, col as int) {
                    if row_major_index(rc.0, rc.1, width) == index {
                        lemma_row_major_injective(rc.0, rc.1, row as int, col as int, width);
                    }
                }
            }
            assert(after.cells =~= before.write(row as int, col as int, value).cells);
        }
        Ok(())
    }

    fn clear(&mut self) -> (r: Result<(), GridError>)
        ensures
            final(self)@ == GridView::filled(
                old(self)@.id,
                old(self)@.rows,
                old(self)@.cols,
                Color::White,
            ),
            final(self).store() == Seq::new(old(self).store().len(), |i: int| Color::White),
    {
        let n = self.cells.len();
        let mut index: usize = 0;
        while index < n
            invariant
                index <= n,
                n == self.cells@.len(),
                self.id == old(self).id,
                self.height == old(self).height,
                self.width == old(self).width,
                self.wf(),
                forall|k: int|
                    0 <= k < index ==> self.cells@[k] == Color::White && is_default(
                        #[trigger] self.cells@[k],
                    ),
            decreases n - index,
        {
            let blank = Color::default();
            self.cells[index] = blank;
            index += 1;
        }
        proof {
            let filled = GridView::filled(
                old(self)@.id,
                old(self)@.rows,
                old(self)@.cols,
                Color::White,
            );
            assert forall|rc: (int, int)| #[trigger] filled.cells.dom().contains(rc) implies self@.cells[rc]
                == filled.cells[rc] by {
                lemma_row_major_in_range(rc.0, rc.1, self.height as int, self.width as int);
            }
            assert(self@.cells.dom() =~= filled.cells.dom());
            assert(self@.cells =~= filled.cells);
            assert forall|row: int, col: int| self@.in_bounds(row, col) implies is_default(
                #[trigger] self@.cells[(row, col)],
            ) by {
                lemma_row_major_in_range(row, col, self.height as int, self.width as int);
            }
        }
        Ok(())
    }
}

} // verus!
