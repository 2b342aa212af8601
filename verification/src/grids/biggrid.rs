//! The bounded-capacity grid: a store sized to the largest supported grid,
//! so that the logical size can change without losing what was drawn.

use crate::grids::gridtrait::{is_default, GridError, GridId, GridTrait, GridView};
use vstd::prelude::*;

verus! {

/// The largest supported number of rows.
pub const MAX_GRID_HEIGHT: usize = 30;

/// The largest supported number of columns, and the stride of the store.
pub const MAX_GRID_WIDTH: usize = 30;

/// A grid whose store always has room for `MAX_GRID_HEIGHT` rows of
/// `MAX_GRID_WIDTH` cells. The logical dimensions select a window of it.
pub struct BigGrid<T> {
    id: GridId,
    cells: Vec<T>,
    height: usize,
    width: usize,
}

impl<T: Copy + Default> BigGrid<T> {
    /// The whole store as a grid of the maximum dimensions: what the cells
    /// hold within the logical window and outside it.
    pub closed spec fn backing(&self) -> GridView<T> {
        GridView {
            id: self.id,
            rows: MAX_GRID_HEIGHT as nat,
            cols: MAX_GRID_WIDTH as nat,
            cells: Map::new(
                |rc: (int, int)| 0 <= rc.0 < MAX_GRID_HEIGHT && 0 <= rc.1 < MAX_GRID_WIDTH,
                |rc: (int, int)| self.cells@[rc.0 * MAX_GRID_WIDTH + rc.1],
            ),
        }
    }

    /// The store always has the maximum dimensions, whatever the logical
    /// ones, and the grid is the window of the store that the logical
    /// dimensions select.
    pub proof fn lemma_backing_shape(&self)
        ensures
            self.backing().rows == MAX_GRID_HEIGHT,
            self.backing().cols == MAX_GRID_WIDTH,
            self.backing().wf(),
            self.backing().id == self@.id,
            self@ == self.backing().window(self@.rows, self@.cols),
    {
    }

    /// A grid of `height` rows and `width` columns, every slot of the store
    /// holding a default value.
    pub fn new(id: GridId, height: usize, width: usize) -> (g: BigGrid<T>)
        requires
            height <= MAX_GRID_HEIGHT,
            width <= MAX_GRID_WIDTH,
        ensures
            g.wf(),
            g@ == g.backing().window(height as nat, width as nat),
            g.backing().id == id,
            g.backing().rows == MAX_GRID_HEIGHT,
            g.backing().cols == MAX_GRID_WIDTH,
            g.backing().blank(),
            g@.blank(),
    {
        let n = MAX_GRID_WIDTH * MAX_GRID_HEIGHT;
        let mut cells: Vec<T> = Vec::new();
        let mut i: usize = 0;
        while i < n
            invariant
                i <= n,
                n == MAX_GRID_WIDTH * MAX_GRID_HEIGHT,
                cells@.len() == i,
                forall|k: int| 0 <= k < i ==> is_default(#[trigger] cells@[k]),
            decreases n - i,
        {
            cells.push(T::default());
            i += 1;
        }
        BigGrid { id, cells, height, width }
    }

    /// Sets the logical number of rows. The store is left as it is.
    pub fn set_height(&mut self, height: usize)
        requires
            old(self).wf(),
            height <= MAX_GRID_HEIGHT,
        ensures
            final(self).wf(),
            final(self).backing() == old(self).backing(),
            final(self)@ == old(self).backing().window(height as nat, old(self)@.cols),
    {
        self.height = height;
    }

    /// Sets the logical number of columns. The store is left as it is.
    pub fn set_width(&mut self, width: usize)
        requires
            old(self).wf(),
            width <= MAX_GRID_WIDTH,
        ensures
            final(self).wf(),
            final(self).backing() == old(self).backing(),
            final(self)@ == old(self).backing().window(old(self)@.rows, width as nat),
    {
        self.width = width;
    }

    /// Tells whether `(row, col)` is a coordinate of the logical window, and
    /// if it is not, names the request and the logical dimensions.
    pub fn bounds_check(&self, row: usize, col: usize) -> (r: Result<(), GridError>)
        requires
            self.wf(),
        ensures
            r is Ok <==> self@.in_bounds(row as int, col as int),
            r is Err ==> r == Err::<(), GridError>(
                GridError::OutOfBounds {
                    row,
                    col,
                    num_rows: self@.rows as usize,
                    num_cols: self@.cols as usize,
                },
            ),
    {
        if row >= self.height || col >= self.width {
            Err(GridError::OutOfBounds { row, col, num_rows: self.height, num_cols: self.width })
        } else {
            Ok(())
        }
    }

    /// The slot of `(row, col)` in the store. The stride is the maximum
    /// width, whatever the logical width.
    pub fn coords_to_index(&self, row: usize, col: usize) -> (index: usize)
        requires
            row < MAX_GRID_HEIGHT,
            col < MAX_GRID_WIDTH,
        ensures
            index == row * MAX_GRID_WIDTH + col,
            index < MAX_GRID_HEIGHT * MAX_GRID_WIDTH,
    {
        row * MAX_GRID_WIDTH + col
    }
}

impl<T: Copy + Default> GridTrait<T> for BigGrid<T> {
    closed spec fn wf(&self) -> bool {
        &&& self.cells@.len() == MAX_GRID_HEIGHT * MAX_GRID_WIDTH
        &&& self.height <= MAX_GRID_HEIGHT
        &&& self.width <= MAX_GRID_WIDTH
    }

    closed spec fn view(&self) -> GridView<T> {
        self.backing().window(self.height as nat, self.width as nat)
    }

    open spec fn writable(&self) -> bool {
        true
    }

    proof fn lemma_view_wf(&self) {
    }

    fn grid_id(&self) -> (id: GridId) {
        self.id
    }

    fn num_rows(&self) -> (n: usize) {
        self.height
    }

    fn num_cols(&self) -> (n: usize) {
        self.width
    }

    fn cell(&self, row: usize, col: usize) -> (c: T) {
        let index = self.coords_to_index(row, col);
        self.cells[index]
    }

    /// Writes within the logical window; the rest of the store keeps what
    /// it held.
    fn set_cell(&mut self, row: usize, col: usize, value: T) -> (r: Result<(), GridError>)
        ensures
            final(self).backing() == old(self).backing().write(row as int, col as int, value),
    {
        let index = self.coords_to_index(row, col);
        self.cells[index] = value;
        proof {
            let wrote = old(self).backing().write(row as int, col as int, value);
            assert(self.backing().cells.dom() =~= wrote.cells.dom());
            assert(self.backing().cells =~= wrote.cells);
            let seen = old(self)@.write(row as int, col as int, value);
            assert(self@.cells.dom() =~= seen.cells.dom());
            assert(self@.cells =~= seen.cells);
        }
        Ok(())
    }

    /// Resets the whole store, the slots outside the logical window too.
    fn clear(&mut self) -> (r: Result<(), GridError>)
        ensures
            final(self).backing().same_shape(old(self).backing()),
            final(self).backing().blank(),
    {
        let n = self.cells.len();
        let mut index: usize = 0;
        while index < n
            invariant
                index <= n,
                n == self.cells@.len(),
                self.id == old(self).id,
                self.height == old(self).height,
                self.width == old(self).width,
                self.wf(),
                forall|k: int| 0 <= k < index ==> is_default(#[trigger] self.cells@[k]),
            decreases n - index,
        {
            let blank = T::default();
            self.cells[index] = blank;
            index += 1;
        }
        Ok(())
    }
}

/// Resizing loses nothing: a cell of the store that lies within a window
/// reads in the window as it reads in the store, whatever windows were
/// selected before.
pub proof fn lemma_window_reads_store<T>(store: GridView<T>, rows: nat, cols: nat, row: int, col: int)
    requires
        0 <= row < rows,
        0 <= col < cols,
    ensures
        store.window(rows, cols).wf(),
        store.window(rows, cols).at(row, col) == store.at(row, col),
{
}

/// A shrink followed by a grow recovers the cells: any two windows of one
/// store agree wherever both reach.
pub proof fn lemma_windows_agree<T>(
    store: GridView<T>,
    rows1: nat,
    cols1: nat,
    rows2: nat,
    cols2: nat,
    row: int,
    col: int,
)
    requires
        0 <= row < rows1,
        0 <= row < rows2,
        0 <= col < cols1,
        0 <= col < cols2,
    ensures
        store.window(rows1, cols1).at(row, col) == store.window(rows2, cols2).at(row, col),
{
}

} // verus!
