//! The grid capability and its mathematical model.

use crate::color::Color;
use crate::decimal::{decimal_digits, decimal_string};
use vstd::prelude::*;
use vstd::string::StringExecFns;

verus! {

/// Tells sibling grids of one presentation apart.
#[derive(Clone, Copy, PartialEq, Eq, Structural, Debug, Hash)]
pub enum GridId {
    Front,
    Back,
}

/// A mutating operation of a grid.
#[derive(Clone, Copy, PartialEq, Eq, Structural, Debug, Hash)]
pub enum GridOp {
    SetCell,
    Clear,
}

/// Why a grid turned a request down.
#[derive(Clone, Copy, PartialEq, Eq, Structural, Debug, Hash)]
pub enum GridError {
    /// The coordinate lies outside the grid's dimensions.
    OutOfBounds { row: usize, col: usize, num_rows: usize, num_cols: usize },
    /// The grid is a read-only view and has no storage to mutate.
    Unsupported { operation: GridOp },
}

impl GridOp {
    /// The name of the operation.
    pub open spec fn name(self) -> Seq<char> {
        match self {
            GridOp::SetCell => "set_cell"@,
            GridOp::Clear => "clear"@,
        }
    }
}

impl GridError {
    /// The diagnostic: the requested coordinate and the grid's dimensions,
    /// or the name of the operation that the view does not have.
    pub open spec fn message_text(self) -> Seq<char> {
        match self {
            GridError::OutOfBounds { row, col, num_rows, num_cols } => "Requested ("@
                + decimal_digits(row as nat) + ", "@ + decimal_digits(col as nat)
                + ") from grid with dimensions, ("@ + decimal_digits(num_rows as nat) + ", "@
                + decimal_digits(num_cols as nat) + ")"@,
            GridError::Unsupported { operation } => operation.name()
                + " is not supported: the grid is a read-only view"@,
        }
    }

    /// Writes the diagnostic out.
    pub fn message(&self) -> (text: String)
        ensures
            text@ == self.message_text(),
    {
        match self {
            GridError::OutOfBounds { row, col, num_rows, num_cols } => {
                let text = String::from_str("Requested (");
                let text = text.concat(decimal_string(*row).as_str());
                let text = text.concat(", ");
                let text = text.concat(decimal_string(*col).as_str());
                let text = text.concat(") from grid with dimensions, (");
                let text = text.concat(decimal_string(*num_rows).as_str());
                let text = text.concat(", ");
                let text = text.concat(decimal_string(*num_cols).as_str());
                text.concat(")")
            },
            GridError::Unsupported { operation } => {
                let name = match operation {
                    GridOp::SetCell => "set_cell",
                    GridOp::Clear => "clear",
                };
                String::from_str(name).concat(" is not supported: the grid is a read-only view")
            },
        }
    }
}

/// `v` is a value that `T::default()` can return.
pub open spec fn is_default<T: Default>(v: T) -> bool {
    call_ensures(T::default, (), v)
}

/// What a grid is: an identity, two dimensions, and one cell for each
/// coordinate within them.
pub ghost struct GridView<T> {
    pub id: GridId,
    pub rows: nat,
    pub cols: nat,
    pub cells: Map<(int, int), T>,
}

impl<T> GridView<T> {
    /// `(row, col)` is a coordinate of the grid.
    pub open spec fn in_bounds(self, row: int, col: int) -> bool {
        0 <= row < self.rows && 0 <= col < self.cols
    }

    /// The cells are exactly those within the dimensions.
    pub open spec fn wf(self) -> bool {
        forall|row: int, col: int| #[trigger]
            self.cells.dom().contains((row, col)) <==> self.in_bounds(row, col)
    }

    /// The cell at `(row, col)`.
    pub open spec fn at(self, row: int, col: int) -> T {
        self.cells[(row, col)]
    }

    /// The grid with the cell at `(row, col)` replaced by `value`.
    pub open spec fn write(self, row: int, col: int, value: T) -> GridView<T> {
        GridView { cells: self.cells.insert((row, col), value), ..self }
    }

    /// The grid of the given identity and dimensions that holds `value` everywhere.
    pub open spec fn filled(id: GridId, rows: nat, cols: nat, value: T) -> GridView<T> {
        GridView {
            id,
            rows,
            cols,
            cells: Map::new(
                |rc: (int, int)| 0 <= rc.0 < rows && 0 <= rc.1 < cols,
                |rc: (int, int)| value,
            ),
        }
    }

    /// The part of the grid within the first `rows` rows and `cols` columns,
    /// as a grid of those dimensions.
    pub open spec fn window(self, rows: nat, cols: nat) -> GridView<T> {
        GridView {
            id: self.id,
            rows,
            cols,
            cells: Map::new(
                |rc: (int, int)| 0 <= rc.0 < rows && 0 <= rc.1 < cols,
                |rc: (int, int)| self.cells[rc],
            ),
        }
    }

    /// Same identity and dimensions.
    pub open spec fn same_shape(self, other: GridView<T>) -> bool {
        self.id == other.id && self.rows == other.rows && self.cols == other.cols
    }
}

impl<T: Default> GridView<T> {
    /// Every cell holds a default value.
    pub open spec fn blank(self) -> bool {
        forall|row: int, col: int|
            self.in_bounds(row, col) ==> is_default(#[trigger] self.cells[(row, col)])
    }
}

/// An addressable rectangular store of cells.
///
/// Coordinates are `0 <= row < num_rows` and `0 <= col < num_cols`. A grid is
/// either writable, and then `set_cell` and `clear` always succeed, or a
/// read-only view, and then they always fail and change nothing.
pub trait GridTrait<T: Copy + Default = Color> {
    /// The representation invariant.
    spec fn wf(&self) -> bool;

    /// The grid as a mathematical value.
    spec fn view(&self) -> GridView<T>;

    /// Whether the grid has storage of its own to write to.
    spec fn writable(&self) -> bool;

    /// A well-formed grid has a well-formed model.
    proof fn lemma_view_wf(&self)
        requires
            self.wf(),
        ensures
            self@.wf(),
    ;

    fn grid_id(&self) -> (id: GridId)
        requires
            self.wf(),
        ensures
            id == self@.id,
    ;

    fn num_rows(&self) -> (n: usize)
        requires
            self.wf(),
        ensures
            n == self@.rows,
    ;

    fn num_cols(&self) -> (n: usize)
        requires
            self.wf(),
        ensures
            n == self@.cols,
    ;

    /// Reads the cell at `(row, col)`.
    fn cell(&self, row: usize, col: usize) -> (c: T)
        requires
            self.wf(),
            self@.in_bounds(row as int, col as int),
        ensures
            c == self@.at(row as int, col as int),
    ;

    /// Writes `value` at `(row, col)`. A read-only view refuses, whatever the
    /// coordinate.
    fn set_cell(&mut self, row: usize, col: usize, value: T) -> (r: Result<(), GridError>)
        requires
            old(self).wf(),
            old(self).writable() ==> old(self)@.in_bounds(row as int, col as int),
        ensures
            final(self).wf(),
            final(self).writable() == old(self).writable(),
            old(self).writable() ==> r == Ok::<(), GridError>(()) && final(self)@ == old(self)@.write(
                row as int,
                col as int,
                value,
            ),
            !old(self).writable() ==> r == Err::<(), GridError>(
                GridError::Unsupported { operation: GridOp::SetCell },
            ) && final(self)@ == old(self)@,
    ;

    /// Resets every cell to the default value. A read-only view refuses.
    fn clear(&mut self) -> (r: Result<(), GridError>)
        requires
            old(self).wf(),
        ensures
            final(self).wf(),
            final(self).writable() == old(self).writable(),
            old(self).writable() ==> r == Ok::<(), GridError>(()) && final(self)@.same_shape(
                old(self)@,
            ) && final(self)@.blank(),
            !old(self).writable() ==> r == Err::<(), GridError>(
                GridError::Unsupported { operation: GridOp::Clear },
            ) && final(self)@ == old(self)@,
    ;
}

/// A write is read back: after writing `value` at a coordinate of the grid,
/// that cell holds `value`, every other cell holds what it held, and the
/// grid keeps its shape and stays well formed.
pub proof fn lemma_write_then_read<T>(g: GridView<T>, row: int, col: int, value: T)
    requires
        g.wf(),
        g.in_bounds(row, col),
    ensures
        g.write(row, col, value).at(row, col) == value,
        forall|r: int, c: int|
            g.in_bounds(r, c) && (r, c) != (row, col) ==> g.write(row, col, value).at(r, c) == g.at(
                r,
                c,
            ),
        g.write(row, col, value).same_shape(g),
        g.write(row, col, value).wf(),
{
    let w = g.write(row, col, value);
    assert forall|r: int, c: int| #[trigger]
        w.cells.dom().contains((r, c)) <==> w.in_bounds(r, c) by {
        assert(g.cells.dom().contains((r, c)) <==> g.in_bounds(r, c));
    }
}

/// A grid filled with one value reads as that value at every coordinate.
pub proof fn lemma_filled_reads<T>(id: GridId, rows: nat, cols: nat, value: T, row: int, col: int)
    requires
        0 <= row < rows,
        0 <= col < cols,
    ensures
        GridView::filled(id, rows, cols, value).wf(),
        GridView::filled(id, rows, cols, value).at(row, col) == value,
{
}

} // verus!
