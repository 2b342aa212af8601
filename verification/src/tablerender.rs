//! Table composition: a grid and its decorators, laid out as rows of cells
//! between two label gutters, above an optional footer of column labels.

pub mod gridrenderer;

use crate::color::Color;
use vstd::prelude::*;
use vstd::string::StringExecFns;

pub use gridrenderer::GridRenderer;

verus! {

/// A gutter label: its text and class tokens.
pub type Label = (String, Vec<&'static str>);

/// A gutter label as a mathematical value.
pub type LabelView = (Seq<char>, Seq<Seq<char>>);

/// A footer label: its text, the number of columns it spans, and its class
/// tokens.
pub type FooterLabel = (String, usize, Vec<&'static str>);

/// A footer label as a mathematical value.
pub type FooterLabelView = (Seq<char>, usize, Seq<Seq<char>>);

/// One data cell of a table.
pub struct DataCell {
    pub row: usize,
    pub col: usize,
    /// What the grid holds at `(row, col)`.
    pub value: Color,
    /// The class tokens of the cell, in order.
    pub classes: Vec<&'static str>,
    /// The inline style declarations of the cell, if it has any of its own.
    pub style: Option<Vec<String>>,
}

/// A data cell as a mathematical value.
pub ghost struct DataCellView {
    pub row: int,
    pub col: int,
    pub value: Color,
    pub classes: Seq<Seq<char>>,
    pub style: Option<Seq<Seq<char>>>,
}

impl DeepView for DataCell {
    type V = DataCellView;

    open spec fn deep_view(&self) -> DataCellView {
        DataCellView {
            row: self.row as int,
            col: self.col as int,
            value: self.value,
            classes: self.classes.deep_view(),
            style: self.style.deep_view(),
        }
    }
}

/// One data row of a table: the left label, the cells in ascending column
/// order, the right label.
pub struct TableRow {
    pub left: Option<Label>,
    pub cells: Vec<DataCell>,
    pub right: Option<Label>,
}

/// A data row as a mathematical value.
pub ghost struct TableRowView {
    pub left: Option<LabelView>,
    pub cells: Seq<DataCellView>,
    pub right: Option<LabelView>,
}

impl DeepView for TableRow {
    type V = TableRowView;

    open spec fn deep_view(&self) -> TableRowView {
        TableRowView {
            left: self.left.deep_view(),
            cells: self.cells.deep_view(),
            right: self.right.deep_view(),
        }
    }
}

/// A composed table.
pub struct Table {
    /// The class tokens of the table as a whole.
    pub classes: Vec<String>,
    /// The data rows, in ascending row order.
    pub rows: Vec<TableRow>,
    /// The footer row, if the table has one: one entry for each column.
    pub footer: Option<Vec<Option<FooterLabel>>>,
}

/// A composed table as a mathematical value.
pub ghost struct TableView {
    pub classes: Seq<Seq<char>>,
    pub rows: Seq<TableRowView>,
    pub footer: Option<Seq<Option<FooterLabelView>>>,
}

impl DeepView for Table {
    type V = TableView;

    open spec fn deep_view(&self) -> TableView {
        TableView {
            classes: self.classes.deep_view(),
            rows: self.rows.deep_view(),
            footer: self.footer.deep_view(),
        }
    }
}

/// The source of a table: how many rows and columns of data there are, and
/// what stands in each cell, gutter and footer position.
pub trait TableRenderer {
    /// The representation invariant.
    spec fn wf(&self) -> bool;

    spec fn data_rows(&self) -> nat;

    spec fn data_cols(&self) -> nat;

    /// The data cell at `(row, col)`.
    spec fn data_cell(&self, row: int, col: int) -> DataCellView;

    /// The cell to the left of `row`.
    spec fn left_cell(&self, row: int) -> Option<LabelView>;

    /// The cell to the right of `row`.
    spec fn right_cell(&self, row: int) -> Option<LabelView>;

    /// Whether there is a footer row.
    spec fn has_footer(&self) -> bool;

    /// The footer cell below `col`.
    spec fn footer_cell(&self, col: int) -> Option<FooterLabelView>;

    fn num_data_rows(&self) -> (n: usize)
        requires
            self.wf(),
        ensures
            n == self.data_rows(),
    ;

    fn num_data_cols(&self) -> (n: usize)
        requires
            self.wf(),
        ensures
            n == self.data_cols(),
    ;

    /// The data cells of `row`, in ascending column order.
    fn render_data_row(&self, row: usize) -> (cells: Vec<DataCell>)
        requires
            self.wf(),
            row < self.data_rows(),
        ensures
            cells.deep_view() == Seq::new(self.data_cols(), |col: int| self.data_cell(row as int, col)),
    ;

    fn render_data_cell(&self, row: usize, col: usize) -> (cell: DataCell)
        requires
            self.wf(),
            row < self.data_rows(),
            col < self.data_cols(),
        ensures
            cell.deep_view() == self.data_cell(row as int, col as int),
    ;

    fn render_left_cell(&self, row: usize) -> (label: Option<Label>)
        requires
            self.wf(),
            row < self.data_rows(),
        ensures
            label.deep_view() == self.left_cell(row as int),
    ;

    fn render_right_cell(&self, row: usize) -> (label: Option<Label>)
        requires
            self.wf(),
            row < self.data_rows(),
        ensures
            label.deep_view() == self.right_cell(row as int),
    ;

    /// The footer row, one cell for each column in ascending order, or
    /// `None` where there is no footer.
    fn render_footer_row(&self) -> (footer: Option<Vec<Option<FooterLabel>>>)
        requires
            self.wf(),
        ensures
            footer.deep_view() == if self.has_footer() {
                Some(Seq::new(self.data_cols(), |col: int| self.footer_cell(col)))
            } else {
                None::<Seq<Option<FooterLabelView>>>
            },
    ;

    fn render_footer_cell(&self, col: usize) -> (label: Option<FooterLabel>)
        requires
            self.wf(),
            col < self.data_cols(),
        ensures
            label.deep_view() == self.footer_cell(col as int),
    ;
}

/// The footer that a renderer describes.
pub open spec fn footer_view<R: TableRenderer + ?Sized>(renderer: &R) -> Option<
    Seq<Option<FooterLabelView>>,
> {
    if renderer.has_footer() {
        Some(Seq::new(renderer.data_cols(), |col: int| renderer.footer_cell(col)))
    } else {
        None
    }
}

/// The data row `row` that a renderer describes.
pub open spec fn row_view<R: TableRenderer + ?Sized>(renderer: &R, row: int) -> TableRowView {
    TableRowView {
        left: renderer.left_cell(row),
        cells: Seq::new(renderer.data_cols(), |col: int| renderer.data_cell(row, col)),
        right: renderer.right_cell(row),
    }
}

/// The class tokens of a table: the token that switches text selection
/// off, then the caller's token if there is one.
pub open spec fn table_classes(class: Option<Seq<char>>) -> Seq<Seq<char>> {
    match class {
        Some(class) => seq!["user-select-none"@, class],
        None => seq!["user-select-none"@],
    }
}

/// The table that a renderer describes: its data rows in ascending order,
/// then its footer.
pub open spec fn table_view<R: TableRenderer + ?Sized>(
    renderer: &R,
    class: Option<Seq<char>>,
) -> TableView {
    TableView {
        classes: table_classes(class),
        rows: Seq::new(renderer.data_rows(), |row: int| row_view(renderer, row)),
        footer: footer_view(renderer),
    }
}

/// The text of an optional class token.
pub open spec fn class_view(class: Option<&str>) -> Option<Seq<char>> {
    match class {
        Some(class) => Some(class@),
        None => None,
    }
}

/// Composes the table of `renderer`, from its state at the time of the
/// call.
pub fn render_table<R: TableRenderer>(renderer: R, class: Option<&str>) -> (table: Table)
    requires
        renderer.wf(),
    ensures
        table.deep_view() == table_view(&renderer, class_view(class)),
{
    let mut classes: Vec<String> = Vec::new();
    classes.push(String::from_str("user-select-none"));
    if let Some(class) = class {
        classes.push(String::from_str(class));
    }
    assert(classes.deep_view() =~= table_classes(class_view(class)));

    let num_rows = renderer.num_data_rows();
    let mut rows: Vec<TableRow> = Vec::new();
    let mut rn: usize = 0;
    while rn < num_rows
        invariant
            renderer.wf(),
            num_rows == renderer.data_rows(),
            rn <= num_rows,
            rows.deep_view() =~= Seq::new(rn as nat, |row: int| row_view(&renderer, row)),
        decreases num_rows - rn,
    {
        let row = render_full_row(&renderer, rn);
        let ghost before = rows.deep_view();
        rows.push(row);
        assert(rows.deep_view() =~= before.push(row_view(&renderer, rn as int)));
        rn += 1;
    }
    let footer = renderer.render_footer_row();
    Table { classes, rows, footer }
}

/// Composes the data row `row_num` with its two gutter cells.
pub fn render_full_row<R: TableRenderer>(renderer: &R, row_num: usize) -> (row: TableRow)
    requires
        renderer.wf(),
        row_num < renderer.data_rows(),
    ensures
        row.deep_view() == row_view(renderer, row_num as int),
{
    render_row(renderer, row_num)
}

/// Composes the data row `row_num`: the left cell, the data cells, the
/// right cell.
pub fn render_row<R: TableRenderer>(renderer: &R, row_num: usize) -> (row: TableRow)
    requires
        renderer.wf(),
        row_num < renderer.data_rows(),
    ensures
        row.deep_view() == row_view(renderer, row_num as int),
{
    let left = renderer.render_left_cell(row_num);
    let cells = renderer.render_data_row(row_num);
    let right = renderer.render_right_cell(row_num);
    TableRow { left, cells, right }
}

} // verus!
