//! The renderer of one grid under a set of attached decorators.

use crate::color::Color;
use crate::decorators::class_decorator::ClassDecorators;
use crate::decorators::cssmunger::CssMunger;
use crate::decorators::label_decorator::LabelDecorator;
use crate::decorators::style_decorator::StyleDecorator;
use crate::grids::gridtrait::GridTrait;
use crate::tablerender::{DataCell, DataCellView, FooterLabel, FooterLabelView, Label, LabelView, TableRenderer};
use vstd::prelude::*;

verus! {

/// A grid with its decorators attached: zero or more class decorators, at
/// most one style decorator, exactly one label decorator, and class tokens
/// that the caller wants on every cell.
///
/// The renderer borrows the grid, and shows what the grid holds when a
/// table is composed.
pub struct GridRenderer<'a, G, C, S, L> where
    G: GridTrait,
    C: ClassDecorators,
    S: StyleDecorator,
    L: LabelDecorator,
 {
    pub grid: &'a G,
    pub class_decorators: C,
    pub style_decorator: Option<S>,
    pub label_decorator: L,
    pub base_classes: Vec<&'static str>,
}

impl<'a, G, C, S, L> GridRenderer<'a, G, C, S, L> where
    G: GridTrait,
    C: ClassDecorators,
    S: StyleDecorator,
    L: LabelDecorator,
 {
    /// Attaches the decorators to `grid`, and registers the class
    /// decorators with the stylesheet, in attachment order.
    pub fn new(
        grid: &'a G,
        class_decorators: C,
        style_decorator: Option<S>,
        label_decorator: L,
        base_classes: Vec<&'static str>,
        munger: &mut CssMunger,
    ) -> (renderer: Self)
        requires
            grid.wf(),
        ensures
            renderer.wf(),
            renderer.grid == grid,
            renderer.class_decorators == class_decorators,
            renderer.style_decorator == style_decorator,
            renderer.label_decorator == label_decorator,
            renderer.base_classes == base_classes,
            final(munger)@ == class_decorators.registration(old(munger)@),
    {
        class_decorators.register_all(munger);
        GridRenderer { grid, class_decorators, style_decorator, label_decorator, base_classes }
    }

    /// The class tokens of the cell at `(row, col)`: those of each class
    /// decorator in attachment order, then the caller's.
    pub open spec fn cell_classes(&self, row: int, col: int) -> Seq<Seq<char>> {
        self.class_decorators.merged_classes(self.grid@, row, col, self.grid@.at(row, col))
            + self.base_classes.deep_view()
    }

    /// The inline style of the cell at `(row, col)`: what the style
    /// decorator says, and nothing where there is none.
    pub open spec fn cell_style(&self, row: int, col: int) -> Option<Seq<Seq<char>>> {
        match self.style_decorator {
            Some(decorator) => decorator.style(row, col, self.grid@.at(row, col)),
            None => None,
        }
    }
}

impl<'a, G, C, S, L> TableRenderer for GridRenderer<'a, G, C, S, L> where
    G: GridTrait,
    C: ClassDecorators,
    S: StyleDecorator,
    L: LabelDecorator,
 {
    open spec fn wf(&self) -> bool {
        self.grid.wf()
    }

    open spec fn data_rows(&self) -> nat {
        self.grid@.rows
    }

    open spec fn data_cols(&self) -> nat {
        self.grid@.cols
    }

    open spec fn data_cell(&self, row: int, col: int) -> DataCellView {
        DataCellView {
            row,
            col,
            value: self.grid@.at(row, col),
            classes: self.cell_classes(row, col),
            style: self.cell_style(row, col),
        }
    }

    open spec fn left_cell(&self, row: int) -> Option<LabelView> {
        self.label_decorator.left_label(self.grid@, row)
    }

    open spec fn right_cell(&self, row: int) -> Option<LabelView> {
        self.label_decorator.right_label(self.grid@, row)
    }

    open spec fn has_footer(&self) -> bool {
        self.label_decorator.footer()
    }

    open spec fn footer_cell(&self, col: int) -> Option<FooterLabelView> {
        self.label_decorator.bot_label(self.grid@, col)
    }

    fn num_data_rows(&self) -> (n: usize) {
        self.grid.num_rows()
    }

    fn num_data_cols(&self) -> (n: usize) {
        self.grid.num_cols()
    }

    fn render_data_row(&self, row: usize) -> (cells: Vec<DataCell>) {
        let num_cols = self.grid.num_cols();
        let mut cells: Vec<DataCell> = Vec::new();
        let mut col: usize = 0;
        while col < num_cols
            invariant
                self.wf(),
                row < self.data_rows(),
                num_cols == self.data_cols(),
                col <= num_cols,
                cells.deep_view() =~= Seq::new(col as nat, |c: int| self.data_cell(row as int, c)),
            decreases num_cols - col,
        {
            let cell = self.render_data_cell(row, col);
            let ghost before = cells.deep_view();
            cells.push(cell);
            assert(cells.deep_view() =~= before.push(self.data_cell(row as int, col as int)));
            col += 1;
        }
        cells
    }

    fn render_data_cell(&self, row: usize, col: usize) -> (cell: DataCell) {
        let value = self.grid.cell(row, col);
        let mut classes = self.class_decorators.merged_cell_class(self.grid, row, col, value);
        let ghost merged = classes.deep_view();
        let mut i: usize = 0;
        while i < self.base_classes.len()
            invariant
                i <= self.base_classes.len(),
                classes.deep_view() =~= merged + self.base_classes.deep_view().take(i as int),
            decreases self.base_classes.len() - i,
        {
            let ghost before = classes.deep_view();
            classes.push(self.base_classes[i]);
            assert(classes.deep_view() =~= before.push(self.base_classes.deep_view()[i as int]));
            i += 1;
        }
        assert(self.base_classes.deep_view().take(i as int) =~= self.base_classes.deep_view());
        let style = match &self.style_decorator {
            Some(decorator) => decorator.cell_style(row, col, value),
            None => None,
        };
        DataCell { row, col, value, classes, style }
    }

    fn render_left_cell(&self, row: usize) -> (label: Option<Label>) {
        self.label_decorator.left(self.grid, row)
    }

    fn render_right_cell(&self, row: usize) -> (label: Option<Label>) {
        self.label_decorator.right(self.grid, row)
    }

    fn render_footer_row(&self) -> (footer: Option<Vec<Option<FooterLabel>>>) {
        if !self.label_decorator.has_bot() {
            return None;
        }
        let num_cols = self.grid.num_cols();
        let mut cells: Vec<Option<FooterLabel>> = Vec::new();
        let mut col: usize = 0;
        while col < num_cols
            invariant
                self.wf(),
                num_cols == self.data_cols(),
                col <= num_cols,
                cells.deep_view() =~= Seq::new(col as nat, |c: int| self.footer_cell(c)),
            decreases num_cols - col,
        {
            let cell = self.render_footer_cell(col);
            let ghost before = cells.deep_view();
            cells.push(cell);
            assert(cells.deep_view() =~= before.push(self.footer_cell(col as int)));
            col += 1;
        }
        Some(cells)
    }

    fn render_footer_cell(&self, col: usize) -> (label: Option<FooterLabel>) {
        self.label_decorator.bot(self.grid, col)
    }
}

} // verus!
