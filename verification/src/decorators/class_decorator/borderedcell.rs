//! The grid-paper look: a thin border round every cell, and a thick line
//! every fifth cell counted from the bottom right corner.

use crate::color::Color;
use crate::decorators::class_decorator::ClassDecorator;
use crate::decorators::cssmunger::{CssMunger, DecoratorKind};
use crate::grids::gridtrait::{GridTrait, GridView};
use vstd::prelude::*;

verus! {

/// How many cells lie between two thick lines.
pub const THICK_EVERY: usize = 5;

/// Gives every cell a thin solid border.
pub struct BorderedCellDecorator;

impl Default for BorderedCellDecorator {
    fn default() -> (d: Self)
        ensures
            d == BorderedCellDecorator,
    {
        BorderedCellDecorator
    }
}

impl ClassDecorator for BorderedCellDecorator {
    open spec fn kind(&self) -> DecoratorKind {
        DecoratorKind::BorderedCell
    }

    open spec fn rules(&self) -> Seq<Seq<char>> {
        seq![".bdrcell { border: 1px solid black }"@]
    }

    /// One constant token, whatever the cell.
    open spec fn classes(&self, grid: GridView<Color>, row: int, col: int, contents: Color) -> Seq<
        Seq<char>,
    > {
        seq!["bdrcell"@]
    }

    fn register(&self, munger: &mut CssMunger) {
        if munger.begin_registration(DecoratorKind::BorderedCell) {
            munger.insert_rule(".bdrcell { border: 1px solid black }");
            assert(munger@.rules =~= old(munger)@.rules + self.rules());
        } else {
            assert(munger@.registered =~= old(munger)@.registered);
        }
    }

    fn cell_class<G: GridTrait + ?Sized>(
        &self,
        _grid: &G,
        _row: usize,
        _col: usize,
        _contents: Color,
    ) -> (classes: Vec<&'static str>) {
        let mut classes: Vec<&'static str> = Vec::new();
        classes.push("bdrcell");
        assert(classes.deep_view() =~= seq!["bdrcell"@]);
        classes
    }
}

/// Draws a thick line on the top edge of every fifth row and on the left
/// edge of every fifth column, both counted from the bottom right corner.
pub struct ThickBorders;

impl Default for ThickBorders {
    fn default() -> (d: Self)
        ensures
            d == ThickBorders,
    {
        ThickBorders
    }
}

impl ThickBorders {
    /// The distance of `row` from the bottom of the grid, the last row being
    /// at distance one.
    pub open spec fn row_distance(grid: GridView<Color>, row: int) -> int {
        grid.rows - row
    }

    /// The distance of `col` from the right of the grid, the last column
    /// being at distance one.
    pub open spec fn col_distance(grid: GridView<Color>, col: int) -> int {
        grid.cols - col
    }
}

impl ClassDecorator for ThickBorders {
    open spec fn kind(&self) -> DecoratorKind {
        DecoratorKind::ThickBorders
    }

    /// The element type is part of each selector, so that these rules win
    /// over any plain border rule.
    open spec fn rules(&self) -> Seq<Seq<char>> {
        seq![
            "td.tckleft { border-left: 3px solid black}"@,
            "td.tcktop { border-top: 3px solid black}"@,
            "td.tckright { border-right: 3px solid black}"@,
            "td.tckbottom { border-bottom: 3px solid black}"@,
        ]
    }

    /// The top token where the row distance is a multiple of five, then the
    /// left token where the column distance is.
    open spec fn classes(&self, grid: GridView<Color>, row: int, col: int, contents: Color) -> Seq<
        Seq<char>,
    > {
        let top: Seq<Seq<char>> = if Self::row_distance(grid, row) % (THICK_EVERY as int) == 0 {
            seq!["tcktop"@]
        } else {
            Seq::empty()
        };
        let left: Seq<Seq<char>> = if Self::col_distance(grid, col) % (THICK_EVERY as int) == 0 {
            seq!["tckleft"@]
        } else {
            Seq::empty()
        };
        top + left
    }

    fn register(&self, munger: &mut CssMunger) {
        if munger.begin_registration(DecoratorKind::ThickBorders) {
            munger.insert_rule("td.tckleft { border-left: 3px solid black}");
            munger.insert_rule("td.tcktop { border-top: 3px solid black}");
            munger.insert_rule("td.tckright { border-right: 3px solid black}");
            munger.insert_rule("td.tckbottom { border-bottom: 3px solid black}");
            assert(munger@.rules =~= old(munger)@.rules + self.rules());
        } else {
            assert(munger@.registered =~= old(munger)@.registered);
        }
    }

    fn cell_class<G: GridTrait + ?Sized>(
        &self,
        grid: &G,
        row: usize,
        col: usize,
        _contents: Color,
    ) -> (classes: Vec<&'static str>) {
        let mut classes: Vec<&'static str> = Vec::new();
        assert(classes.deep_view() =~= Seq::<Seq<char>>::empty());

        let row_p = grid.num_rows() - row;
        let col_p = grid.num_cols() - col;

        if row_p % THICK_EVERY == 0 {
            classes.push("tcktop");
            assert(classes.deep_view() =~= seq!["tcktop"@]);
        }
        let ghost top = classes.deep_view();
        if col_p % THICK_EVERY == 0 {
            classes.push("tckleft");
            assert(classes.deep_view() =~= top + seq!["tckleft"@]);
        } else {
            assert(classes.deep_view() =~= top + Seq::<Seq<char>>::empty());
        }

        classes
    }
}

} // verus!
