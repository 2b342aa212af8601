//! Label decoration: the texts in the gutters to the left and right of each
//! row, and in the footer below each column.

pub mod roundlabels;

use crate::color::Color;
use crate::grids::gridtrait::{GridTrait, GridView};
use vstd::prelude::*;

pub use roundlabels::RoundLabels;

verus! {

/// Decides the labels round a table. An absent label is an ordinary
/// answer: the cell is then left out.
pub trait LabelDecorator {
    /// The label to the left of `row`: its text and class tokens.
    spec fn left_label(&self, grid: GridView<Color>, row: int) -> Option<
        (Seq<char>, Seq<Seq<char>>),
    >;

    /// The label to the right of `row`: its text and class tokens.
    spec fn right_label(&self, grid: GridView<Color>, row: int) -> Option<
        (Seq<char>, Seq<Seq<char>>),
    >;

    /// Whether the table has a footer row at all.
    spec fn footer(&self) -> bool;

    /// The label below `col`: its text, the number of columns it spans, and
    /// its class tokens.
    spec fn bot_label(&self, grid: GridView<Color>, col: int) -> Option<
        (Seq<char>, usize, Seq<Seq<char>>),
    >;

    fn left<G: GridTrait + ?Sized>(&self, grid: &G, row: usize) -> (label: Option<
        (String, Vec<&'static str>),
    >)
        requires
            grid.wf(),
            row < grid@.rows,
        ensures
            label.deep_view() == self.left_label(grid@, row as int),
    ;

    fn right<G: GridTrait + ?Sized>(&self, grid: &G, row: usize) -> (label: Option<
        (String, Vec<&'static str>),
    >)
        requires
            grid.wf(),
            row < grid@.rows,
        ensures
            label.deep_view() == self.right_label(grid@, row as int),
    ;

    fn has_bot(&self) -> (b: bool)
        ensures
            b == self.footer(),
    ;

    fn bot<G: GridTrait + ?Sized>(&self, grid: &G, col: usize) -> (label: Option<
        (String, usize, Vec<&'static str>),
    >)
        requires
            grid.wf(),
            col < grid@.cols,
        ensures
            label.deep_view() == self.bot_label(grid@, col as int),
    ;
}

/// The label decorator of a table without labels: no gutters, no footer.
pub struct EmptyLabels;

impl Default for EmptyLabels {
    fn default() -> (d: Self)
        ensures
            d == EmptyLabels,
    {
        EmptyLabels
    }
}

impl LabelDecorator for EmptyLabels {
    open spec fn left_label(&self, grid: GridView<Color>, row: int) -> Option<
        (Seq<char>, Seq<Seq<char>>),
    > {
        None
    }

    open spec fn right_label(&self, grid: GridView<Color>, row: int) -> Option<
        (Seq<char>, Seq<Seq<char>>),
    > {
        None
    }

    open spec fn footer(&self) -> bool {
        false
    }

    open spec fn bot_label(&self, grid: GridView<Color>, col: int) -> Option<
        (Seq<char>, usize, Seq<Seq<char>>),
    > {
        None
    }

    fn left<G: GridTrait + ?Sized>(&self, _grid: &G, _row: usize) -> (label: Option<
        (String, Vec<&'static str>),
    >) {
        None
    }

    fn right<G: GridTrait + ?Sized>(&self, _grid: &G, _row: usize) -> (label: Option<
        (String, Vec<&'static str>),
    >) {
        None
    }

    fn has_bot(&self) -> (b: bool) {
        false
    }

    fn bot<G: GridTrait + ?Sized>(&self, _grid: &G, _col: usize) -> (label: Option<
        (String, usize, Vec<&'static str>),
    >) {
        None
    }
}

} // verus!
