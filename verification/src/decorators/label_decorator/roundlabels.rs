//! Labels as rounds are counted: from the bottom up and from the right to
//! the left, starting at one.

use crate::color::Color;
use crate::decimal::{decimal_digits, decimal_string};
use crate::decorators::label_decorator::LabelDecorator;
use crate::grids::gridtrait::{GridTrait, GridView};
use vstd::prelude::*;

verus! {

/// Numbers the rows on the right and the columns below, each by its
/// distance from the bottom right corner. The left gutter is kept, empty.
pub struct RoundLabels;

impl Default for RoundLabels {
    fn default() -> (d: Self)
        ensures
            d == RoundLabels,
    {
        RoundLabels
    }
}

impl LabelDecorator for RoundLabels {
    /// Always present, with no text and no classes: it reserves the gutter.
    open spec fn left_label(&self, grid: GridView<Color>, row: int) -> Option<
        (Seq<char>, Seq<Seq<char>>),
    > {
        Some((Seq::empty(), Seq::empty()))
    }

    /// The distance of the row from the bottom, the last row being one.
    open spec fn right_label(&self, grid: GridView<Color>, row: int) -> Option<
        (Seq<char>, Seq<Seq<char>>),
    > {
        Some((decimal_digits((grid.rows - row) as nat), Seq::empty()))
    }

    open spec fn footer(&self) -> bool {
        true
    }

    /// The distance of the column from the right, the last column being
    /// one, over a single column.
    open spec fn bot_label(&self, grid: GridView<Color>, col: int) -> Option<
        (Seq<char>, usize, Seq<Seq<char>>),
    > {
        Some((decimal_digits((grid.cols - col) as nat), 1usize, Seq::empty()))
    }

    fn left<G: GridTrait + ?Sized>(&self, _grid: &G, _row: usize) -> (label: Option<
        (String, Vec<&'static str>),
    >) {
        let text = String::new();
        let classes: Vec<&'static str> = Vec::new();
        assert(classes.deep_view() =~= Seq::<Seq<char>>::empty());
        Some((text, classes))
    }

    fn right<G: GridTrait + ?Sized>(&self, grid: &G, row: usize) -> (label: Option<
        (String, Vec<&'static str>),
    >) {
        let label = grid.num_rows() - row;
        let text = decimal_string(label);
        let classes: Vec<&'static str> = Vec::new();
        assert(classes.deep_view() =~= Seq::<Seq<char>>::empty());
        Some((text, classes))
    }

    fn has_bot(&self) -> (b: bool) {
        true
    }

    fn bot<G: GridTrait + ?Sized>(&self, grid: &G, col: usize) -> (label: Option<
        (String, usize, Vec<&'static str>),
    >) {
        let label = grid.num_cols() - col;
        let text = decimal_string(label);
        let classes: Vec<&'static str> = Vec::new();
        assert(classes.deep_view() =~= Seq::<Seq<char>>::empty());
        Some((text, 1, classes))
    }
}

} // verus!
