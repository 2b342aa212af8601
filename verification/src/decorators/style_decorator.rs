//! Style decoration: inline style declarations that override the default
//! look of a cell.

use crate::color::Color;
use vstd::prelude::*;
use vstd::string::StringExecFns;

verus! {

/// Decides the inline style of each cell.
pub trait StyleDecorator {
    /// The style declarations of the cell at `(row, col)` that holds
    /// `contents`, if the cell has any of its own.
    spec fn style(&self, row: int, col: int, contents: Color) -> Option<Seq<Seq<char>>>;

    /// The style declarations to attach to the cell at `(row, col)`, or
    /// `None` to leave the cell to its default look.
    fn cell_style(&self, row: usize, col: usize, contents: Color) -> (style: Option<Vec<String>>)
        ensures
            style.deep_view() == self.style(row as int, col as int, contents),
    ;
}

/// The style decorator that leaves every cell to its default look.
pub struct PlainStyle;

impl Default for PlainStyle {
    fn default() -> (d: Self)
        ensures
            d == PlainStyle,
    {
        PlainStyle
    }
}

impl StyleDecorator for PlainStyle {
    open spec fn style(&self, row: int, col: int, contents: Color) -> Option<Seq<Seq<char>>> {
        None
    }

    fn cell_style(&self, _row: usize, _col: usize, _contents: Color) -> (style: Option<
        Vec<String>,
    >) {
        None
    }
}

/// Styles the cells that hold one colour, and leaves the others to their
/// default look.
pub struct ColorDecorator {
    /// The colour of the cells to style.
    pub color: Color,
    /// The style declarations of those cells, in order.
    pub declarations: Vec<&'static str>,
}

impl StyleDecorator for ColorDecorator {
    open spec fn style(&self, row: int, col: int, contents: Color) -> Option<Seq<Seq<char>>> {
        if contents == self.color {
            Some(self.declarations.deep_view())
        } else {
            None
        }
    }

    fn cell_style(&self, _row: usize, _col: usize, contents: Color) -> (style: Option<
        Vec<String>,
    >) {
        if contents == self.color {
            let mut style: Vec<String> = Vec::new();
            let mut i: usize = 0;
            while i < self.declarations.len()
                invariant
                    i <= self.declarations.len(),
                    style.deep_view() =~= self.declarations.deep_view().take(i as int),
                decreases self.declarations.len() - i,
            {
                let ghost before = style.deep_view();
                style.push(String::from_str(self.declarations[i]));
                assert(style.deep_view() =~= before.push(self.declarations.deep_view()[i as int]));
                i += 1;
            }
            assert(self.declarations.deep_view().take(i as int) =~= self.declarations.deep_view());
            Some(style)
        } else {
            None
        }
    }
}

} // verus!
