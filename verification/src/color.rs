//! The cell value: one of two marks.

use vstd::prelude::*;

verus! {

/// A mark in a cell. `White` is the blank mark.
#[derive(Clone, Copy, PartialEq, Eq, Structural, Debug, Hash)]
pub enum Color {
    White,
    Black,
}

impl Color {
    /// The other mark of the two-mark palette.
    pub open spec fn toggled(self) -> Color {
        match self {
            Color::White => Color::Black,
            Color::Black => Color::White,
        }
    }

    /// Returns the complementary mark.
    pub fn toggle(self) -> (r: Color)
        ensures
            r == self.toggled(),
    {
        match self {
            Color::White => Color::Black,
            Color::Black => Color::White,
        }
    }
}

impl Default for Color {
    fn default() -> (r: Color)
        ensures
            r == Color::White,
    {
        Color::White
    }
}

} // verus!
