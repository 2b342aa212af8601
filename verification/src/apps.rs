//! The editing sessions built on grids.

pub mod twopattern;

pub use twopattern::{Msg, Outcome, Stored, TwoPattern, TwoPatternView};
