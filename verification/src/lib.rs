//! Rectangular cell grids, read-only grid views, and the decorators that turn
//! a grid into a styled table.

pub mod apps;
pub mod color;
pub mod decimal;
pub mod decorators;
pub mod grids;
pub mod tablerender;
