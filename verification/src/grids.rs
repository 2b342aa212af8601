//! Grids: the addressable store of cells, its backing strategies, and the
//! read-only views built over a base grid.

pub mod biggrid;
pub mod flipped;
pub mod gridtrait;
pub mod simplegrid;
pub mod tiled;

pub use gridtrait::{is_default, GridError, GridId, GridOp, GridTrait, GridView};
pub use simplegrid::SimpleGrid;
pub use biggrid::{BigGrid, MAX_GRID_HEIGHT, MAX_GRID_WIDTH};
pub use tiled::TiledGrid;
pub use flipped::FlippedGrid;
