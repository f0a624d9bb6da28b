//! Conway's Game of Life on a fixed-size rectangular grid.
//!
//! The grid engine keeps a matrix of two-state cells, offers single-cell
//! reads and writes, counts live Moore neighbors with explicit boundary
//! checks, and advances the whole grid one generation at a time, always
//! computing the new generation from the old one. A renderer turns the
//! grid into lines of text.

pub mod grid;
pub mod render;

pub use grid::Cell;
pub use grid::Cells;
pub use grid::gen_test_cells;
pub use render::render;
