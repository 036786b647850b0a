//! Conway's Game of Life on a toroidal grid.
//!
//! The [`universe::Universe`] type owns a flat, row-major buffer of cells and
//! advances it one generation at a time under the standard rules. The grid
//! wraps around at its edges: the first row is adjacent to the last row, and
//! the first column to the last column.

pub mod lemmas;
pub mod universe;

pub use universe::Cell;
pub use universe::Universe;
pub use universe::UniverseError;
