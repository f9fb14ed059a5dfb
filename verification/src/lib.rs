//! Conway's Game of Life on a toroidal grid.
//!
//! The crate is organised around a mathematical model of the grid
//! ([`grid::Grid`]) and an executable engine ([`universe::Universe`]) whose
//! operations are proved to follow that model.

pub mod cell;
pub mod grid;
pub mod laws;
mod random;
pub mod universe;

pub use cell::Cell;
pub use grid::Grid;
pub use universe::Universe;
