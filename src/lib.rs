//! Conway's Game of Life on a fixed-size toroidal grid, with a controller
//! that adapts the simulation rate to the host's callback rate.
pub mod cell;
pub mod grid;
pub mod rate;
pub mod universe;

pub use cell::Cell;
pub use rate::RateMode;
pub use universe::{Universe, UniverseError};
