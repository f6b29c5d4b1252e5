//! A tile-based dungeon generator: rectangular rooms placed by rejection
//! sampling on a fixed grid, joined by L-shaped tunnels, and an actor that
//! moves through the result.

pub mod tile;
pub mod rect;
pub mod grid;
pub mod carve;
mod random;
pub mod dungeon;
pub mod object;
