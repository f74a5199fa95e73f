//! A snake game on a grid, and the levels it is played in.
//!
//! [`maps::corridors`] generates levels of two rows of walls with a way through every
//! column; [`config`] holds the cells of a level; [`snake`] holds the rules by which
//! the snake turns, moves and drags its body along; [`random`] draws from the seeded
//! generator that the levels are made with.

pub mod config;
pub mod direction;
pub mod maps;
pub mod random;
pub mod snake;

pub use direction::Direction;
