//! Conway's Game of Life on a fixed-size toroidal grid.
//!
//! A [`Universe`] is created, advanced one generation at a time by
//! [`Universe::tick`] and shown as text by [`Universe::render`].  What these
//! do is stated over a mathematical model of the grid, [`Grid`].
//!
//! - [`cell`]: the state of a cell, its glyph and the transition rule;
//! - [`grid`]: the model of a grid, with its neighbourhood, its generation
//!   step and its rendered text;
//! - [`universe`]: the executable engine;
//! - [`laws`]: theorems that hold of the model;
//! - [`patterns`]: the block and the blinker, and what becomes of them;
//! - [`arith`]: the integer arithmetic behind indexing and wraparound.

pub mod arith;
pub mod cell;
pub mod grid;
pub mod laws;
pub mod patterns;
pub mod universe;

pub use cell::Cell;
pub use grid::Grid;
pub use universe::{GridError, Universe};
