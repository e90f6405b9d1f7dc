//! A small, concurrently shared turn-based board-game engine: a 4x4 grid
//! into which two teams drop their markers column-wise, gravity-style, until
//! one side completes a line of four or the grid fills up.
//!
//! The grid and the game state derived from it are kept consistent as one
//! composite value under one exclusive lock; every operation observes or
//! replaces the pair atomically, so no reader ever sees a grid paired with a
//! stale state.
//!
//! - [`tile`]: the contents of one cell and the team tokens that name them;
//! - [`grid`]: the 4x4 matrix of tiles and the gravity drop into a column;
//! - [`outcome`]: the evaluator that derives the game state from a grid;
//! - [`board`]: the state machine over one grid/state pair, and the shared
//!   board that guards the pair with its single lock;
//! - [`render`]: the textual snapshot of a board;
//! - [`laws`]: the engine-wide properties, proved over the spec-level model.

pub mod board;
pub mod grid;
pub mod laws;
pub mod outcome;
pub mod render;
pub mod tile;
