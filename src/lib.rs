//! Game state and frame timing for a grid-based Snake game.
//!
//! The snake body, its heading, the food cell and the play/pause flag live in
//! [`game::GameContext`]; [`frame::FrameClock`] turns a steady frame rate into
//! slower logic ticks. Drawing and input polling belong to the caller.

pub mod frame;
pub mod game;
pub mod grid;

pub use frame::FrameClock;
pub use game::{Command, GameContext, State};
pub use grid::{cell_origin, MoveType, Point};
