//! Simulation core of a grid-based snake game.
//!
//! The library owns the snake's body, heading and score, the food's
//! position, and every rule that decides whether a step feeds the snake,
//! kills it, or lets the game continue. Windowing, input polling and
//! rendering are left to the caller.

pub mod food;
pub mod grid;
pub mod snake;

pub use food::Food;
pub use grid::{Direction, Field, Position, CELL};
pub use snake::{Outcome, Snake};
