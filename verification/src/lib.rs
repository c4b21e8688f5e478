//! A small grid snake simulation: a snake moves on a fixed 30 by 30 grid,
//! one cell per update tick, turns on validated key input, and the game ends
//! when the head would run into the snake's own body or off the grid.
//!
//! The crate holds the whole game core: the snake state with its movement and
//! collision rules, and the loop logic that dispatches render, update and
//! input ticks. Windowing and drawing are left to the surrounding program.

pub mod game;
pub mod snake;
