//! A small grid-based snake game engine.
//!
//! The library holds the verified core of the game: grid geometry,
//! movement directions, the snake and the apple, and the per-tick
//! update that moves the snake, grows it on a meal, and detects the
//! two terminal outcomes (leaving the grid, running into itself).
//! Rendering and input belong to a thin adapter around the library.

pub mod geometry;
pub mod direction;
pub mod apple;
pub mod snake;
