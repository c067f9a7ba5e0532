//! A single-player snake game on a fixed grid: the geometry of grid cells and
//! the state engine that moves the snake, grows it when it eats, places food
//! on free cells and detects the end of the game.

pub mod point;
pub mod model;
pub mod game_context;
pub mod random;
pub mod laws;
pub mod pacing;
