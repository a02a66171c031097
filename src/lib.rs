//! A snake game on a fixed grid: movement, collisions, food placement,
//! growth and scoring, and the clock that turns frame time into ticks.

pub mod clock;
pub mod food;
pub mod game;
pub mod grid;
pub mod laws;
