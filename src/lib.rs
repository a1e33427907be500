//! A terminal snake game: the simulation, its rules and its frame, verified.
pub mod geometry;
pub mod snake;
pub mod game;
pub mod render;
pub mod play;
