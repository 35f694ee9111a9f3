//! Simulation core of a small grid-based snake game.
//!
//! The player's head moves one fixed step per frame on a 2-D integer grid,
//! trailing segments follow one frame behind the segment ahead of them, food
//! grows the snake when the head reaches it, and touching the playfield
//! border ends the game.  Everything here is pure state: rendering and input
//! polling live outside the library and talk to it through plain values.

pub mod border;
pub mod config;
pub mod food;
pub mod game;
pub mod geometry;
pub mod input;
pub mod pacing;
pub mod player;
