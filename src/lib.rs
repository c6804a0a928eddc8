//! A snake game engine: toroidal point arithmetic, a bordered text board, the
//! snake's movement and growth state machine, fruit spawning, and the per-tick
//! decisions of one round of play.
pub mod consts;
pub mod point;
pub mod board;
pub mod snake;
pub mod fruit;
pub mod commands;
pub mod runner;
