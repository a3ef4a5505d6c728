//! Gameplay rules of a small arcade game: a player collects objects that
//! appear at mouse clicks and on a repeating timer, and a score counter keeps
//! track of how many it caught. The host engine draws, plays sounds and
//! detects collisions; this library decides, frame by frame, what happens.
//!
//! Time is counted in microseconds and distances in micro-units of the game
//! world, so that every rule below is exact integer arithmetic.

pub mod timer;
pub mod state;
pub mod frame;
pub mod random;
pub mod laws;
