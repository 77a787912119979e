//! A verified two-player pebbles game (a bounded subtraction game).
//!
//! Two contestants alternately remove between 1 and `max_pebbles_per_turn`
//! pebbles from a shared pile; whoever removes the last pebble wins. One
//! contestant is the user, the other an automated opponent whose moves are
//! either random (easy) or game-theoretically optimal where an optimal move
//! exists (hard). The engine here is deterministic: every random draw the
//! opponent consumes is handed in by the caller as a plain `u32`.

pub mod engine;
pub mod game;
pub mod laws;
pub mod moves;
