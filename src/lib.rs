//! A two-dimensional paddle game whose frame update is a verified state
//! machine: each frame turns an immutable snapshot of the game, plus the
//! input polled since the previous frame, into the next snapshot.
//!
//! Coordinates are fixed-point: one pixel is `UNITS_PER_PIXEL` units, so
//! every position, velocity and translation is an exact integer.

pub mod geometry;
pub mod entities;
pub mod input;
pub mod state;
pub mod frame;
pub mod laws;
