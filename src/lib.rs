//! A fixed-point simulation kernel for an arena of shooting agents.
//!
//! Lengths are in milli-pixels, angles in milliradians, durations in
//! microseconds and velocities in milli-pixels per second. Direction vectors
//! have a length of about `geometry::UNIT`.

pub mod geometry;
pub mod sensor;
pub mod arena;
pub mod bullet;
mod chance;
pub mod controller;
pub mod panda;
pub mod scoring;
pub mod gameboard;
