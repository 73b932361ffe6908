//! A text-mode animated clock: big block digits over a drifting starfield,
//! occasional shooting-star streaks and a scanline tint, recolored by theme.
//!
//! Positions and phases are held in fixed-point units: milli-cells for
//! coordinates, milliradians for angles, per-mille for brightness and
//! opacity, milliseconds for time.

pub mod app;
pub mod cli;
pub mod font;
pub mod render;
pub mod rng;
pub mod scanline;
pub mod shooting_star;
pub mod starfield;
pub mod theme;
pub mod trig;
