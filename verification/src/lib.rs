//! A particle-system simulation kernel with a verified fixed-point model.
//!
//! Particles live in screen space: each one carries a position, a velocity,
//! a color and a scale, and is advanced once per frame under one of four
//! quadrant-local acceleration fields, bouncing inelastically off the
//! viewport edges. All quantities are fixed-point integers (see `units`),
//! so every arithmetic step has an exact contract. The GPU-facing side
//! (buffer records, work-group counts, the per-frame command sequence and
//! the presentation-error policy) is specified here as well; the unverified
//! front end only converts records to floats and issues the commands.

pub mod units;

pub mod particle;

pub mod params;

pub mod rng;

pub mod compute;

pub mod system;

pub mod driver;

pub mod layout;

pub mod cli;

pub mod mesh;
