//! A two-dimensional particle animation on fixed-point numbers.
//!
//! Circular particles wander under a random drift of their velocity, are
//! turned back softly at the edges of the simulation area, and are described
//! frame by frame as drawing commands for a surface.
//!
//! Every scalar is an `i64` that counts millionths; see [`fixed`].

pub mod driver;
pub mod fixed;
pub mod particle;
pub mod random;
pub mod surface;
pub mod system;
