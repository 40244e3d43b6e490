//! Integer core of a small stochastic ray tracer: the sphere grid that
//! makes up the scene, the nearest-hit scan and shading decisions, the
//! checkerboard floor tiles, the order and byte layout of the emitted PPM
//! frame, and a seedable random generator.

pub mod scene;
pub mod image;
pub mod random;
pub mod hit;
