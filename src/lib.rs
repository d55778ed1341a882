//! Verified core of a small path tracer: the random stream, the sampling of
//! points in the unit ball and disk, the selection of the nearest hit, the
//! decisions of the materials and of the path integrator, and the layout of
//! the frame. The floating-point geometry that these decisions steer lives
//! with the program around the library.

pub mod rng;
pub mod sampling;
pub mod hit;
pub mod material;
pub mod trace;
pub mod frame;
