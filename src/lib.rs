//! A finite-difference time-domain integrator of Maxwell's curl equations on a
//! cubic lattice, with the binary frame stream that exports its history.
//!
//! Field samples are values of any type implementing [`scalar::Scalar`]; the
//! library decides which samples are combined, in which order, and how the
//! results are laid out on the wire.
//!
//! - [`boundary`]: the finite differences that each boundary policy prescribes;
//! - [`lattice`], [`scene`], [`source`]: the grid, its set-up and its sources;
//! - [`engine`]: the leapfrog update and the stepping of a run;
//! - [`encoder`], [`frame`]: the byte layout of the output stream;
//! - [`names`]: the names by which policies and axes are chosen.

pub mod scalar;
pub mod vector;
pub mod boundary;
pub mod lattice;
pub mod source;
pub mod scene;
pub mod encoder;
pub mod frame;
pub mod engine;
pub mod names;
