//! Simulation of the aggregation of spherical primary particles into 3D
//! agglomerates, with controllable fractal dimension, together with the
//! shape and fractal descriptors of the resulting structures.
//!
//! All real-valued quantities are carried as fixed-point numbers: an `i64`
//! holding the value scaled by `fixed::FX_ONE` (2^20).  Every operation on
//! them is total and deterministic, so a run is a pure function of its
//! parameters and seed.

pub mod ballistic;
pub mod ballistic_cc;
pub mod cca;
pub mod cluster;
pub mod dla;
pub mod fixed;
pub mod geometry;
pub mod metrics;
pub mod result;
pub mod rng;
pub mod sintering;
pub mod spatial;
pub mod tunable;
pub mod tunable_cc;

use vstd::prelude::*;

verus! {

} // verus!
