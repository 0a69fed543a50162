//! Verified core of a time-of-flight positioning simulation.
//!
//! A network of nodes estimates node positions from noisy pairwise
//! round-trip time-of-flight measurements, with two estimators run side
//! by side: an extended Kalman filter over a five-dimensional per-node
//! state (position, message speed fraction, latency) and a
//! Levenberg-Marquardt multilateration solver over position alone.
//!
//! This crate holds the discrete core of that system: configuration
//! validation, the measurement-target sampler, the per-node and
//! per-epoch bookkeeping of the simulation driver, and the decision
//! rules of the two estimators. Real-valued quantities (positions,
//! rates, variances, error statistics) are carried through this core as
//! opaque 64-bit scalar encodings and are never interpreted here; the
//! surrounding numeric layer produces and consumes them.

use vstd::prelude::*;

pub mod config;
pub mod errors;
pub mod kalman;
pub mod node;
pub mod rng;
pub mod sampling;
pub mod simulation;
pub mod solver;
pub mod stats;

verus! {

/// An opaque encoding of one real-valued scalar. The verified core
/// stores and routes these values; only the surrounding numeric layer
/// gives them arithmetic meaning.
pub type ScalarBits = u64;

} // verus!
