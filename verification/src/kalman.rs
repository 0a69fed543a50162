//! Filter-side state of one node.
//!
//! The extended Kalman filter tracks a five-dimensional state per node
//! — three position coordinates, the message speed fraction and the
//! processing latency — together with its five-by-five covariance. The
//! state is held in a normalized unit system; the numeric layer
//! normalizes, denormalizes and runs the predict-update recursion,
//! while this module carries the state through the verified
//! bookkeeping.

use vstd::prelude::*;

use crate::ScalarBits;

verus! {

/// Dimension of the filter state: three position coordinates, the
/// message speed fraction and the processing latency.
pub const STATE_DIMENSION: usize = 5;

/// One node's filter state: the five-dimensional mean, in normalized
/// units, paired with its covariance.
#[derive(Clone, Copy, Debug)]
pub struct KfStateAndCovariance {
    /// Normalized state mean: position coordinates, speed fraction,
    /// latency.
    pub state: [ScalarBits; 5],
    /// Covariance of the state mean, row by row. It must stay
    /// symmetric and positive-semi-definite across updates; the
    /// numeric layer rejects an update whose innovation covariance
    /// loses that property.
    pub covariance: [[ScalarBits; 5]; 5],
}

/// Generator of per-update observation models. The observation model
/// itself — the time-of-flight prediction function, its Jacobian at
/// the current state and the observation noise — is rebuilt from
/// scratch for every update and never cached, so the generator carries
/// no state of its own.
pub struct NonlinearObservationModel {}

impl NonlinearObservationModel {
    /// A stateless generator.
    pub fn new() -> NonlinearObservationModel {
        NonlinearObservationModel {  }
    }
}

} // verus!
