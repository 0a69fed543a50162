//! Error taxonomy of the simulation core.
//!
//! Configuration errors are fatal at construction time: a run must not
//! start from an invalid configuration. Estimator errors are
//! recoverable at node-epoch granularity: the affected node keeps its
//! prior estimate for that epoch and the run continues.

use vstd::prelude::*;

verus! {

/// A fatal defect in the run configuration, detected before any node
/// is created.
#[derive(Clone, Copy, Debug, PartialEq, Eq, Structural)]
pub enum ConfigError {
    /// The grid resolution lies outside the valid range of the
    /// hexagonal surface grid.
    InvalidResolution,
    /// The admissible range for the message speed fraction is inverted
    /// (its minimum exceeds its maximum).
    InvalidBetaRange,
    /// The admissible range for the processing latency is inverted.
    InvalidTauRange,
}

/// A recoverable failure of one estimator update for one node in one
/// epoch. The node keeps its prior estimate; the run goes on.
#[derive(Clone, Copy, Debug, PartialEq, Eq, Structural)]
pub enum EstimatorError {
    /// Fewer counterpart nodes are in message range than one update
    /// needs measurements.
    InsufficientCounterparts,
    /// The innovation covariance of the Kalman update admits no
    /// Cholesky factorization.
    CovarianceNotPositiveSemiDefinite,
    /// The damped normal equations of the multilateration solver could
    /// not be inverted.
    SingularNormalEquations,
    /// Three-dimensional multilateration was asked to run on fewer
    /// than four measurements.
    TooFewMeasurements,
}

} // verus!
