//! Run configuration.
//!
//! A configuration is created once before a run and is read-only
//! thereafter. Its integer fields are meaningful to the verified core;
//! its real-valued fields (variances, bounds, tolerances) are opaque
//! scalar encodings that only the numeric layer interprets. Validation
//! is fatal: a run must not start from an invalid configuration.

use vstd::prelude::*;

use crate::errors::ConfigError;
use crate::sampling::N_MEASUREMENTS;
use crate::ScalarBits;

verus! {

/// Coarsest valid resolution of the hexagonal surface grid.
pub const MIN_GRID_RESOLUTION: i32 = 0;

/// Finest valid resolution of the hexagonal surface grid.
pub const MAX_GRID_RESOLUTION: i32 = 15;

/// Immutable parameters of one simulation run.
#[derive(Clone, Debug)]
pub struct SimulationConfig {
    /// How many nodes the run places.
    pub n_nodes: usize,
    /// How many epochs the run executes.
    pub n_epochs: usize,
    /// Resolution of the hexagonal surface grid used for node
    /// placement.
    pub h3_resolution: i32,
    /// Variance of the noisy position assertion around the true
    /// position.
    pub asserted_position_variance: ScalarBits,
    /// Smallest admissible message speed fraction.
    pub beta_min: ScalarBits,
    /// Largest admissible message speed fraction.
    pub beta_max: ScalarBits,
    /// Variance of the per-measurement message speed noise.
    pub beta_variance: ScalarBits,
    /// Smallest admissible processing latency.
    pub tau_min: ScalarBits,
    /// Largest admissible processing latency.
    pub tau_max: ScalarBits,
    /// Variance of the per-measurement latency noise.
    pub tau_variance: ScalarBits,
    /// Farthest distance over which two nodes can exchange messages.
    pub message_distance_max: ScalarBits,
    /// Message speed fraction the multilateration solver models.
    pub ls_model_beta: ScalarBits,
    /// Processing latency the multilateration solver models.
    pub ls_model_tau: ScalarBits,
    /// Step-norm tolerance at which the multilateration solver stops.
    pub ls_tolerance: ScalarBits,
    /// Iteration cap of the multilateration solver.
    pub ls_iterations: usize,
    /// Process noise variance of the filter's position rows.
    pub kf_model_position_variance: ScalarBits,
    /// Message speed fraction the filter starts every node at.
    pub kf_model_beta: ScalarBits,
    /// Process noise variance of the filter's speed row.
    pub kf_model_beta_variance: ScalarBits,
    /// Processing latency the filter starts every node at.
    pub kf_model_tau: ScalarBits,
    /// Process noise variance of the filter's latency row.
    pub kf_model_tau_variance: ScalarBits,
    /// Observation noise variance of one time-of-flight measurement.
    pub kf_model_tof_observation_variance: ScalarBits,
}

/// Orderings of the real-valued range parameters, decided by the
/// numeric layer and handed to `SimulationConfig::validate`.
#[derive(Clone, Copy, Debug)]
pub struct ConfigChecks {
    /// The admissible message speed range is ordered: its minimum does
    /// not exceed its maximum.
    pub beta_range_ordered: bool,
    /// The admissible latency range is ordered.
    pub tau_range_ordered: bool,
}

/// The grid resolution lies in the valid range.
pub open spec fn resolution_valid(resolution: int) -> bool {
    MIN_GRID_RESOLUTION <= resolution <= MAX_GRID_RESOLUTION
}

/// The outcome validation assigns to a configuration: the first
/// defect found — grid resolution, then message speed range, then
/// latency range — or success.
pub open spec fn validation_result(config: SimulationConfig, checks: ConfigChecks) -> Result<
    (),
    ConfigError,
> {
    if !resolution_valid(config.h3_resolution as int) {
        Result::Err(ConfigError::InvalidResolution)
    } else if !checks.beta_range_ordered {
        Result::Err(ConfigError::InvalidBetaRange)
    } else if !checks.tau_range_ordered {
        Result::Err(ConfigError::InvalidTauRange)
    } else {
        Result::Ok(())
    }
}

impl SimulationConfig {
    /// Check the configuration before a run starts. The grid
    /// resolution is checked first, then the message speed range, then
    /// the latency range; the first defect found is the error.
    pub fn validate(&self, checks: &ConfigChecks) -> (r: Result<(), ConfigError>)
        ensures
            r == validation_result(*self, *checks),
    {
        if self.h3_resolution < MIN_GRID_RESOLUTION || self.h3_resolution > MAX_GRID_RESOLUTION {
            Err(ConfigError::InvalidResolution)
        } else if !checks.beta_range_ordered {
            Err(ConfigError::InvalidBetaRange)
        } else if !checks.tau_range_ordered {
            Err(ConfigError::InvalidTauRange)
        } else {
            Ok(())
        }
    }
}

/// The build-independent parameters a front end needs to size its
/// inputs.
pub struct CompilerParams {
    /// Number of measurements taken for every estimator update.
    pub n_measurements: usize,
}

/// The parameters this build of the core was fixed with.
pub fn get_compile_parameters() -> (r: CompilerParams)
    ensures
        r.n_measurements == N_MEASUREMENTS,
{
    CompilerParams { n_measurements: N_MEASUREMENTS }
}

} // verus!
