//! Decision rules of the multilateration solver.
//!
//! The solver itself is an iterative Gauss-Newton descent with
//! Levenberg-Marquardt damping over real-valued positions, run by the
//! numeric layer. Its discrete rules live here: when a solve may run
//! at all, and in which direction the damping factor moves after an
//! iteration.

use vstd::prelude::*;

use crate::errors::EstimatorError;

verus! {

/// Fewest measurements from which a three-dimensional position can be
/// multilaterated.
pub const MIN_MULTILATERATION_MEASUREMENTS: usize = 4;

/// Which way the Levenberg-Marquardt damping factor moves after one
/// iteration.
#[derive(Clone, Copy, Debug, PartialEq, Eq, Structural)]
pub enum DampingAdjustment {
    /// Damping grows tenfold: the constrained step was shorter than
    /// the raw step, so the bound is actively limiting divergence.
    Increase,
    /// Damping shrinks tenfold, but never below its floor.
    DecreaseTowardFloor,
}

/// Whether a multilateration solve may run on `n` measurements: three
/// coordinates need at least four, and fewer is a recoverable error.
pub fn check_multilateration_arity(n: usize) -> (r: Result<(), EstimatorError>)
    ensures
        r is Err <==> n < MIN_MULTILATERATION_MEASUREMENTS,
        r matches Err(e) ==> e == EstimatorError::TooFewMeasurements,
{
    if n < MIN_MULTILATERATION_MEASUREMENTS {
        Err(EstimatorError::TooFewMeasurements)
    } else {
        Ok(())
    }
}

/// How the damping factor moves after one iteration: it increases
/// exactly when the constrained step came out shorter than the raw
/// Gauss-Newton step, and decreases toward its floor otherwise.
pub fn adjust_damping(constrained_step_shorter: bool) -> (r: DampingAdjustment)
    ensures
        r == DampingAdjustment::Increase <==> constrained_step_shorter,
{
    if constrained_step_shorter {
        DampingAdjustment::Increase
    } else {
        DampingAdjustment::DecreaseTowardFloor
    }
}

} // verus!
