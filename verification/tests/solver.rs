use proximum_simulation::errors::EstimatorError;
use proximum_simulation::solver::adjust_damping;
use proximum_simulation::solver::check_multilateration_arity;
use proximum_simulation::solver::DampingAdjustment;
use proximum_simulation::solver::MIN_MULTILATERATION_MEASUREMENTS;

#[test]
fn multilateration_needs_at_least_four_measurements() {
    for n in 0..MIN_MULTILATERATION_MEASUREMENTS {
        assert_eq!(check_multilateration_arity(n), Err(EstimatorError::TooFewMeasurements));
    }
    assert_eq!(check_multilateration_arity(MIN_MULTILATERATION_MEASUREMENTS), Ok(()));
    assert_eq!(check_multilateration_arity(10), Ok(()));
}

#[test]
fn damping_grows_exactly_when_the_step_was_constrained() {
    // A raw Gauss-Newton step that overshoots the unit-sphere band is
    // cut down by the constraint, and the damping factor must then
    // increase.
    assert_eq!(adjust_damping(true), DampingAdjustment::Increase);
    assert_eq!(adjust_damping(false), DampingAdjustment::DecreaseTowardFloor);
}
