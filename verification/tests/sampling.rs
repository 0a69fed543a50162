use proximum_simulation::errors::EstimatorError;
use proximum_simulation::sampling::eligible_counterparts;
use proximum_simulation::sampling::select_measurement_targets;
use proximum_simulation::sampling::N_MEASUREMENTS;

#[test]
fn eligible_counterparts_filters_self_and_out_of_range() {
    let in_range = vec![true, false, true, true, true];
    let eligible = eligible_counterparts(2, &in_range);
    assert_eq!(eligible, vec![0, 3, 4]);
}

#[test]
fn eligible_counterparts_empty_when_nothing_in_range() {
    let in_range = vec![false; 8];
    let eligible = eligible_counterparts(3, &in_range);
    assert!(eligible.is_empty());
}

#[test]
fn sampler_fails_when_every_node_is_out_of_range() {
    // A configuration whose message range reaches no other node leaves
    // every in-range flag false: the sampler must report the
    // insufficient-counterparts error, and promptly.
    let in_range = vec![false; 30];
    let mut rng = rand::rng();
    let r = select_measurement_targets(0, &in_range, &mut rng);
    assert_eq!(r, Err(EstimatorError::InsufficientCounterparts));
}

#[test]
fn sampler_fails_when_one_counterpart_is_missing() {
    // Exactly one eligible node fewer than a full measurement set.
    let mut in_range = vec![false; N_MEASUREMENTS + 1];
    for i in 1..N_MEASUREMENTS {
        in_range[i] = true;
    }
    let mut rng = rand::rng();
    let r = select_measurement_targets(0, &in_range, &mut rng);
    assert_eq!(r, Err(EstimatorError::InsufficientCounterparts));
}

#[test]
fn sampler_takes_all_counterparts_when_exactly_enough() {
    let mut in_range = vec![true; N_MEASUREMENTS + 2];
    in_range[4] = false;
    let mut rng = rand::rng();
    // Node 4 is out of range and node 0 is the sampler itself, so the
    // ten remaining nodes must all be drawn.
    let mut sel = select_measurement_targets(0, &in_range, &mut rng).unwrap();
    sel.sort();
    let expected: Vec<usize> = (1..N_MEASUREMENTS + 2).filter(|&i| i != 4).collect();
    assert_eq!(sel, expected);
}

#[test]
fn sampler_fails_on_an_empty_network() {
    let mut rng = rand::rng();
    let r = select_measurement_targets(0, &Vec::new(), &mut rng);
    assert_eq!(r, Err(EstimatorError::InsufficientCounterparts));
}

#[test]
fn eligible_counterparts_ignores_an_absent_sampler_index() {
    // A sampler index beyond the collection excludes nothing.
    let in_range = vec![true, true];
    let eligible = eligible_counterparts(9, &in_range);
    assert_eq!(eligible, vec![0, 1]);
}

#[test]
fn sampler_never_draws_an_out_of_range_target() {
    // Only even indices are in range; every draw must come from them.
    let n = 50;
    let my_index = 2;
    let in_range: Vec<bool> = (0..n).map(|i| i % 2 == 0).collect();
    let mut rng = rand::rng();
    let sel = select_measurement_targets(my_index, &in_range, &mut rng).unwrap();
    assert_eq!(sel.len(), N_MEASUREMENTS);
    for &i in &sel {
        assert!(in_range[i]);
        assert_ne!(i, my_index);
    }
}

#[test]
fn sampler_draws_distinct_eligible_targets() {
    let n = 40;
    let my_index = 7;
    let in_range = vec![true; n];
    let mut rng = rand::rng();
    let sel = select_measurement_targets(my_index, &in_range, &mut rng).unwrap();
    assert_eq!(sel.len(), N_MEASUREMENTS);
    let mut seen = vec![false; n];
    for &i in &sel {
        assert!(i < n);
        assert_ne!(i, my_index);
        assert!(!seen[i], "target {} drawn twice", i);
        seen[i] = true;
    }
}
