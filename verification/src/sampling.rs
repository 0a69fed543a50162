//! Measurement-target sampling.
//!
//! For one node's estimator update the sampler picks a fixed number of
//! counterpart nodes: every counterpart must be a different node that
//! lies within message range, and the picks are drawn uniformly
//! without replacement. When fewer counterparts are in range than one
//! update needs, the sampler reports a recoverable error and the
//! caller skips that node for the epoch.
//!
//! Whether a counterpart is in range is a comparison of real distances
//! and is decided by the numeric layer; it reaches this module as one
//! boolean per node.

use vstd::prelude::*;

use rand::rngs::ThreadRng;

use crate::errors::EstimatorError;
use crate::rng::sample_distinct;

verus! {

/// Number of time-of-flight measurements taken for every estimator
/// update.
pub const N_MEASUREMENTS: usize = 10;

/// Node `i` is an eligible counterpart for node `my_index`: it is a
/// different node and lies within message range.
pub open spec fn is_eligible(my_index: int, in_range: Seq<bool>, i: int) -> bool {
    &&& 0 <= i < in_range.len()
    &&& i != my_index
    &&& in_range[i]
}

/// How many nodes are eligible counterparts for node `my_index`.
pub open spec fn count_eligible(my_index: int, in_range: Seq<bool>) -> int
    decreases in_range.len(),
{
    if in_range.len() == 0 {
        0
    } else {
        count_eligible(my_index, in_range.drop_last()) + if in_range.len() - 1 != my_index
            && in_range.last() {
            1int
        } else {
            0int
        }
    }
}

/// The indices of all eligible counterparts for node `my_index`, in
/// increasing order.
pub fn eligible_counterparts(my_index: usize, in_range: &Vec<bool>) -> (r: Vec<usize>)
    ensures
        r@.len() == count_eligible(my_index as int, in_range@),
        forall|j: int|
            0 <= j < r@.len() ==> is_eligible(my_index as int, in_range@, (#[trigger] r@[j]) as int),
        forall|i: int, j: int| 0 <= i < j < r@.len() ==> r@[i] < r@[j],
        forall|i: int| is_eligible(my_index as int, in_range@, i) ==> r@.contains(i as usize),
{
    let n = in_range.len();
    let mut r: Vec<usize> = Vec::new();
    let mut k: usize = 0;
    while k < n
        invariant
            n == in_range@.len(),
            k <= n,
            r@.len() == count_eligible(my_index as int, in_range@.take(k as int)),
            forall|j: int| 0 <= j < r@.len() ==> (#[trigger] r@[j]) < k,
            forall|j: int|
                0 <= j < r@.len() ==> is_eligible(
                    my_index as int,
                    in_range@,
                    (#[trigger] r@[j]) as int,
                ),
            forall|i: int, j: int| 0 <= i < j < r@.len() ==> r@[i] < r@[j],
            forall|i: int|
                0 <= i < k && is_eligible(my_index as int, in_range@, i) ==> r@.contains(
                    i as usize,
                ),
        decreases n - k,
    {
        proof {
            assert(in_range@.take(k as int + 1).drop_last() =~= in_range@.take(k as int));
            assert(in_range@.take(k as int + 1).last() == in_range@[k as int]);
        }
        let ghost prev = r@;
        if k != my_index && in_range[k] {
            r.push(k);
            proof {
                assert forall|i: int|
                    0 <= i < k + 1 && is_eligible(my_index as int, in_range@, i) implies r@
                    .contains(i as usize) by {
                    if i < k {
                        let j = choose|j: int| 0 <= j < prev.len() && prev[j] == i as usize;
                        assert(r@[j] == i as usize);
                    } else {
                        assert(r@[r@.len() - 1] == i as usize);
                    }
                }
            }
        }
        k += 1;
    }
    proof {
        assert(in_range@.take(n as int) =~= in_range@);
    }
    r
}

/// Pick the counterpart nodes for one estimator update of node
/// `my_index`: exactly `N_MEASUREMENTS` distinct eligible node
/// indices, drawn without replacement. Fails — recoverably — if and
/// only if fewer counterparts are eligible than one update needs.
pub fn select_measurement_targets(
    my_index: usize,
    in_range: &Vec<bool>,
    rng: &mut ThreadRng,
) -> (r: Result<Vec<usize>, EstimatorError>)
    ensures
        r is Err <==> count_eligible(my_index as int, in_range@) < N_MEASUREMENTS,
        r matches Err(e) ==> e == EstimatorError::InsufficientCounterparts,
        r matches Ok(sel) ==> {
            &&& sel@.len() == N_MEASUREMENTS
            &&& forall|j: int|
                0 <= j < sel@.len() ==> is_eligible(
                    my_index as int,
                    in_range@,
                    (#[trigger] sel@[j]) as int,
                )
            &&& forall|i: int, j: int| 0 <= i < j < sel@.len() ==> sel@[i] != sel@[j]
        },
{
    let pool = eligible_counterparts(my_index, in_range);
    if pool.len() < N_MEASUREMENTS {
        return Err(EstimatorError::InsufficientCounterparts);
    }
    proof {
        assert forall|i: int, j: int| 0 <= i < j < pool@.len() implies pool@[i] != pool@[j] by {
            assert(pool@[i] < pool@[j]);
        }
    }
    let sel = sample_distinct(rng, &pool, N_MEASUREMENTS);
    proof {
        assert forall|j: int|
            0 <= j < sel@.len() implies is_eligible(
            my_index as int,
            in_range@,
            (#[trigger] sel@[j]) as int,
        ) by {
            let k = choose|k: int| 0 <= k < pool@.len() && pool@[k] == sel@[j];
            assert(is_eligible(my_index as int, in_range@, pool@[k] as int));
        }
    }
    Ok(sel)
}

} // verus!
