//! Per-epoch error statistics.
//!
//! The run keeps three parallel sequences of root-mean-square position
//! error — one for the filter estimate, one for the multilateration
//! estimate, one for the static asserted position. One entry is
//! appended to each sequence when the run starts and one more after
//! every epoch; entries are never rewritten. The error values
//! themselves are computed by the numeric layer and stored here as
//! opaque scalar encodings.

use vstd::prelude::*;

use crate::ScalarBits;

verus! {

/// Which of a node's three positions an error statistic compares
/// against the true position.
#[derive(Clone, Copy, Debug, PartialEq, Eq, Structural)]
pub enum PositionType {
    /// The position recovered from the filter state.
    KfEstimated,
    /// The multilateration solver's position estimate.
    LsEstimated,
    /// The fixed asserted position.
    Asserted,
}

/// The three root-mean-square position errors measured at one point
/// of the run.
#[derive(Clone, Copy, Debug)]
pub struct EpochStats {
    /// Error of the filter estimates over all nodes.
    pub kf_rms_error: ScalarBits,
    /// Error of the multilateration estimates over all nodes.
    pub ls_rms_error: ScalarBits,
    /// Error of the asserted positions over all nodes.
    pub assertion_rms_error: ScalarBits,
}

/// The three parallel error sequences of one run.
#[derive(Clone, Debug)]
pub struct Stats {
    /// Error of the filter estimates, one entry at the start and one
    /// per epoch.
    pub kf_estimation_rms_error: Vec<ScalarBits>,
    /// Error of the multilateration estimates, in step with the
    /// filter sequence.
    pub ls_estimation_rms_error: Vec<ScalarBits>,
    /// Error of the asserted positions, in step with the other two.
    pub assertion_rms_error: Vec<ScalarBits>,
}

impl Stats {
    /// The three sequences have the same length: one entry for the
    /// start of the run and one for every completed epoch.
    pub open spec fn len(self) -> int {
        self.kf_estimation_rms_error@.len() as int
    }

    /// The three sequences move in step.
    pub open spec fn balanced(self) -> bool {
        &&& self.ls_estimation_rms_error@.len() == self.len()
        &&& self.assertion_rms_error@.len() == self.len()
    }

    /// Empty statistics, before the initial errors are recorded.
    pub fn new() -> (r: Stats)
        ensures
            r.balanced(),
            r.len() == 0,
    {
        Stats {
            kf_estimation_rms_error: Vec::new(),
            ls_estimation_rms_error: Vec::new(),
            assertion_rms_error: Vec::new(),
        }
    }

    /// Append one measurement of the three errors. Each sequence grows
    /// by exactly its entry; nothing already recorded changes.
    pub fn record(&mut self, entry: EpochStats)
        requires
            old(self).balanced(),
        ensures
            final(self).balanced(),
            final(self).len() == old(self).len() + 1,
            final(self).kf_estimation_rms_error@ == old(self).kf_estimation_rms_error@.push(
                entry.kf_rms_error,
            ),
            final(self).ls_estimation_rms_error@ == old(self).ls_estimation_rms_error@.push(
                entry.ls_rms_error,
            ),
            final(self).assertion_rms_error@ == old(self).assertion_rms_error@.push(
                entry.assertion_rms_error,
            ),
    {
        self.kf_estimation_rms_error.push(entry.kf_rms_error);
        self.ls_estimation_rms_error.push(entry.ls_rms_error);
        self.assertion_rms_error.push(entry.assertion_rms_error);
    }
}

} // verus!
