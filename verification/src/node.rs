//! One node of the network.
//!
//! A node carries its fixed truth (position, message speed fraction,
//! processing latency), its fixed noisy position assertion, and two
//! independently evolving estimates: the multilateration position
//! estimate and the filter state with its covariance. The truth and
//! the assertion never change after creation; each estimate is
//! replaced at most once per epoch, by its own estimator.
//!
//! Positions are Cartesian earth-centered coordinates and, like every
//! real-valued quantity here, opaque scalar encodings; grid cells are
//! their 64-bit cell identifiers.

use vstd::prelude::*;

use crate::kalman::KfStateAndCovariance;
use crate::stats::PositionType;
use crate::ScalarBits;

verus! {

/// Everything fixed about one node at creation: where it truly is,
/// what it asserts, and the state the filter starts from.
#[derive(Clone, Copy, Debug)]
pub struct NodePlacement {
    /// Grid cell the node truly occupies.
    pub true_index: u64,
    /// True Cartesian position, fixed for the run.
    pub true_position: [ScalarBits; 3],
    /// True message speed fraction, fixed for the run.
    pub true_beta: ScalarBits,
    /// True processing latency, fixed for the run.
    pub true_tau: ScalarBits,
    /// Grid cell of the asserted position.
    pub asserted_index: u64,
    /// Asserted Cartesian position: a noisy prior claim near the true
    /// position, fixed for the run.
    pub asserted_position: [ScalarBits; 3],
    /// Filter state the node starts from: the asserted position and
    /// the modelled speed and latency, in normalized units.
    pub initial_kf: KfStateAndCovariance,
    /// Message speed fraction the filter starts the node at.
    pub initial_kf_beta: ScalarBits,
    /// Processing latency the filter starts the node at.
    pub initial_kf_tau: ScalarBits,
}

/// One node: fixed truth and assertion, plus the two evolving
/// estimates.
#[derive(Clone, Copy, Debug)]
pub struct Node {
    /// The node's identity: equals its index in the node collection
    /// and never changes.
    pub id: usize,
    /// Grid cell the node truly occupies.
    pub true_index: u64,
    /// True Cartesian position, fixed for the run.
    pub true_position: [ScalarBits; 3],
    /// True message speed fraction, fixed for the run.
    pub true_beta: ScalarBits,
    /// True processing latency, fixed for the run.
    pub true_tau: ScalarBits,
    /// Grid cell of the asserted position.
    pub asserted_index: u64,
    /// Asserted Cartesian position, fixed for the run.
    pub asserted_position: [ScalarBits; 3],
    /// Position estimate of the multilateration solver.
    pub ls_estimated_position: [ScalarBits; 3],
    /// Position estimate recovered from the filter state.
    pub kf_estimated_position: [ScalarBits; 3],
    /// Message speed fraction recovered from the filter state.
    pub kf_estimated_beta: ScalarBits,
    /// Processing latency recovered from the filter state.
    pub kf_estimated_tau: ScalarBits,
    /// The filter's five-dimensional state and covariance, in
    /// normalized units.
    pub kf_state_and_covariance: KfStateAndCovariance,
}

impl Node {
    /// The fields fixed at creation — identity, truth and assertion —
    /// agree with the given placement.
    pub open spec fn placed_as(self, id: usize, p: NodePlacement) -> bool {
        &&& self.id == id
        &&& self.true_index == p.true_index
        &&& self.true_position == p.true_position
        &&& self.true_beta == p.true_beta
        &&& self.true_tau == p.true_tau
        &&& self.asserted_index == p.asserted_index
        &&& self.asserted_position == p.asserted_position
    }

    /// Identity, truth and assertion are the same in both values:
    /// what no estimator update may change.
    pub open spec fn same_identity(self, other: Node) -> bool {
        &&& self.id == other.id
        &&& self.true_index == other.true_index
        &&& self.true_position == other.true_position
        &&& self.true_beta == other.true_beta
        &&& self.true_tau == other.true_tau
        &&& self.asserted_index == other.asserted_index
        &&& self.asserted_position == other.asserted_position
    }

    /// The filter-side estimate is the same in both values.
    pub open spec fn same_kf_estimate(self, other: Node) -> bool {
        &&& self.kf_estimated_position == other.kf_estimated_position
        &&& self.kf_estimated_beta == other.kf_estimated_beta
        &&& self.kf_estimated_tau == other.kf_estimated_tau
        &&& self.kf_state_and_covariance == other.kf_state_and_covariance
    }

    /// The multilateration estimate is the same in both values.
    pub open spec fn same_ls_estimate(self, other: Node) -> bool {
        self.ls_estimated_position == other.ls_estimated_position
    }

    /// The node is exactly as `new` creates it from this placement:
    /// fixed fields from the placement, both estimates started at the
    /// asserted position and the initial filter state.
    pub open spec fn fresh_from(self, id: usize, p: NodePlacement) -> bool {
        &&& self.placed_as(id, p)
        &&& self.ls_estimated_position == p.asserted_position
        &&& self.kf_estimated_position == p.asserted_position
        &&& self.kf_estimated_beta == p.initial_kf_beta
        &&& self.kf_estimated_tau == p.initial_kf_tau
        &&& self.kf_state_and_covariance == p.initial_kf
    }

    /// Create a node from its placement. Both estimates start at the
    /// asserted position: the filter at the given initial state, the
    /// multilateration estimate at the asserted coordinates.
    pub fn new(id: usize, placement: NodePlacement) -> (r: Node)
        ensures
            r.fresh_from(id, placement),
    {
        Node {
            id,
            true_index: placement.true_index,
            true_position: placement.true_position,
            true_beta: placement.true_beta,
            true_tau: placement.true_tau,
            asserted_index: placement.asserted_index,
            asserted_position: placement.asserted_position,
            ls_estimated_position: placement.asserted_position,
            kf_estimated_position: placement.asserted_position,
            kf_estimated_beta: placement.initial_kf_beta,
            kf_estimated_tau: placement.initial_kf_tau,
            kf_state_and_covariance: placement.initial_kf,
        }
    }

    /// The position of this node that an error statistic of the given
    /// kind compares against the true position.
    pub fn position_of_type(&self, position_type: PositionType) -> (r: [ScalarBits; 3])
        ensures
            r == match position_type {
                PositionType::KfEstimated => self.kf_estimated_position,
                PositionType::LsEstimated => self.ls_estimated_position,
                PositionType::Asserted => self.asserted_position,
            },
    {
        match position_type {
            PositionType::KfEstimated => self.kf_estimated_position,
            PositionType::LsEstimated => self.ls_estimated_position,
            PositionType::Asserted => self.asserted_position,
        }
    }

    /// Replace the filter-side estimate after one successful filter
    /// update. Nothing else about the node changes; in particular the
    /// multilateration estimate is untouched, since the two estimators
    /// are independent.
    pub fn apply_kf_update(
        &mut self,
        state_and_covariance: KfStateAndCovariance,
        estimated_position: [ScalarBits; 3],
        estimated_beta: ScalarBits,
        estimated_tau: ScalarBits,
    )
        ensures
            final(self).same_identity(*old(self)),
            final(self).same_ls_estimate(*old(self)),
            final(self).kf_state_and_covariance == state_and_covariance,
            final(self).kf_estimated_position == estimated_position,
            final(self).kf_estimated_beta == estimated_beta,
            final(self).kf_estimated_tau == estimated_tau,
    {
        self.kf_state_and_covariance = state_and_covariance;
        self.kf_estimated_position = estimated_position;
        self.kf_estimated_beta = estimated_beta;
        self.kf_estimated_tau = estimated_tau;
    }

    /// Replace the multilateration estimate after one successful
    /// solver run. Nothing else about the node changes.
    pub fn apply_ls_update(&mut self, estimated_position: [ScalarBits; 3])
        ensures
            final(self).same_identity(*old(self)),
            final(self).same_kf_estimate(*old(self)),
            final(self).ls_estimated_position == estimated_position,
    {
        self.ls_estimated_position = estimated_position;
    }
}

} // verus!
