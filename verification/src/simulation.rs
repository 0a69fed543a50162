//! The simulation driver's state and its verified transitions.
//!
//! A run owns all nodes, the run configuration and the error
//! statistics. It proceeds epoch by epoch; within an epoch the nodes
//! are visited in a freshly shuffled order, and each visited node is
//! offered one update by each estimator. A node whose update fails
//! recoverably simply keeps its prior estimate — which here needs no
//! transition at all, since estimates only change when an update is
//! applied. After every epoch one entry is appended to each error
//! sequence.
//!
//! The numeric layer drives the loop: it asks for the epoch order,
//! samples measurement targets, runs the two estimators on real
//! numbers, and hands the results back through the transitions below,
//! whose contracts pin down exactly what each step may change.

use vstd::prelude::*;

use rand::rngs::ThreadRng;

use crate::config::resolution_valid;
use crate::config::validation_result;
use crate::config::ConfigChecks;
use crate::config::SimulationConfig;
use crate::errors::ConfigError;
use crate::kalman::KfStateAndCovariance;
use crate::node::Node;
use crate::node::NodePlacement;
use crate::rng::shuffle_indices;
use crate::stats::EpochStats;
use crate::stats::Stats;
use crate::ScalarBits;

verus! {

/// One simulation run: configuration, nodes and statistics.
#[derive(Clone, Debug)]
pub struct Simulation {
    /// The immutable run parameters.
    pub config: SimulationConfig,
    /// All nodes, each standing at the index its identity names.
    pub nodes: Vec<Node>,
    /// The three error sequences, one entry for the start of the run
    /// and one per completed epoch.
    pub stats: Stats,
    /// How many epochs have completed.
    pub epochs_completed: usize,
}

impl Simulation {
    /// The run's structural invariant: the configuration passed
    /// validation at construction (in particular its grid resolution
    /// is in range), the node collection matches the configuration,
    /// every node stands at the index its identity names, the error
    /// sequences move in step, and they hold exactly one entry for
    /// the start of the run plus one per completed epoch.
    pub open spec fn well_formed(self) -> bool {
        &&& resolution_valid(self.config.h3_resolution as int)
        &&& self.nodes@.len() == self.config.n_nodes
        &&& forall|i: int| 0 <= i < self.nodes@.len() ==> (#[trigger] self.nodes@[i]).id == i
        &&& self.stats.balanced()
        &&& self.stats.len() == self.epochs_completed + 1
        &&& self.epochs_completed <= self.config.n_epochs
    }

    /// Create a run, or refuse to: the configuration is validated
    /// first, and an invalid one is fatal — the first defect found is
    /// the error, and no run is built from it. On success the run
    /// holds one node per placement, with its index as its identity,
    /// and the initial errors as the first entry of every statistics
    /// sequence.
    pub fn new(
        config: SimulationConfig,
        checks: &ConfigChecks,
        placements: &Vec<NodePlacement>,
        initial_errors: EpochStats,
    ) -> (r: Result<Simulation, ConfigError>)
        requires
            placements@.len() == config.n_nodes,
        ensures
            r is Ok <==> validation_result(config, *checks) is Ok,
            r matches Err(e) ==> validation_result(config, *checks) == Result::<
                (),
                ConfigError,
            >::Err(e),
            r matches Ok(sim) ==> {
                &&& sim.well_formed()
                &&& sim.config == config
                &&& sim.epochs_completed == 0
                &&& sim.nodes@.len() == placements@.len()
                &&& forall|i: int|
                    0 <= i < placements@.len() ==> (#[trigger] sim.nodes@[i]).fresh_from(
                        i as usize,
                        placements@[i],
                    )
                &&& sim.stats.kf_estimation_rms_error@ == seq![initial_errors.kf_rms_error]
                &&& sim.stats.ls_estimation_rms_error@ == seq![initial_errors.ls_rms_error]
                &&& sim.stats.assertion_rms_error@ == seq![initial_errors.assertion_rms_error]
            },
    {
        if let Err(e) = config.validate(checks) {
            return Err(e);
        }
        let n = placements.len();
        let mut nodes: Vec<Node> = Vec::new();
        let mut i: usize = 0;
        while i < n
            invariant
                n == placements@.len(),
                i <= n,
                nodes@.len() == i,
                forall|j: int|
                    0 <= j < i ==> (#[trigger] nodes@[j]).fresh_from(j as usize, placements@[j]),
            decreases n - i,
        {
            nodes.push(Node::new(i, placements[i]));
            i += 1;
        }
        let mut stats = Stats::new();
        stats.record(initial_errors);
        proof {
            assert(stats.kf_estimation_rms_error@ =~= seq![initial_errors.kf_rms_error]);
            assert(stats.ls_estimation_rms_error@ =~= seq![initial_errors.ls_rms_error]);
            assert(stats.assertion_rms_error@ =~= seq![initial_errors.assertion_rms_error]);
        }
        Ok(Simulation { config, nodes, stats, epochs_completed: 0 })
    }

    /// The order in which this epoch visits the nodes: a uniformly
    /// shuffled rearrangement of all node indices. Every index appears
    /// exactly once.
    pub fn epoch_order(&self, rng: &mut ThreadRng) -> (r: Vec<usize>)
        ensures
            r@.len() == self.config.n_nodes,
            r@.to_multiset() == Seq::new(
                self.config.n_nodes as nat,
                |i: int| i as usize,
            ).to_multiset(),
            forall|j: int| 0 <= j < r@.len() ==> (#[trigger] r@[j]) < self.config.n_nodes,
            forall|x: usize| x < self.config.n_nodes ==> r@.to_multiset().count(x) == 1,
    {
        let n = self.config.n_nodes;
        let mut order: Vec<usize> = Vec::new();
        proof {
            assert(order@ =~= Seq::new(0 as nat, |i: int| i as usize));
        }
        let mut k: usize = 0;
        while k < n
            invariant
                k <= n,
                order@ == Seq::new(k as nat, |i: int| i as usize),
            decreases n - k,
        {
            order.push(k);
            proof {
                assert(order@ =~= Seq::new((k + 1) as nat, |i: int| i as usize));
            }
            k += 1;
        }
        shuffle_indices(rng, &mut order);
        proof {
            broadcast use vstd::seq_lib::group_to_multiset_ensures;

            let ident = Seq::new(n as nat, |i: int| i as usize);
            assert forall|j: int| 0 <= j < order@.len() implies (#[trigger] order@[j]) < n by {
                assert(order@.contains(order@[j]));
                assert(ident.to_multiset().count(order@[j]) > 0);
                assert(ident.contains(order@[j]));
                let m = choose|m: int| 0 <= m < ident.len() && ident[m] == order@[j];
                assert(order@[j] == m as usize);
            }
            assert(ident.no_duplicates());
            ident.lemma_multiset_has_no_duplicates();
            assert forall|x: usize| x < n implies order@.to_multiset().count(x) == 1 by {
                assert(ident[x as int] == x);
                assert(ident.contains(x));
                assert(ident.to_multiset().count(x) > 0);
                assert(ident.to_multiset().contains(x));
            }
        }
        order
    }

    /// Apply one successful filter update to node `i`. Only that
    /// node's filter-side estimate changes: its identity and its
    /// multilateration estimate stay, every other node stays, and the
    /// configuration and statistics stay.
    pub fn apply_kf_update(
        &mut self,
        i: usize,
        state_and_covariance: KfStateAndCovariance,
        estimated_position: [ScalarBits; 3],
        estimated_beta: ScalarBits,
        estimated_tau: ScalarBits,
    )
        requires
            old(self).well_formed(),
            i < old(self).nodes@.len(),
        ensures
            final(self).well_formed(),
            final(self).config == old(self).config,
            final(self).stats == old(self).stats,
            final(self).epochs_completed == old(self).epochs_completed,
            final(self).nodes@.len() == old(self).nodes@.len(),
            forall|j: int|
                0 <= j < old(self).nodes@.len() && j != i ==> final(self).nodes@[j] == old(
                    self,
                ).nodes@[j],
            final(self).nodes@[i as int].same_identity(old(self).nodes@[i as int]),
            final(self).nodes@[i as int].same_ls_estimate(old(self).nodes@[i as int]),
            final(self).nodes@[i as int].kf_state_and_covariance == state_and_covariance,
            final(self).nodes@[i as int].kf_estimated_position == estimated_position,
            final(self).nodes@[i as int].kf_estimated_beta == estimated_beta,
            final(self).nodes@[i as int].kf_estimated_tau == estimated_tau,
    {
        let node = &mut self.nodes[i];
        node.apply_kf_update(
            state_and_covariance,
            estimated_position,
            estimated_beta,
            estimated_tau,
        );
    }

    /// Apply one successful multilateration update to node `i`. Only
    /// that node's multilateration estimate changes.
    pub fn apply_ls_update(&mut self, i: usize, estimated_position: [ScalarBits; 3])
        requires
            old(self).well_formed(),
            i < old(self).nodes@.len(),
        ensures
            final(self).well_formed(),
            final(self).config == old(self).config,
            final(self).stats == old(self).stats,
            final(self).epochs_completed == old(self).epochs_completed,
            final(self).nodes@.len() == old(self).nodes@.len(),
            forall|j: int|
                0 <= j < old(self).nodes@.len() && j != i ==> final(self).nodes@[j] == old(
                    self,
                ).nodes@[j],
            final(self).nodes@[i as int].same_identity(old(self).nodes@[i as int]),
            final(self).nodes@[i as int].same_kf_estimate(old(self).nodes@[i as int]),
            final(self).nodes@[i as int].ls_estimated_position == estimated_position,
    {
        let node = &mut self.nodes[i];
        node.apply_ls_update(estimated_position);
    }

    /// Close one epoch: append the three errors measured over the
    /// epoch's final estimates. Nothing else changes, and each error
    /// sequence grows by exactly one entry.
    pub fn complete_epoch(&mut self, errors: EpochStats)
        requires
            old(self).well_formed(),
            old(self).epochs_completed < old(self).config.n_epochs,
        ensures
            final(self).well_formed(),
            final(self).config == old(self).config,
            final(self).nodes == old(self).nodes,
            final(self).epochs_completed == old(self).epochs_completed + 1,
            final(self).stats.kf_estimation_rms_error@ == old(
                self,
            ).stats.kf_estimation_rms_error@.push(errors.kf_rms_error),
            final(self).stats.ls_estimation_rms_error@ == old(
                self,
            ).stats.ls_estimation_rms_error@.push(errors.ls_rms_error),
            final(self).stats.assertion_rms_error@ == old(self).stats.assertion_rms_error@.push(
                errors.assertion_rms_error,
            ),
    {
        self.stats.record(errors);
        self.epochs_completed = self.epochs_completed + 1;
    }

    /// Whether the run has completed all its epochs.
    pub fn is_complete(&self) -> (r: bool)
        ensures
            r <==> self.epochs_completed == self.config.n_epochs,
    {
        self.epochs_completed == self.config.n_epochs
    }

    /// After any number of completed epochs, each of the three error
    /// sequences holds exactly one entry more than that number: the
    /// initial record plus one per epoch — no epoch is skipped and
    /// none is recorded twice.
    pub proof fn lemma_stats_length_tracks_epochs(self)
        requires
            self.well_formed(),
        ensures
            self.stats.kf_estimation_rms_error@.len() == self.epochs_completed + 1,
            self.stats.ls_estimation_rms_error@.len() == self.epochs_completed + 1,
            self.stats.assertion_rms_error@.len() == self.epochs_completed + 1,
    {
    }
}

} // verus!
