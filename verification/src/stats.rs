//! Per-node statistics records, the Mining capability, and hierarchical,
//! tier-aware accounting of solutions.
//!
//! Every logical mining node keeps four meters, one per accounting category.
//! An accounting call credits one category on every node along a leaf-to-root
//! path, so per-device activity rolls up into group and global aggregates.
//! The tiered entry point honours the containment rule between the three
//! difficulty tiers: a solution meeting the network tier also meets the job
//! and backend tiers, and one meeting the job tier also meets the backend
//! tier.

use vstd::prelude::*;
use crate::difficulty::{Solution, Target};
use crate::meter::{
    default_intervals, default_time_mean_intervals, meter_init, meter_step, Meter, MeterView,
};

verus! {

/// Which difficulty target a particular solution has met, and so in which
/// statistics it is accounted. The tiers are strictly ordered, network
/// strictest: a solution meeting the network tier also meets the job and
/// backend tiers.
#[derive(Clone, Copy, PartialEq, Eq, Structural, Debug)]
pub enum DiffTargetType {
    Network,
    Job,
    Backend,
}

/// The four accounting categories a node keeps statistics for.
#[derive(Clone, Copy, PartialEq, Eq, Structural, Debug)]
pub enum MeterKind {
    ValidNetworkDiff,
    ValidJobDiff,
    ValidBackendDiff,
    ErrorBackendDiff,
}

/// The mathematical state of one node's statistics record: the fixed start
/// time and the four category meters.
#[verifier::ext_equal]
pub ghost struct NodeView {
    pub start_time_secs: u64,
    pub valid_network_diff: MeterView,
    pub valid_job_diff: MeterView,
    pub valid_backend_diff: MeterView,
    pub error_backend_diff: MeterView,
}

impl NodeView {
    /// Every category meter is well-formed.
    pub open spec fn wf(self) -> bool {
        &&& self.valid_network_diff.wf()
        &&& self.valid_job_diff.wf()
        &&& self.valid_backend_diff.wf()
        &&& self.error_backend_diff.wf()
    }

    /// The meter of one accounting category.
    pub open spec fn category(self, kind: MeterKind) -> MeterView {
        match kind {
            MeterKind::ValidNetworkDiff => self.valid_network_diff,
            MeterKind::ValidJobDiff => self.valid_job_diff,
            MeterKind::ValidBackendDiff => self.valid_backend_diff,
            MeterKind::ErrorBackendDiff => self.error_backend_diff,
        }
    }

    /// The same node with one category's meter replaced.
    pub open spec fn with_category(self, kind: MeterKind, m: MeterView) -> NodeView {
        match kind {
            MeterKind::ValidNetworkDiff => NodeView { valid_network_diff: m, ..self },
            MeterKind::ValidJobDiff => NodeView { valid_job_diff: m, ..self },
            MeterKind::ValidBackendDiff => NodeView { valid_backend_diff: m, ..self },
            MeterKind::ErrorBackendDiff => NodeView { error_backend_diff: m, ..self },
        }
    }

    /// The node after accounting one solution that met `target` into one
    /// category's meter.
    pub open spec fn credit(self, kind: MeterKind, target: Target, at_secs: u64) -> NodeView {
        self.with_category(kind, meter_step(self.category(kind), target, at_secs))
    }

    /// The node after one tiered accounting call: the backend category is
    /// always credited with the solution's backend target; the job category
    /// additionally when the satisfied tier is at least the job tier; the
    /// network category additionally when the satisfied tier is the network
    /// tier. This is the containment rule.
    pub open spec fn credit_valid_solution(
        self,
        solution: Solution,
        at_secs: u64,
        met: DiffTargetType,
    ) -> NodeView {
        let backend = self.credit(MeterKind::ValidBackendDiff, solution.backend_target, at_secs);
        if met == DiffTargetType::Backend {
            backend
        } else {
            let job = backend.credit(MeterKind::ValidJobDiff, solution.job_target, at_secs);
            if met == DiffTargetType::Job {
                job
            } else {
                job.credit(MeterKind::ValidNetworkDiff, solution.network_target, at_secs)
            }
        }
    }
}

/// A freshly constructed node record: the given start time and four meters
/// over the same interval list.
pub open spec fn node_init(start_time_secs: u64, intervals: Seq<u64>) -> NodeView {
    NodeView {
        start_time_secs,
        valid_network_diff: meter_init(intervals),
        valid_job_diff: meter_init(intervals),
        valid_backend_diff: meter_init(intervals),
        error_backend_diff: meter_init(intervals),
    }
}

/// The concrete statistics record for one logical mining node: four meters,
/// one per accounting category, plus the immutable start time of measurement.
/// Any node type satisfies the [`Mining`] capability by embedding one of
/// these.
#[derive(Debug)]
pub struct BasicMining {
    /// The time all statistics are measured from, in seconds.
    pub start_time_secs: u64,
    /// Statistics for all valid blocks on network difficulty.
    pub valid_network_diff: Meter,
    /// Statistics for all valid jobs on job/pool difficulty.
    pub valid_job_diff: Meter,
    /// Statistics for all valid work on backend difficulty.
    pub valid_backend_diff: Meter,
    /// Statistics for all invalid work on backend difficulty.
    pub error_backend_diff: Meter,
}

impl View for BasicMining {
    type V = NodeView;

    open spec fn view(&self) -> NodeView {
        NodeView {
            start_time_secs: self.start_time_secs,
            valid_network_diff: self.valid_network_diff@,
            valid_job_diff: self.valid_job_diff@,
            valid_backend_diff: self.valid_backend_diff@,
            error_backend_diff: self.error_backend_diff@,
        }
    }
}

impl BasicMining {
    /// Well-formed means all four meters are.
    pub open spec fn wf(&self) -> bool {
        self@.wf()
    }

    /// A fresh record: all four meters over the same interval list, counters
    /// at zero, measuring from `start_time_secs`. The intervals must be
    /// pairwise distinct and non-empty.
    pub fn new(start_time_secs: u64, intervals: &Vec<u64>) -> (r: Self)
        requires
            forall|i: int| 0 <= i < intervals@.len() ==> intervals@[i] > 0,
            forall|i: int, j: int|
                0 <= i < j < intervals@.len() ==> intervals@[i] != intervals@[j],
        ensures
            r@ == node_init(start_time_secs, intervals@),
            r.wf(),
    {
        BasicMining {
            start_time_secs,
            valid_network_diff: Meter::new(intervals),
            valid_job_diff: Meter::new(intervals),
            valid_backend_diff: Meter::new(intervals),
            error_backend_diff: Meter::new(intervals),
        }
    }
}

impl Default for BasicMining {
    /// A fresh record over the shared default interval list, measuring from
    /// second zero; callers that track real time pass a clock reading to
    /// [`BasicMining::new`] instead.
    fn default() -> (r: Self)
        ensures
            r@ == node_init(0, default_intervals()),
            r.wf(),
    {
        let intervals = default_time_mean_intervals();
        BasicMining::new(0, &intervals)
    }
}

/// The capability every statistics-bearing node implements: its four category
/// meters and the time its statistics are measured from. Nodes satisfy it by
/// composition, embedding a [`BasicMining`] record.
pub trait Mining {
    /// The mathematical state of this node's statistics record.
    spec fn stats_view(&self) -> NodeView;

    /// The time all statistics are measured from, in seconds.
    fn start_time(&self) -> (r: u64)
        ensures
            r == self.stats_view().start_time_secs,
    ;

    /// Statistics for all valid blocks on network difficulty.
    fn valid_network_diff(&self) -> (r: &Meter)
        ensures
            r@ == self.stats_view().valid_network_diff,
    ;

    /// Statistics for all valid jobs on job/pool difficulty.
    fn valid_job_diff(&self) -> (r: &Meter)
        ensures
            r@ == self.stats_view().valid_job_diff,
    ;

    /// Statistics for all valid work on backend difficulty.
    fn valid_backend_diff(&self) -> (r: &Meter)
        ensures
            r@ == self.stats_view().valid_backend_diff,
    ;

    /// Statistics for all invalid work on backend difficulty.
    fn error_backend_diff(&self) -> (r: &Meter)
        ensures
            r@ == self.stats_view().error_backend_diff,
    ;
}

impl Mining for BasicMining {
    open spec fn stats_view(&self) -> NodeView {
        self@
    }

    fn start_time(&self) -> (r: u64) {
        self.start_time_secs
    }

    fn valid_network_diff(&self) -> (r: &Meter) {
        &self.valid_network_diff
    }

    fn valid_job_diff(&self) -> (r: &Meter) {
        &self.valid_job_diff
    }

    fn valid_backend_diff(&self) -> (r: &Meter) {
        &self.valid_backend_diff
    }

    fn error_backend_diff(&self) -> (r: &Meter) {
        &self.error_backend_diff
    }
}

/// Credits one solution into the `kind` category's meter of every node along
/// `path` (leaf to root; the order does not affect the outcome, each node's
/// meter being independent). Nodes outside the path are untouched, `path`
/// being the only state this function can reach.
#[verifier::loop_isolation(false)]
pub fn account_meter(
    path: &mut Vec<BasicMining>,
    kind: MeterKind,
    solution_target: &Target,
    time_secs: u64,
)
    ensures
        final(path)@.len() == old(path)@.len(),
        forall|i: int|
            0 <= i < old(path)@.len() ==> final(path)@[i]@ == old(path)@[i]@.credit(
                kind,
                *solution_target,
                time_secs,
            ),
{
    let ghost nodes0 = path@;
    let mut i: usize = 0;
    while i < path.len()
        invariant
            i <= nodes0.len(),
            path@.len() == nodes0.len(),
            forall|j: int|
                0 <= j < i ==> path@[j]@ == nodes0[j]@.credit(kind, *solution_target, time_secs),
            forall|j: int| i <= j < nodes0.len() ==> path@[j] == nodes0[j],
        decreases nodes0.len() - i,
    {
        match kind {
            MeterKind::ValidNetworkDiff => path[i].valid_network_diff.account_solution(
                solution_target,
                time_secs,
            ),
            MeterKind::ValidJobDiff => path[i].valid_job_diff.account_solution(
                solution_target,
                time_secs,
            ),
            MeterKind::ValidBackendDiff => path[i].valid_backend_diff.account_solution(
                solution_target,
                time_secs,
            ),
            MeterKind::ErrorBackendDiff => path[i].error_backend_diff.account_solution(
                solution_target,
                time_secs,
            ),
        }
        proof {
            assert(path@[i as int]@ =~= nodes0[i as int]@.credit(kind, *solution_target, time_secs));
        }
        i = i + 1;
    }
}

/// Credits `solution_target` into the valid-at-network-difficulty meter of
/// every node along `path`.
pub fn account_valid_network_diff(path: &mut Vec<BasicMining>, solution_target: &Target, time_secs: u64)
    ensures
        final(path)@.len() == old(path)@.len(),
        forall|i: int|
            0 <= i < old(path)@.len() ==> final(path)@[i]@ == old(path)@[i]@.credit(
                MeterKind::ValidNetworkDiff,
                *solution_target,
                time_secs,
            ),
{
    account_meter(path, MeterKind::ValidNetworkDiff, solution_target, time_secs);
}

/// Credits `solution_target` into the valid-at-job-difficulty meter of every
/// node along `path`.
pub fn account_valid_job_diff(path: &mut Vec<BasicMining>, solution_target: &Target, time_secs: u64)
    ensures
        final(path)@.len() == old(path)@.len(),
        forall|i: int|
            0 <= i < old(path)@.len() ==> final(path)@[i]@ == old(path)@[i]@.credit(
                MeterKind::ValidJobDiff,
                *solution_target,
                time_secs,
            ),
{
    account_meter(path, MeterKind::ValidJobDiff, solution_target, time_secs);
}

/// Credits `solution_target` into the valid-at-backend-difficulty meter of
/// every node along `path`.
pub fn account_valid_backend_diff(path: &mut Vec<BasicMining>, solution_target: &Target, time_secs: u64)
    ensures
        final(path)@.len() == old(path)@.len(),
        forall|i: int|
            0 <= i < old(path)@.len() ==> final(path)@[i]@ == old(path)@[i]@.credit(
                MeterKind::ValidBackendDiff,
                *solution_target,
                time_secs,
            ),
{
    account_meter(path, MeterKind::ValidBackendDiff, solution_target, time_secs);
}

/// Credits `solution_target` into the error-at-backend-difficulty meter of
/// every node along `path`.
pub fn account_error_backend_diff(path: &mut Vec<BasicMining>, solution_target: &Target, time_secs: u64)
    ensures
        final(path)@.len() == old(path)@.len(),
        forall|i: int|
            0 <= i < old(path)@.len() ==> final(path)@[i]@ == old(path)@[i]@.credit(
                MeterKind::ErrorBackendDiff,
                *solution_target,
                time_secs,
            ),
{
    account_meter(path, MeterKind::ErrorBackendDiff, solution_target, time_secs);
}

/// Accounts one valid solution into all relevant statistics of a single node,
/// based on the tier it met. The building block behind
/// [`account_valid_solution`]; an application that guards each node with its
/// own lock credits one node at a time through this.
pub fn account_valid_solution_node(
    node: &mut BasicMining,
    solution: &Solution,
    time_secs: u64,
    met_diff_target_type: DiffTargetType,
)
    ensures
        final(node)@ == old(node)@.credit_valid_solution(
            *solution,
            time_secs,
            met_diff_target_type,
        ),
{
    node.valid_backend_diff.account_solution(&solution.backend_target, time_secs);
    if met_diff_target_type != DiffTargetType::Backend {
        node.valid_job_diff.account_solution(&solution.job_target, time_secs);
        if met_diff_target_type != DiffTargetType::Job {
            node.valid_network_diff.account_solution(&solution.network_target, time_secs);
            proof {
                // The closed tier enumeration leaves only the network tier
                // here; the fatal caller-bug check this guards is impossible.
                assert(met_diff_target_type == DiffTargetType::Network);
            }
        }
    }
    proof {
        assert(node@ =~= old(node)@.credit_valid_solution(
            *solution,
            time_secs,
            met_diff_target_type,
        ));
    }
}

/// Accounts one valid solution to all relevant share statistics of every node
/// along `path`, honouring the containment rule: the backend category is
/// always credited; the job category also, unless only the backend tier was
/// met; the network category also, exactly when the network tier was met.
#[verifier::loop_isolation(false)]
pub fn account_valid_solution(
    path: &mut Vec<BasicMining>,
    solution: &Solution,
    time_secs: u64,
    met_diff_target_type: DiffTargetType,
)
    ensures
        final(path)@.len() == old(path)@.len(),
        forall|i: int|
            0 <= i < old(path)@.len() ==> final(path)@[i]@ == old(
                path,
            )@[i]@.credit_valid_solution(*solution, time_secs, met_diff_target_type),
{
    let ghost nodes0 = path@;
    let mut i: usize = 0;
    while i < path.len()
        invariant
            i <= nodes0.len(),
            path@.len() == nodes0.len(),
            forall|j: int|
                0 <= j < i ==> path@[j]@ == nodes0[j]@.credit_valid_solution(
                    *solution,
                    time_secs,
                    met_diff_target_type,
                ),
            forall|j: int| i <= j < nodes0.len() ==> path@[j] == nodes0[j],
        decreases nodes0.len() - i,
    {
        let node = &mut path[i];
        account_valid_solution_node(node, solution, time_secs, met_diff_target_type);
        i = i + 1;
    }
}

/// Containment law: one tiered accounting call against one node moves the
/// solution counters of exactly the categories its tier contains. The network
/// tier credits all three valid categories, the job tier the job and backend
/// categories, the backend tier only the backend category; the error category
/// and the start time never move.
pub proof fn lemma_containment(
    n: NodeView,
    solution: Solution,
    at_secs: u64,
    met: DiffTargetType,
)
    requires
        n.valid_network_diff.solutions < u64::MAX,
        n.valid_job_diff.solutions < u64::MAX,
        n.valid_backend_diff.solutions < u64::MAX,
    ensures
        ({
            let c = n.credit_valid_solution(solution, at_secs, met);
            &&& c.valid_backend_diff.solutions == n.valid_backend_diff.solutions + 1
            &&& (met == DiffTargetType::Backend ==> c.valid_job_diff == n.valid_job_diff
                && c.valid_network_diff == n.valid_network_diff)
            &&& (met == DiffTargetType::Job ==> c.valid_job_diff.solutions
                == n.valid_job_diff.solutions + 1 && c.valid_network_diff
                == n.valid_network_diff)
            &&& (met == DiffTargetType::Network ==> c.valid_job_diff.solutions
                == n.valid_job_diff.solutions + 1 && c.valid_network_diff.solutions
                == n.valid_network_diff.solutions + 1)
            &&& c.error_backend_diff == n.error_backend_diff
            &&& c.start_time_secs == n.start_time_secs
        }),
{
}

/// Hierarchical propagation law, per node: crediting one category steps that
/// category's solution counter by exactly one and leaves every other
/// category, and the start time, untouched.
pub proof fn lemma_credit_is_isolated(n: NodeView, kind: MeterKind, target: Target, at_secs: u64)
    requires
        n.category(kind).solutions < u64::MAX,
    ensures
        n.credit(kind, target, at_secs).category(kind).solutions == n.category(kind).solutions
            + 1,
        forall|other: MeterKind|
            other != kind ==> n.credit(kind, target, at_secs).category(other) == n.category(
                other,
            ),
        n.credit(kind, target, at_secs).start_time_secs == n.start_time_secs,
{
}

} // verus!
