//! The cost-model contract: what a deployment variant supplies to the planner.
use vstd::prelude::*;
use crate::fixed::MILLI;
use crate::geometry::Pose;

verus! {

/// Cost of one segment: energy in thousandths of a full charge, risk and
/// domain penalty in thousandths.
#[derive(Clone, Copy, Debug, PartialEq, Eq, Structural)]
pub struct SegmentCost {
    pub energy: u64,
    pub risk: u64,
    pub penalty: u64,
}

impl SegmentCost {
    pub open spec fn wf(&self) -> bool {
        self.risk <= MILLI && self.penalty <= MILLI
    }
}

/// A deployment variant's view of the environment. Implementations hold the
/// current analysis and are pure: the same inputs always give the same answer.
pub trait CostModel {
    /// The analysis the model holds is in range.
    spec fn wf(&self) -> bool;

    /// The goal lies in a restricted region.
    spec fn restricted_spec(&self, goal: Pose) -> bool;

    /// The segments (start, end) from `start` to `goal`, in order.
    spec fn segments_spec(&self, start: Pose, goal: Pose) -> Seq<(Pose, Pose)>;

    /// Cost of segment `index` running from `from` to `to`.
    spec fn cost_spec(&self, index: int, from: Pose, to: Pose) -> SegmentCost;

    fn is_restricted(&self, goal: &Pose) -> (r: bool)
        requires
            self.wf(),
            goal.wf(),
        ensures
            r == self.restricted_spec(*goal),
    ;

    fn segments(&self, start: &Pose, goal: &Pose) -> (r: Vec<(Pose, Pose)>)
        requires
            self.wf(),
            start.wf(),
            goal.wf(),
        ensures
            r@ == self.segments_spec(*start, *goal),
            r@.len() >= 1,
            forall|i: int| 0 <= i < r@.len() ==> (#[trigger] r@[i]).0.wf() && r@[i].1.wf(),
    ;

    fn segment_cost(&self, index: usize, from: &Pose, to: &Pose) -> (c: SegmentCost)
        requires
            self.wf(),
            from.wf(),
            to.wf(),
        ensures
            c == self.cost_spec(index as int, *from, *to),
            c.wf(),
    ;
}

} // verus!
