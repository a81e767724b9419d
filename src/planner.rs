//! Path planning under an energy budget and an acceptability floor.
use vstd::prelude::*;
use crate::cost::{CostModel, SegmentCost};
use crate::error::CoreError;
use crate::fixed::MILLI;
use crate::geometry::Pose;
use crate::history::copy_velocity;

verus! {

/// Domain tuning of the planner, all in thousandths.
#[derive(Clone, Copy, Debug, PartialEq, Eq, Structural)]
pub struct PlannerConfig {
    /// Share of the energy level a path may use.
    pub margin: u64,
    /// Lowest acceptable aggregate acceptability.
    pub floor: u64,
    /// Weight of a segment's risk in its penalty.
    pub risk_weight: u64,
    /// Weight of a segment's domain penalty in its penalty.
    pub penalty_weight: u64,
}

impl PlannerConfig {
    pub open spec fn wf(&self) -> bool {
        self.margin <= MILLI && self.risk_weight <= MILLI && self.penalty_weight <= MILLI
    }
}

/// A segment placed in a path, with its cost.
#[derive(Clone, Copy, Debug, PartialEq, Eq, Structural)]
pub struct PathSegment {
    pub start: Pose,
    pub end: Pose,
    pub cost: SegmentCost,
}

/// An accepted plan.
pub struct Path {
    pub segments: Vec<PathSegment>,
    /// Sum of the segment energies.
    pub total_energy: u64,
    /// Product over the segments of one minus the weighted penalty.
    pub acceptability: u64,
}

/// The mathematical content of a `Path`.
pub struct PathView {
    pub segments: Seq<PathSegment>,
    pub total_energy: nat,
    pub acceptability: nat,
}

impl View for Path {
    type V = PathView;

    open spec fn view(&self) -> PathView {
        PathView {
            segments: self.segments@,
            total_energy: self.total_energy as nat,
            acceptability: self.acceptability as nat,
        }
    }
}

/// Sum of the energies.
pub open spec fn total_energy(costs: Seq<SegmentCost>) -> nat
    decreases costs.len(),
{
    if costs.len() == 0 {
        0
    } else {
        (total_energy(costs.drop_last()) + costs.last().energy) as nat
    }
}

/// A segment's penalty: risk and domain penalty weighted, at most one whole.
pub open spec fn weighted_penalty(c: SegmentCost, cfg: PlannerConfig) -> nat {
    let w = ((cfg.risk_weight as int) * (c.risk as int) + (cfg.penalty_weight as int) * (
    c.penalty as int)) / (MILLI as int);
    if w > MILLI {
        MILLI as nat
    } else {
        w as nat
    }
}

/// Running product of one minus the weighted penalty, rounded down at each step.
pub open spec fn acceptability(costs: Seq<SegmentCost>, cfg: PlannerConfig) -> nat
    decreases costs.len(),
{
    if costs.len() == 0 {
        MILLI as nat
    } else {
        ((acceptability(costs.drop_last(), cfg) as int) * ((MILLI as int) - (weighted_penalty(
            costs.last(),
            cfg,
        ) as int)) / (MILLI as int)) as nat
    }
}

/// `total` fits within `energy_level * margin`.
pub open spec fn within_budget(total: nat, energy_level: u64, margin: u64) -> bool {
    total * MILLI <= energy_level * margin
}

/// The cost model's cost of every segment.
pub open spec fn costs_of<M: CostModel>(model: &M, geo: Seq<(Pose, Pose)>) -> Seq<SegmentCost> {
    Seq::new(geo.len(), |k: int| model.cost_spec(k, geo[k].0, geo[k].1))
}

/// Segments with their costs.
pub open spec fn placed(geo: Seq<(Pose, Pose)>, costs: Seq<SegmentCost>) -> Seq<PathSegment> {
    Seq::new(geo.len(), |k: int| PathSegment { start: geo[k].0, end: geo[k].1, cost: costs[k] })
}

/// The budget check, then the floor check, on a costed path.
pub open spec fn checked(total: nat, acc: nat, energy_level: u64, cfg: PlannerConfig) -> Result<
    (),
    CoreError,
> {
    if !within_budget(total, energy_level, cfg.margin) {
        Err(CoreError::EnergyInfeasible)
    } else if acc < cfg.floor {
        Err(CoreError::Acceptability)
    } else {
        Ok(())
    }
}

/// The segments with their new costs, the total energy (saturated at the
/// largest `u64`) and the acceptability.
pub open spec fn recosted<M: CostModel>(
    model: &M,
    geo: Seq<(Pose, Pose)>,
    cfg: PlannerConfig,
) -> PathView {
    let costs = costs_of(model, geo);
    PathView {
        segments: placed(geo, costs),
        total_energy: if total_energy(costs) > u64::MAX {
            u64::MAX as nat
        } else {
            total_energy(costs)
        },
        acceptability: acceptability(costs, cfg),
    }
}

/// Costs the segments and checks the budget, then the floor.
pub open spec fn evaluated<M: CostModel>(
    model: &M,
    geo: Seq<(Pose, Pose)>,
    energy_level: u64,
    cfg: PlannerConfig,
) -> Result<PathView, CoreError> {
    let costs = costs_of(model, geo);
    if !within_budget(total_energy(costs), energy_level, cfg.margin) {
        Err(CoreError::EnergyInfeasible)
    } else if acceptability(costs, cfg) < cfg.floor {
        Err(CoreError::Acceptability)
    } else {
        Ok(
            PathView {
                segments: placed(geo, costs),
                total_energy: total_energy(costs),
                acceptability: acceptability(costs, cfg),
            },
        )
    }
}

/// What planning from `start` to `goal` yields.
pub open spec fn planned<M: CostModel>(
    model: &M,
    start: Pose,
    goal: Pose,
    energy_level: u64,
    cfg: PlannerConfig,
) -> Result<PathView, CoreError> {
    if model.restricted_spec(goal) {
        Err(CoreError::RestrictedTarget)
    } else {
        evaluated(model, model.segments_spec(start, goal), energy_level, cfg)
    }
}

/// The segment geometry of a path.
pub open spec fn geometry(segments: Seq<PathSegment>) -> Seq<(Pose, Pose)> {
    Seq::new(segments.len(), |k: int| (segments[k].start, segments[k].end))
}

/// The result and the new current plan after re-costing the current plan: the
/// segments keep their endpoints and take their new costs, whether or not the
/// re-costed plan still passes.
pub open spec fn replanned<M: CostModel>(
    model: &M,
    current: Option<PathView>,
    energy_level: u64,
    cfg: PlannerConfig,
) -> (Result<(), CoreError>, Option<PathView>) {
    match current {
        None => (Err(CoreError::NoCurrentPlan), None),
        Some(p) => match evaluated(model, geometry(p.segments), energy_level, cfg) {
            Ok(q) => (Ok(()), Some(q)),
            Err(e) => (Err(e), Some(recosted(model, geometry(p.segments), cfg))),
        },
    }
}

pub open spec fn result_view(r: Result<Path, CoreError>) -> Result<PathView, CoreError> {
    match r {
        Ok(p) => Ok(p@),
        Err(e) => Err(e),
    }
}

proof fn lemma_within_budget_fits(total: nat, energy_level: u64, margin: u64)
    requires
        margin <= MILLI,
        within_budget(total, energy_level, margin),
    ensures
        total <= energy_level,
{
    assert(total <= energy_level) by (nonlinear_arith)
        requires
            total * 1000 <= (energy_level as nat) * (margin as nat),
            margin <= 1000,
    ;
}

/// A path's segments all have positions in the handled range.
pub open spec fn poses_wf(segments: Seq<PathSegment>) -> bool {
    segments.len() >= 1 && forall|i: int|
        0 <= i < segments.len() ==> (#[trigger] segments[i]).start.wf() && segments[i].end.wf()
}

fn copy_segments(v: &Vec<PathSegment>) -> (r: Vec<PathSegment>)
    ensures
        r@ == v@,
{
    let mut r: Vec<PathSegment> = Vec::with_capacity(v.len());
    let mut i: usize = 0;
    while i < v.len()
        invariant
            i <= v.len(),
            r@ == v@.subrange(0, i as int),
        decreases v.len() - i,
    {
        r.push(v[i]);
        i += 1;
    }
    assert(r@ =~= v@);
    r
}

/// Running product of one minus the weighted risk (thousandths) over the
/// segments, rounded down at each step; for the indoor variant, whose risk is
/// the privacy violation, this is the path's privacy respect.
pub open spec fn risk_respect_spec(segments: Seq<PathSegment>, weight: u64) -> nat
    decreases segments.len(),
{
    if segments.len() == 0 {
        MILLI as nat
    } else {
        let w = (weight as int) * (segments.last().cost.risk as int) / 1000;
        let f = if w > 1000 {
            0
        } else {
            1000 - w
        };
        ((risk_respect_spec(segments.drop_last(), weight) as int) * f / 1000) as nat
    }
}

impl Path {
    /// The risk respect of the path for the given weight.
    pub fn risk_respect(&self, weight: u64) -> (r: u64)
        ensures
            r == risk_respect_spec(self.segments@, weight),
    {
        let mut acc: u64 = MILLI;
        let mut k: usize = 0;
        while k < self.segments.len()
            invariant
                k <= self.segments@.len(),
                acc == risk_respect_spec(self.segments@.take(k as int), weight),
                acc <= MILLI,
            decreases self.segments@.len() - k,
        {
            assert(self.segments@.take(k + 1).drop_last() =~= self.segments@.take(k as int));
            let risk = self.segments[k].cost.risk;
            assert((weight as nat) * (risk as nat) <= 0xFFFF_FFFF_FFFF_FFFF * 0xFFFF_FFFF_FFFF_FFFF)
                by (nonlinear_arith)
                requires
                    weight <= 0xFFFF_FFFF_FFFF_FFFF,
                    risk <= 0xFFFF_FFFF_FFFF_FFFF,
            ;
            let w: u128 = (weight as u128) * (risk as u128) / 1000;
            let f: u64 = if w > 1000 {
                0
            } else {
                1000 - w as u64
            };
            assert(acc * f <= 1000 * 1000) by (nonlinear_arith)
                requires
                    acc <= 1000,
                    f <= 1000,
            ;
            let next: u64 = acc * f / 1000;
            assert(next <= 1000) by (nonlinear_arith)
                requires
                    next as int == (acc as int) * (f as int) / 1000,
                    (acc as int) * (f as int) <= 1000 * 1000,
            ;
            acc = next;
            k += 1;
        }
        assert(self.segments@.take(k as int) =~= self.segments@);
        acc
    }

    /// An identical path.
    pub fn duplicate(&self) -> (r: Path)
        ensures
            r@ == self@,
    {
        Path {
            segments: copy_segments(&self.segments),
            total_energy: self.total_energy,
            acceptability: self.acceptability,
        }
    }
}

/// Costs each segment in order. The total is exact; the path stores it
/// saturated at the largest `u64`.
fn cost_path<M: CostModel>(model: &M, geo: &Vec<(Pose, Pose)>, cfg: &PlannerConfig) -> (r: (
    Path,
    u128,
))
    requires
        cfg.wf(),
        model.wf(),
        forall|i: int| 0 <= i < geo@.len() ==> (#[trigger] geo@[i]).0.wf() && geo@[i].1.wf(),
    ensures
        r.0@ == recosted(model, geo@, *cfg),
        r.1 == total_energy(costs_of(model, geo@)),
{
    let ghost costs = costs_of(model, geo@);
    let mut segs: Vec<PathSegment> = Vec::with_capacity(geo.len());
    let mut total: u128 = 0;
    let mut acc: u64 = MILLI;
    let mut k: usize = 0;
    assert(costs.take(0) =~= Seq::<SegmentCost>::empty());
    while k < geo.len()
        invariant
            cfg.wf(),
            model.wf(),
            forall|i: int| 0 <= i < geo@.len() ==> (#[trigger] geo@[i]).0.wf() && geo@[i].1.wf(),
            costs == costs_of(model, geo@),
            k <= geo@.len(),
            segs@ == placed(geo@, costs).take(k as int),
            total == total_energy(costs.take(k as int)),
            total <= k * 0x1_0000_0000_0000_0000,
            acc == acceptability(costs.take(k as int), *cfg),
            acc <= MILLI,
        decreases geo@.len() - k,
    {
        let (from, to) = geo[k];
        let c = model.segment_cost(k, &from, &to);
        assert(costs.take(k + 1).drop_last() =~= costs.take(k as int));
        assert(costs.take(k + 1).last() == c);
        assert(k < 0x1_0000_0000_0000_0000);
        total = total + c.energy as u128;
        assert(cfg.risk_weight * c.risk <= 1000 * 1000) by (nonlinear_arith)
            requires
                cfg.risk_weight <= 1000,
                c.risk <= 1000,
        ;
        assert(cfg.penalty_weight * c.penalty <= 1000 * 1000) by (nonlinear_arith)
            requires
                cfg.penalty_weight <= 1000,
                c.penalty <= 1000,
        ;
        let raw: u64 = (cfg.risk_weight * c.risk + cfg.penalty_weight * c.penalty) / MILLI;
        let wp: u64 = if raw > MILLI {
            MILLI
        } else {
            raw
        };
        assert(acc * (MILLI - wp) <= MILLI * MILLI) by (nonlinear_arith)
            requires
                acc <= MILLI,
                wp <= MILLI,
        ;
        let next: u64 = acc * (MILLI - wp) / MILLI;
        assert(next <= MILLI) by (nonlinear_arith)
            requires
                next as int == (acc as int) * ((MILLI - wp) as int) / (MILLI as int),
                (acc as int) * ((MILLI - wp) as int) <= MILLI * MILLI,
        ;
        acc = next;
        segs.push(PathSegment { start: from, end: to, cost: c });
        k += 1;
        assert(segs@ =~= placed(geo@, costs).take(k as int));
    }
    assert(costs.take(k as int) =~= costs);
    assert(segs@ =~= placed(geo@, costs));
    let stored: u64 = if total > u64::MAX as u128 {
        u64::MAX
    } else {
        total as u64
    };
    (Path { segments: segs, total_energy: stored, acceptability: acc }, total)
}

/// Checks a costed path against the budget, then the floor.
fn check_path(total: u128, acceptability: u64, energy_level: u64, cfg: &PlannerConfig) -> (r:
    Result<(), CoreError>)
    ensures
        r == checked(total as nat, acceptability as nat, energy_level, *cfg),
{
    assert((energy_level as nat) * (cfg.margin as nat) <= 0xFFFF_FFFF_FFFF_FFFF * 0xFFFF_FFFF_FFFF_FFFF)
        by (nonlinear_arith)
        requires
            energy_level <= 0xFFFF_FFFF_FFFF_FFFF,
            cfg.margin <= 0xFFFF_FFFF_FFFF_FFFF,
    ;
    let limit: u128 = (energy_level as u128) * (cfg.margin as u128) / 1000;
    assert((total as nat) * 1000 <= (energy_level as nat) * (cfg.margin as nat) <==> total <= limit)
        by (nonlinear_arith)
        requires
            limit == (energy_level as nat) * (cfg.margin as nat) / 1000,
    ;
    if total > limit {
        Err(CoreError::EnergyInfeasible)
    } else if acceptability < cfg.floor {
        Err(CoreError::Acceptability)
    } else {
        Ok(())
    }
}

pub struct PathPlanner {
    config: PlannerConfig,
    current: Option<Path>,
}

impl PathPlanner {
    pub closed spec fn config_spec(&self) -> PlannerConfig {
        self.config
    }

    pub closed spec fn current_spec(&self) -> Option<PathView> {
        match self.current {
            Some(p) => Some(p@),
            None => None,
        }
    }

    pub closed spec fn wf(&self) -> bool {
        &&& self.config.wf()
        &&& match self.current {
            Some(p) => poses_wf(p.segments@),
            None => true,
        }
    }

    pub fn new(config: PlannerConfig) -> (r: PathPlanner)
        requires
            config.wf(),
        ensures
            r.wf(),
            r.config_spec() == config,
            r.current_spec().is_none(),
    {
        PathPlanner { config, current: None }
    }

    /// Rejects a restricted goal, then costs the model's segments from `start`
    /// to `goal`; the path is accepted when its total energy fits within
    /// `energy_level * margin` and its acceptability reaches the floor, and
    /// then becomes the current plan.
    pub fn plan<M: CostModel>(
        &mut self,
        start: &Pose,
        goal: &Pose,
        model: &M,
        energy_level: u64,
    ) -> (r: Result<Path, CoreError>)
        requires
            old(self).wf(),
            model.wf(),
            start.wf(),
            goal.wf(),
        ensures
            final(self).wf(),
            final(self).config_spec() == old(self).config_spec(),
            result_view(r) == planned(model, *start, *goal, energy_level, old(self).config_spec()),
            final(self).current_spec() == match r {
                Ok(p) => Some(p@),
                Err(_) => old(self).current_spec(),
            },
            r matches Ok(p) ==> p@.segments.len() >= 1 && within_budget(
                p@.total_energy,
                energy_level,
                old(self).config_spec().margin,
            ) && p@.acceptability >= old(self).config_spec().floor,
    {
        if model.is_restricted(goal) {
            return Err(CoreError::RestrictedTarget);
        }
        let geo = model.segments(start, goal);
        let (p, total) = cost_path(model, &geo, &self.config);
        match check_path(total, p.acceptability, energy_level, &self.config) {
            Ok(()) => {
                proof {
                    lemma_within_budget_fits(total as nat, energy_level, self.config.margin);
                }
                assert(poses_wf(p.segments@));
                self.current = Some(p.duplicate());
                Ok(p)
            },
            Err(e) => Err(e),
        }
    }

    /// Re-costs every segment of the current plan with a new analysis, keeping
    /// its geometry, and checks the budget and the floor again. The re-costed
    /// plan stays current either way; the result says whether it still passes.
    pub fn replan_for_new_analysis<M: CostModel>(&mut self, model: &M, energy_level: u64) -> (r:
        Result<(), CoreError>)
        requires
            old(self).wf(),
            model.wf(),
        ensures
            final(self).wf(),
            final(self).config_spec() == old(self).config_spec(),
            (r, final(self).current_spec()) == replanned(
                model,
                old(self).current_spec(),
                energy_level,
                old(self).config_spec(),
            ),
    {
        let geo = match &self.current {
            None => {
                return Err(CoreError::NoCurrentPlan);
            },
            Some(p) => {
                let mut geo: Vec<(Pose, Pose)> = Vec::with_capacity(p.segments.len());
                let mut i: usize = 0;
                while i < p.segments.len()
                    invariant
                        poses_wf(p.segments@),
                        i <= p.segments@.len(),
                        geo@ == geometry(p.segments@).take(i as int),
                    decreases p.segments@.len() - i,
                {
                    let s = p.segments[i];
                    geo.push((s.start, s.end));
                    i += 1;
                    assert(geo@ =~= geometry(p.segments@).take(i as int));
                }
                assert(geo@ =~= geometry(p.segments@));
                geo
            },
        };
        assert(forall|i: int|
            0 <= i < geo@.len() ==> (#[trigger] geo@[i]).0.wf() && geo@[i].1.wf());
        let (p, total) = cost_path(model, &geo, &self.config);
        let r = check_path(total, p.acceptability, energy_level, &self.config);
        proof {
            if r is Ok {
                lemma_within_budget_fits(total as nat, energy_level, self.config.margin);
            }
        }
        assert(poses_wf(p.segments@));
        self.current = Some(p);
        r
    }

    /// The cruise command to follow while a plan is current; nothing without one.
    pub fn navigation_command(&self, cruise: &Vec<i64>) -> (r: Option<Vec<i64>>)
        ensures
            r is Some <==> self.current_spec() is Some,
            r matches Some(v) ==> v@ == cruise@,
    {
        match &self.current {
            Some(_) => Some(copy_velocity(cruise)),
            None => None,
        }
    }

    /// The current plan, if any.
    pub fn current_plan(&self) -> (r: Option<&Path>)
        ensures
            match r {
                Some(p) => self.current_spec() == Some(p@),
                None => self.current_spec().is_none(),
            },
    {
        match &self.current {
            Some(p) => Some(p),
            None => None,
        }
    }

    pub fn config(&self) -> (r: PlannerConfig)
        ensures
            r == self.config_spec(),
    {
        self.config
    }
}


/// Every accepted path, whether planned or re-costed, uses at most
/// `energy_level * margin` and reaches the acceptability floor.
pub proof fn lemma_accepted_within_limits<M: CostModel>(
    model: &M,
    start: Pose,
    goal: Pose,
    geo: Seq<(Pose, Pose)>,
    energy_level: u64,
    cfg: PlannerConfig,
)
    ensures
        planned(model, start, goal, energy_level, cfg) matches Ok(p) ==> within_budget(
            p.total_energy,
            energy_level,
            cfg.margin,
        ) && p.acceptability >= cfg.floor,
        evaluated(model, geo, energy_level, cfg) matches Ok(p) ==> within_budget(
            p.total_energy,
            energy_level,
            cfg.margin,
        ) && p.acceptability >= cfg.floor,
{
}

} // verus!
