//! One robot instance: planner, governor, safety monitor and mode machine, with
//! the latch and the mode gating the command path.
use vstd::prelude::*;
use crate::cost::CostModel;
use crate::error::CoreError;
use crate::geometry::{Pose, PoseConfidence};
use crate::governor::{elapsed, stepped, within_bounds, GovernorConfig, MotionGovernor};
use crate::history::{pushed, CommandHistory};
use crate::planner::{planned, replanned, result_view, Path, PathPlanner, PlannerConfig};
use crate::safety::{any_breach, latch_after, HazardThreshold, SafetyLatch, SafetyMonitor};
use crate::fixed::floor_sqrt;
use crate::state::{confidence_spec, may_start, next_mode, CoreState, Mode, OccupancyGrid};
use crate::system::SystemStatus;

verus! {

pub struct Robot {
    planner: PathPlanner,
    governor: MotionGovernor,
    safety: SafetyMonitor,
    state: CoreState,
}

impl Robot {
    pub closed spec fn planner(&self) -> PathPlanner {
        self.planner
    }

    pub closed spec fn governor(&self) -> MotionGovernor {
        self.governor
    }

    pub closed spec fn safety(&self) -> SafetyMonitor {
        self.safety
    }

    pub closed spec fn state(&self) -> CoreState {
        self.state
    }

    pub open spec fn wf(&self) -> bool {
        self.planner().wf() && self.governor().wf()
    }

    pub open spec fn latched(&self) -> bool {
        self.safety().latch_spec() == SafetyLatch::Tripped
    }

    /// A robot at rest in `Idle`, latch armed, no plan, clock at `now`.
    pub fn new(
        planner_config: PlannerConfig,
        governor_config: GovernorConfig,
        thresholds: Vec<HazardThreshold>,
        now: u64,
    ) -> (r: Robot)
        requires
            planner_config.wf(),
            governor_config.wf(),
        ensures
            r.wf(),
            r.planner().config_spec() == planner_config,
            r.planner().current_spec().is_none(),
            r.governor().config_spec() == governor_config,
            r.governor().last_update_spec() == now,
            r.governor().history_spec().len() == 0,
            r.safety().thresholds_spec() == thresholds@,
            r.safety().latch_spec() == SafetyLatch::Armed,
            r.state().mode_spec() == Mode::Idle,
    {
        Robot {
            planner: PathPlanner::new(planner_config),
            governor: MotionGovernor::new(governor_config, now),
            safety: SafetyMonitor::new(thresholds),
            state: CoreState::new(),
        }
    }

    /// Plans a path unless the latch is tripped.
    pub fn plan<M: CostModel>(&mut self, start: &Pose, goal: &Pose, model: &M, energy_level: u64) -> (r:
        Result<Path, CoreError>)
        requires
            old(self).wf(),
            model.wf(),
            start.wf(),
            goal.wf(),
        ensures
            final(self).wf(),
            final(self).governor() == old(self).governor(),
            final(self).safety() == old(self).safety(),
            final(self).state() == old(self).state(),
            final(self).planner().config_spec() == old(self).planner().config_spec(),
            old(self).latched() ==> r == Err::<Path, CoreError>(CoreError::EmergencyActive)
                && final(self).planner() == old(self).planner(),
            !old(self).latched() ==> result_view(r) == planned(
                model,
                *start,
                *goal,
                energy_level,
                old(self).planner().config_spec(),
            ) && final(self).planner().current_spec() == match r {
                Ok(p) => Some(p@),
                Err(_) => old(self).planner().current_spec(),
            },
    {
        if self.safety.is_tripped() {
            return Err(CoreError::EmergencyActive);
        }
        self.planner.plan(start, goal, model, energy_level)
    }

    /// Re-costs the current plan for a new analysis unless the latch is tripped.
    pub fn replan_for_new_analysis<M: CostModel>(&mut self, model: &M, energy_level: u64) -> (r:
        Result<(), CoreError>)
        requires
            old(self).wf(),
            model.wf(),
        ensures
            final(self).wf(),
            final(self).governor() == old(self).governor(),
            final(self).safety() == old(self).safety(),
            final(self).state() == old(self).state(),
            final(self).planner().config_spec() == old(self).planner().config_spec(),
            old(self).latched() ==> r == Err::<(), CoreError>(CoreError::EmergencyActive)
                && final(self).planner() == old(self).planner(),
            !old(self).latched() ==> (r, final(self).planner().current_spec()) == replanned(
                model,
                old(self).planner().current_spec(),
                energy_level,
                old(self).planner().config_spec(),
            ),
    {
        if self.safety.is_tripped() {
            return Err(CoreError::EmergencyActive);
        }
        self.planner.replan_for_new_analysis(model, energy_level)
    }

    /// One smoothing step, refused while the latch is tripped and outside
    /// `Navigating`.
    pub fn step(&mut self, target: &Vec<i64>, now: u64) -> (r: Result<Vec<i64>, CoreError>)
        requires
            old(self).wf(),
            target@.len() == old(self).governor().config_spec().axes@.len(),
        ensures
            final(self).wf(),
            final(self).planner() == old(self).planner(),
            final(self).safety() == old(self).safety(),
            final(self).state() == old(self).state(),
            final(self).governor().config_spec() == old(self).governor().config_spec(),
            old(self).latched() ==> r == Err::<Vec<i64>, CoreError>(CoreError::EmergencyActive),
            !old(self).latched() && old(self).state().mode_spec() != Mode::Navigating ==> r == Err::<
                Vec<i64>,
                CoreError,
            >(CoreError::InvalidMode),
            r is Err ==> final(self).governor() == old(self).governor(),
            !old(self).latched() && old(self).state().mode_spec() == Mode::Navigating ==> (
            r matches Ok(v) && v@ == stepped(
                old(self).governor().current_spec(),
                target@,
                old(self).governor().config_spec().axes@,
                elapsed(old(self).governor().last_update_spec(), now),
            ) && within_bounds(v@, old(self).governor().config_spec().axes@)
                && final(self).governor().current_spec() == v@
                && final(self).governor().last_update_spec() == now
                && final(self).governor().history_spec() == pushed(
                old(self).governor().history_spec(),
                old(self).governor().config_spec().history_capacity as nat,
                (v@, now),
            )),
    {
        if self.safety.is_tripped() {
            return Err(CoreError::EmergencyActive);
        }
        match self.state.get_mode() {
            Mode::Navigating => {},
            _ => {
                return Err(CoreError::InvalidMode);
            },
        }
        Ok(self.governor.step(target, now))
    }

    /// One control cycle: evaluates this cycle's hazards first (a breach trips
    /// the latch), then, unless the latch is tripped or the robot is not
    /// navigating, takes one smoothing step towards `target`.
    pub fn execute_movement(&mut self, target: &Vec<i64>, hazards: &Vec<i64>, now: u64) -> (r: Result<
        Vec<i64>,
        CoreError,
    >)
        requires
            old(self).wf(),
            target@.len() == old(self).governor().config_spec().axes@.len(),
            hazards@.len() == old(self).safety().thresholds_spec().len(),
        ensures
            final(self).wf(),
            final(self).planner() == old(self).planner(),
            final(self).state() == old(self).state(),
            final(self).safety().thresholds_spec() == old(self).safety().thresholds_spec(),
            final(self).safety().latch_spec() == latch_after(
                old(self).safety().latch_spec(),
                hazards@,
                old(self).safety().thresholds_spec(),
            ),
            final(self).governor().config_spec() == old(self).governor().config_spec(),
            final(self).latched() ==> r == Err::<Vec<i64>, CoreError>(CoreError::EmergencyActive),
            !final(self).latched() && old(self).state().mode_spec() != Mode::Navigating ==> r
                == Err::<Vec<i64>, CoreError>(CoreError::InvalidMode),
            r is Err ==> final(self).governor() == old(self).governor(),
            !final(self).latched() && old(self).state().mode_spec() == Mode::Navigating ==> (
            r matches Ok(v) && v@ == stepped(
                old(self).governor().current_spec(),
                target@,
                old(self).governor().config_spec().axes@,
                elapsed(old(self).governor().last_update_spec(), now),
            ) && within_bounds(v@, old(self).governor().config_spec().axes@)
                && final(self).governor().current_spec() == v@
                && final(self).governor().last_update_spec() == now
                && final(self).governor().history_spec() == pushed(
                old(self).governor().history_spec(),
                old(self).governor().config_spec().history_capacity as nat,
                (v@, now),
            )),
    {
        self.safety.evaluate(hazards);
        self.step(target, now)
    }

    /// Evaluates a hazard vector; any breach trips the latch.
    pub fn evaluate_hazards(&mut self, hazards: &Vec<i64>) -> (r: bool)
        requires
            hazards@.len() == old(self).safety().thresholds_spec().len(),
        ensures
            final(self).wf() == old(self).wf(),
            final(self).planner() == old(self).planner(),
            final(self).governor() == old(self).governor(),
            final(self).state() == old(self).state(),
            r == any_breach(hazards@, old(self).safety().thresholds_spec()),
            final(self).safety().thresholds_spec() == old(self).safety().thresholds_spec(),
            final(self).safety().latch_spec() == latch_after(
                old(self).safety().latch_spec(),
                hazards@,
                old(self).safety().thresholds_spec(),
            ),
    {
        self.safety.evaluate(hazards)
    }

    /// Emergency stop (or landing): trips the latch, returns the mode to
    /// `Idle` and issues the fixed override command.
    pub fn emergency_stop(&mut self, now: u64) -> (r: Vec<i64>)
        requires
            old(self).wf(),
        ensures
            final(self).wf(),
            final(self).planner() == old(self).planner(),
            final(self).latched(),
            final(self).safety().thresholds_spec() == old(self).safety().thresholds_spec(),
            final(self).state().mode_spec() == Mode::Idle,
            r@ == old(self).governor().config_spec().emergency@,
            final(self).governor().config_spec() == old(self).governor().config_spec(),
            final(self).governor().current_spec() == old(self).governor().current_spec(),
            final(self).governor().history_spec() == pushed(
                old(self).governor().history_spec(),
                old(self).governor().config_spec().history_capacity as nat,
                (r@, now),
            ),
    {
        self.safety.trip();
        self.state.emergency_stop();
        self.governor.emergency_command(now)
    }

    /// The explicit, separately authorised re-arm of the latch.
    pub fn reset_safety(&mut self)
        ensures
            final(self).wf() == old(self).wf(),
            final(self).planner() == old(self).planner(),
            final(self).governor() == old(self).governor(),
            final(self).state() == old(self).state(),
            final(self).safety().latch_spec() == SafetyLatch::Armed,
            final(self).safety().thresholds_spec() == old(self).safety().thresholds_spec(),
    {
        self.safety.reset();
    }

    /// Requests navigation; accepted from `Idle` or `Recovering` only.
    pub fn start_navigation(&mut self) -> (r: Result<(), CoreError>)
        ensures
            final(self).wf() == old(self).wf(),
            final(self).planner() == old(self).planner(),
            final(self).governor() == old(self).governor(),
            final(self).safety() == old(self).safety(),
            r is Ok <==> may_start(old(self).state().mode_spec()),
            r is Err ==> r == Err::<(), CoreError>(CoreError::InvalidMode),
            final(self).state().mode_spec() == if r is Ok {
                Mode::Navigating
            } else {
                old(self).state().mode_spec()
            },
    {
        if self.state.start_navigation() {
            Ok(())
        } else {
            Err(CoreError::InvalidMode)
        }
    }

    /// One mode-machine cycle from an already derived confidence and distance.
    pub fn update_mode(&mut self, confidence: u64, obstacle_distance: Option<u64>)
        ensures
            final(self).wf() == old(self).wf(),
            final(self).planner() == old(self).planner(),
            final(self).governor() == old(self).governor(),
            final(self).safety() == old(self).safety(),
            final(self).state().mode_spec() == next_mode(
                old(self).state().mode_spec(),
                confidence,
                obstacle_distance,
            ),
            final(self).state().confidence_spec() == confidence,
            final(self).state().obstacle_spec() == obstacle_distance,
    {
        self.state.transition(confidence, obstacle_distance);
    }

    /// One mode-machine cycle from a localization estimate and an occupancy grid.
    pub fn update(&mut self, pose_confidence: &PoseConfidence, grid: &OccupancyGrid)
        requires
            grid.wf(),
        ensures
            final(self).wf() == old(self).wf(),
            final(self).planner() == old(self).planner(),
            final(self).governor() == old(self).governor(),
            final(self).safety() == old(self).safety(),
            final(self).state().confidence_spec() == confidence_spec(
                pose_confidence.var_x as nat + pose_confidence.var_y as nat,
            ),
            final(self).state().mode_spec() == next_mode(
                old(self).state().mode_spec(),
                final(self).state().confidence_spec(),
                final(self).state().obstacle_spec(),
            ),
            final(self).state().obstacle_spec().is_none() <==> (forall|i: int|
                !#[trigger] grid.occupied(i)),
            final(self).state().obstacle_spec().is_some() ==> (exists|i: int|
                #[trigger] grid.occupied(i) && final(self).state().obstacle_spec().unwrap()
                    == floor_sqrt(grid.cell_dist_sq(i))),
            final(self).state().obstacle_spec().is_some() ==> (forall|i: int|
                #[trigger] grid.occupied(i) ==> final(self).state().obstacle_spec().unwrap()
                    <= floor_sqrt(grid.cell_dist_sq(i))),
    {
        self.state.update(pose_confidence, grid);
    }

    pub fn get_mode(&self) -> (r: Mode)
        ensures
            r == self.state().mode_spec(),
    {
        self.state.get_mode()
    }

    pub fn is_latched(&self) -> (r: bool)
        ensures
            r == self.latched(),
    {
        self.safety.is_tripped()
    }

    pub fn get_command_history(&self) -> (r: &CommandHistory)
        ensures
            r@ == self.governor().history_spec(),
            self.wf() ==> r.wf() && r.capacity_spec()
                == self.governor().config_spec().history_capacity,
    {
        self.governor.history()
    }

    pub fn current_plan(&self) -> (r: Option<&Path>)
        ensures
            match r {
                Some(p) => self.planner().current_spec() == Some(p@),
                None => self.planner().current_spec().is_none(),
            },
    {
        self.planner.current_plan()
    }

    /// Mode, latch and history size; `operational` as the caller reports it.
    pub fn get_status(&self, operational: bool) -> (r: SystemStatus)
        requires
            self.wf(),
        ensures
            r.mode == self.state().mode_spec(),
            r.safety_latched == self.latched(),
            r.history_len == self.governor().history_spec().len(),
            r.operational == operational,
    {
        let h = self.governor.history();
        SystemStatus {
            mode: self.state.get_mode(),
            safety_latched: self.safety.is_tripped(),
            history_len: h.len(),
            operational,
        }
    }

    pub fn current_velocity(&self) -> (r: &Vec<i64>)
        ensures
            r@ == self.governor().current_spec(),
    {
        self.governor.current_velocity()
    }
}

} // verus!
