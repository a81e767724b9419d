use eos_core::error::CoreError;
use eos_core::geometry::Pose;
use eos_core::governor::{AxisLimits, GovernorConfig, MotionGovernor};
use eos_core::history::CommandHistory;
use eos_core::planner::{PathPlanner, PlannerConfig};
use eos_core::robot::Robot;
use eos_core::safety::{HazardThreshold, LimitKind, SafetyLatch, SafetyMonitor};
use eos_core::state::{CoreState, Mode};
use eos_core::terrain::{NoGoZone, RoverTerrainAnalysis, TerrainCostModel, TerrainProfile, TerrainSegment};

fn pose(x: i64, y: i64) -> Pose {
    Pose { x, y, z: 0, heading: 0 }
}

fn ground_axis() -> AxisLimits {
    AxisLimits { max_accel: 300, max_decel: 700, min_velocity: 0, max_velocity: 1000 }
}

fn ground_config(capacity: usize) -> GovernorConfig {
    GovernorConfig { axes: vec![ground_axis()], emergency: vec![0], history_capacity: capacity }
}

fn terrain_model(energies: &[u64]) -> TerrainCostModel {
    let mut profiles = Vec::new();
    let mut segments = Vec::new();
    for (i, e) in energies.iter().enumerate() {
        let name = format!("t{}", i);
        profiles.push(TerrainProfile {
            name: name.clone(),
            max_slope: 1000,
            traction: 800,
            energy_cost: *e,
            recommended_speed: 500,
        });
        segments.push(TerrainSegment { terrain_type: name, slope: 0, roughness: 0, stability: 1000 });
    }
    TerrainCostModel {
        profiles,
        no_go_zones: Vec::new(),
        analysis: RoverTerrainAnalysis { terrain_segments: segments, overall_difficulty: 0 },
        energy_efficiency_mode: false,
    }
}

fn ground_planner() -> PathPlanner {
    PathPlanner::new(PlannerConfig { margin: 700, floor: 500, risk_weight: 100, penalty_weight: 0 })
}

fn hazard_table() -> Vec<HazardThreshold> {
    vec![
        HazardThreshold { limit: 500, kind: LimitKind::Upper },
        HazardThreshold { limit: 800, kind: LimitKind::Upper },
        HazardThreshold { limit: 300, kind: LimitKind::Lower },
    ]
}

#[test]
fn test_path_planning() {
    let mut planner = ground_planner();
    let model = terrain_model(&[100]);
    let path = planner.plan(&pose(0, 0), &pose(1000, 1000), &model, 1000).unwrap();
    let points = path.segments.len() + 1;
    assert!(points >= 2);
    assert_eq!(path.segments[0].end, pose(1000, 1000));
}

#[test]
fn plan_within_budget_is_accepted() {
    let mut planner = ground_planner();
    let model = terrain_model(&[500]);
    let path = planner.plan(&pose(0, 0), &pose(5000, 0), &model, 1000).unwrap();
    assert_eq!(path.total_energy, 500);
    assert_eq!(path.acceptability, 1000);
    assert!(planner.current_plan().is_some());
}

#[test]
fn plan_over_budget_is_energy_infeasible() {
    let mut planner = ground_planner();
    let model = terrain_model(&[900]);
    let r = planner.plan(&pose(0, 0), &pose(5000, 0), &model, 1000);
    assert_eq!(r.err(), Some(CoreError::EnergyInfeasible));
    assert!(planner.current_plan().is_none());
}

#[test]
fn plan_budget_boundary_is_inclusive() {
    let mut planner = ground_planner();
    let model = terrain_model(&[300, 400]);
    let path = planner.plan(&pose(0, 0), &pose(5000, 0), &model, 1000).unwrap();
    assert_eq!(path.total_energy, 700);
    assert_eq!(path.segments.len(), 2);
    let model = terrain_model(&[300, 401]);
    let r = planner.plan(&pose(0, 0), &pose(5000, 0), &model, 1000);
    assert_eq!(r.err(), Some(CoreError::EnergyInfeasible));
}

#[test]
fn plan_below_floor_is_unacceptable() {
    let mut planner =
        PathPlanner::new(PlannerConfig { margin: 800, floor: 950, risk_weight: 100, penalty_weight: 0 });
    let mut model = terrain_model(&[10]);
    model.analysis.terrain_segments[0].slope = 800;
    model.analysis.terrain_segments[0].roughness = 700;
    model.analysis.terrain_segments[0].stability = 300;
    let r = planner.plan(&pose(0, 0), &pose(1000, 0), &model, 1000);
    assert_eq!(r.err(), Some(CoreError::Acceptability));
    let mut planner =
        PathPlanner::new(PlannerConfig { margin: 800, floor: 900, risk_weight: 100, penalty_weight: 0 });
    let path = planner.plan(&pose(0, 0), &pose(1000, 0), &model, 1000).unwrap();
    assert_eq!(path.segments[0].cost.risk, 1000);
    assert_eq!(path.acceptability, 900);
}

#[test]
fn accepted_paths_respect_budget_and_floor() {
    let mut seed: u64 = 12345;
    let mut next = || {
        seed = seed.wrapping_mul(6364136223846793005).wrapping_add(1442695040888963407);
        seed >> 33
    };
    for _ in 0..200 {
        let n = (next() % 5 + 1) as usize;
        let energies: Vec<u64> = (0..n).map(|_| next() % 400).collect();
        let mut model = terrain_model(&energies);
        for s in model.analysis.terrain_segments.iter_mut() {
            s.roughness = next() % 1000;
            s.stability = next() % 1000;
        }
        let level = next() % 1001;
        let cfg = PlannerConfig { margin: 700, floor: 850, risk_weight: 200, penalty_weight: 0 };
        let mut planner = PathPlanner::new(cfg);
        if let Ok(p) = planner.plan(&pose(0, 0), &pose(100, 100), &model, level) {
            assert!(p.total_energy * 1000 <= level * cfg.margin);
            assert!(p.acceptability >= cfg.floor);
            let sum: u64 = p.segments.iter().map(|s| s.cost.energy).sum();
            assert_eq!(sum, p.total_energy);
        }
    }
}

#[test]
fn replan_recosts_and_keeps_geometry() {
    let mut planner = ground_planner();
    assert_eq!(
        planner.replan_for_new_analysis(&terrain_model(&[100]), 1000),
        Err(CoreError::NoCurrentPlan)
    );
    planner.plan(&pose(0, 0), &pose(1000, 0), &terrain_model(&[100]), 1000).unwrap();
    assert_eq!(planner.replan_for_new_analysis(&terrain_model(&[600]), 1000), Ok(()));
    assert_eq!(planner.current_plan().unwrap().total_energy, 600);
    assert_eq!(
        planner.replan_for_new_analysis(&terrain_model(&[800]), 1000),
        Err(CoreError::EnergyInfeasible)
    );
    let kept = planner.current_plan().unwrap();
    assert_eq!(kept.total_energy, 800);
    assert_eq!(kept.segments.len(), 1);
    assert_eq!(kept.segments[0].start, pose(0, 0));
    assert_eq!(kept.segments[0].end, pose(1000, 0));
    assert_eq!(kept.segments[0].cost.energy, 800);
}

#[test]
fn replan_keeps_segment_count_and_endpoints() {
    let mut planner = ground_planner();
    planner.plan(&pose(0, 0), &pose(3000, 4000), &terrain_model(&[100, 200, 300]), 1000).unwrap();
    assert_eq!(
        planner.replan_for_new_analysis(&terrain_model(&[300, 300, 300]), 1000),
        Err(CoreError::EnergyInfeasible)
    );
    let kept = planner.current_plan().unwrap();
    assert_eq!(kept.segments.len(), 3);
    assert_eq!(kept.total_energy, 900);
    for s in kept.segments.iter() {
        assert_eq!((s.start, s.end), (pose(0, 0), pose(3000, 4000)));
        assert_eq!(s.cost.energy, 300);
    }
}

#[test]
fn later_profile_of_a_name_wins() {
    let mut planner = ground_planner();
    let mut model = terrain_model(&[100]);
    let again = model.profiles[0].name.clone();
    model.profiles.push(TerrainProfile {
        name: again,
        max_slope: 1000,
        traction: 800,
        energy_cost: 250,
        recommended_speed: 500,
    });
    let path = planner.plan(&pose(0, 0), &pose(1000, 0), &model, 1000).unwrap();
    assert_eq!(path.total_energy, 250);
}

#[test]
fn navigation_command_only_with_a_plan() {
    let mut planner = ground_planner();
    assert_eq!(planner.navigation_command(&vec![500]), None);
    planner.plan(&pose(0, 0), &pose(1000, 0), &terrain_model(&[100]), 1000).unwrap();
    assert_eq!(planner.navigation_command(&vec![500]), Some(vec![500]));
}

#[test]
fn efficiency_mode_and_unknown_terrain() {
    let mut planner = ground_planner();
    let mut model = terrain_model(&[500]);
    model.energy_efficiency_mode = true;
    let path = planner.plan(&pose(0, 0), &pose(1000, 0), &model, 1000).unwrap();
    assert_eq!(path.total_energy, 400);
    model.analysis.terrain_segments[0].terrain_type = "lava".to_string();
    let path = planner.plan(&pose(0, 0), &pose(1000, 0), &model, 1000).unwrap();
    assert_eq!(path.total_energy, 0);
    model.analysis.terrain_segments.clear();
    let path = planner.plan(&pose(0, 0), &pose(1000, 0), &model, 1000).unwrap();
    assert_eq!(path.segments.len(), 1);
}

#[test]
fn step_is_acceleration_limited() {
    let mut g = MotionGovernor::new(
        GovernorConfig {
            axes: vec![AxisLimits { max_accel: 300, max_decel: 700, min_velocity: -5000, max_velocity: 5000 }],
            emergency: vec![0],
            history_capacity: 100,
        },
        0,
    );
    let v = g.step(&vec![5000], 1000);
    assert_eq!(v, vec![300]);
    let v = g.step(&vec![5000], 2000);
    assert_eq!(v, vec![600]);
    let v = g.step(&vec![0], 2500);
    assert_eq!(v, vec![250]);
    let v = g.step(&vec![0], 3500);
    assert_eq!(v, vec![0]);
}

#[test]
fn step_with_backward_clock_holds_velocity() {
    let mut g = MotionGovernor::new(ground_config(10), 5000);
    let v = g.step(&vec![1000], 4000);
    assert_eq!(v, vec![0]);
    let v = g.step(&vec![1000], 5000);
    assert_eq!(v, vec![300]);
}

#[test]
fn step_stays_within_bounds() {
    let axes = vec![
        AxisLimits { max_accel: 3000, max_decel: 4000, min_velocity: -5000, max_velocity: 5000 },
        AxisLimits { max_accel: 3000, max_decel: 4000, min_velocity: -5000, max_velocity: 5000 },
        AxisLimits { max_accel: 1000, max_decel: 1000, min_velocity: -2000, max_velocity: 2000 },
    ];
    let mut g = MotionGovernor::new(
        GovernorConfig { axes: axes.clone(), emergency: vec![0, 0, -300], history_capacity: 100 },
        0,
    );
    let mut seed: u64 = 99;
    let mut now: u64 = 0;
    for _ in 0..1000 {
        seed = seed.wrapping_mul(6364136223846793005).wrapping_add(1442695040888963407);
        now += (seed >> 40) % 5000;
        let t = |k: u64| ((seed >> k) % 40001) as i64 - 20000;
        let v = g.step(&vec![t(1), t(11), t(21)], now);
        for (x, a) in v.iter().zip(axes.iter()) {
            assert!(a.min_velocity <= *x && *x <= a.max_velocity);
        }
    }
    let v = g.step(&vec![i64::MAX, i64::MIN, i64::MAX], u64::MAX);
    assert_eq!(v, vec![5000, -5000, 2000]);
}

#[test]
fn history_evicts_oldest_at_capacity() {
    let mut h = CommandHistory::new(3);
    for t in 0..4u64 {
        h.push(&vec![t as i64], t);
    }
    assert_eq!(h.len(), 3);
    let times: Vec<u64> = h.entries().iter().map(|e| e.time).collect();
    assert_eq!(times, vec![1, 2, 3]);
}

#[test]
fn governor_history_never_exceeds_capacity() {
    let mut g = MotionGovernor::new(ground_config(100), 0);
    for t in 1..=101u64 {
        g.step(&vec![1000], t * 10);
        assert!(g.history().len() <= 100);
    }
    assert_eq!(g.history().len(), 100);
    assert_eq!(g.history().entries()[0].time, 20);
}

#[test]
fn emergency_command_bypasses_smoothing() {
    let mut g = MotionGovernor::new(
        GovernorConfig {
            axes: vec![ground_axis(), ground_axis(), AxisLimits { max_accel: 1, max_decel: 1, min_velocity: -2000, max_velocity: 2000 }],
            emergency: vec![0, 0, -300],
            history_capacity: 5,
        },
        0,
    );
    g.step(&vec![1000, 1000, 0], 1000);
    let e = g.emergency_command(1500);
    assert_eq!(e, vec![0, 0, -300]);
    assert_eq!(g.history().len(), 2);
    assert_eq!(g.history().entries()[1].velocity, vec![0, 0, -300]);
    assert_eq!(g.current_velocity(), &vec![300, 300, 0]);
}

#[test]
fn latch_stays_tripped_until_reset() {
    let mut m = SafetyMonitor::new(hazard_table());
    assert!(!m.evaluate(&vec![100, 100, 1000]));
    assert_eq!(m.latch(), SafetyLatch::Armed);
    assert!(m.evaluate(&vec![600, 100, 1000]));
    assert!(m.is_tripped());
    for _ in 0..10 {
        assert!(!m.evaluate(&vec![0, 0, 5000]));
        assert!(m.is_tripped());
    }
    m.reset();
    assert_eq!(m.latch(), SafetyLatch::Armed);
}

#[test]
fn low_side_hazard_trips_latch() {
    let mut m = SafetyMonitor::new(hazard_table());
    assert!(!m.evaluate(&vec![500, 800, 300]));
    assert!(m.evaluate(&vec![0, 0, 299]));
    assert!(m.is_tripped());
}

#[test]
fn idle_low_confidence_goes_lost() {
    let mut s = CoreState::new();
    s.transition(400, None);
    assert_eq!(s.get_mode(), Mode::Lost);
}

#[test]
fn navigating_low_confidence_goes_lost() {
    let mut s = CoreState::with_mode(Mode::Navigating);
    s.transition(400, Some(5000));
    assert_eq!(s.get_mode(), Mode::Lost);
}

#[test]
fn navigating_close_obstacle_goes_recovering() {
    let mut s = CoreState::with_mode(Mode::Navigating);
    s.transition(700, Some(200));
    assert_eq!(s.get_mode(), Mode::Recovering);
    let mut s = CoreState::with_mode(Mode::Navigating);
    s.transition(700, Some(300));
    assert_eq!(s.get_mode(), Mode::Navigating);
}

#[test]
fn lost_high_confidence_goes_recovering() {
    let mut s = CoreState::with_mode(Mode::Lost);
    s.transition(800, None);
    assert_eq!(s.get_mode(), Mode::Lost);
    s.transition(850, None);
    assert_eq!(s.get_mode(), Mode::Recovering);
}

#[test]
fn recovering_restored_confidence_goes_navigating() {
    let mut s = CoreState::with_mode(Mode::Recovering);
    s.transition(900, None);
    assert_eq!(s.get_mode(), Mode::Recovering);
    s.transition(950, None);
    assert_eq!(s.get_mode(), Mode::Navigating);
}

#[test]
fn mapping_low_confidence_goes_lost() {
    let mut s = CoreState::with_mode(Mode::Mapping);
    s.transition(600, Some(100));
    assert_eq!(s.get_mode(), Mode::Mapping);
    s.transition(400, None);
    assert_eq!(s.get_mode(), Mode::Lost);
}

#[test]
fn emergency_returns_to_idle_from_any_mode() {
    for m in [Mode::Idle, Mode::Navigating, Mode::Lost, Mode::Recovering, Mode::Mapping] {
        let mut s = CoreState::with_mode(m);
        s.emergency_stop();
        assert_eq!(s.get_mode(), Mode::Idle);
    }
}

#[test]
fn unmatched_conditions_keep_mode() {
    let mut s = CoreState::new();
    s.transition(500, Some(10));
    assert_eq!(s.get_mode(), Mode::Idle);
    assert_eq!(s.last_pose_confidence(), 500);
    assert_eq!(s.last_obstacle_distance(), Some(10));
}

#[test]
fn start_navigation_only_from_idle_or_recovering() {
    let mut r = Robot::new(
        PlannerConfig { margin: 800, floor: 500, risk_weight: 100, penalty_weight: 0 },
        ground_config(100),
        hazard_table(),
        0,
    );
    assert_eq!(r.get_mode(), Mode::Idle);
    assert_eq!(r.start_navigation(), Ok(()));
    assert_eq!(r.get_mode(), Mode::Navigating);
    assert_eq!(r.start_navigation(), Err(CoreError::InvalidMode));
    let mut s = CoreState::with_mode(Mode::Recovering);
    assert!(s.start_navigation());
    let mut s = CoreState::with_mode(Mode::Lost);
    assert!(!s.start_navigation());
    assert_eq!(s.get_mode(), Mode::Lost);
}

#[test]
fn latched_robot_refuses_planning_and_stepping() {
    let mut r = Robot::new(
        PlannerConfig { margin: 800, floor: 500, risk_weight: 100, penalty_weight: 0 },
        ground_config(100),
        hazard_table(),
        0,
    );
    r.start_navigation().unwrap();
    assert_eq!(r.step(&vec![1000], 1000), Ok(vec![300]));
    assert!(r.evaluate_hazards(&vec![900, 0, 1000]));
    assert!(r.is_latched());
    assert_eq!(r.step(&vec![1000], 2000), Err(CoreError::EmergencyActive));
    let model = terrain_model(&[100]);
    assert_eq!(r.plan(&pose(0, 0), &pose(10, 0), &model, 1000).err(), Some(CoreError::EmergencyActive));
    assert_eq!(r.replan_for_new_analysis(&model, 1000), Err(CoreError::EmergencyActive));
    r.reset_safety();
    assert!(!r.is_latched());
    assert!(r.plan(&pose(0, 0), &pose(10, 0), &model, 1000).is_ok());
    assert_eq!(r.step(&vec![1000], 2000), Ok(vec![600]));
}

#[test]
fn emergency_stop_latches_and_idles() {
    let mut r = Robot::new(
        PlannerConfig { margin: 800, floor: 500, risk_weight: 100, penalty_weight: 0 },
        ground_config(100),
        hazard_table(),
        0,
    );
    r.start_navigation().unwrap();
    let cmd = r.emergency_stop(100);
    assert_eq!(cmd, vec![0]);
    assert!(r.is_latched());
    assert_eq!(r.get_mode(), Mode::Idle);
    assert_eq!(r.get_command_history().len(), 1);
    let st = r.get_status(true);
    assert_eq!(st.mode, Mode::Idle);
    assert!(st.safety_latched);
    assert_eq!(st.history_len, 1);
    assert!(st.operational);
}

#[test]
fn step_outside_navigation_is_invalid_mode() {
    let mut r = Robot::new(
        PlannerConfig { margin: 800, floor: 500, risk_weight: 100, penalty_weight: 0 },
        ground_config(100),
        hazard_table(),
        0,
    );
    assert_eq!(r.step(&vec![1000], 1000), Err(CoreError::InvalidMode));
    r.update_mode(400, None);
    assert_eq!(r.get_mode(), Mode::Lost);
}

#[test]
fn execute_movement_checks_hazards_before_moving() {
    let mut r = Robot::new(
        PlannerConfig { margin: 800, floor: 500, risk_weight: 100, penalty_weight: 0 },
        ground_config(100),
        hazard_table(),
        0,
    );
    r.start_navigation().unwrap();
    assert_eq!(r.execute_movement(&vec![1000], &vec![0, 0, 1000], 1000), Ok(vec![300]));
    assert_eq!(
        r.execute_movement(&vec![1000], &vec![0, 900, 1000], 2000),
        Err(CoreError::EmergencyActive)
    );
    assert!(r.is_latched());
    assert_eq!(r.current_velocity(), &vec![300]);
    assert_eq!(r.get_command_history().len(), 1);
    assert_eq!(
        r.execute_movement(&vec![1000], &vec![0, 0, 1000], 3000),
        Err(CoreError::EmergencyActive)
    );
    r.reset_safety();
    assert_eq!(r.execute_movement(&vec![1000], &vec![0, 0, 1000], 4000), Ok(vec![1000]));
}

#[test]
fn goal_in_no_go_zone_is_restricted() {
    let mut planner = ground_planner();
    let mut model = terrain_model(&[100]);
    model.no_go_zones.push(NoGoZone { x: 10000, y: 0, radius: 2000 });
    let r = planner.plan(&pose(0, 0), &pose(11000, 1000), &model, 1000);
    assert_eq!(r.err(), Some(CoreError::RestrictedTarget));
    assert!(planner.current_plan().is_none());
    assert!(planner.plan(&pose(0, 0), &pose(12000, 0), &model, 1000).is_ok());
}
