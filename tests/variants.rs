use eos_core::aerial::{AirspaceCostModel, AirspaceRule, DroneAirspaceAnalysis, WeatherConditions};
use eos_core::cost::{CostModel, SegmentCost};
use eos_core::error::CoreError;
use eos_core::fixed::isqrt;
use eos_core::geometry::{distance_to_segment, Pose, PoseConfidence};
use eos_core::indoor::{
    human_proximity, indoor_target_speed, ApproachBehavior, FloorType, Human, HumanInteractionMode,
    HumanPresenceAnalysis, IndoorCostModel, IndoorEnvironmentAnalysis, RoomMap, SocialZone,
    SocialZoneType,
};
use eos_core::planner::{PathPlanner, PlannerConfig};
use eos_core::state::{confidence_from_variance, nearest_obstacle, CoreState, Mode, OccupancyGrid};
use eos_core::system::{Controller, NavCommand};
use eos_core::terrain::{find_profile, rover_target_speed, TerrainProfile};

fn pose(x: i64, y: i64) -> Pose {
    Pose { x, y, z: 0, heading: 0 }
}

fn human(x: i64, y: i64, private_activity: bool) -> Human {
    Human { x, y, private_activity, attention: 0, group_size: 1 }
}

fn indoor_model(humans: Vec<Human>, zones: Vec<SocialZone>) -> IndoorCostModel {
    IndoorCostModel {
        rooms: vec![RoomMap {
            name: "lab".to_string(),
            width: 10000,
            depth: 8000,
            height: 3000,
            social_zones: zones,
        }],
        environment: IndoorEnvironmentAnalysis {
            floor_type: FloorType::Carpet,
            obstacle_density: 0,
            lighting_level: 1000,
        },
        presence: HumanPresenceAnalysis { humans, overall_activity_level: 0 },
    }
}

fn indoor_planner() -> PathPlanner {
    PathPlanner::new(PlannerConfig { margin: 800, floor: 500, risk_weight: 0, penalty_weight: 100 })
}

fn private_zone() -> SocialZone {
    SocialZone { x: 2000, y: 2000, radius: 1000, zone_type: SocialZoneType::Private, privacy_level: 900 }
}

#[test]
fn isqrt_rounds_down() {
    assert_eq!(isqrt(0), 0);
    assert_eq!(isqrt(15), 3);
    assert_eq!(isqrt(16), 4);
    assert_eq!(isqrt(u128::MAX), u64::MAX);
}

#[test]
fn distance_to_segment_cases() {
    let a = pose(-1000, 0);
    let b = pose(1000, 0);
    assert_eq!(distance_to_segment(0, 5000, &a, &b), 5000);
    assert_eq!(distance_to_segment(4000, 3000, &a, &b), 4242);
    assert_eq!(distance_to_segment(-4000, -4000, &a, &b), 5000);
    assert_eq!(distance_to_segment(3000, 4000, &pose(0, 0), &pose(0, 0)), 5000);
}

#[test]
fn indoor_costs_from_people_nearby() {
    let model = indoor_model(vec![human(2000, 1000, false), human(9000, 9000, true)], vec![]);
    let c = model.segment_cost(0, &pose(0, 0), &pose(4000, 0));
    assert_eq!(c, SegmentCost { energy: 300, risk: 0, penalty: 500 });
    let model = indoor_model(vec![human(2000, 500, true)], vec![]);
    let c = model.segment_cost(0, &pose(0, 0), &pose(4000, 0));
    assert_eq!(c.penalty, 750);
    assert_eq!(c.risk, 700);
}

#[test]
fn indoor_plan_acceptability() {
    let mut planner = indoor_planner();
    let model = indoor_model(vec![human(2000, 1000, false)], vec![]);
    let path = planner.plan(&pose(0, 0), &pose(4000, 0), &model, 1000).unwrap();
    assert_eq!(path.total_energy, 300);
    assert_eq!(path.acceptability, 950);
}

#[test]
fn social_impact_is_capped() {
    let people = vec![human(1000, 0, false); 5];
    let model = indoor_model(people, vec![]);
    let c = model.segment_cost(0, &pose(0, 0), &pose(2000, 0));
    assert_eq!(c.penalty, 1000);
}

#[test]
fn occupied_private_zone_is_restricted() {
    let mut planner = indoor_planner();
    let model = indoor_model(vec![human(2500, 2000, false)], vec![private_zone()]);
    assert!(model.is_restricted(&pose(2000, 2000)));
    let r = planner.plan(&pose(0, 0), &pose(2000, 2000), &model, 1000);
    assert_eq!(r.err(), Some(CoreError::RestrictedTarget));
    let empty = indoor_model(vec![human(3000, 2000, false)], vec![private_zone()]);
    assert!(!empty.is_restricted(&pose(2000, 2000)));
    let outside = indoor_model(vec![human(2500, 2000, false)], vec![private_zone()]);
    assert!(!outside.is_restricted(&pose(20000, 2000)));
    let mut public = private_zone();
    public.zone_type = SocialZoneType::Work;
    let work = indoor_model(vec![human(2500, 2000, false)], vec![public]);
    assert!(!work.is_restricted(&pose(2000, 2000)));
}

#[test]
fn restricted_airspace_is_rejected() {
    let model = AirspaceCostModel {
        rules: vec![AirspaceRule {
            name: "airport".to_string(),
            max_altitude: 50000,
            min_altitude: 0,
            restricted: true,
            required_clearance: true,
        }],
        airspace: DroneAirspaceAnalysis {
            obstacle_density: 100,
            airspace_class: "G".to_string(),
            turbulence_level: 200,
        },
        weather: WeatherConditions { wind_speed: 4000, wind_direction: 0, temperature: 20000, precipitation: 0 },
    };
    let mut planner =
        PathPlanner::new(PlannerConfig { margin: 700, floor: 0, risk_weight: 0, penalty_weight: 0 });
    let goal = Pose { x: 0, y: 0, z: 30000, heading: 0 };
    assert_eq!(planner.plan(&pose(0, 0), &goal, &model, 1000).err(), Some(CoreError::RestrictedTarget));
    let high = Pose { x: 0, y: 0, z: 60000, heading: 0 };
    let path = planner.plan(&pose(0, 0), &high, &model, 1000).unwrap();
    assert_eq!(path.total_energy, 600);
    assert_eq!(path.segments[0].cost, SegmentCost { energy: 600, risk: 200, penalty: 100 });
    assert_eq!(planner.plan(&pose(0, 0), &high, &model, 400).err(), Some(CoreError::EnergyInfeasible));
}

#[test]
fn confidence_from_planar_variance() {
    assert_eq!(confidence_from_variance(250_000), 2000);
    assert_eq!(confidence_from_variance(1_000_000), 1000);
    assert_eq!(confidence_from_variance(4_000_000), 500);
    assert_eq!(confidence_from_variance(0), u64::MAX);
}

#[test]
fn nearest_occupied_cell() {
    let grid = OccupancyGrid { width: 3, resolution: 100, data: vec![0, 0, 0, 0, 0, 1, 0, 1, 0] };
    assert_eq!(nearest_obstacle(&grid), Some(223));
    let free = OccupancyGrid { width: 3, resolution: 100, data: vec![0; 9] };
    assert_eq!(nearest_obstacle(&free), None);
}

#[test]
fn update_from_pose_and_grid() {
    let mut s = CoreState::with_mode(Mode::Navigating);
    let pc = PoseConfidence { pose: pose(0, 0), var_x: 100_000, var_y: 100_000 };
    let grid = OccupancyGrid { width: 4, resolution: 100, data: vec![0, 0, 1, 0] };
    s.update(&pc, &grid);
    assert_eq!(s.last_pose_confidence(), 2236);
    assert_eq!(s.last_obstacle_distance(), Some(200));
    assert_eq!(s.get_mode(), Mode::Recovering);
    let mut s = CoreState::with_mode(Mode::Navigating);
    let unsure = PoseConfidence { pose: pose(0, 0), var_x: 3_000_000, var_y: 3_000_000 };
    s.update(&unsure, &grid);
    assert_eq!(s.last_pose_confidence(), 408);
    assert_eq!(s.get_mode(), Mode::Lost);
}

#[test]
fn rover_speed_scales_with_risk_and_energy() {
    assert_eq!(rover_target_speed(None, 200, 800, 1000), 400);
    assert_eq!(rover_target_speed(None, 200, 500, 1000), 280);
    assert_eq!(rover_target_speed(Some(1000), 0, 100, 1500), 600);
}

#[test]
fn indoor_speed_follows_behavior() {
    let c = SegmentCost { energy: 0, risk: 0, penalty: 500 };
    assert_eq!(indoor_target_speed(&c, 800, ApproachBehavior::Neutral, 800), 200);
    assert_eq!(indoor_target_speed(&c, 800, ApproachBehavior::Assertive, 1000), 375);
    assert_eq!(indoor_target_speed(&c, 100, ApproachBehavior::Avoidant, 1000), 87);
}

#[test]
fn proximity_is_mean_closeness() {
    let a = HumanPresenceAnalysis { humans: vec![human(3000, 4000, false), human(0, 2500, false)], overall_activity_level: 0 };
    assert_eq!(human_proximity(&a), 250);
    let none = HumanPresenceAnalysis { humans: vec![], overall_activity_level: 0 };
    assert_eq!(human_proximity(&none), 0);
}

#[test]
fn profile_lookup_by_name() {
    let profiles = vec![
        TerrainProfile { name: "sand".to_string(), max_slope: 300, traction: 400, energy_cost: 300, recommended_speed: 300 },
        TerrainProfile { name: "gravel".to_string(), max_slope: 500, traction: 700, energy_cost: 200, recommended_speed: 600 },
    ];
    assert_eq!(find_profile(&profiles, &"gravel".to_string()).unwrap().energy_cost, 200);
    assert!(find_profile(&profiles, &"ice".to_string()).is_none());
}

#[test]
fn controller_sends_forward_and_yaw() {
    let c = Controller::new();
    assert_eq!(c.execute(&NavCommand { linear: 300, angular: -50 }), vec![300, -50]);
    let _ = HumanInteractionMode::Passive;
}

fn calm_airspace(wind_speed: u64) -> AirspaceCostModel {
    AirspaceCostModel {
        rules: vec![],
        airspace: DroneAirspaceAnalysis { obstacle_density: 0, airspace_class: "G".to_string(), turbulence_level: 0 },
        weather: WeatherConditions { wind_speed, wind_direction: 0, temperature: 15000, precipitation: 0 },
    }
}

#[test]
fn flight_energy_charged_at_both_waypoints() {
    let mut planner =
        PathPlanner::new(PlannerConfig { margin: 700, floor: 0, risk_weight: 0, penalty_weight: 0 });
    let goal = Pose { x: 10000, y: 0, z: 5000, heading: 0 };
    let path = planner.plan(&pose(0, 0), &goal, &calm_airspace(3000), 1000).unwrap();
    assert_eq!(path.total_energy, 500);
    assert!(planner.current_plan().is_some());
}

#[test]
fn windy_flight_is_energy_infeasible() {
    let mut planner =
        PathPlanner::new(PlannerConfig { margin: 700, floor: 0, risk_weight: 0, penalty_weight: 0 });
    let goal = Pose { x: 10000, y: 0, z: 5000, heading: 0 };
    let r = planner.plan(&pose(0, 0), &goal, &calm_airspace(7000), 1000);
    assert_eq!(r.err(), Some(CoreError::EnergyInfeasible));
    assert!(planner.current_plan().is_none());
}

#[test]
fn indoor_privacy_respect() {
    let mut planner = indoor_planner();
    let model = indoor_model(vec![human(2000, 500, true)], vec![]);
    let path = planner.plan(&pose(0, 0), &pose(4000, 0), &model, 1000).unwrap();
    assert_eq!(path.segments[0].cost.risk, 700);
    assert_eq!(path.risk_respect(eos_core::indoor::PRIVACY_WEIGHT), 860);
    assert_eq!(path.acceptability, 925);
}

#[test]
fn indoor_replan_keeps_path_after_failure() {
    let mut planner = indoor_planner();
    let start = pose(0, 0);
    let goal = pose(4000, 0);
    planner.plan(&start, &goal, &indoor_model(vec![], vec![]), 1000).unwrap();
    let crowd = indoor_model(vec![human(2000, 0, false); 8], vec![]);
    let mut strict = PathPlanner::new(PlannerConfig { margin: 800, floor: 950, risk_weight: 0, penalty_weight: 100 });
    strict.plan(&start, &goal, &indoor_model(vec![], vec![]), 1000).unwrap();
    assert_eq!(strict.replan_for_new_analysis(&crowd, 1000), Err(CoreError::Acceptability));
    let kept = strict.current_plan().unwrap();
    assert_eq!((kept.segments[0].start, kept.segments[0].end), (start, goal));
    assert_eq!(kept.segments[0].cost.penalty, 1000);
    assert_eq!(kept.segments[0].cost.energy, 300);
    assert_eq!(kept.acceptability, 900);
    assert_eq!(planner.replan_for_new_analysis(&crowd, 1000), Ok(()));
}

#[test]
fn hover_correction() {
    assert_eq!(eos_core::aerial::hover_command(900), vec![0, 0, 10]);
    assert_eq!(eos_core::aerial::hover_command(5000), vec![0, 0, 0]);
}
