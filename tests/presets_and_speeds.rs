use eos_core::aerial::{drone_target_velocity, recommended_flight_speed};
use eos_core::fixed::clamp_factor;
use eos_core::indoor::{vocal_response, VocalResponse};
use eos_core::presets::{
    drone_cruise, drone_governor, drone_hazards, drone_planner, indoor_cruise, indoor_governor,
    indoor_hazards, indoor_planner, rover_cruise, rover_governor, rover_hazards, rover_planner,
};
use eos_core::robot::Robot;
use eos_core::state::Mode;

#[test]
fn drone_velocity_towards_higher_waypoint() {
    let v = drone_target_velocity(5000, 200, 2000, 800, 1000, 10000, 0, (100, -50, 0));
    assert_eq!(v, vec![3300, -50, 450]);
    let v = drone_target_velocity(5000, 200, 2000, 300, 1000, 0, 10000, (0, 0, 10));
    assert_eq!(v, vec![1600, 0, -260]);
}

#[test]
fn drone_velocity_in_storm_has_no_headway() {
    let v = drone_target_velocity(5000, 0, 30000, 1000, 1000, 5, 0, (0, 0, 0));
    assert_eq!(v, vec![0, 0, 0]);
}

#[test]
fn recommended_speed_drops_with_wind() {
    assert_eq!(recommended_flight_speed(0), 5000);
    assert_eq!(recommended_flight_speed(2000), 4000);
    assert_eq!(recommended_flight_speed(8000), 2500);
}

#[test]
fn vocal_responses() {
    assert_eq!(vocal_response(800, 0), Some(VocalResponse::PassThrough));
    assert_eq!(vocal_response(100, 700), Some(VocalResponse::Greeting));
    assert_eq!(vocal_response(700, 600), None);
    assert_eq!(VocalResponse::PassThrough.text(), "Excuse me, I need to pass through");
    assert_eq!(VocalResponse::Greeting.text(), "Hello, I'm just passing by");
}

#[test]
fn adaptation_factor_is_clamped() {
    assert_eq!(clamp_factor(0), 100);
    assert_eq!(clamp_factor(1500), 1500);
    assert_eq!(clamp_factor(5000), 2000);
}

#[test]
fn presets_build_working_robots() {
    let mut rover = Robot::new(rover_planner(), rover_governor(), rover_hazards(), 0);
    rover.start_navigation().unwrap();
    assert_eq!(rover.step(&vec![2000], 1000), Ok(vec![500]));
    assert!(!rover.evaluate_hazards(&vec![100, 100, 1000, 400]));
    assert!(rover.evaluate_hazards(&vec![100, 100, 200, 400]));

    let mut indoor = Robot::new(indoor_planner(), indoor_governor(), indoor_hazards(), 0);
    indoor.start_navigation().unwrap();
    assert_eq!(indoor.step(&vec![5000], 10000), Ok(vec![1000]));

    let mut drone = Robot::new(drone_planner(), drone_governor(), drone_hazards(), 0);
    drone.start_navigation().unwrap();
    assert_eq!(drone.step(&vec![-9000, 100, 9000], 1000), Ok(vec![-400, 100, 300]));
    assert!(drone.evaluate_hazards(&vec![0, 0, 5000, 100, 1000]));
    assert_eq!(drone.emergency_stop(2000), vec![0, 0, -300]);
    assert_eq!(drone.get_mode(), Mode::Idle);
}

#[test]
fn cruise_commands() {
    assert_eq!(rover_cruise(), vec![500]);
    assert_eq!(indoor_cruise(), vec![300]);
    assert_eq!(drone_cruise(), vec![1000, 0, 500]);
}
