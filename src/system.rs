//! Orchestration-level types: the motor command, configuration and status
//! records, and the errors reported to callers.
use vstd::prelude::*;
use crate::state::Mode;

verus! {

/// Forward (mm/s) and yaw (milliradians/s) velocity for the motors.
#[derive(Clone, Copy, Debug, PartialEq, Eq, Structural)]
pub struct NavCommand {
    pub linear: i64,
    pub angular: i64,
}

/// Hands navigation commands to the motor interface.
#[derive(Clone, Copy, Debug, PartialEq, Eq, Structural)]
pub struct Controller;

impl Controller {
    pub fn new() -> (r: Controller) {
        Controller
    }

    /// The per-axis velocity vector (forward, yaw) sent to the motors.
    pub fn execute(&self, cmd: &NavCommand) -> (r: Vec<i64>)
        ensures
            r@ == seq![cmd.linear, cmd.angular],
    {
        let r = vec![cmd.linear, cmd.angular];
        assert(r@ =~= seq![cmd.linear, cmd.angular]);
        r
    }
}

/// Transport settings of the robot's middleware node.
pub struct RosConfig {
    pub domain_id: u32,
    pub node_name: String,
    pub qos_depth: usize,
}

/// State of the middleware link; times in milliseconds since the epoch.
#[derive(Clone, Copy, Debug, PartialEq, Eq, Structural)]
pub struct RosStatus {
    pub connected: bool,
    pub publishers_count: usize,
    pub subscribers_count: usize,
    pub last_message_time: Option<u64>,
}

/// Errors of the sensor-driven navigation layer.
#[derive(Debug)]
pub enum NavigationError {
    NoPathError(String),
    UnsafePath(String),
    VelocityLimitExceeded,
    InvalidGoal,
    PlanningTimeout,
}

/// Errors of the operating system around the core.
#[derive(Debug)]
pub enum EosError {
    RosError(String),
    NeuralError(String),
    NavigationError(String),
    NotInitialized,
    ConfigError(String),
}

/// What a status query reports of one robot.
#[derive(Clone, Copy, Debug, PartialEq, Eq, Structural)]
pub struct SystemStatus {
    pub mode: Mode,
    pub safety_latched: bool,
    pub history_len: usize,
    pub operational: bool,
}

} // verus!
