//! Aerial variant: wind-dependent energy, turbulence as risk, obstacle density
//! as penalty, and altitude bands closed by airspace rules.
use vstd::prelude::*;
use crate::cost::{CostModel, SegmentCost};
use crate::fixed::MILLI;
use crate::geometry::Pose;

verus! {

/// Energy of a straight flight segment in still air, in thousandths.
pub const AERIAL_BASE_ENERGY: u64 = 100;

/// An airspace rule over the altitude band strictly between its bounds (mm).
pub struct AirspaceRule {
    pub name: String,
    pub max_altitude: i64,
    pub min_altitude: i64,
    pub restricted: bool,
    pub required_clearance: bool,
}

/// Wind speed (mm/s) and direction (millidegrees), temperature (millidegrees
/// Celsius), precipitation (thousandths).
#[derive(Clone, Copy, Debug, PartialEq, Eq, Structural)]
pub struct WeatherConditions {
    pub wind_speed: u64,
    pub wind_direction: i64,
    pub temperature: i64,
    pub precipitation: u64,
}

/// Obstacle density and turbulence in thousandths.
pub struct DroneAirspaceAnalysis {
    pub obstacle_density: u64,
    pub airspace_class: String,
    pub turbulence_level: u64,
}

/// The rule closes the goal's altitude.
pub open spec fn closes(rule: AirspaceRule, goal: Pose) -> bool {
    rule.restricted && rule.min_altitude < goal.z && goal.z < rule.max_altitude
}

pub open spec fn cap_milli(v: u64) -> u64 {
    if v > MILLI {
        MILLI
    } else {
        v
    }
}

/// Energy charged at one waypoint: the base plus one twentieth of the wind
/// speed in mm/s (five hundredths per metre per second).
pub open spec fn flight_energy(w: WeatherConditions) -> u64 {
    (AERIAL_BASE_ENERGY + w.wind_speed / 20) as u64
}

/// Cost model of the aerial variant: one straight segment to the goal, whose
/// energy is charged at both of its waypoints, start and goal.
pub struct AirspaceCostModel {
    pub rules: Vec<AirspaceRule>,
    pub airspace: DroneAirspaceAnalysis,
    pub weather: WeatherConditions,
}

impl CostModel for AirspaceCostModel {
    open spec fn wf(&self) -> bool {
        true
    }

    open spec fn restricted_spec(&self, goal: Pose) -> bool {
        exists|i: int| 0 <= i < self.rules@.len() && #[trigger] closes(self.rules@[i], goal)
    }

    open spec fn segments_spec(&self, start: Pose, goal: Pose) -> Seq<(Pose, Pose)> {
        seq![(start, goal)]
    }

    open spec fn cost_spec(&self, index: int, from: Pose, to: Pose) -> SegmentCost {
        SegmentCost {
            energy: (2 * flight_energy(self.weather)) as u64,
            risk: cap_milli(self.airspace.turbulence_level),
            penalty: cap_milli(self.airspace.obstacle_density),
        }
    }

    fn is_restricted(&self, goal: &Pose) -> (r: bool) {
        let mut i: usize = 0;
        while i < self.rules.len()
            invariant
                i <= self.rules@.len(),
                forall|j: int| 0 <= j < i ==> !#[trigger] closes(self.rules@[j], *goal),
            decreases self.rules@.len() - i,
        {
            let rule = &self.rules[i];
            if rule.restricted && rule.min_altitude < goal.z && goal.z < rule.max_altitude {
                assert(closes(self.rules@[i as int], *goal));
                return true;
            }
            i += 1;
        }
        false
    }

    fn segments(&self, start: &Pose, goal: &Pose) -> (r: Vec<(Pose, Pose)>) {
        let r = vec![(*start, *goal)];
        assert(r@ =~= seq![(*start, *goal)]);
        r
    }

    fn segment_cost(&self, index: usize, from: &Pose, to: &Pose) -> (c: SegmentCost) {
        let t = self.airspace.turbulence_level;
        let o = self.airspace.obstacle_density;
        SegmentCost {
            energy: 2 * (AERIAL_BASE_ENERGY + self.weather.wind_speed / 20),
            risk: if t > MILLI {
                MILLI
            } else {
                t
            },
            penalty: if o > MILLI {
                MILLI
            } else {
                o
            },
        }
    }
}


/// `v` limited to the range of `i64`.
pub open spec fn saturate(v: int) -> i64 {
    if v > i64::MAX {
        i64::MAX
    } else if v < i64::MIN {
        i64::MIN
    } else {
        v as i64
    }
}

/// Wind slow-down factor in thousandths: `1000 - wind_speed / divisor`, never
/// below zero (no headway against a strong enough wind).
pub open spec fn wind_factor(wind_speed: u64, divisor: u64) -> int {
    let f = 1000 - (wind_speed / divisor) as int;
    if f < 0 {
        0
    } else {
        f
    }
}

/// Speed scale (thousandths) for the energy left in flight.
pub open spec fn drone_energy_factor(energy_level: u64) -> int {
    if energy_level > 700 {
        1000
    } else if energy_level > 400 {
        800
    } else if energy_level > 200 {
        500
    } else {
        300
    }
}

/// Recommended cruise speed (mm/s): five metres per second, reduced by a tenth
/// per metre per second of wind but never below half.
pub open spec fn recommended_flight_speed_spec(wind_speed: u64) -> u64 {
    let f = 1000 - (wind_speed / 10) as int;
    let g = if f < 500 {
        500
    } else {
        f
    };
    (5000 * g / 1000) as u64
}

/// Forward speed (mm/s) before wind compensation: the waypoint's recommended
/// speed reduced by turbulence and wind, scaled by the energy factor and the
/// weather-adaptation factor (thousandths), rounded down at each step.
pub open spec fn forward_speed(
    recommended: u64,
    turbulence: u64,
    wind_speed: u64,
    energy_level: u64,
    adaptation: u64,
) -> int {
    let a = (recommended as int) * (1000 - cap_milli(turbulence) as int) / 1000;
    let b = a * wind_factor(wind_speed, 10) / 1000;
    let c = b * drone_energy_factor(energy_level) / 1000;
    c * (adaptation as int) / 1000
}

/// Vertical speed (mm/s): half a metre per second up when the target is
/// higher, else three tenths down, reduced by five hundredths per metre per
/// second of wind.
pub open spec fn vertical_speed(climb: bool, wind_speed: u64) -> int {
    if climb {
        500 * wind_factor(wind_speed, 20) / 1000
    } else {
        -(300 * wind_factor(wind_speed, 20) / 1000)
    }
}

/// Hover correction (x, y, z in mm/s): a climb of a tenth of a metre per
/// second times the missing hover stability (thousandths, at most one whole).
pub fn hover_command(hover_stability: u64) -> (r: Vec<i64>)
    ensures
        r@ == seq![0i64, 0i64, (100 * (1000 - cap_milli(hover_stability) as int) / 1000) as i64],
{
    let s: u64 = if hover_stability > MILLI {
        MILLI
    } else {
        hover_stability
    };
    let z: i64 = (100 * (MILLI - s) / 1000) as i64;
    let r = vec![0, 0, z];
    assert(r@ =~= seq![0i64, 0i64, (100 * (1000 - cap_milli(hover_stability) as int) / 1000) as i64]);
    r
}

/// The recommended cruise speed for the given wind.
pub fn recommended_flight_speed(wind_speed: u64) -> (r: u64)
    ensures
        r == recommended_flight_speed_spec(wind_speed),
        2500 <= r <= 5000,
{
    let cut: u64 = wind_speed / 10;
    let g: u64 = if cut > 500 {
        500
    } else {
        1000 - cut
    };
    5000 * g / 1000
}

fn wind_factor_exec(wind_speed: u64, divisor: u64) -> (r: i128)
    requires
        divisor > 0,
    ensures
        r == wind_factor(wind_speed, divisor),
        0 <= r <= 1000,
{
    let cut: u64 = wind_speed / divisor;
    if cut >= 1000 {
        0
    } else {
        1000 - cut as i128
    }
}

/// Target velocity (x, y, z in mm/s) towards a waypoint: forward speed plus the
/// wind compensation on x, the compensation alone on y, the vertical speed
/// plus the compensation on z, each limited to the range of `i64`.
pub fn drone_target_velocity(
    recommended: u64,
    turbulence: u64,
    wind_speed: u64,
    energy_level: u64,
    adaptation: u64,
    target_altitude: i64,
    current_altitude: i64,
    compensation: (i64, i64, i64),
) -> (r: Vec<i64>)
    requires
        adaptation <= 2000,
    ensures
        r@ == seq![
            saturate(
                forward_speed(recommended, turbulence, wind_speed, energy_level, adaptation)
                    + compensation.0,
            ),
            compensation.1,
            saturate(vertical_speed(target_altitude > current_altitude, wind_speed) + compensation.2),
        ],
{
    let t: i128 = if turbulence > MILLI {
        MILLI as i128
    } else {
        turbulence as i128
    };
    let rec: i128 = recommended as i128;
    assert(rec * (1000 - t) <= rec * 1000 && rec * (1000 - t) >= 0) by (nonlinear_arith)
        requires
            0 <= t <= 1000,
            rec >= 0,
    ;
    assert(rec * 1000 <= 0x1_0000_0000_0000_0000 * 1000) by (nonlinear_arith)
        requires
            rec < 0x1_0000_0000_0000_0000,
    ;
    let a: i128 = rec * (1000 - t) / 1000;
    assert(0 <= a <= rec) by (nonlinear_arith)
        requires
            a == rec * (1000 - t) / 1000,
            0 <= rec * (1000 - t) <= rec * 1000,
    ;
    let wf = wind_factor_exec(wind_speed, 10);
    assert(0 <= a * wf <= a * 1000) by (nonlinear_arith)
        requires
            0 <= wf <= 1000,
            a >= 0,
    ;
    let b: i128 = a * wf / 1000;
    assert(0 <= b <= a) by (nonlinear_arith)
        requires
            b == a * wf / 1000,
            0 <= a * wf <= a * 1000,
    ;
    let ef: i128 = if energy_level > 700 {
        1000
    } else if energy_level > 400 {
        800
    } else if energy_level > 200 {
        500
    } else {
        300
    };
    assert(0 <= b * ef <= b * 1000) by (nonlinear_arith)
        requires
            0 <= ef <= 1000,
            b >= 0,
    ;
    let c: i128 = b * ef / 1000;
    assert(0 <= c <= b) by (nonlinear_arith)
        requires
            c == b * ef / 1000,
            0 <= b * ef <= b * 1000,
    ;
    assert(0 <= c * (adaptation as i128) <= c * 2000) by (nonlinear_arith)
        requires
            adaptation <= 2000,
            c >= 0,
    ;
    let forward: i128 = c * (adaptation as i128) / 1000;
    assert(0 <= forward <= c * 2) by (nonlinear_arith)
        requires
            forward == c * (adaptation as i128) / 1000,
            0 <= c * (adaptation as i128) <= c * 2000,
    ;
    let vf = wind_factor_exec(wind_speed, 20);
    let vertical: i128 = if target_altitude > current_altitude {
        500 * vf / 1000
    } else {
        -(300 * vf / 1000)
    };
    let x: i128 = forward + compensation.0 as i128;
    let z: i128 = vertical + compensation.2 as i128;
    let sx: i64 = if x > i64::MAX as i128 {
        i64::MAX
    } else if x < i64::MIN as i128 {
        i64::MIN
    } else {
        x as i64
    };
    let sz: i64 = if z > i64::MAX as i128 {
        i64::MAX
    } else if z < i64::MIN as i128 {
        i64::MIN
    } else {
        z as i64
    };
    let r = vec![sx, compensation.1, sz];
    assert(r@ =~= seq![sx, compensation.1, sz]);
    r
}

} // verus!
