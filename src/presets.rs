//! Tuning of the three deployment variants: governor limits, planner margins
//! and hazard tables.
use vstd::prelude::*;
use crate::governor::{AxisLimits, GovernorConfig};
use crate::planner::PlannerConfig;
use crate::safety::{HazardThreshold, LimitKind};

verus! {

/// Capacity of the command history in every variant.
pub const HISTORY_CAPACITY: usize = 100;

/// Ground rover: one forward axis, never reversing.
pub fn rover_governor() -> (r: GovernorConfig)
    ensures
        r.wf(),
        r.axes@ == seq![
            AxisLimits { max_accel: 500, max_decel: 700, min_velocity: 0, max_velocity: i64::MAX },
        ],
        r.emergency@ == seq![0i64],
        r.history_capacity == HISTORY_CAPACITY,
{
    let r = GovernorConfig {
        axes: vec![AxisLimits { max_accel: 500, max_decel: 700, min_velocity: 0, max_velocity: i64::MAX }],
        emergency: vec![0],
        history_capacity: HISTORY_CAPACITY,
    };
    assert(r.axes@ =~= seq![
        AxisLimits { max_accel: 500, max_decel: 700, min_velocity: 0, max_velocity: i64::MAX },
    ]);
    assert(r.emergency@ =~= seq![0i64]);
    r
}

/// Indoor robot: one forward axis up to one metre per second.
pub fn indoor_governor() -> (r: GovernorConfig)
    ensures
        r.wf(),
        r.axes@ == seq![AxisLimits { max_accel: 200, max_decel: 300, min_velocity: 0, max_velocity: 1000 }],
        r.emergency@ == seq![0i64],
        r.history_capacity == HISTORY_CAPACITY,
{
    let r = GovernorConfig {
        axes: vec![AxisLimits { max_accel: 200, max_decel: 300, min_velocity: 0, max_velocity: 1000 }],
        emergency: vec![0],
        history_capacity: HISTORY_CAPACITY,
    };
    assert(r.axes@ =~= seq![
        AxisLimits { max_accel: 200, max_decel: 300, min_velocity: 0, max_velocity: 1000 },
    ]);
    assert(r.emergency@ =~= seq![0i64]);
    r
}

/// Drone: x, y within five metres per second, z within two; the override
/// descends slowly.
pub fn drone_governor() -> (r: GovernorConfig)
    ensures
        r.wf(),
        r.axes@ == seq![
            AxisLimits { max_accel: 300, max_decel: 400, min_velocity: -5000i64, max_velocity: 5000 },
            AxisLimits { max_accel: 300, max_decel: 400, min_velocity: -5000i64, max_velocity: 5000 },
            AxisLimits { max_accel: 300, max_decel: 400, min_velocity: -2000i64, max_velocity: 2000 },
        ],
        r.emergency@ == seq![0i64, 0i64, -300i64],
        r.history_capacity == HISTORY_CAPACITY,
{
    let horizontal = AxisLimits {
        max_accel: 300,
        max_decel: 400,
        min_velocity: -5000,
        max_velocity: 5000,
    };
    let vertical = AxisLimits { max_accel: 300, max_decel: 400, min_velocity: -2000, max_velocity: 2000 };
    let r = GovernorConfig {
        axes: vec![horizontal, horizontal, vertical],
        emergency: vec![0, 0, -300],
        history_capacity: HISTORY_CAPACITY,
    };
    assert(r.axes@ =~= seq![horizontal, horizontal, vertical]);
    assert(r.emergency@ =~= seq![0i64, 0i64, -300i64]);
    r
}

/// Ground rover cruise while following a plan: half a metre per second.
pub fn rover_cruise() -> (r: Vec<i64>)
    ensures
        r@ == seq![500i64],
{
    let r = vec![500];
    assert(r@ =~= seq![500i64]);
    r
}

/// Indoor cruise while following a plan: three tenths of a metre per second.
pub fn indoor_cruise() -> (r: Vec<i64>)
    ensures
        r@ == seq![300i64],
{
    let r = vec![300];
    assert(r@ =~= seq![300i64]);
    r
}

/// Drone cruise while following a plan: one metre per second forward, half a
/// metre per second up.
pub fn drone_cruise() -> (r: Vec<i64>)
    ensures
        r@ == seq![1000i64, 0i64, 500i64],
{
    let r = vec![1000, 0, 500];
    assert(r@ =~= seq![1000i64, 0i64, 500i64]);
    r
}

/// Ground rover: eight tenths of the energy, a tenth of the risk as penalty,
/// no acceptability floor.
pub fn rover_planner() -> (r: PlannerConfig)
    ensures
        r.wf(),
        r == (PlannerConfig { margin: 800, floor: 0, risk_weight: 100, penalty_weight: 0 }),
{
    PlannerConfig { margin: 800, floor: 0, risk_weight: 100, penalty_weight: 0 }
}

/// Indoor robot: eight tenths of the energy, a tenth of the social impact as
/// penalty, acceptability at least one half.
pub fn indoor_planner() -> (r: PlannerConfig)
    ensures
        r.wf(),
        r == (PlannerConfig { margin: 800, floor: 500, risk_weight: 0, penalty_weight: 100 }),
{
    PlannerConfig { margin: 800, floor: 500, risk_weight: 0, penalty_weight: 100 }
}

/// Drone: seven tenths of the energy, no acceptability floor.
pub fn drone_planner() -> (r: PlannerConfig)
    ensures
        r.wf(),
        r == (PlannerConfig { margin: 700, floor: 0, risk_weight: 0, penalty_weight: 0 }),
{
    PlannerConfig { margin: 700, floor: 0, risk_weight: 0, penalty_weight: 0 }
}

/// Ground rover hazards, in order: tilt (mrad), vibration (thousandths),
/// obstacle distance (mm), commanded speed (mm/s).
pub fn rover_hazards() -> (r: Vec<HazardThreshold>)
    ensures
        r@ == seq![
            HazardThreshold { limit: 500, kind: LimitKind::Upper },
            HazardThreshold { limit: 800, kind: LimitKind::Upper },
            HazardThreshold { limit: 300, kind: LimitKind::Lower },
            HazardThreshold { limit: 500, kind: LimitKind::Upper },
        ],
{
    let r = vec![
        HazardThreshold { limit: 500, kind: LimitKind::Upper },
        HazardThreshold { limit: 800, kind: LimitKind::Upper },
        HazardThreshold { limit: 300, kind: LimitKind::Lower },
        HazardThreshold { limit: 500, kind: LimitKind::Upper },
    ];
    assert(r@ =~= seq![
        HazardThreshold { limit: 500, kind: LimitKind::Upper },
        HazardThreshold { limit: 800, kind: LimitKind::Upper },
        HazardThreshold { limit: 300, kind: LimitKind::Lower },
        HazardThreshold { limit: 500, kind: LimitKind::Upper },
    ]);
    r
}

/// Indoor hazards, in order: human proximity, social discomfort, privacy
/// violation (thousandths), commanded speed (mm/s).
pub fn indoor_hazards() -> (r: Vec<HazardThreshold>)
    ensures
        r@ == seq![
            HazardThreshold { limit: 800, kind: LimitKind::Upper },
            HazardThreshold { limit: 700, kind: LimitKind::Upper },
            HazardThreshold { limit: 600, kind: LimitKind::Upper },
            HazardThreshold { limit: 300, kind: LimitKind::Upper },
        ],
{
    let r = vec![
        HazardThreshold { limit: 800, kind: LimitKind::Upper },
        HazardThreshold { limit: 700, kind: LimitKind::Upper },
        HazardThreshold { limit: 600, kind: LimitKind::Upper },
        HazardThreshold { limit: 300, kind: LimitKind::Upper },
    ];
    assert(r@ =~= seq![
        HazardThreshold { limit: 800, kind: LimitKind::Upper },
        HazardThreshold { limit: 700, kind: LimitKind::Upper },
        HazardThreshold { limit: 600, kind: LimitKind::Upper },
        HazardThreshold { limit: 300, kind: LimitKind::Upper },
    ]);
    r
}

/// Drone hazards, in order: tilt (mrad), turbulence (thousandths), obstacle
/// distance (mm), battery health (thousandths), altitude (mm).
pub fn drone_hazards() -> (r: Vec<HazardThreshold>)
    ensures
        r@ == seq![
            HazardThreshold { limit: 400, kind: LimitKind::Upper },
            HazardThreshold { limit: 700, kind: LimitKind::Upper },
            HazardThreshold { limit: 1000, kind: LimitKind::Lower },
            HazardThreshold { limit: 200, kind: LimitKind::Lower },
            HazardThreshold { limit: 120000, kind: LimitKind::Upper },
        ],
{
    let r = vec![
        HazardThreshold { limit: 400, kind: LimitKind::Upper },
        HazardThreshold { limit: 700, kind: LimitKind::Upper },
        HazardThreshold { limit: 1000, kind: LimitKind::Lower },
        HazardThreshold { limit: 200, kind: LimitKind::Lower },
        HazardThreshold { limit: 120000, kind: LimitKind::Upper },
    ];
    assert(r@ =~= seq![
        HazardThreshold { limit: 400, kind: LimitKind::Upper },
        HazardThreshold { limit: 700, kind: LimitKind::Upper },
        HazardThreshold { limit: 1000, kind: LimitKind::Lower },
        HazardThreshold { limit: 200, kind: LimitKind::Lower },
        HazardThreshold { limit: 120000, kind: LimitKind::Upper },
    ]);
    r
}

} // verus!
