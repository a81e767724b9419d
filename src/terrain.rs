//! Ground variant: terrain profiles give energy and risk per terrain segment,
//! and the terrain-aware cruising speed.
use vstd::prelude::*;
use crate::cost::{CostModel, SegmentCost};
use crate::fixed::MILLI;
use crate::geometry::{point_wf, sq, Pose};

verus! {

/// Speed (mm/s) used where no profile recommends one.
pub const DEFAULT_SPEED: u64 = 500;

/// How a terrain type behaves: slope limit (milliradians), traction and energy
/// cost (thousandths) and recommended speed (mm/s).
pub struct TerrainProfile {
    pub name: String,
    pub max_slope: u64,
    pub traction: u64,
    pub energy_cost: u64,
    pub recommended_speed: u64,
}

/// One analysed stretch of terrain: slope (milliradians), roughness and
/// stability (thousandths).
pub struct TerrainSegment {
    pub terrain_type: String,
    pub slope: u64,
    pub roughness: u64,
    pub stability: u64,
}

pub struct RoverTerrainAnalysis {
    pub terrain_segments: Vec<TerrainSegment>,
    pub overall_difficulty: u64,
}

/// Largest no-go radius (mm) handled.
pub const MAX_NO_GO_RADIUS: u64 = 0x8000_0000;

/// A declared circular no-go zone: centre and radius in mm.
#[derive(Clone, Copy, Debug, PartialEq, Eq, Structural)]
pub struct NoGoZone {
    pub x: i64,
    pub y: i64,
    pub radius: u64,
}

/// The goal lies strictly inside the zone.
pub open spec fn inside_no_go(z: NoGoZone, goal: Pose) -> bool {
    sq(goal.x - z.x) + sq(goal.y - z.y) < sq(z.radius as int)
}

/// The last profile of the given name: a profile loaded later replaces an
/// earlier one of the same name.
pub open spec fn lookup(profiles: Seq<TerrainProfile>, name: Seq<char>) -> Option<TerrainProfile>
    decreases profiles.len(),
{
    if profiles.len() == 0 {
        None
    } else if profiles.last().name@ == name {
        Some(profiles.last())
    } else {
        lookup(profiles.drop_last(), name)
    }
}

/// Risk of a terrain segment for a profile: steep (beyond seven tenths of the
/// slope limit), rough and unstable ground each add to it; at most one whole.
pub open spec fn risk_factor(t: TerrainSegment, p: TerrainProfile) -> u64 {
    let steep: int = if t.slope * 10 > p.max_slope * 7 {
        300
    } else {
        0
    };
    let rough: int = if t.roughness > 600 {
        200
    } else {
        0
    };
    let unstable: int = if t.stability < 400 {
        500
    } else {
        0
    };
    let r = steep + rough + unstable;
    if r > MILLI {
        MILLI
    } else {
        r as u64
    }
}

/// Energy a profile charges, reduced to four fifths in efficiency mode.
pub open spec fn profile_energy(p: TerrainProfile, efficient: bool) -> u64 {
    if efficient {
        (p.energy_cost * 800 / 1000) as u64
    } else {
        p.energy_cost
    }
}

/// Cost model of the ground variant over the terrain profiles, the declared
/// no-go zones and the current analysis. Each terrain segment becomes a path
/// segment; terrain of no known profile costs nothing.
pub struct TerrainCostModel {
    pub profiles: Vec<TerrainProfile>,
    pub no_go_zones: Vec<NoGoZone>,
    pub analysis: RoverTerrainAnalysis,
    pub energy_efficiency_mode: bool,
}

/// Finds the last profile of the given name.
pub fn find_profile<'a>(profiles: &'a Vec<TerrainProfile>, name: &String) -> (r: Option<
    &'a TerrainProfile,
>)
    ensures
        match r {
            Some(p) => lookup(profiles@, name@) == Some(*p),
            None => lookup(profiles@, name@).is_none(),
        },
{
    let mut i: usize = profiles.len();
    assert(profiles@.take(profiles@.len() as int) =~= profiles@);
    while i > 0
        invariant
            i <= profiles@.len(),
            lookup(profiles@, name@) == lookup(profiles@.take(i as int), name@),
        decreases i,
    {
        let ghost front = profiles@.take(i as int);
        assert(front.drop_last() =~= profiles@.take(i - 1));
        assert(front.last() == profiles@[i - 1]);
        if profiles[i - 1].name == *name {
            return Some(&profiles[i - 1]);
        }
        i -= 1;
    }
    None
}

fn risk_factor_exec(t: &TerrainSegment, p: &TerrainProfile) -> (r: u64)
    ensures
        r == risk_factor(*t, *p),
{
    let mut r: u64 = 0;
    if (t.slope as u128) * 10 > (p.max_slope as u128) * 7 {
        r = r + 300;
    }
    if t.roughness > 600 {
        r = r + 200;
    }
    if t.stability < 400 {
        r = r + 500;
    }
    if r > MILLI {
        MILLI
    } else {
        r
    }
}

impl CostModel for TerrainCostModel {
    open spec fn wf(&self) -> bool {
        forall|i: int|
            0 <= i < self.no_go_zones@.len() ==> point_wf(
                (#[trigger] self.no_go_zones@[i]).x,
                self.no_go_zones@[i].y,
            ) && self.no_go_zones@[i].radius <= MAX_NO_GO_RADIUS
    }

    open spec fn restricted_spec(&self, goal: Pose) -> bool {
        exists|i: int|
            0 <= i < self.no_go_zones@.len() && #[trigger] inside_no_go(self.no_go_zones@[i], goal)
    }

    open spec fn segments_spec(&self, start: Pose, goal: Pose) -> Seq<(Pose, Pose)> {
        let n = self.analysis.terrain_segments@.len();
        if n == 0 {
            seq![(start, goal)]
        } else {
            Seq::new(n, |i: int| (start, goal))
        }
    }

    open spec fn cost_spec(&self, index: int, from: Pose, to: Pose) -> SegmentCost {
        if 0 <= index < self.analysis.terrain_segments@.len() {
            let t = self.analysis.terrain_segments@[index];
            match lookup(self.profiles@, t.terrain_type@) {
                Some(p) => SegmentCost {
                    energy: profile_energy(p, self.energy_efficiency_mode),
                    risk: risk_factor(t, p),
                    penalty: 0,
                },
                None => SegmentCost { energy: 0, risk: 0, penalty: 0 },
            }
        } else {
            SegmentCost { energy: 0, risk: 0, penalty: 0 }
        }
    }

    fn is_restricted(&self, goal: &Pose) -> (r: bool) {
        let mut i: usize = 0;
        while i < self.no_go_zones.len()
            invariant
                self.wf(),
                goal.wf(),
                i <= self.no_go_zones@.len(),
                forall|j: int| 0 <= j < i ==> !#[trigger] inside_no_go(self.no_go_zones@[j], *goal),
            decreases self.no_go_zones@.len() - i,
        {
            let z = self.no_go_zones[i];
            assert(point_wf(z.x, z.y) && z.radius <= MAX_NO_GO_RADIUS);
            let ex: i128 = goal.x as i128 - z.x as i128;
            let ey: i128 = goal.y as i128 - z.y as i128;
            assert(0 <= ex * ex <= 0x8000_0000 * 0x8000_0000) by (nonlinear_arith)
                requires
                    -0x8000_0000 <= ex <= 0x8000_0000,
            ;
            assert(0 <= ey * ey <= 0x8000_0000 * 0x8000_0000) by (nonlinear_arith)
                requires
                    -0x8000_0000 <= ey <= 0x8000_0000,
            ;
            assert((z.radius as int) * (z.radius as int) <= 0x8000_0000 * 0x8000_0000)
                by (nonlinear_arith)
                requires
                    z.radius <= 0x8000_0000,
            ;
            let r2: i128 = z.radius as i128 * z.radius as i128;
            if ex * ex + ey * ey < r2 {
                assert(inside_no_go(self.no_go_zones@[i as int], *goal));
                return true;
            }
            i += 1;
        }
        false
    }

    fn segments(&self, start: &Pose, goal: &Pose) -> (r: Vec<(Pose, Pose)>) {
        let n = self.analysis.terrain_segments.len();
        if n == 0 {
            let r = vec![(*start, *goal)];
            assert(r@ =~= seq![(*start, *goal)]);
            return r;
        }
        let mut r: Vec<(Pose, Pose)> = Vec::with_capacity(n);
        let mut i: usize = 0;
        while i < n
            invariant
                i <= n,
                r@ =~= Seq::new(i as nat, |k: int| (*start, *goal)),
            decreases n - i,
        {
            r.push((*start, *goal));
            i += 1;
        }
        r
    }

    fn segment_cost(&self, index: usize, from: &Pose, to: &Pose) -> (c: SegmentCost) {
        if index >= self.analysis.terrain_segments.len() {
            return SegmentCost { energy: 0, risk: 0, penalty: 0 };
        }
        let t = &self.analysis.terrain_segments[index];
        match find_profile(&self.profiles, &t.terrain_type) {
            Some(p) => {
                let energy: u64 = if self.energy_efficiency_mode {
                    p.energy_cost / 1000 * 800 + p.energy_cost % 1000 * 800 / 1000
                } else {
                    p.energy_cost
                };
                proof {
                    if self.energy_efficiency_mode {
                        let e = p.energy_cost as int;
                        assert(e * 800 / 1000 == e / 1000 * 800 + e % 1000 * 800 / 1000)
                            by (nonlinear_arith);
                    }
                }
                SegmentCost { energy, risk: risk_factor_exec(t, p), penalty: 0 }
            },
            None => SegmentCost { energy: 0, risk: 0, penalty: 0 },
        }
    }
}

/// Speed factor (thousandths) for the energy left: full above seven tenths,
/// seven tenths above three tenths, else four tenths.
pub open spec fn energy_factor(energy_level: u64) -> u64 {
    if energy_level > 700 {
        1000
    } else if energy_level > 300 {
        700
    } else {
        400
    }
}

/// Cruising speed (mm/s) on a segment: the profile's recommended speed (or the
/// default) reduced by the risk, scaled by the energy factor and the terrain
/// adaptation factor (thousandths), rounded down at each step; saturates at
/// the largest `u64`.
pub open spec fn rover_speed(
    recommended: Option<u64>,
    risk: u64,
    energy_level: u64,
    adaptation: u64,
) -> nat {
    let speed: nat = match recommended {
        Some(s) => s as nat,
        None => DEFAULT_SPEED as nat,
    };
    let base = speed * ((MILLI - risk) as nat) / 1000;
    let v = base * (energy_factor(energy_level) as nat) / 1000 * (adaptation as nat) / 1000;
    if v > u64::MAX {
        u64::MAX as nat
    } else {
        v
    }
}

/// The terrain-aware cruising speed.
pub fn rover_target_speed(
    recommended: Option<u64>,
    risk: u64,
    energy_level: u64,
    adaptation: u64,
) -> (r: u64)
    requires
        risk <= MILLI,
        adaptation <= 2 * MILLI,
    ensures
        r == rover_speed(recommended, risk, energy_level, adaptation),
{
    let speed: u128 = match recommended {
        Some(s) => s as u128,
        None => DEFAULT_SPEED as u128,
    };
    let factor: u128 = if energy_level > 700 {
        1000
    } else if energy_level > 300 {
        700
    } else {
        400
    };
    assert(speed * ((MILLI - risk) as u128) <= speed * 1000) by (nonlinear_arith)
        requires
            risk <= 1000,
    ;
    assert(speed * 1000 <= 0x1_0000_0000_0000_0000 * 1000) by (nonlinear_arith)
        requires
            speed < 0x1_0000_0000_0000_0000,
    ;
    let base: u128 = speed * ((MILLI - risk) as u128) / 1000;
    assert(base <= speed) by (nonlinear_arith)
        requires
            base == speed * ((MILLI - risk) as u128) / 1000,
            speed * ((MILLI - risk) as u128) <= speed * 1000,
    ;
    assert(base * factor <= base * 1000) by (nonlinear_arith)
        requires
            factor <= 1000,
    ;
    let scaled: u128 = base * factor / 1000;
    assert(scaled <= base) by (nonlinear_arith)
        requires
            scaled == base * factor / 1000,
            base * factor <= base * 1000,
    ;
    assert(scaled * (adaptation as u128) <= scaled * 2000) by (nonlinear_arith)
        requires
            adaptation <= 2000,
    ;
    let v: u128 = scaled * (adaptation as u128) / 1000;
    assert(v <= scaled * 2) by (nonlinear_arith)
        requires
            v == scaled * (adaptation as u128) / 1000,
            scaled * (adaptation as u128) <= scaled * 2000,
    ;
    if v > u64::MAX as u128 {
        u64::MAX
    } else {
        v as u64
    }
}

} // verus!
