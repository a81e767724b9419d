//! Poses and planar distances, in millimetres.
use vstd::prelude::*;
use crate::fixed::{floor_sqrt, isqrt};

verus! {

/// Largest coordinate magnitude this core handles, about a thousand kilometres.
pub const COORD_LIMIT: i64 = 0x4000_0000;

/// Position (x, y, z in mm) and heading (milliradians); produced by localization.
#[derive(Clone, Copy, Debug, PartialEq, Eq, Structural)]
pub struct Pose {
    pub x: i64,
    pub y: i64,
    pub z: i64,
    pub heading: i64,
}

impl Pose {
    /// The position lies within the handled range.
    pub open spec fn wf(&self) -> bool {
        -COORD_LIMIT <= self.x <= COORD_LIMIT && -COORD_LIMIT <= self.y <= COORD_LIMIT
            && -COORD_LIMIT <= self.z <= COORD_LIMIT
    }
}

/// A pose and the variances of its planar position (mm²).
#[derive(Clone, Copy, Debug, PartialEq, Eq, Structural)]
pub struct PoseConfidence {
    pub pose: Pose,
    pub var_x: u64,
    pub var_y: u64,
}


/// A planar point in the handled range.
pub open spec fn point_wf(x: i64, y: i64) -> bool {
    -COORD_LIMIT <= x <= COORD_LIMIT && -COORD_LIMIT <= y <= COORD_LIMIT
}

pub open spec fn sq(v: int) -> int {
    v * v
}

/// Distance (mm, rounded down) from point `(px, py)` to the planar segment
/// from `a` to `b`: to the nearer end where the perpendicular foot falls
/// outside the segment, else the perpendicular distance.
pub open spec fn segment_distance(px: int, py: int, a: Pose, b: Pose) -> nat {
    let dx = b.x - a.x;
    let dy = b.y - a.y;
    let len2 = sq(dx) + sq(dy);
    let dot = (px - a.x) * dx + (py - a.y) * dy;
    if len2 == 0 || dot <= 0 {
        floor_sqrt((sq(px - a.x) + sq(py - a.y)) as nat)
    } else if dot >= len2 {
        floor_sqrt((sq(px - b.x) + sq(py - b.y)) as nat)
    } else {
        let cross = (px - a.x) * dy - (py - a.y) * dx;
        floor_sqrt((sq(cross) / len2) as nat)
    }
}

proof fn lemma_sq_bound(v: int, bound: int)
    requires
        -bound <= v <= bound,
    ensures
        0 <= sq(v) <= bound * bound,
{
    assert(0 <= sq(v) <= bound * bound) by (nonlinear_arith)
        requires
            -bound <= v <= bound,
    ;
}

proof fn lemma_mul_bound(u: int, v: int, bound: int)
    requires
        -bound <= u <= bound,
        -bound <= v <= bound,
    ensures
        -(bound * bound) <= u * v <= bound * bound,
{
    assert(-(bound * bound) <= u * v <= bound * bound) by (nonlinear_arith)
        requires
            -bound <= u <= bound,
            -bound <= v <= bound,
    ;
}

/// Distance from a point to a segment, exactly as `segment_distance`.
pub fn distance_to_segment(px: i64, py: i64, a: &Pose, b: &Pose) -> (r: u64)
    requires
        point_wf(px, py),
        a.wf(),
        b.wf(),
    ensures
        r == segment_distance(px as int, py as int, *a, *b),
{
    let bound: i128 = 0x8000_0000;
    let dx: i128 = b.x as i128 - a.x as i128;
    let dy: i128 = b.y as i128 - a.y as i128;
    let ax: i128 = px as i128 - a.x as i128;
    let ay: i128 = py as i128 - a.y as i128;
    let bx: i128 = px as i128 - b.x as i128;
    let by: i128 = py as i128 - b.y as i128;
    proof {
        lemma_sq_bound(dx as int, bound as int);
        lemma_sq_bound(dy as int, bound as int);
        lemma_sq_bound(ax as int, bound as int);
        lemma_sq_bound(ay as int, bound as int);
        lemma_sq_bound(bx as int, bound as int);
        lemma_sq_bound(by as int, bound as int);
        lemma_mul_bound(ax as int, dx as int, bound as int);
        lemma_mul_bound(ay as int, dy as int, bound as int);
        lemma_mul_bound(ax as int, dy as int, bound as int);
        lemma_mul_bound(ay as int, dx as int, bound as int);
    }
    let len2: i128 = dx * dx + dy * dy;
    let dot: i128 = ax * dx + ay * dy;
    if len2 == 0 || dot <= 0 {
        isqrt((ax * ax + ay * ay) as u128)
    } else if dot >= len2 {
        isqrt((bx * bx + by * by) as u128)
    } else {
        let cross: i128 = ax * dy - ay * dx;
        let c: u128 = if cross < 0 {
            (-cross) as u128
        } else {
            cross as u128
        };
        assert(c * c == sq(cross as int)) by (nonlinear_arith)
            requires
                c == cross || c == -cross,
        ;
        assert(c * c <= 0x8000_0000_0000_0000 * 0x8000_0000_0000_0000) by (nonlinear_arith)
            requires
                c <= 0x8000_0000_0000_0000,
        ;
        isqrt(c * c / (len2 as u128))
    }
}

} // verus!
