//! The supervisory mode machine.
use vstd::prelude::*;
use crate::fixed::{floor_sqrt, isqrt, lemma_floor_sqrt};
use crate::geometry::PoseConfidence;

verus! {

/// Below this confidence (thousandths) localization counts as lost.
pub const LOST_BELOW: u64 = 500;

/// Above this confidence a lost robot starts recovering.
pub const RECOVER_ABOVE: u64 = 800;

/// Above this confidence a recovering robot resumes navigation.
pub const RESUME_ABOVE: u64 = 900;

/// Obstacles nearer than this (mm) interrupt navigation.
pub const OBSTACLE_TOO_CLOSE: u64 = 300;

/// Robot-wide operating mode.
#[derive(Clone, Copy, Debug, PartialEq, Eq, Structural)]
pub enum Mode {
    /// Stopped, awaiting commands.
    Idle,
    /// Following a planned path.
    Navigating,
    /// Localization too uncertain.
    Lost,
    /// Attempting to relocalize.
    Recovering,
    /// Building a new map.
    Mapping,
}

/// An obstacle is nearer than the interrupt distance.
pub open spec fn too_close(obstacle: Option<u64>) -> bool {
    match obstacle {
        Some(d) => d < OBSTACLE_TOO_CLOSE,
        None => false,
    }
}

/// The transition table: the mode after one update cycle.
pub open spec fn next_mode(mode: Mode, confidence: u64, obstacle: Option<u64>) -> Mode {
    match mode {
        Mode::Idle => if confidence < LOST_BELOW {
            Mode::Lost
        } else {
            Mode::Idle
        },
        Mode::Navigating => if confidence < LOST_BELOW {
            Mode::Lost
        } else if too_close(obstacle) {
            Mode::Recovering
        } else {
            Mode::Navigating
        },
        Mode::Lost => if confidence > RECOVER_ABOVE {
            Mode::Recovering
        } else {
            Mode::Lost
        },
        Mode::Recovering => if confidence > RESUME_ABOVE {
            Mode::Navigating
        } else {
            Mode::Recovering
        },
        Mode::Mapping => if confidence < LOST_BELOW {
            Mode::Lost
        } else {
            Mode::Mapping
        },
    }
}

/// Navigation may start from this mode.
pub open spec fn may_start(mode: Mode) -> bool {
    mode == Mode::Idle || mode == Mode::Recovering
}

/// Pose confidence (thousandths) for a summed planar variance in mm²:
/// one over the standard deviation in metres, unbounded for zero variance.
pub open spec fn confidence_spec(variance: nat) -> u64 {
    if variance == 0 {
        u64::MAX
    } else {
        floor_sqrt(1_000_000_000_000nat / variance) as u64
    }
}

pub fn confidence_from_variance(variance: u128) -> (r: u64)
    ensures
        r == confidence_spec(variance as nat),
{
    if variance == 0 {
        u64::MAX
    } else {
        isqrt(1_000_000_000_000u128 / variance)
    }
}

/// Occupancy grid: row-major cells, `1` where occupied, cells `resolution` mm wide.
pub struct OccupancyGrid {
    pub width: usize,
    pub resolution: u64,
    pub data: Vec<i8>,
}

/// Largest cell size (mm) and cell count the grid scan handles.
pub const MAX_RESOLUTION: u64 = 1_000_000;

pub const MAX_CELLS: usize = 0xFFFF_FFFF;

impl OccupancyGrid {
    pub open spec fn wf(&self) -> bool {
        self.width >= 1 && self.resolution <= MAX_RESOLUTION && self.data@.len() <= MAX_CELLS
    }

    /// Squared distance (mm²) from the grid origin to cell `i`.
    pub open spec fn cell_dist_sq(&self, i: int) -> nat {
        let x = (i % (self.width as int)) * (self.resolution as int);
        let y = (i / (self.width as int)) * (self.resolution as int);
        (x * x + y * y) as nat
    }

    pub open spec fn occupied(&self, i: int) -> bool {
        0 <= i < self.data@.len() && self.data@[i] == 1
    }
}

proof fn lemma_floor_sqrt_monotone(a: nat, b: nat)
    requires
        a <= b,
    ensures
        floor_sqrt(a) <= floor_sqrt(b),
{
    lemma_floor_sqrt(a);
    lemma_floor_sqrt(b);
    let fa = floor_sqrt(a);
    let fb = floor_sqrt(b);
    if fa > fb {
        assert((fb + 1) * (fb + 1) <= fa * fa) by (nonlinear_arith)
            requires
                fb + 1 <= fa,
        ;
    }
}

/// Distance (mm, rounded down) from the grid origin to the nearest occupied
/// cell; `None` where no cell is occupied.
pub fn nearest_obstacle(grid: &OccupancyGrid) -> (r: Option<u64>)
    requires
        grid.wf(),
    ensures
        r.is_none() <==> (forall|i: int| !#[trigger] grid.occupied(i)),
        r.is_some() ==> (exists|i: int|
            #[trigger] grid.occupied(i) && r.unwrap() == floor_sqrt(grid.cell_dist_sq(i))),
        r.is_some() ==> (forall|i: int|
            #[trigger] grid.occupied(i) ==> r.unwrap() <= floor_sqrt(grid.cell_dist_sq(i))),
{
    let mut best: Option<u128> = None;
    let ghost mut best_i: int = 0;
    let mut i: usize = 0;
    while i < grid.data.len()
        invariant
            grid.wf(),
            i <= grid.data@.len(),
            best.is_none() <==> (forall|j: int| 0 <= j < i ==> !#[trigger] grid.occupied(j)),
            best.is_some() ==> 0 <= best_i < i && grid.occupied(best_i) && best.unwrap()
                == grid.cell_dist_sq(best_i),
            best.is_some() ==> (forall|j: int|
                0 <= j < i && #[trigger] grid.occupied(j) ==> best.unwrap() <= grid.cell_dist_sq(
                    j,
                )),
        decreases grid.data@.len() - i,
    {
        if grid.data[i] == 1 {
            let w = grid.width as u128;
            let cx: u128 = (i as u128) % w;
            let cy: u128 = (i as u128) / w;
            assert(cx <= i && cy <= i) by (nonlinear_arith)
                requires
                    w >= 1,
                    cx == (i as int) % (w as int),
                    cy == (i as int) / (w as int),
            ;
            let res = grid.resolution as u128;
            assert(cx * res <= 0x1_0000_0000 * 1_000_000) by (nonlinear_arith)
                requires
                    cx <= 0x1_0000_0000,
                    res <= 1_000_000,
            ;
            assert(cy * res <= 0x1_0000_0000 * 1_000_000) by (nonlinear_arith)
                requires
                    cy <= 0x1_0000_0000,
                    res <= 1_000_000,
            ;
            let x: u128 = cx * res;
            let y: u128 = cy * res;
            assert(x * x <= 0x1_0000_0000 * 1_000_000 * 0x1_0000_0000 * 1_000_000) by (nonlinear_arith)
                requires
                    x <= 0x1_0000_0000 * 1_000_000,
            ;
            assert(y * y <= 0x1_0000_0000 * 1_000_000 * 0x1_0000_0000 * 1_000_000) by (nonlinear_arith)
                requires
                    y <= 0x1_0000_0000 * 1_000_000,
            ;
            let d: u128 = x * x + y * y;
            assert(d == grid.cell_dist_sq(i as int));
            match best {
                Some(b) => {
                    if d < b {
                        best = Some(d);
                        proof {
                            best_i = i as int;
                        }
                    }
                },
                None => {
                    best = Some(d);
                    proof {
                        best_i = i as int;
                    }
                },
            }
        }
        assert(grid.occupied(i as int) == (grid.data@[i as int] == 1));
        assert(best.is_some() ==> grid.occupied(best_i));
        i += 1;
    }
    match best {
        Some(b) => {
            assert(b < 0x1_0000_0000_0000_0000_0000_0000_0000_0000);
            let r = isqrt(b);
            proof {
                assert forall|j: int| #[trigger] grid.occupied(j) implies r <= floor_sqrt(
                    grid.cell_dist_sq(j),
                ) by {
                    lemma_floor_sqrt_monotone(b as nat, grid.cell_dist_sq(j));
                }
            }
            Some(r)
        },
        None => None,
    }
}

/// The mode state of one robot.
pub struct CoreState {
    current_mode: Mode,
    last_pose_confidence: u64,
    last_obstacle_distance: Option<u64>,
}

impl CoreState {
    pub closed spec fn mode_spec(&self) -> Mode {
        self.current_mode
    }

    pub closed spec fn confidence_spec(&self) -> u64 {
        self.last_pose_confidence
    }

    pub closed spec fn obstacle_spec(&self) -> Option<u64> {
        self.last_obstacle_distance
    }

    /// Idle, fully confident, with no obstacle seen.
    pub fn new() -> (r: CoreState)
        ensures
            r.mode_spec() == Mode::Idle,
            r.confidence_spec() == 1000,
            r.obstacle_spec().is_none(),
    {
        CoreState {
            current_mode: Mode::Idle,
            last_pose_confidence: 1000,
            last_obstacle_distance: None,
        }
    }

    /// A state resumed in the given mode (for example `Mapping` when a mapping
    /// session begins), fully confident, with no obstacle seen.
    pub fn with_mode(mode: Mode) -> (r: CoreState)
        ensures
            r.mode_spec() == mode,
            r.confidence_spec() == 1000,
            r.obstacle_spec().is_none(),
    {
        CoreState { current_mode: mode, last_pose_confidence: 1000, last_obstacle_distance: None }
    }

    /// One cycle of the transition table.
    pub fn transition(&mut self, confidence: u64, obstacle_distance: Option<u64>)
        ensures
            final(self).mode_spec() == next_mode(old(self).mode_spec(), confidence, obstacle_distance),
            final(self).confidence_spec() == confidence,
            final(self).obstacle_spec() == obstacle_distance,
    {
        self.last_pose_confidence = confidence;
        self.last_obstacle_distance = obstacle_distance;
        let next = match self.current_mode {
            Mode::Idle => if confidence < LOST_BELOW {
                Mode::Lost
            } else {
                Mode::Idle
            },
            Mode::Navigating => {
                let close = match obstacle_distance {
                    Some(d) => d < OBSTACLE_TOO_CLOSE,
                    None => false,
                };
                if confidence < LOST_BELOW {
                    Mode::Lost
                } else if close {
                    Mode::Recovering
                } else {
                    Mode::Navigating
                }
            },
            Mode::Lost => if confidence > RECOVER_ABOVE {
                Mode::Recovering
            } else {
                Mode::Lost
            },
            Mode::Recovering => if confidence > RESUME_ABOVE {
                Mode::Navigating
            } else {
                Mode::Recovering
            },
            Mode::Mapping => if confidence < LOST_BELOW {
                Mode::Lost
            } else {
                Mode::Mapping
            },
        };
        self.current_mode = next;
    }

    /// One update cycle from a localization estimate and an occupancy grid:
    /// confidence from the planar variances, distance to the nearest occupied
    /// cell, then the transition table.
    pub fn update(&mut self, pose_confidence: &PoseConfidence, grid: &OccupancyGrid)
        requires
            grid.wf(),
        ensures
            final(self).confidence_spec() == confidence_spec(
                pose_confidence.var_x as nat + pose_confidence.var_y as nat,
            ),
            final(self).mode_spec() == next_mode(
                old(self).mode_spec(),
                final(self).confidence_spec(),
                final(self).obstacle_spec(),
            ),
            final(self).obstacle_spec().is_none() <==> (forall|i: int| !#[trigger] grid.occupied(i)),
            final(self).obstacle_spec().is_some() ==> (exists|i: int|
                #[trigger] grid.occupied(i) && final(self).obstacle_spec().unwrap() == floor_sqrt(
                    grid.cell_dist_sq(i),
                )),
            final(self).obstacle_spec().is_some() ==> (forall|i: int|
                #[trigger] grid.occupied(i) ==> final(self).obstacle_spec().unwrap() <= floor_sqrt(
                    grid.cell_dist_sq(i),
                )),
    {
        let confidence = confidence_from_variance(
            pose_confidence.var_x as u128 + pose_confidence.var_y as u128,
        );
        let obstacle = nearest_obstacle(grid);
        self.transition(confidence, obstacle);
    }

    /// Emergency override: back to `Idle` whatever the mode.
    pub fn emergency_stop(&mut self)
        ensures
            final(self).mode_spec() == Mode::Idle,
            final(self).confidence_spec() == old(self).confidence_spec(),
            final(self).obstacle_spec() == old(self).obstacle_spec(),
    {
        self.current_mode = Mode::Idle;
    }

    /// Accepts a navigation start from `Idle` or `Recovering` only.
    pub fn start_navigation(&mut self) -> (r: bool)
        ensures
            r == may_start(old(self).mode_spec()),
            final(self).mode_spec() == if r {
                Mode::Navigating
            } else {
                old(self).mode_spec()
            },
            final(self).confidence_spec() == old(self).confidence_spec(),
            final(self).obstacle_spec() == old(self).obstacle_spec(),
    {
        match self.current_mode {
            Mode::Idle | Mode::Recovering => {
                self.current_mode = Mode::Navigating;
                true
            },
            _ => false,
        }
    }

    pub fn get_mode(&self) -> (r: Mode)
        ensures
            r == self.mode_spec(),
    {
        self.current_mode
    }

    pub fn last_pose_confidence(&self) -> (r: u64)
        ensures
            r == self.confidence_spec(),
    {
        self.last_pose_confidence
    }

    pub fn last_obstacle_distance(&self) -> (r: Option<u64>)
        ensures
            r == self.obstacle_spec(),
    {
        self.last_obstacle_distance
    }
}

} // verus!
