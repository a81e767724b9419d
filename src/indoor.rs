//! Indoor variant: floor-dependent energy, social impact and privacy near people,
//! occupied private zones as restricted goals, and the socially aware speed.
use vstd::prelude::*;
use crate::cost::{CostModel, SegmentCost};
use crate::fixed::MILLI;
use crate::geometry::{distance_to_segment, point_wf, segment_distance, sq, Pose};

verus! {

/// Energy per segment before the floor surcharge, in thousandths.
pub const INDOOR_BASE_ENERGY: u64 = 100;

/// People nearer than this (mm) to a segment feel its social impact.
pub const SOCIAL_RADIUS: u64 = 2000;

/// People in private activity nearer than this (mm) have their privacy violated.
pub const PRIVACY_RADIUS: u64 = 1500;

/// Private zones above this privacy level (thousandths) close when occupied.
pub const PRIVATE_ZONE_LEVEL: u64 = 700;

/// Weight (thousandths) of a segment's privacy violation in the path's privacy
/// respect, `Path::risk_respect(PRIVACY_WEIGHT)` (the segment risk of this
/// variant is its privacy violation).
pub const PRIVACY_WEIGHT: u64 = 200;

/// Largest zone radius (mm) handled.
pub const MAX_ZONE_RADIUS: u64 = 0x8000_0000;

#[derive(Clone, Copy, Debug, PartialEq, Eq, Structural)]
pub enum FloorType {
    Carpet,
    Tile,
    Wood,
    Rug,
    /// Any other floor: no surcharge.
    Other,
}

#[derive(Clone, Copy, Debug, PartialEq, Eq, Structural)]
pub enum SocialZoneType {
    Conversation,
    Work,
    Relaxation,
    Private,
}

/// How the robot should treat people it meets.
#[derive(Clone, Copy, Debug, PartialEq, Eq, Structural)]
pub enum HumanInteractionMode {
    /// Avoid humans.
    Passive,
    /// Help humans.
    Assistive,
    /// Engage with humans.
    Interactive,
    /// Override social rules.
    Emergency,
}

/// How boldly the robot approaches people; scales its speed.
#[derive(Clone, Copy, Debug, PartialEq, Eq, Structural)]
pub enum ApproachBehavior {
    Avoidant,
    Neutral,
    Friendly,
    Assertive,
}

/// A social zone of a room: centre (mm), radius (mm), privacy level (thousandths).
#[derive(Clone, Copy, Debug, PartialEq, Eq, Structural)]
pub struct SocialZone {
    pub x: i64,
    pub y: i64,
    pub radius: u64,
    pub zone_type: SocialZoneType,
    pub privacy_level: u64,
}

/// A room spanning `[0, width] x [0, depth]` (mm).
pub struct RoomMap {
    pub name: String,
    pub width: i64,
    pub depth: i64,
    pub height: i64,
    pub social_zones: Vec<SocialZone>,
}

/// A detected person: position (mm), whether the activity is private,
/// attention (thousandths) and group size.
#[derive(Clone, Copy, Debug, PartialEq, Eq, Structural)]
pub struct Human {
    pub x: i64,
    pub y: i64,
    pub private_activity: bool,
    pub attention: u64,
    pub group_size: u8,
}

pub struct HumanPresenceAnalysis {
    pub humans: Vec<Human>,
    pub overall_activity_level: u64,
}

#[derive(Clone, Copy, Debug, PartialEq, Eq, Structural)]
pub struct IndoorEnvironmentAnalysis {
    pub floor_type: FloorType,
    pub obstacle_density: u64,
    pub lighting_level: u64,
}

/// Energy surcharge of a floor, in thousandths.
pub open spec fn floor_penalty(f: FloorType) -> u64 {
    match f {
        FloorType::Carpet => 200,
        FloorType::Tile => 0,
        FloorType::Wood => 100,
        FloorType::Rug => 300,
        FloorType::Other => 0,
    }
}

pub open spec fn min_milli(v: nat) -> nat {
    if v > MILLI {
        MILLI as nat
    } else {
        v
    }
}

/// Social impact of a segment on one person.
pub open spec fn social_term(h: Human, a: Pose, b: Pose) -> nat {
    let d = segment_distance(h.x as int, h.y as int, a, b);
    if d < SOCIAL_RADIUS {
        ((SOCIAL_RADIUS - d) / 2) as nat
    } else {
        0
    }
}

pub open spec fn social_sum(hs: Seq<Human>, a: Pose, b: Pose) -> nat
    decreases hs.len(),
{
    if hs.len() == 0 {
        0
    } else {
        social_sum(hs.drop_last(), a, b) + social_term(hs.last(), a, b)
    }
}

/// Privacy violation of a segment on one person.
pub open spec fn privacy_term(h: Human, a: Pose, b: Pose) -> nat {
    let d = segment_distance(h.x as int, h.y as int, a, b);
    if h.private_activity && d < PRIVACY_RADIUS {
        ((PRIVACY_RADIUS - d) * 700 / 1000) as nat
    } else {
        0
    }
}

pub open spec fn privacy_sum(hs: Seq<Human>, a: Pose, b: Pose) -> nat
    decreases hs.len(),
{
    if hs.len() == 0 {
        0
    } else {
        privacy_sum(hs.drop_last(), a, b) + privacy_term(hs.last(), a, b)
    }
}

/// A person stands strictly inside a zone.
pub open spec fn inside_zone(h: Human, z: SocialZone) -> bool {
    sq(h.x - z.x) + sq(h.y - z.y) < sq(z.radius as int)
}

/// A private zone of high privacy with someone inside.
pub open spec fn zone_closed(z: SocialZone, hs: Seq<Human>) -> bool {
    z.zone_type == SocialZoneType::Private && z.privacy_level > PRIVATE_ZONE_LEVEL && exists|i: int|
        0 <= i < hs.len() && #[trigger] inside_zone(hs[i], z)
}

pub open spec fn in_room(room: RoomMap, g: Pose) -> bool {
    0 <= g.x <= room.width && 0 <= g.y <= room.depth
}

pub open spec fn room_closed(room: RoomMap, hs: Seq<Human>) -> bool {
    exists|k: int| 0 <= k < room.social_zones@.len() && #[trigger] zone_closed(room.social_zones@[k], hs)
}

/// Cost model of the indoor variant over the current room maps and analyses.
pub struct IndoorCostModel {
    pub rooms: Vec<RoomMap>,
    pub environment: IndoorEnvironmentAnalysis,
    pub presence: HumanPresenceAnalysis,
}

fn zone_closed_exec(z: &SocialZone, hs: &Vec<Human>) -> (r: bool)
    requires
        point_wf(z.x, z.y),
        z.radius <= MAX_ZONE_RADIUS,
        forall|i: int| 0 <= i < hs@.len() ==> point_wf((#[trigger] hs@[i]).x, hs@[i].y),
    ensures
        r == zone_closed(*z, hs@),
{
    let private = match z.zone_type {
        SocialZoneType::Private => true,
        _ => false,
    };
    if !private || z.privacy_level <= PRIVATE_ZONE_LEVEL {
        return false;
    }
    assert((z.radius as int) * (z.radius as int) <= 0x8000_0000 * 0x8000_0000) by (nonlinear_arith)
        requires
            z.radius <= 0x8000_0000,
    ;
    let r2: i128 = z.radius as i128 * z.radius as i128;
    let mut i: usize = 0;
    while i < hs.len()
        invariant
            point_wf(z.x, z.y),
            z.zone_type == SocialZoneType::Private,
            z.privacy_level > PRIVATE_ZONE_LEVEL,
            forall|j: int| 0 <= j < hs@.len() ==> point_wf((#[trigger] hs@[j]).x, hs@[j].y),
            r2 == sq(z.radius as int),
            i <= hs@.len(),
            forall|j: int| 0 <= j < i ==> !#[trigger] inside_zone(hs@[j], *z),
        decreases hs@.len() - i,
    {
        let h = hs[i];
        assert(point_wf(h.x, h.y));
        let ex: i128 = h.x as i128 - z.x as i128;
        let ey: i128 = h.y as i128 - z.y as i128;
        assert(ex * ex <= 0x8000_0000 * 0x8000_0000) by (nonlinear_arith)
            requires
                -0x8000_0000 <= ex <= 0x8000_0000,
        ;
        assert(ey * ey <= 0x8000_0000 * 0x8000_0000) by (nonlinear_arith)
            requires
                -0x8000_0000 <= ey <= 0x8000_0000,
        ;
        assert(ex * ex >= 0 && ey * ey >= 0) by (nonlinear_arith);
        if ex * ex + ey * ey < r2 {
            assert(inside_zone(hs@[i as int], *z));
            return true;
        }
        i += 1;
    }
    false
}

impl IndoorCostModel {
    fn room_closed_exec(&self, room: &RoomMap) -> (r: bool)
        requires
            self.wf(),
            forall|k: int|
                0 <= k < room.social_zones@.len() ==> point_wf(
                    (#[trigger] room.social_zones@[k]).x,
                    room.social_zones@[k].y,
                ) && room.social_zones@[k].radius <= MAX_ZONE_RADIUS,
        ensures
            r == room_closed(*room, self.presence.humans@),
    {
        let mut k: usize = 0;
        while k < room.social_zones.len()
            invariant
                self.wf(),
                forall|k: int|
                    0 <= k < room.social_zones@.len() ==> point_wf(
                        (#[trigger] room.social_zones@[k]).x,
                        room.social_zones@[k].y,
                    ) && room.social_zones@[k].radius <= MAX_ZONE_RADIUS,
                k <= room.social_zones@.len(),
                forall|j: int|
                    0 <= j < k ==> !#[trigger] zone_closed(
                        room.social_zones@[j],
                        self.presence.humans@,
                    ),
            decreases room.social_zones@.len() - k,
        {
            assert(point_wf(room.social_zones@[k as int].x, room.social_zones@[k as int].y));
            if zone_closed_exec(&room.social_zones[k], &self.presence.humans) {
                return true;
            }
            k += 1;
        }
        false
    }

    /// Social impact and privacy violation of a segment, each capped at one whole.
    fn human_costs(&self, a: &Pose, b: &Pose) -> (r: (u64, u64))
        requires
            self.wf(),
            a.wf(),
            b.wf(),
        ensures
            r.0 == min_milli(social_sum(self.presence.humans@, *a, *b)),
            r.1 == min_milli(privacy_sum(self.presence.humans@, *a, *b)),
    {
        let hs = &self.presence.humans;
        let mut social: u64 = 0;
        let mut privacy: u64 = 0;
        let mut i: usize = 0;
        while i < hs.len()
            invariant
                self.wf(),
                a.wf(),
                b.wf(),
                hs == &self.presence.humans,
                i <= hs@.len(),
                social == min_milli(social_sum(hs@.take(i as int), *a, *b)),
                privacy == min_milli(privacy_sum(hs@.take(i as int), *a, *b)),
            decreases hs@.len() - i,
        {
            let h = hs[i];
            assert(point_wf(h.x, h.y));
            assert(hs@.take(i + 1).drop_last() =~= hs@.take(i as int));
            let d = distance_to_segment(h.x, h.y, a, b);
            let st: u64 = if d < SOCIAL_RADIUS {
                (SOCIAL_RADIUS - d) / 2
            } else {
                0
            };
            let pt: u64 = if h.private_activity && d < PRIVACY_RADIUS {
                (PRIVACY_RADIUS - d) * 700 / 1000
            } else {
                0
            };
            social = if social + st > MILLI {
                MILLI
            } else {
                social + st
            };
            privacy = if privacy + pt > MILLI {
                MILLI
            } else {
                privacy + pt
            };
            i += 1;
        }
        assert(hs@.take(i as int) =~= hs@);
        (social, privacy)
    }
}

impl CostModel for IndoorCostModel {
    open spec fn wf(&self) -> bool {
        &&& forall|i: int|
            0 <= i < self.presence.humans@.len() ==> point_wf(
                (#[trigger] self.presence.humans@[i]).x,
                self.presence.humans@[i].y,
            )
        &&& forall|r: int, k: int|
            0 <= r < self.rooms@.len() && 0 <= k < self.rooms@[r].social_zones@.len() ==> point_wf(
                (#[trigger] self.rooms@[r].social_zones@[k]).x,
                self.rooms@[r].social_zones@[k].y,
            ) && self.rooms@[r].social_zones@[k].radius <= MAX_ZONE_RADIUS
    }

    open spec fn restricted_spec(&self, goal: Pose) -> bool {
        exists|r: int|
            0 <= r < self.rooms@.len() && in_room(#[trigger] self.rooms@[r], goal) && room_closed(
                self.rooms@[r],
                self.presence.humans@,
            )
    }

    open spec fn segments_spec(&self, start: Pose, goal: Pose) -> Seq<(Pose, Pose)> {
        seq![(start, goal)]
    }

    open spec fn cost_spec(&self, index: int, from: Pose, to: Pose) -> SegmentCost {
        SegmentCost {
            energy: (INDOOR_BASE_ENERGY + floor_penalty(self.environment.floor_type)) as u64,
            risk: min_milli(privacy_sum(self.presence.humans@, from, to)) as u64,
            penalty: min_milli(social_sum(self.presence.humans@, from, to)) as u64,
        }
    }

    fn is_restricted(&self, goal: &Pose) -> (r: bool) {
        let mut r: usize = 0;
        while r < self.rooms.len()
            invariant
                self.wf(),
                r <= self.rooms@.len(),
                forall|j: int|
                    0 <= j < r ==> !(in_room(#[trigger] self.rooms@[j], *goal) && room_closed(
                        self.rooms@[j],
                        self.presence.humans@,
                    )),
            decreases self.rooms@.len() - r,
        {
            let room = &self.rooms[r];
            if 0 <= goal.x && goal.x <= room.width && 0 <= goal.y && goal.y <= room.depth {
                assert forall|k: int| 0 <= k < room.social_zones@.len() implies point_wf(
                    (#[trigger] room.social_zones@[k]).x,
                    room.social_zones@[k].y,
                ) && room.social_zones@[k].radius <= MAX_ZONE_RADIUS by {
                    assert(self.rooms@[r as int].social_zones@[k] == room.social_zones@[k]);
                }
                if self.room_closed_exec(room) {
                    return true;
                }
            }
            r += 1;
        }
        false
    }

    fn segments(&self, start: &Pose, goal: &Pose) -> (r: Vec<(Pose, Pose)>) {
        let r = vec![(*start, *goal)];
        assert(r@ =~= seq![(*start, *goal)]);
        r
    }

    fn segment_cost(&self, index: usize, from: &Pose, to: &Pose) -> (c: SegmentCost) {
        let (social, privacy) = self.human_costs(from, to);
        let surcharge: u64 = match self.environment.floor_type {
            FloorType::Carpet => 200,
            FloorType::Tile => 0,
            FloorType::Wood => 100,
            FloorType::Rug => 300,
            FloorType::Other => 0,
        };
        SegmentCost { energy: INDOOR_BASE_ENERGY + surcharge, risk: privacy, penalty: social }
    }
}


/// Speed scale (thousandths) for the energy left indoors.
pub open spec fn indoor_energy_factor(energy_level: u64) -> u64 {
    if energy_level > 700 {
        1000
    } else if energy_level > 400 {
        800
    } else {
        500
    }
}

/// Speed scale (thousandths) of an approach behaviour.
pub open spec fn behavior_factor(b: ApproachBehavior) -> u64 {
    match b {
        ApproachBehavior::Avoidant => 700,
        ApproachBehavior::Neutral => 1000,
        ApproachBehavior::Friendly => 1200,
        ApproachBehavior::Assertive => 1500,
    }
}

/// Indoor cruising speed (mm/s): half a metre per second reduced by the social
/// impact and the privacy violation of the segment, scaled by the energy
/// factor, the approach behaviour and the social-awareness factor
/// (thousandths), rounded down at each step.
pub open spec fn indoor_speed(
    cost: SegmentCost,
    energy_level: u64,
    behavior: ApproachBehavior,
    awareness: u64,
) -> nat {
    let base = 500 * ((MILLI - cost.penalty) as nat) / 1000 * ((MILLI - cost.risk) as nat) / 1000;
    base * (indoor_energy_factor(energy_level) as nat) / 1000 * (behavior_factor(behavior) as nat)
        / 1000 * (awareness as nat) / 1000
}

/// The socially aware cruising speed for a costed indoor segment.
pub fn indoor_target_speed(
    cost: &SegmentCost,
    energy_level: u64,
    behavior: ApproachBehavior,
    awareness: u64,
) -> (r: u64)
    requires
        cost.wf(),
        awareness <= 2 * MILLI,
    ensures
        r == indoor_speed(*cost, energy_level, behavior, awareness),
        r <= 1500,
{
    let a: u64 = 500 * (MILLI - cost.penalty) / 1000;
    assert(a <= 500) by (nonlinear_arith)
        requires
            a == 500 * (MILLI - cost.penalty) / 1000,
            cost.penalty <= 1000,
    ;
    assert(a * (MILLI - cost.risk) <= 500 * 1000) by (nonlinear_arith)
        requires
            a <= 500,
            cost.risk <= 1000,
    ;
    let base: u64 = a * (MILLI - cost.risk) / 1000;
    assert(base <= a) by (nonlinear_arith)
        requires
            base == a * (MILLI - cost.risk) / 1000,
            cost.risk <= 1000,
    ;
    let ef: u64 = if energy_level > 700 {
        1000
    } else if energy_level > 400 {
        800
    } else {
        500
    };
    let bf: u64 = match behavior {
        ApproachBehavior::Avoidant => 700,
        ApproachBehavior::Neutral => 1000,
        ApproachBehavior::Friendly => 1200,
        ApproachBehavior::Assertive => 1500,
    };
    assert(base * ef <= 500 * 1000) by (nonlinear_arith)
        requires
            base <= 500,
            ef <= 1000,
    ;
    let s1: u64 = base * ef / 1000;
    assert(s1 <= base) by (nonlinear_arith)
        requires
            s1 == base * ef / 1000,
            ef <= 1000,
    ;
    assert(s1 * bf <= 500 * 1500) by (nonlinear_arith)
        requires
            s1 <= 500,
            bf <= 1500,
    ;
    let s2: u64 = s1 * bf / 1000;
    assert(s2 <= 750) by (nonlinear_arith)
        requires
            s2 == s1 * bf / 1000,
            bf <= 1500,
            s1 <= 500,
    ;
    assert(s2 * awareness <= 750 * 2000) by (nonlinear_arith)
        requires
            s2 <= 750,
            awareness <= 2000,
    ;
    let s3: u64 = s2 * awareness / 1000;
    assert(s3 <= 1500) by (nonlinear_arith)
        requires
            s3 == s2 * awareness / 1000,
            awareness <= 2000,
            s2 <= 750,
    ;
    s3
}

/// Distance (mm) beyond which a person adds no proximity.
pub const PROXIMITY_RANGE: u64 = 5000;

/// Closeness of one person to the robot (thousandths): one at the robot, zero
/// at or beyond the proximity range.
pub open spec fn closeness(h: Human) -> nat {
    let d = crate::fixed::floor_sqrt((sq(h.x as int) + sq(h.y as int)) as nat);
    if d >= PROXIMITY_RANGE {
        0
    } else {
        ((PROXIMITY_RANGE - d) * 1000 / (PROXIMITY_RANGE as int)) as nat
    }
}

pub open spec fn closeness_sum(hs: Seq<Human>) -> nat
    decreases hs.len(),
{
    if hs.len() == 0 {
        0
    } else {
        closeness_sum(hs.drop_last()) + closeness(hs.last())
    }
}

/// Mean closeness of the people seen (thousandths); zero when nobody is seen.
pub open spec fn proximity(hs: Seq<Human>) -> nat {
    if hs.len() == 0 {
        0
    } else {
        closeness_sum(hs) / hs.len()
    }
}

/// Mean closeness of the detected people, positions relative to the robot.
pub fn human_proximity(analysis: &HumanPresenceAnalysis) -> (r: u64)
    requires
        forall|i: int|
            0 <= i < analysis.humans@.len() ==> point_wf(
                (#[trigger] analysis.humans@[i]).x,
                analysis.humans@[i].y,
            ),
    ensures
        r == proximity(analysis.humans@),
        r <= MILLI,
{
    let hs = &analysis.humans;
    let mut sum: u128 = 0;
    let mut i: usize = 0;
    while i < hs.len()
        invariant
            forall|j: int| 0 <= j < hs@.len() ==> point_wf((#[trigger] hs@[j]).x, hs@[j].y),
            i <= hs@.len(),
            sum == closeness_sum(hs@.take(i as int)),
            sum <= 1000 * i,
        decreases hs@.len() - i,
    {
        let h = hs[i];
        assert(point_wf(h.x, h.y));
        assert(hs@.take(i + 1).drop_last() =~= hs@.take(i as int));
        let x: i128 = h.x as i128;
        let y: i128 = h.y as i128;
        assert(x * x <= 0x4000_0000 * 0x4000_0000 && 0 <= x * x) by (nonlinear_arith)
            requires
                -0x4000_0000 <= x <= 0x4000_0000,
        ;
        assert(y * y <= 0x4000_0000 * 0x4000_0000 && 0 <= y * y) by (nonlinear_arith)
            requires
                -0x4000_0000 <= y <= 0x4000_0000,
        ;
        let d = crate::fixed::isqrt((x * x + y * y) as u128);
        let c: u128 = if d >= PROXIMITY_RANGE {
            0
        } else {
            ((PROXIMITY_RANGE - d) as u128) * 1000 / (PROXIMITY_RANGE as u128)
        };
        assert(c <= 1000) by (nonlinear_arith)
            requires
                d < 5000 ==> c == (5000 - d) * 1000 / 5000,
                d >= 5000 ==> c == 0,
        ;
        sum = sum + c;
        i += 1;
    }
    assert(hs@.take(i as int) =~= hs@);
    if hs.len() == 0 {
        0
    } else {
        let n = hs.len() as u128;
        assert(sum / n <= 1000) by (nonlinear_arith)
            requires
                sum <= 1000 * n,
                n >= 1,
        ;
        (sum / n) as u64
    }
}


/// What the robot says to people around it.
#[derive(Clone, Copy, Debug, PartialEq, Eq, Structural)]
pub enum VocalResponse {
    /// Asks busy people to make way.
    PassThrough,
    /// Greets someone close by.
    Greeting,
}

impl VocalResponse {
    pub fn text(&self) -> &'static str {
        match self {
            VocalResponse::PassThrough => "Excuse me, I need to pass through",
            VocalResponse::Greeting => "Hello, I'm just passing by",
        }
    }
}

/// Asks to pass when activity is high (above seven tenths), else greets when
/// someone is close (proximity above six tenths), else stays quiet.
pub fn vocal_response(overall_activity_level: u64, human_proximity: u64) -> (r: Option<VocalResponse>)
    ensures
        r == if overall_activity_level > 700 {
            Some(VocalResponse::PassThrough)
        } else if human_proximity > 600 {
            Some(VocalResponse::Greeting)
        } else {
            None::<VocalResponse>
        },
{
    if overall_activity_level > 700 {
        Some(VocalResponse::PassThrough)
    } else if human_proximity > 600 {
        Some(VocalResponse::Greeting)
    } else {
        None
    }
}

} // verus!
