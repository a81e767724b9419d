//! Rate-limited velocity smoothing with absolute per-axis bounds.
use vstd::prelude::*;
use crate::fixed::{clamp_spec, MILLI};
use crate::history::{copy_velocity, pushed, CommandHistory};

verus! {

/// Limits of one velocity axis: rates in mm/s per second, bounds in mm/s.
#[derive(Clone, Copy, Debug, PartialEq, Eq, Structural)]
pub struct AxisLimits {
    pub max_accel: u64,
    pub max_decel: u64,
    pub min_velocity: i64,
    pub max_velocity: i64,
}

impl AxisLimits {
    pub open spec fn wf(&self) -> bool {
        self.min_velocity <= self.max_velocity
    }
}

/// One axis of one smoothing step, `dt` in milliseconds.
pub open spec fn axis_step(current: int, target: int, lim: AxisLimits, dt: nat) -> int {
    let delta = target - current;
    let up = (lim.max_accel as int) * (dt as int) / (MILLI as int);
    let down = (lim.max_decel as int) * (dt as int) / (MILLI as int);
    let applied = if delta > 0 {
        if delta < up {
            delta
        } else {
            up
        }
    } else {
        if delta > -down {
            delta
        } else {
            -down
        }
    };
    clamp_spec(current + applied, lim.min_velocity as int, lim.max_velocity as int)
}

/// Every axis of one smoothing step.
pub open spec fn stepped(current: Seq<i64>, target: Seq<i64>, axes: Seq<AxisLimits>, dt: nat) -> Seq<
    i64,
> {
    Seq::new(
        axes.len(),
        |i: int| axis_step(current[i] as int, target[i] as int, axes[i], dt) as i64,
    )
}

/// Elapsed time, zero where the clock went backwards.
pub open spec fn elapsed(last: u64, now: u64) -> nat {
    if now >= last {
        (now - last) as nat
    } else {
        0
    }
}

/// `v` lies within the bounds of every axis.
pub open spec fn within_bounds(v: Seq<i64>, axes: Seq<AxisLimits>) -> bool {
    v.len() == axes.len() && forall|i: int|
        0 <= i < axes.len() ==> axes[i].min_velocity <= #[trigger] v[i] <= axes[i].max_velocity
}

/// Limits of every axis, the override command and the history size.
pub struct GovernorConfig {
    pub axes: Vec<AxisLimits>,
    pub emergency: Vec<i64>,
    pub history_capacity: usize,
}

impl GovernorConfig {
    pub open spec fn wf(&self) -> bool {
        &&& self.axes@.len() >= 1
        &&& self.emergency@.len() == self.axes@.len()
        &&& self.history_capacity >= 1
        &&& forall|i: int| 0 <= i < self.axes@.len() ==> (#[trigger] self.axes@[i]).wf()
    }
}

/// One axis of one smoothing step.
fn axis_step_exec(current: i64, target: i64, lim: &AxisLimits, dt: u64) -> (r: i64)
    requires
        lim.wf(),
    ensures
        r == axis_step(current as int, target as int, *lim, dt as nat),
        lim.min_velocity <= r <= lim.max_velocity,
{
    let delta: i128 = target as i128 - current as i128;
    assert((lim.max_accel as nat) * (dt as nat) <= u64::MAX as nat * u64::MAX as nat)
        by (nonlinear_arith);
    assert((lim.max_decel as nat) * (dt as nat) <= u64::MAX as nat * u64::MAX as nat)
        by (nonlinear_arith);
    let up: u128 = (lim.max_accel as u128) * (dt as u128) / (MILLI as u128);
    let down: u128 = (lim.max_decel as u128) * (dt as u128) / (MILLI as u128);
    let applied: i128 = if delta > 0 {
        if (delta as u128) < up {
            delta
        } else {
            up as i128
        }
    } else {
        if (-delta) < (down as i128) {
            delta
        } else {
            -(down as i128)
        }
    };
    let next: i128 = current as i128 + applied;
    if next < lim.min_velocity as i128 {
        lim.min_velocity
    } else if next > lim.max_velocity as i128 {
        lim.max_velocity
    } else {
        next as i64
    }
}

/// Smooths commanded velocities towards targets and keeps a bounded history.
pub struct MotionGovernor {
    config: GovernorConfig,
    current: Vec<i64>,
    last_update: u64,
    history: CommandHistory,
}

impl MotionGovernor {
    pub closed spec fn config_spec(&self) -> GovernorConfig {
        self.config
    }

    pub closed spec fn current_spec(&self) -> Seq<i64> {
        self.current@
    }

    pub closed spec fn last_update_spec(&self) -> u64 {
        self.last_update
    }

    pub closed spec fn history_spec(&self) -> Seq<(Seq<i64>, u64)> {
        self.history@
    }

    /// The history holds as many slots as the configuration asks.
    pub closed spec fn history_sized(&self) -> bool {
        self.history.capacity_spec() == self.config.history_capacity
    }

    /// Valid configuration, a history within its capacity, and a current
    /// velocity within every axis's bounds.
    pub open spec fn wf(&self) -> bool {
        &&& self.config_spec().wf()
        &&& self.history_sized()
        &&& self.history_spec().len() <= self.config_spec().history_capacity
        &&& within_bounds(self.current_spec(), self.config_spec().axes@)
    }

    /// A governor at rest (each axis at the bound nearest zero), clock at `now`.
    pub fn new(config: GovernorConfig, now: u64) -> (r: MotionGovernor)
        requires
            config.wf(),
        ensures
            r.wf(),
            r.config_spec() == config,
            r.last_update_spec() == now,
            r.history_spec().len() == 0,
            r.current_spec() == Seq::new(
                config.axes@.len(),
                |i: int|
                    clamp_spec(
                        0,
                        config.axes@[i].min_velocity as int,
                        config.axes@[i].max_velocity as int,
                    ) as i64,
            ),
    {
        let mut current: Vec<i64> = Vec::with_capacity(config.axes.len());
        let mut i: usize = 0;
        while i < config.axes.len()
            invariant
                config.wf(),
                i <= config.axes@.len(),
                current@.len() == i,
                forall|j: int|
                    0 <= j < i ==> #[trigger] current@[j] == clamp_spec(
                        0,
                        config.axes@[j].min_velocity as int,
                        config.axes@[j].max_velocity as int,
                    ) as i64,
            decreases config.axes@.len() - i,
        {
            let lim = config.axes[i];
            assert(config.axes@[i as int].wf());
            let v: i64 = if 0 < lim.min_velocity {
                lim.min_velocity
            } else if 0 > lim.max_velocity {
                lim.max_velocity
            } else {
                0
            };
            current.push(v);
            i += 1;
        }
        let history = CommandHistory::new(config.history_capacity);
        let r = MotionGovernor { config, current, last_update: now, history };
        assert(r.current_spec() =~= Seq::new(
            r.config.axes@.len(),
            |i: int|
                clamp_spec(
                    0,
                    r.config.axes@[i].min_velocity as int,
                    r.config.axes@[i].max_velocity as int,
                ) as i64,
        ));
        assert forall|j: int| 0 <= j < r.config.axes@.len() implies r.config.axes@[j].min_velocity
            <= #[trigger] r.current@[j] <= r.config.axes@[j].max_velocity by {
            assert(r.config.axes@[j].wf());
        }
        r
    }

    /// Moves each axis towards `target` by at most the rate limit for the time
    /// elapsed since the previous update, clamps it to the axis bounds, records
    /// the result and returns it.
    pub fn step(&mut self, target: &Vec<i64>, now: u64) -> (r: Vec<i64>)
        requires
            old(self).wf(),
            target@.len() == old(self).config_spec().axes@.len(),
        ensures
            final(self).wf(),
            final(self).config_spec() == old(self).config_spec(),
            r@ == stepped(
                old(self).current_spec(),
                target@,
                old(self).config_spec().axes@,
                elapsed(old(self).last_update_spec(), now),
            ),
            within_bounds(r@, old(self).config_spec().axes@),
            final(self).current_spec() == r@,
            final(self).last_update_spec() == now,
            final(self).history_spec() == pushed(
                old(self).history_spec(),
                old(self).config_spec().history_capacity as nat,
                (r@, now),
            ),
    {
        let dt: u64 = if now >= self.last_update {
            now - self.last_update
        } else {
            0
        };
        let n = self.config.axes.len();
        let mut next: Vec<i64> = Vec::with_capacity(n);
        let mut i: usize = 0;
        while i < n
            invariant
                self.wf(),
                n == self.config.axes@.len(),
                target@.len() == n,
                dt == elapsed(self.last_update, now),
                i <= n,
                next@.len() == i,
                forall|j: int|
                    0 <= j < i ==> #[trigger] next@[j] == axis_step(
                        self.current@[j] as int,
                        target@[j] as int,
                        self.config.axes@[j],
                        dt as nat,
                    ) as i64,
                forall|j: int|
                    0 <= j < i ==> self.config.axes@[j].min_velocity <= #[trigger] next@[j]
                        <= self.config.axes@[j].max_velocity,
            decreases n - i,
        {
            assert(self.config.axes@[i as int].wf());
            let v = axis_step_exec(self.current[i], target[i], &self.config.axes[i], dt);
            next.push(v);
            i += 1;
        }
        assert(next@ =~= stepped(self.current@, target@, self.config.axes@, dt as nat));
        self.current = copy_velocity(&next);
        self.last_update = now;
        self.history.push(&next, now);
        next
    }

    /// The fixed override command, recorded in the history without smoothing.
    pub fn emergency_command(&mut self, now: u64) -> (r: Vec<i64>)
        requires
            old(self).wf(),
        ensures
            final(self).wf(),
            final(self).config_spec() == old(self).config_spec(),
            r@ == old(self).config_spec().emergency@,
            final(self).current_spec() == old(self).current_spec(),
            final(self).last_update_spec() == old(self).last_update_spec(),
            final(self).history_spec() == pushed(
                old(self).history_spec(),
                old(self).config_spec().history_capacity as nat,
                (r@, now),
            ),
    {
        let cmd = copy_velocity(&self.config.emergency);
        self.history.push(&cmd, now);
        cmd
    }

    /// The velocity most recently produced by `step`.
    pub fn current_velocity(&self) -> (r: &Vec<i64>)
        ensures
            r@ == self.current_spec(),
    {
        &self.current
    }

    /// The configuration the governor was built with.
    pub fn config(&self) -> (r: &GovernorConfig)
        ensures
            *r == self.config_spec(),
    {
        &self.config
    }

    /// Read-only view of the command history.
    pub fn history(&self) -> (r: &CommandHistory)
        ensures
            r@ == self.history_spec(),
            self.wf() ==> r.wf() && r.capacity_spec() == self.config_spec().history_capacity,
    {
        &self.history
    }
}


/// Whatever the current velocity, target and elapsed time, one smoothing step
/// lands within every axis's bounds; so does every step of any sequence.
pub proof fn lemma_step_within_bounds(
    current: Seq<i64>,
    target: Seq<i64>,
    axes: Seq<AxisLimits>,
    dt: nat,
)
    requires
        forall|i: int| 0 <= i < axes.len() ==> (#[trigger] axes[i]).wf(),
    ensures
        within_bounds(stepped(current, target, axes, dt), axes),
{
    let s = stepped(current, target, axes, dt);
    assert forall|i: int| 0 <= i < axes.len() implies axes[i].min_velocity <= #[trigger] s[i]
        <= axes[i].max_velocity by {
        assert(axes[i].wf());
        let v = axis_step(current[i] as int, target[i] as int, axes[i], dt);
        assert(axes[i].min_velocity <= v <= axes[i].max_velocity);
    }
}

} // verus!
