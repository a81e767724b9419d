//! Hazard evaluation and the emergency latch.
use vstd::prelude::*;

verus! {

/// Which side of its limit a reading is unsafe on.
#[derive(Clone, Copy, Debug, PartialEq, Eq, Structural)]
pub enum LimitKind {
    /// Unsafe above the limit (tilt, vibration, turbulence, human proximity).
    Upper,
    /// Unsafe below the limit (obstacle distance, battery health).
    Lower,
}

/// The threshold of one hazard dimension.
#[derive(Clone, Copy, Debug, PartialEq, Eq, Structural)]
pub struct HazardThreshold {
    pub limit: i64,
    pub kind: LimitKind,
}

/// Armed until a hazard trips it; only an explicit reset re-arms it.
#[derive(Clone, Copy, Debug, PartialEq, Eq, Structural)]
pub enum SafetyLatch {
    Armed,
    Tripped,
}

/// One reading is past its threshold.
pub open spec fn breaches(reading: i64, t: HazardThreshold) -> bool {
    match t.kind {
        LimitKind::Upper => reading > t.limit,
        LimitKind::Lower => reading < t.limit,
    }
}

/// Some dimension of `hazards` is past its threshold.
pub open spec fn any_breach(hazards: Seq<i64>, table: Seq<HazardThreshold>) -> bool {
    exists|i: int| 0 <= i < table.len() && #[trigger] breaches(hazards[i], table[i])
}

/// The latch after one evaluation.
pub open spec fn latch_after(latch: SafetyLatch, hazards: Seq<i64>, table: Seq<HazardThreshold>) -> SafetyLatch {
    if any_breach(hazards, table) {
        SafetyLatch::Tripped
    } else {
        latch
    }
}

/// The latch after evaluating each hazard vector in turn, with no reset between.
pub open spec fn latch_after_all(
    latch: SafetyLatch,
    readings: Seq<Seq<i64>>,
    table: Seq<HazardThreshold>,
) -> SafetyLatch
    decreases readings.len(),
{
    if readings.len() == 0 {
        latch
    } else {
        latch_after(latch_after_all(latch, readings.drop_last(), table), readings.last(), table)
    }
}

/// Once tripped, the latch stays tripped through any number of evaluations
/// until it is reset.
pub proof fn lemma_latch_stays_tripped(readings: Seq<Seq<i64>>, table: Seq<HazardThreshold>)
    ensures
        latch_after_all(SafetyLatch::Tripped, readings, table) == SafetyLatch::Tripped,
    decreases readings.len(),
{
    if readings.len() > 0 {
        lemma_latch_stays_tripped(readings.drop_last(), table);
    }
}

/// A breach in any one of a run of evaluations leaves the latch tripped at the
/// end of the run, whatever the latch was before it and whatever came after.
pub proof fn lemma_breach_latches(
    latch: SafetyLatch,
    readings: Seq<Seq<i64>>,
    table: Seq<HazardThreshold>,
    k: int,
)
    requires
        0 <= k < readings.len(),
        any_breach(readings[k], table),
    ensures
        latch_after_all(latch, readings, table) == SafetyLatch::Tripped,
    decreases readings.len(),
{
    if k < readings.len() - 1 {
        let shorter = readings.drop_last();
        assert(shorter[k] == readings[k]);
        lemma_breach_latches(latch, shorter, table, k);
    }
}

/// Evaluates hazard vectors against a threshold table and holds the latch.
pub struct SafetyMonitor {
    thresholds: Vec<HazardThreshold>,
    latch: SafetyLatch,
}

impl SafetyMonitor {
    pub closed spec fn thresholds_spec(&self) -> Seq<HazardThreshold> {
        self.thresholds@
    }

    pub closed spec fn latch_spec(&self) -> SafetyLatch {
        self.latch
    }

    /// An armed monitor over the given table.
    pub fn new(thresholds: Vec<HazardThreshold>) -> (r: SafetyMonitor)
        ensures
            r.thresholds_spec() == thresholds@,
            r.latch_spec() == SafetyLatch::Armed,
    {
        SafetyMonitor { thresholds, latch: SafetyLatch::Armed }
    }

    /// Compares each reading with its threshold; trips the latch on any breach.
    /// Returns whether this reading breached.
    pub fn evaluate(&mut self, hazards: &Vec<i64>) -> (r: bool)
        requires
            hazards@.len() == old(self).thresholds_spec().len(),
        ensures
            r == any_breach(hazards@, old(self).thresholds_spec()),
            final(self).thresholds_spec() == old(self).thresholds_spec(),
            final(self).latch_spec() == latch_after(
                old(self).latch_spec(),
                hazards@,
                old(self).thresholds_spec(),
            ),
    {
        let mut breached = false;
        let mut i: usize = 0;
        while i < self.thresholds.len()
            invariant
                hazards@.len() == self.thresholds@.len(),
                i <= self.thresholds@.len(),
                breached == exists|j: int|
                    0 <= j < i && #[trigger] breaches(hazards@[j], self.thresholds@[j]),
            decreases self.thresholds@.len() - i,
        {
            let t = self.thresholds[i];
            let b = match t.kind {
                LimitKind::Upper => hazards[i] > t.limit,
                LimitKind::Lower => hazards[i] < t.limit,
            };
            assert(b == breaches(hazards@[i as int], self.thresholds@[i as int]));
            if b {
                breached = true;
            }
            i += 1;
            assert(breached == exists|j: int|
                0 <= j < i && #[trigger] breaches(hazards@[j], self.thresholds@[j])) by {
                if breached && !b {
                    let w = choose|j: int|
                        0 <= j < i - 1 && #[trigger] breaches(hazards@[j], self.thresholds@[j]);
                    assert(0 <= w < i);
                }
            }
        }
        if breached {
            self.latch = SafetyLatch::Tripped;
        }
        breached
    }

    /// Trips the latch without a reading (an emergency stop or landing).
    pub fn trip(&mut self)
        ensures
            final(self).latch_spec() == SafetyLatch::Tripped,
            final(self).thresholds_spec() == old(self).thresholds_spec(),
    {
        self.latch = SafetyLatch::Tripped;
    }

    /// The explicit, operator-issued re-arm.
    pub fn reset(&mut self)
        ensures
            final(self).latch_spec() == SafetyLatch::Armed,
            final(self).thresholds_spec() == old(self).thresholds_spec(),
    {
        self.latch = SafetyLatch::Armed;
    }

    pub fn latch(&self) -> (r: SafetyLatch)
        ensures
            r == self.latch_spec(),
    {
        self.latch
    }

    pub fn is_tripped(&self) -> (r: bool)
        ensures
            r == (self.latch_spec() == SafetyLatch::Tripped),
    {
        match self.latch {
            SafetyLatch::Tripped => true,
            SafetyLatch::Armed => false,
        }
    }

    pub fn thresholds(&self) -> (r: &Vec<HazardThreshold>)
        ensures
            r@ == self.thresholds_spec(),
    {
        &self.thresholds
    }
}

} // verus!
