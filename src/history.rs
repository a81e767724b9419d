//! Bounded record of issued velocity commands, oldest first.
use vstd::prelude::*;

verus! {

/// One issued command: the per-axis velocities and when they were issued.
pub struct HistoryEntry {
    pub velocity: Vec<i64>,
    pub time: u64,
}

impl HistoryEntry {
    pub open spec fn view_entry(&self) -> (Seq<i64>, u64) {
        (self.velocity@, self.time)
    }
}

/// What `push` leaves in a history of the given capacity.
pub open spec fn pushed(h: Seq<(Seq<i64>, u64)>, capacity: nat, e: (Seq<i64>, u64)) -> Seq<
    (Seq<i64>, u64),
> {
    if h.len() >= capacity {
        h.drop_first().push(e)
    } else {
        h.push(e)
    }
}

/// Ring buffer of commands with a fixed capacity; the oldest entry leaves on overflow.
pub struct CommandHistory {
    capacity: usize,
    entries: Vec<HistoryEntry>,
}

impl View for CommandHistory {
    type V = Seq<(Seq<i64>, u64)>;

    closed spec fn view(&self) -> Seq<(Seq<i64>, u64)> {
        self.entries@.map_values(|e: HistoryEntry| e.view_entry())
    }
}

/// A copy of a velocity vector.
pub fn copy_velocity(v: &Vec<i64>) -> (r: Vec<i64>)
    ensures
        r@ == v@,
{
    let mut r: Vec<i64> = Vec::with_capacity(v.len());
    let mut i: usize = 0;
    while i < v.len()
        invariant
            i <= v.len(),
            r@ == v@.subrange(0, i as int),
        decreases v.len() - i,
    {
        r.push(v[i]);
        i += 1;
    }
    assert(r@ == v@);
    r
}

impl CommandHistory {
    pub closed spec fn capacity_spec(&self) -> nat {
        self.capacity as nat
    }

    /// At least one slot, and never more entries than slots.
    pub open spec fn wf(&self) -> bool {
        self.capacity_spec() >= 1 && self@.len() <= self.capacity_spec()
    }

    pub fn new(capacity: usize) -> (r: CommandHistory)
        requires
            capacity >= 1,
        ensures
            r.wf(),
            r@.len() == 0,
            r.capacity_spec() == capacity,
    {
        let r = CommandHistory { capacity, entries: Vec::new() };
        assert(r@ =~= Seq::<(Seq<i64>, u64)>::empty());
        r
    }

    pub fn capacity(&self) -> (r: usize)
        ensures
            r == self.capacity_spec(),
    {
        self.capacity
    }

    pub fn len(&self) -> (r: usize)
        requires
            self.wf(),
        ensures
            r == self@.len(),
    {
        self.entries.len()
    }

    /// Appends a command, evicting the oldest when the history is full.
    pub fn push(&mut self, velocity: &Vec<i64>, time: u64)
        requires
            old(self).wf(),
        ensures
            final(self).wf(),
            final(self).capacity_spec() == old(self).capacity_spec(),
            final(self)@ == pushed(old(self)@, old(self).capacity_spec(), (velocity@, time)),
            final(self)@.len() <= final(self).capacity_spec(),
    {
        let ghost before = self.entries@;
        if self.entries.len() >= self.capacity {
            self.entries.remove(0);
        }
        let ghost mid = self.entries@;
        self.entries.push(HistoryEntry { velocity: copy_velocity(velocity), time });
        proof {
            let f = |e: HistoryEntry| e.view_entry();
            if before.len() >= self.capacity {
                assert(mid == before.remove(0));
                assert(self.entries@.map_values(f) =~= before.map_values(f).drop_first().push(
                    (velocity@, time),
                ));
            } else {
                assert(self.entries@.map_values(f) =~= before.map_values(f).push((velocity@, time)));
            }
        }
    }

    /// Read-only view of the entries, oldest first.
    pub fn entries(&self) -> (r: &Vec<HistoryEntry>)
        ensures
            r@.map_values(|e: HistoryEntry| e.view_entry()) == self@,
    {
        &self.entries
    }
}


/// The history after pushing each entry in turn.
pub open spec fn pushed_all(
    h: Seq<(Seq<i64>, u64)>,
    capacity: nat,
    es: Seq<(Seq<i64>, u64)>,
) -> Seq<(Seq<i64>, u64)>
    decreases es.len(),
{
    if es.len() == 0 {
        h
    } else {
        pushed(pushed_all(h, capacity, es.drop_last()), capacity, es.last())
    }
}

/// However many commands are recorded, a history never holds more than its
/// capacity: it holds the fewer of the capacity and all entries pushed.
pub proof fn lemma_history_bounded(
    h: Seq<(Seq<i64>, u64)>,
    capacity: nat,
    es: Seq<(Seq<i64>, u64)>,
)
    requires
        capacity >= 1,
        h.len() <= capacity,
    ensures
        pushed_all(h, capacity, es).len() <= capacity,
        pushed_all(h, capacity, es).len() == if h.len() + es.len() < capacity {
            h.len() + es.len()
        } else {
            capacity
        },
    decreases es.len(),
{
    if es.len() > 0 {
        lemma_history_bounded(h, capacity, es.drop_last());
    }
}

} // verus!
