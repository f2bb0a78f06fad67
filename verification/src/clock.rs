//! Vector clocks: per-process logical time for ordering events in a
//! distributed system.
//!
//! A clock holds one counter per known process and the index of the slot
//! owned by the clock's process.  It changes only by recording a local
//! event (advance the own slot) or by merging a received clock (advance
//! the own slot, then take the element-wise maximum).

use vstd::prelude::*;
use vstd::pervasive::VecAdditionalExecFns;

use crate::error::Error;
use crate::relation::{spec_relate, Relation};

verus! {

/// The all-zero counter sequence of length `n`: no process has seen any
/// event yet.
pub open spec fn zero_counters(n: nat) -> Seq<usize> {
    Seq::new(n, |i: int| 0usize)
}

/// The larger of two counters.
pub open spec fn counter_max(a: usize, b: usize) -> usize {
    if a >= b {
        a
    } else {
        b
    }
}

/// `c` with the counter at slot `p` advanced by one local event.
pub open spec fn ticked(c: Seq<usize>, p: int) -> Seq<usize> {
    c.update(p, (c[p] + 1) as usize)
}

/// `c` after `n` successive local events at slot `p`.
pub open spec fn ticked_n(c: Seq<usize>, p: int, n: nat) -> Seq<usize>
    decreases n,
{
    if n == 0 {
        c
    } else {
        ticked(ticked_n(c, p, (n - 1) as nat), p)
    }
}

/// The clock a receiver owning slot `p` ends up with after a merge: the
/// own slot is advanced first (the receive is itself a local event), then
/// every slot takes the element-wise maximum with the sender's counters.
pub open spec fn merged(mine: Seq<usize>, other: Seq<usize>, p: int) -> Seq<usize> {
    Seq::new(mine.len(), |i: int| counter_max(ticked(mine, p)[i], other[i]))
}

/// A per-entity logical-time vector; see the module documentation.
#[derive(Debug)]
pub struct VectorClock {
    /// The index of the counter in `clocks` that belongs to the owning
    /// process.
    pub process_id: usize,
    /// One logical counter per process that is part of the system.
    pub clocks: Vec<usize>,
}

impl VectorClock {
    /// The owner's slot lies inside the vector.
    pub open spec fn wf(self) -> bool {
        self.process_id < self.clocks@.len()
    }

    /// The counter in the owner's own slot.
    pub open spec fn own_counter(self) -> usize {
        self.clocks@[self.process_id as int]
    }

    /// Zero-filled clock for an owner index the caller has already
    /// checked against the process count.
    pub(crate) fn zeroed(process_id: usize, processes: usize) -> (result: VectorClock)
        requires
            process_id < processes,
        ensures
            result.process_id == process_id,
            result.clocks@ == zero_counters(processes as nat),
            result.wf(),
    {
        let mut clocks: Vec<usize> = Vec::new();
        let mut i: usize = 0;
        while i < processes
            invariant
                i <= processes,
                clocks@.len() == i as nat,
                forall|j: int| 0 <= j < i ==> clocks@[j] == 0,
            decreases processes - i,
        {
            clocks.push(0);
            i = i + 1;
        }
        proof {
            assert(clocks@ =~= zero_counters(processes as nat));
        }
        VectorClock { process_id, clocks }
    }

    /// Creates the zero clock owned by `process_id` among `processes`
    /// slots, or reports `InvalidOwner` when the owner index is not one
    /// of the slots.
    pub fn new(process_id: usize, processes: usize) -> (result: Result<VectorClock, Error>)
        ensures
            process_id < processes ==> (result matches Ok(c)
                && c.process_id == process_id
                && c.clocks@ == zero_counters(processes as nat)
                && c.wf()),
            process_id >= processes ==> (result matches Err(e) && e == Error::InvalidOwner),
    {
        if process_id < processes {
            Ok(VectorClock::zeroed(process_id, processes))
        } else {
            Err(Error::InvalidOwner)
        }
    }

    /// Advances the counter at slot `i` by one.
    fn bump(&mut self, i: usize)
        requires
            i < old(self).clocks@.len(),
            old(self).clocks@[i as int] < usize::MAX,
        ensures
            final(self).process_id == old(self).process_id,
            final(self).clocks@ == ticked(old(self).clocks@, i as int),
    {
        let current: usize = self.clocks[i];
        self.clocks.set(i, current + 1);
    }

    /// Records one local event for the owning process.  This never fails;
    /// the counter merely must not yet have reached the machine limit.
    pub fn increment_this_process_clock(&mut self)
        requires
            old(self).wf(),
            old(self).own_counter() < usize::MAX,
        ensures
            final(self).process_id == old(self).process_id,
            final(self).clocks@ == ticked(old(self).clocks@, old(self).process_id as int),
            final(self).own_counter() == old(self).own_counter() + 1,
            final(self).wf(),
    {
        let p: usize = self.process_id;
        self.bump(p);
    }

    /// Records one event attributed to an arbitrary process slot, or
    /// reports `IndexOutOfRange` when that slot does not exist.
    pub fn increment_process_clock(&mut self, process_id: usize) -> (result: Result<(), Error>)
        requires
            process_id < old(self).clocks@.len() ==> old(self).clocks@[process_id as int]
                < usize::MAX,
        ensures
            final(self).process_id == old(self).process_id,
            process_id < old(self).clocks@.len() ==> {
                &&& result is Ok
                &&& final(self).clocks@ == ticked(old(self).clocks@, process_id as int)
            },
            process_id >= old(self).clocks@.len() ==> {
                &&& (result matches Err(e) && e == Error::IndexOutOfRange)
                &&& *final(self) == *old(self)
            },
    {
        if process_id < self.clocks.len() {
            self.bump(process_id);
            Ok(())
        } else {
            Err(Error::IndexOutOfRange)
        }
    }

    /// Merges the sender's counters into this clock; the caller has
    /// already checked that the two lengths agree.
    pub(crate) fn merge_from(&mut self, other: &VectorClock)
        requires
            old(self).wf(),
            old(self).own_counter() < usize::MAX,
            other.clocks@.len() == old(self).clocks@.len(),
        ensures
            final(self).process_id == old(self).process_id,
            final(self).clocks@ == merged(
                old(self).clocks@,
                other.clocks@,
                old(self).process_id as int,
            ),
            final(self).wf(),
    {
        let ghost pre = self.clocks@;
        let p: usize = self.process_id;
        self.bump(p);
        let ghost after_tick = self.clocks@;
        let n: usize = self.clocks.len();
        let mut i: usize = 0;
        while i < n
            invariant
                i <= n,
                n == self.clocks@.len(),
                n == other.clocks@.len(),
                n == after_tick.len(),
                self.process_id == p,
                forall|j: int|
                    0 <= j < i ==> self.clocks@[j] == counter_max(after_tick[j], other.clocks@[j]),
                forall|j: int| i <= j < n ==> self.clocks@[j] == after_tick[j],
            decreases n - i,
        {
            let mine: usize = self.clocks[i];
            let theirs: usize = other.clocks[i];
            if theirs > mine {
                self.clocks.set(i, theirs);
            }
            i = i + 1;
        }
        proof {
            assert(self.clocks@ =~= merged(pre, other.clocks@, p as int));
        }
    }

    /// Handles a clock arriving from another process: the receive is
    /// itself a local event, so the own counter is advanced before the
    /// element-wise maximum is taken.  Clocks of different lengths are
    /// never merged — not even by truncation — and are reported as
    /// `LengthMismatch`, leaving this clock untouched.
    pub fn message_received(&mut self, other: &VectorClock) -> (result: Result<(), Error>)
        requires
            old(self).wf(),
            old(self).own_counter() < usize::MAX,
        ensures
            final(self).process_id == old(self).process_id,
            other.clocks@.len() == old(self).clocks@.len() ==> {
                &&& result is Ok
                &&& final(self).clocks@ == merged(
                    old(self).clocks@,
                    other.clocks@,
                    old(self).process_id as int,
                )
                &&& spec_relate(old(self).clocks@, final(self).clocks@) == Relation::Before
                &&& final(self).wf()
            },
            other.clocks@.len() != old(self).clocks@.len() ==> {
                &&& (result matches Err(e) && e == Error::LengthMismatch)
                &&& *final(self) == *old(self)
            },
    {
        if other.clocks.len() != self.clocks.len() {
            return Err(Error::LengthMismatch);
        }
        let ghost pre = self.clocks@;
        let ghost p = self.process_id as int;
        self.merge_from(other);
        proof {
            crate::relation::lemma_merge_advances(pre, other.clocks@, p);
        }
        Ok(())
    }
}

impl Clone for VectorClock {
    /// A clone carries the same owner index and the same counters.
    fn clone(&self) -> (result: Self)
        ensures
            result.process_id == self.process_id,
            result.clocks@ == self.clocks@,
    {
        let mut clocks: Vec<usize> = Vec::new();
        let n: usize = self.clocks.len();
        let mut i: usize = 0;
        while i < n
            invariant
                i <= n,
                n == self.clocks@.len(),
                clocks@.len() == i as nat,
                forall|j: int| 0 <= j < i ==> clocks@[j] == self.clocks@[j],
            decreases n - i,
        {
            clocks.push(self.clocks[i]);
            i = i + 1;
        }
        proof {
            assert(clocks@ =~= self.clocks@);
        }
        VectorClock { process_id: self.process_id, clocks }
    }
}

/// Each local event moves exactly one counter, by exactly one: after `n`
/// events at slot `p`, that counter has grown by `n` and every other
/// counter is unchanged.
pub proof fn lemma_tick_count(c: Seq<usize>, p: int, n: nat)
    requires
        0 <= p < c.len(),
        c[p] + n <= usize::MAX,
    ensures
        ticked_n(c, p, n).len() == c.len(),
        ticked_n(c, p, n)[p] == c[p] + n,
        forall|i: int| 0 <= i < c.len() && i != p ==> ticked_n(c, p, n)[i] == c[i],
    decreases n,
{
    if n > 0 {
        lemma_tick_count(c, p, (n - 1) as nat);
    }
}

/// Monotonicity: starting from the zero clock, after `n` local events
/// attributed to process `p` the counter in `p`'s own slot is exactly
/// `n` — no skips and no double counts — and every other slot is still
/// zero.
pub proof fn lemma_own_counter_counts_events(len: nat, p: int, n: nat)
    requires
        0 <= p < len,
        n <= usize::MAX,
    ensures
        ticked_n(zero_counters(len), p, n).len() == len,
        ticked_n(zero_counters(len), p, n)[p] == n,
        forall|i: int| 0 <= i < len && i != p ==> ticked_n(zero_counters(len), p, n)[i] == 0,
{
    lemma_tick_count(zero_counters(len), p, n);
    assert forall|i: int| 0 <= i < len && i != p implies ticked_n(zero_counters(len), p, n)[i]
        == 0 by {
        assert(zero_counters(len)[i] == 0);
    }
}

} // verus!
