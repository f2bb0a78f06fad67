//! Replicas: actors owning a key-to-versioned-value mapping, stamping
//! every entry with the vector clock that produced it, and a comparator
//! that classifies two replicas' views of the same key.
//!
//! The value adopted on every update is a last-writer-wins policy layered
//! on top of — but not informed by — the causal metadata: the incoming
//! value replaces the stored one even when the two are concurrent.

use vstd::hash_map::StringHashMap;
use vstd::prelude::*;

use crate::clock::{merged, zero_counters, VectorClock};
use crate::error::Error;
use crate::relation::{relate, spec_relate, Relation};

verus! {

/// The unit handed from one replica to another: the sender's clock
/// snapshot at send time, plus the key and the new value.
pub struct Message {
    pub vector_clock: VectorClock,
    pub key: String,
    pub value: String,
}

/// A value paired with the vector clock current when it was last written.
#[derive(Debug)]
pub struct KvEntry {
    pub vector_clock: VectorClock,
    pub value: String,
}

/// An actor owning its copy of the key-value data and its own slot in
/// every vector clock it stamps.
pub struct Process {
    /// This replica's slot in every vector clock it owns.
    pub process_id: usize,
    /// The number of process slots agreed upon for the deployment.
    pub num_processes: usize,
    /// The owned mapping from key to versioned value; mutate it only
    /// through `receive_message`, which keeps `wf` intact.
    pub kv: StringHashMap<KvEntry>,
}

impl Process {
    /// The key-to-entry mapping this replica currently holds.
    pub open spec fn store(self) -> Map<Seq<char>, KvEntry> {
        self.kv@
    }

    /// The replica's own slot exists, and every stored entry carries a
    /// clock owned by this replica and sized to the agreed process count.
    pub open spec fn wf(self) -> bool {
        &&& self.process_id < self.num_processes
        &&& forall|k: Seq<char>| #[trigger] self.store().contains_key(k) ==> {
            &&& self.store()[k].vector_clock.process_id == self.process_id
            &&& self.store()[k].vector_clock.clocks@.len() == self.num_processes
        }
    }

    /// The counters this replica holds for `k`: the stored entry's, or
    /// the zero clock when `k` was never written here.
    pub open spec fn counters_or_zero(self, k: Seq<char>) -> Seq<usize> {
        if self.store().contains_key(k) {
            self.store()[k].vector_clock.clocks@
        } else {
            zero_counters(self.num_processes as nat)
        }
    }

    /// Empty replica for an owner index the caller has already checked
    /// against the process count.
    pub(crate) fn fresh(process_id: usize, num_processes: usize) -> (result: Process)
        requires
            process_id < num_processes,
        ensures
            result.process_id == process_id,
            result.num_processes == num_processes,
            result.store() == Map::<Seq<char>, KvEntry>::empty(),
            result.wf(),
    {
        Process { process_id, num_processes, kv: StringHashMap::new() }
    }

    /// Creates an empty replica for slot `process_id` among
    /// `num_processes` slots, or reports `InvalidOwner` when the slot
    /// index is not within the process count.
    pub fn new(process_id: usize, num_processes: usize) -> (result: Result<Process, Error>)
        ensures
            process_id < num_processes ==> (result matches Ok(p)
                && p.process_id == process_id
                && p.num_processes == num_processes
                && p.store() == Map::<Seq<char>, KvEntry>::empty()
                && p.wf()),
            process_id >= num_processes ==> (result matches Err(e) && e == Error::InvalidOwner),
    {
        if process_id < num_processes {
            Ok(Process::fresh(process_id, num_processes))
        } else {
            Err(Error::InvalidOwner)
        }
    }

    /// Returns the current versioned value for `key`, if any.  Read-only.
    pub fn get(&self, key: &str) -> (result: Option<&KvEntry>)
        ensures
            (match result {
                Some(entry) => self.store().contains_key(key@) && *entry == self.store()[key@],
                None => !self.store().contains_key(key@),
            }),
    {
        self.kv.get(key)
    }

    /// Returns the current versioned value for `key`, or `KeyNotFound`
    /// when the key was never written on this replica; a missing key is
    /// never served with a default value.
    pub fn read(&self, key: &str) -> (result: Result<&KvEntry, Error>)
        ensures
            self.store().contains_key(key@) ==> (result matches Ok(entry)
                && *entry == self.store()[key@]),
            !self.store().contains_key(key@) ==> (result matches Err(e)
                && e == Error::KeyNotFound),
    {
        match self.kv.get(key) {
            Some(entry) => Ok(entry),
            None => Err(Error::KeyNotFound),
        }
    }

    /// Applies an incoming update: merge the embedded clock into this
    /// replica's record for the key (starting from a fresh zero clock if
    /// the key is new) and adopt the incoming value unconditionally.
    /// Exactly this key's entry changes; no other key is touched.  A
    /// message whose clock was built for a different process count is
    /// rejected as `LengthMismatch` and the store is left unchanged.
    ///
    /// Because the receive itself counts as a local event, applying the
    /// same message twice advances this replica's own counter twice:
    /// application is not idempotent on the receiver's own slot (it is on
    /// every other slot, since the maximum is idempotent).  Callers that
    /// need at-least-once delivery to look exactly-once must deduplicate
    /// messages themselves.
    pub fn receive_message(&mut self, message: Message) -> (result: Result<(), Error>)
        requires
            old(self).wf(),
            old(self).store().contains_key(message.key@)
                ==> old(self).store()[message.key@].vector_clock.own_counter() < usize::MAX,
        ensures
            final(self).process_id == old(self).process_id,
            final(self).num_processes == old(self).num_processes,
            final(self).wf(),
            message.vector_clock.clocks@.len() != old(self).num_processes ==> {
                &&& (result matches Err(e) && e == Error::LengthMismatch)
                &&& final(self).store() == old(self).store()
            },
            message.vector_clock.clocks@.len() == old(self).num_processes ==> {
                &&& result is Ok
                &&& (forall|k: Seq<char>|
                    #[trigger] final(self).store().contains_key(k) <==> (old(
                        self,
                    ).store().contains_key(k) || k == message.key@))
                &&& (forall|k: Seq<char>|
                    #[trigger] old(self).store().contains_key(k) && k != message.key@
                        ==> final(self).store()[k] == old(self).store()[k])
                &&& final(self).store().contains_key(message.key@)
                &&& final(self).store()[message.key@].value == message.value
                &&& final(self).store()[message.key@].vector_clock.process_id == old(
                    self,
                ).process_id
                &&& final(self).store()[message.key@].vector_clock.clocks@ == merged(
                    old(self).counters_or_zero(message.key@),
                    message.vector_clock.clocks@,
                    old(self).process_id as int,
                )
            },
    {
        if message.vector_clock.clocks.len() != self.num_processes {
            return Err(Error::LengthMismatch);
        }
        let mut entry_clock: VectorClock;
        match self.kv.get(message.key.as_str()) {
            Some(entry) => {
                entry_clock = entry.vector_clock.clone();
            },
            None => {
                entry_clock = VectorClock::zeroed(self.process_id, self.num_processes);
            },
        }
        entry_clock.merge_from(&message.vector_clock);
        self.kv.insert(message.key, KvEntry { vector_clock: entry_clock, value: message.value });
        Ok(())
    }
}

/// Reads both replicas' versioned values for `key` and reports how they
/// relate causally: the tool for detecting conflicting concurrent writes
/// across replicas.  Pure: neither replica is modified.
pub fn compare(key: &str, replica_a: &Process, replica_b: &Process) -> (result: Result<
    Relation,
    Error,
>)
    ensures
        (!replica_a.store().contains_key(key@) || !replica_b.store().contains_key(key@))
            ==> (result matches Err(e) && e == Error::KeyNotFound),
        replica_a.store().contains_key(key@) && replica_b.store().contains_key(key@) ==> {
            let ca = replica_a.store()[key@].vector_clock.clocks@;
            let cb = replica_b.store()[key@].vector_clock.clocks@;
            &&& (ca.len() == cb.len() ==> result == Ok::<Relation, Error>(spec_relate(ca, cb)))
            &&& (ca.len() != cb.len() ==> (result matches Err(e) && e == Error::LengthMismatch))
        },
{
    let entry_a = match replica_a.get(key) {
        Some(entry) => entry,
        None => {
            return Err(Error::KeyNotFound);
        },
    };
    let entry_b = match replica_b.get(key) {
        Some(entry) => entry,
        None => {
            return Err(Error::KeyNotFound);
        },
    };
    relate(&entry_a.vector_clock, &entry_b.vector_clock)
}

} // verus!
