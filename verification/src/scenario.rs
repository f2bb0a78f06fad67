//! Two end-to-end scenarios exercising the whole stack: one in which two
//! replicas end up with conflicting views of a key, and one in which one
//! view cleanly precedes the other.

use vstd::prelude::*;

use crate::clock::VectorClock;
use crate::relation::{leq_all, Relation};
use crate::replica::{compare, Message, Process};

verus! {

/// What a scenario leaves behind: the two replicas, the key they both
/// hold, and the causal relation the comparator reported for that key.
pub struct ScenarioOutcome {
    pub p1: Process,
    pub p2: Process,
    pub key: String,
    pub relation: Relation,
}

/// Conflict scenario: process 0 writes `key1` three times in sequence,
/// ending at clock `[3,0,0]`; process 1 sees only the second write's
/// clock and applies its own write, ending at `[2,1,0]`.  Neither clock
/// dominates the other, so the comparator reports the two views as
/// `Concurrent`.
pub fn conflict_example_1() -> (result: ScenarioOutcome)
    ensures
        result.relation == Relation::Concurrent,
        result.key@ == "key1"@,
        result.p1.store().contains_key(result.key@),
        result.p2.store().contains_key(result.key@),
        result.p1.store()[result.key@].vector_clock.clocks@ == seq![3usize, 0usize, 0usize],
        result.p2.store()[result.key@].vector_clock.clocks@ == seq![2usize, 1usize, 0usize],
        result.p1.store()[result.key@].value@ == "value 3"@,
        result.p2.store()[result.key@].value@ == "value 3"@,
{
    let num_processes: usize = 3;
    let mut p1 = Process::fresh(0, num_processes);
    let mut p2 = Process::fresh(1, num_processes);
    let key: String = "key1".to_owned();

    p1.receive_message(
        Message {
            vector_clock: VectorClock::zeroed(0, num_processes),
            key: key.clone(),
            value: "value 1".to_owned(),
        },
    ).unwrap();
    proof {
        assert(p1.store()[key@].vector_clock.clocks@ =~= seq![1usize, 0usize, 0usize]);
    }

    let entry1 = p1.get(key.as_str()).unwrap();
    let clock1 = entry1.vector_clock.clone();
    p1.receive_message(
        Message { vector_clock: clock1, key: key.clone(), value: "value 2".to_owned() },
    ).unwrap();
    proof {
        assert(p1.store()[key@].vector_clock.clocks@ =~= seq![2usize, 0usize, 0usize]);
    }

    let entry2 = p1.get(key.as_str()).unwrap();
    let clock2 = entry2.vector_clock.clone();
    let clock2_for_p2 = clock2.clone();
    p1.receive_message(
        Message { vector_clock: clock2, key: key.clone(), value: "value 3".to_owned() },
    ).unwrap();
    proof {
        assert(p1.store()[key@].vector_clock.clocks@ =~= seq![3usize, 0usize, 0usize]);
    }

    p2.receive_message(
        Message { vector_clock: clock2_for_p2, key: key.clone(), value: "value 3".to_owned() },
    ).unwrap();
    proof {
        assert(p2.store()[key@].vector_clock.clocks@ =~= seq![2usize, 1usize, 0usize]);
    }

    let relation = compare(key.as_str(), &p1, &p2).unwrap();
    proof {
        let ca = p1.store()[key@].vector_clock.clocks@;
        let cb = p2.store()[key@].vector_clock.clocks@;
        assert(!leq_all(ca, cb)) by {
            assert(ca[0] > cb[0]);
        }
        assert(!leq_all(cb, ca)) by {
            assert(cb[1] > ca[1]);
        }
    }
    ScenarioOutcome { p1, p2, key, relation }
}

/// No-conflict scenario: process 0 writes `key1` twice, ending at clock
/// `[2,0,0]`; process 1 receives the second write and merely forwards
/// it, with no local write of its own before the comparison, ending at
/// `[2,1,0]`.  Process 0's view causally precedes process 1's, so the
/// comparator reports `Before`.
pub fn no_conflict_example_1() -> (result: ScenarioOutcome)
    ensures
        result.relation == Relation::Before,
        result.key@ == "key1"@,
        result.p1.store().contains_key(result.key@),
        result.p2.store().contains_key(result.key@),
        result.p1.store()[result.key@].vector_clock.clocks@ == seq![2usize, 0usize, 0usize],
        result.p2.store()[result.key@].vector_clock.clocks@ == seq![2usize, 1usize, 0usize],
        result.p1.store()[result.key@].value@ == "value 2"@,
        result.p2.store()[result.key@].value@ == "value 3"@,
{
    let num_processes: usize = 3;
    let mut p1 = Process::fresh(0, num_processes);
    let mut p2 = Process::fresh(1, num_processes);
    let key: String = "key1".to_owned();

    p1.receive_message(
        Message {
            vector_clock: VectorClock::zeroed(0, num_processes),
            key: key.clone(),
            value: "value 1".to_owned(),
        },
    ).unwrap();
    proof {
        assert(p1.store()[key@].vector_clock.clocks@ =~= seq![1usize, 0usize, 0usize]);
    }

    let entry1 = p1.get(key.as_str()).unwrap();
    let clock1 = entry1.vector_clock.clone();
    p1.receive_message(
        Message { vector_clock: clock1, key: key.clone(), value: "value 2".to_owned() },
    ).unwrap();
    proof {
        assert(p1.store()[key@].vector_clock.clocks@ =~= seq![2usize, 0usize, 0usize]);
    }

    let entry2 = p1.get(key.as_str()).unwrap();
    let clock2 = entry2.vector_clock.clone();
    p2.receive_message(
        Message { vector_clock: clock2, key: key.clone(), value: "value 3".to_owned() },
    ).unwrap();
    proof {
        assert(p2.store()[key@].vector_clock.clocks@ =~= seq![2usize, 1usize, 0usize]);
    }

    let relation = compare(key.as_str(), &p1, &p2).unwrap();
    proof {
        let ca = p1.store()[key@].vector_clock.clocks@;
        let cb = p2.store()[key@].vector_clock.clocks@;
        assert(leq_all(ca, cb));
        assert(!leq_all(cb, ca)) by {
            assert(cb[1] > ca[1]);
        }
    }
    ScenarioOutcome { p1, p2, key, relation }
}

} // verus!
