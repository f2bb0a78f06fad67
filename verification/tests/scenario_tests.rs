use vector_clock_kv::relation::Relation;
use vector_clock_kv::scenario::{conflict_example_1, no_conflict_example_1};

#[test]
fn conflict_scenario_ends_concurrent() {
    let outcome = conflict_example_1();
    assert_eq!(outcome.relation, Relation::Concurrent);
    let v1 = outcome.p1.get(&outcome.key).unwrap();
    let v2 = outcome.p2.get(&outcome.key).unwrap();
    assert_eq!(v1.vector_clock.clocks, vec![3, 0, 0]);
    assert_eq!(v2.vector_clock.clocks, vec![2, 1, 0]);
    assert_eq!(v1.value, "value 3");
    assert_eq!(v2.value, "value 3");
}

#[test]
fn no_conflict_scenario_ends_before() {
    let outcome = no_conflict_example_1();
    assert_eq!(outcome.relation, Relation::Before);
    let v1 = outcome.p1.get(&outcome.key).unwrap();
    let v2 = outcome.p2.get(&outcome.key).unwrap();
    assert_eq!(v1.vector_clock.clocks, vec![2, 0, 0]);
    assert_eq!(v2.vector_clock.clocks, vec![2, 1, 0]);
    assert_eq!(v1.value, "value 2");
    assert_eq!(v2.value, "value 3");
}
