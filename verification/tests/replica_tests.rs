use vector_clock_kv::clock::VectorClock;
use vector_clock_kv::error::Error;
use vector_clock_kv::relation::Relation;
use vector_clock_kv::replica::{compare, Message, Process};

fn message(clock: VectorClock, key: &str, value: &str) -> Message {
    Message { vector_clock: clock, key: key.to_owned(), value: value.to_owned() }
}

#[test]
fn new_replica_rejects_invalid_owner() {
    match Process::new(2, 2) {
        Err(e) => assert_eq!(e, Error::InvalidOwner),
        Ok(_) => panic!("creating a replica for slot 2 of 2 must fail"),
    }
}

#[test]
fn read_on_fresh_replica_is_key_not_found() {
    let p = Process::new(0, 3).unwrap();
    assert_eq!(p.read("key1").unwrap_err(), Error::KeyNotFound);
    assert!(p.get("key1").is_none());
}

#[test]
fn first_write_starts_from_a_zero_clock() {
    let mut p = Process::new(0, 3).unwrap();
    p.receive_message(message(VectorClock::new(0, 3).unwrap(), "key1", "value 1")).unwrap();
    let entry = p.read("key1").unwrap();
    assert_eq!(entry.value, "value 1");
    assert_eq!(entry.vector_clock.clocks, vec![1, 0, 0]);
    assert_eq!(entry.vector_clock.process_id, 0);
}

#[test]
fn update_merges_in_place_and_adopts_the_value() {
    let mut p = Process::new(1, 3).unwrap();
    p.receive_message(message(VectorClock::new(1, 3).unwrap(), "key1", "value 1")).unwrap();
    let remote = VectorClock { process_id: 0, clocks: vec![4, 0, 2] };
    p.receive_message(message(remote, "key1", "value 2")).unwrap();
    let entry = p.read("key1").unwrap();
    assert_eq!(entry.value, "value 2");
    assert_eq!(entry.vector_clock.clocks, vec![4, 2, 2]);
}

#[test]
fn update_touches_exactly_one_key() {
    let mut p = Process::new(0, 2).unwrap();
    p.receive_message(message(VectorClock::new(0, 2).unwrap(), "key1", "value 1")).unwrap();
    p.receive_message(message(VectorClock::new(0, 2).unwrap(), "key2", "other")).unwrap();
    assert_eq!(p.read("key1").unwrap().value, "value 1");
    assert_eq!(p.read("key1").unwrap().vector_clock.clocks, vec![1, 0]);
    assert_eq!(p.read("key2").unwrap().value, "other");
    assert_eq!(p.read("key2").unwrap().vector_clock.clocks, vec![1, 0]);
}

#[test]
fn mismatched_message_clock_is_rejected_without_effect() {
    let mut p = Process::new(0, 3).unwrap();
    p.receive_message(message(VectorClock::new(0, 3).unwrap(), "key1", "value 1")).unwrap();
    let err = p
        .receive_message(message(VectorClock::new(0, 2).unwrap(), "key1", "value 2"))
        .unwrap_err();
    assert_eq!(err, Error::LengthMismatch);
    let entry = p.read("key1").unwrap();
    assert_eq!(entry.value, "value 1");
    assert_eq!(entry.vector_clock.clocks, vec![1, 0, 0]);
}

#[test]
fn duplicate_application_still_ticks_the_receiver() {
    let mut p = Process::new(0, 2).unwrap();
    p.receive_message(message(VectorClock { process_id: 1, clocks: vec![0, 1] }, "key1", "value 1"))
        .unwrap();
    assert_eq!(p.read("key1").unwrap().vector_clock.clocks, vec![1, 1]);
    p.receive_message(message(VectorClock { process_id: 1, clocks: vec![0, 1] }, "key1", "value 1"))
        .unwrap();
    assert_eq!(p.read("key1").unwrap().vector_clock.clocks, vec![2, 1]);
}

#[test]
fn compare_reports_key_not_found() {
    let mut a = Process::new(0, 2).unwrap();
    let b = Process::new(1, 2).unwrap();
    a.receive_message(message(VectorClock::new(0, 2).unwrap(), "key1", "value 1")).unwrap();
    assert_eq!(compare("key1", &a, &b).unwrap_err(), Error::KeyNotFound);
    assert_eq!(compare("key1", &b, &a).unwrap_err(), Error::KeyNotFound);
}

#[test]
fn compare_rejects_replicas_of_different_process_counts() {
    let mut a = Process::new(0, 2).unwrap();
    let mut b = Process::new(0, 3).unwrap();
    a.receive_message(message(VectorClock::new(0, 2).unwrap(), "key1", "value 1")).unwrap();
    b.receive_message(message(VectorClock::new(0, 3).unwrap(), "key1", "value 1")).unwrap();
    assert_eq!(compare("key1", &a, &b).unwrap_err(), Error::LengthMismatch);
}

#[test]
fn compare_sees_equal_views_as_equal() {
    let mut a = Process::new(0, 2).unwrap();
    let mut b = Process::new(0, 2).unwrap();
    a.receive_message(message(VectorClock::new(0, 2).unwrap(), "key1", "value 1")).unwrap();
    b.receive_message(message(VectorClock::new(0, 2).unwrap(), "key1", "value 1")).unwrap();
    assert_eq!(compare("key1", &a, &b).unwrap(), Relation::Equal);
}
