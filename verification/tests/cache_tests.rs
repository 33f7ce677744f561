//! Tests of the memoizing cache's value store and of the single-flight
//! protocol that arbitrates concurrent requests for one key.

use hello_server::cache::Cache;
use hello_server::flight::{Decision, Flight, FlightTable};

#[test]
fn empty_cache_has_nothing() {
    let c: Cache<u64> = Default::default();
    assert!(c.get(1).is_none());
    assert!(c.get(0).is_none());
}

#[test]
fn insert_then_get_returns_value() {
    let mut c: Cache<String> = Default::default();
    c.insert(7, String::from("seven"));
    assert_eq!(c.get(7), Some(String::from("seven")));
    assert!(c.get(8).is_none());
}

#[test]
fn get_or_insert_runs_producer_once() {
    let mut c: Cache<u64> = Default::default();
    let mut calls: u32 = 0;
    let v = c.get_or_insert_with(5, |k| {
        calls += 1;
        k * 10
    });
    assert_eq!(v, 50);
    assert_eq!(calls, 1);
    let v2 = c.get_or_insert_with(5, |k| {
        calls += 1;
        k * 10
    });
    assert_eq!(v2, 50);
    assert_eq!(calls, 1);
}

#[test]
fn idempotent_reread_ignores_new_producer() {
    let mut c: Cache<u64> = Default::default();
    let first = c.get_or_insert_with(3, |_k| 111);
    assert_eq!(first, 111);
    let mut g_ran = false;
    let second = c.get_or_insert_with(3, |_k| {
        g_ran = true;
        999
    });
    assert_eq!(second, 111);
    assert!(!g_ran);
}

#[test]
fn distinct_keys_get_distinct_values() {
    let mut c: Cache<u64> = Default::default();
    let a = c.get_or_insert_with(1, |_k| 10);
    let b = c.get_or_insert_with(2, |_k| 20);
    assert_eq!(a, 10);
    assert_eq!(b, 20);
    assert_eq!(c.get(1), Some(10));
    assert_eq!(c.get(2), Some(20));
}

#[test]
fn first_request_becomes_sole_producer() {
    let mut t = FlightTable::new();
    assert_eq!(t.request(9), Decision::Produce);
    assert_eq!(t.request(9), Decision::Wait);
    assert_eq!(t.request(9), Decision::Wait);
    t.publish(9);
    assert_eq!(t.request(9), Decision::Ready);
    assert_eq!(t.request(9), Decision::Ready);
}

#[test]
fn two_absent_keys_both_produce() {
    // Two callers ask for two distinct absent keys at the same time:
    // both become producers, neither is told to wait on the other.
    let mut t = FlightTable::new();
    let d1 = t.request(1);
    let d2 = t.request(2);
    assert_eq!(d1, Decision::Produce);
    assert_eq!(d2, Decision::Produce);
    assert_eq!(t.state(1), Flight::InFlight);
    assert_eq!(t.state(2), Flight::InFlight);
    t.publish(2);
    assert_eq!(t.state(1), Flight::InFlight);
    assert_eq!(t.request(2), Decision::Ready);
    assert_eq!(t.request(1), Decision::Wait);
}

#[test]
fn slot_states_follow_the_protocol() {
    let mut t = FlightTable::new();
    assert_eq!(t.state(4), Flight::Absent);
    t.request(4);
    assert_eq!(t.state(4), Flight::InFlight);
    t.publish(4);
    assert_eq!(t.state(4), Flight::Present);
}
