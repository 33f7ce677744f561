//! The single-flight protocol of the cache: per-key in-flight markers.
//!
//! For every key the cache keeps a slot that moves from `Absent` (no
//! value, nobody computing one) through `InFlight` (exactly one caller
//! is running the producer) to `Present` (the value is published and
//! immutable). The protocol decides, for each arriving request, whether
//! the caller becomes the sole producer, waits for a producer already
//! at work, or reads the published value. The laws below state that a
//! producer is chosen at most once per key, exactly once if the key is
//! requested at all, and that slots of distinct keys never interfere.

use vstd::prelude::*;
use std::collections::HashMap;

verus! {

/// Lifecycle of one key's slot.
#[derive(Clone, Copy, PartialEq, Eq, Structural, Debug)]
pub enum Flight {
    /// The key has no value and nobody is computing one.
    Absent,
    /// One caller — the producer — is computing the key's value.
    InFlight,
    /// The value is published; it never changes afterwards.
    Present,
}

/// What a caller that requested a key must do next.
#[derive(Clone, Copy, PartialEq, Eq, Structural, Debug)]
pub enum Decision {
    /// The caller won the race: it is the sole producer for this key.
    Produce,
    /// Another caller is producing: wait for its completion signal.
    Wait,
    /// The value is already published: read it.
    Ready,
}

/// The two operations the protocol knows on one key.
#[derive(Clone, Copy, PartialEq, Eq, Structural, Debug)]
pub enum FlightOp {
    /// A caller asks for the key.
    Request,
    /// The producer publishes the key's value and wakes all waiters.
    Publish,
}

/// The decision handed to a requester that finds its key's slot in `s`.
pub open spec fn request_decision(s: Flight) -> Decision {
    match s {
        Flight::Absent => Decision::Produce,
        Flight::InFlight => Decision::Wait,
        Flight::Present => Decision::Ready,
    }
}

/// Whether `op` can happen at all on a slot in state `s`: only the sole
/// producer publishes, and only while it holds the in-flight marker.
pub open spec fn flight_enabled(s: Flight, op: FlightOp) -> bool {
    match op {
        FlightOp::Request => true,
        FlightOp::Publish => s is InFlight,
    }
}

/// The slot after `op`. A request claims an absent slot for its caller;
/// a publish resolves the in-flight marker; nothing else moves, and no
/// transition ever leads back to `Absent`.
pub open spec fn flight_next(s: Flight, op: FlightOp) -> Flight {
    match op {
        FlightOp::Request => if s is Absent { Flight::InFlight } else { s },
        FlightOp::Publish => if s is InFlight { Flight::Present } else { s },
    }
}

/// The slot after a whole sequence of operations.
pub open spec fn flight_run(s: Flight, ops: Seq<FlightOp>) -> Flight
    decreases ops.len(),
{
    if ops.len() == 0 {
        s
    } else {
        flight_run(flight_next(s, ops[0]), ops.drop_first())
    }
}

/// Whether every operation of `ops`, applied in order from `s`, is
/// enabled when its turn comes.
pub open spec fn flight_valid(s: Flight, ops: Seq<FlightOp>) -> bool
    decreases ops.len(),
{
    ops.len() == 0 || (flight_enabled(s, ops[0]) && flight_valid(
        flight_next(s, ops[0]),
        ops.drop_first(),
    ))
}

/// How many of the operations in `ops`, applied in order from `s`, make
/// their caller the producer.
pub open spec fn produce_count(s: Flight, ops: Seq<FlightOp>) -> nat
    decreases ops.len(),
{
    if ops.len() == 0 {
        0
    } else {
        (if ops[0] is Request && s is Absent {
            1nat
        } else {
            0nat
        }) + produce_count(flight_next(s, ops[0]), ops.drop_first())
    }
}

/// A slot that has been claimed once is never `Absent` again, so no
/// operation arriving after the claim can make its caller a producer.
pub proof fn lemma_no_producer_after_claim(s: Flight, ops: Seq<FlightOp>)
    requires
        !(s is Absent),
    ensures
        produce_count(s, ops) == 0,
        !(flight_run(s, ops) is Absent),
    decreases ops.len(),
{
    if ops.len() > 0 {
        lemma_no_producer_after_claim(flight_next(s, ops[0]), ops.drop_first());
    }
}

/// At-most-once production: whatever operations arrive on a fresh key,
/// in whatever interleaving, at most one caller ever becomes the
/// producer.
pub proof fn lemma_at_most_one_producer(ops: Seq<FlightOp>)
    ensures
        produce_count(Flight::Absent, ops) <= 1,
    decreases ops.len(),
{
    if ops.len() > 0 {
        if ops[0] is Request {
            lemma_no_producer_after_claim(Flight::InFlight, ops.drop_first());
        } else {
            lemma_at_most_one_producer(ops.drop_first());
        }
    }
}

/// Exactly-once production: on a fresh key, any non-empty sequence of
/// protocol operations in which every step is enabled makes exactly one
/// caller the producer.
pub proof fn lemma_exactly_one_producer(ops: Seq<FlightOp>)
    requires
        flight_valid(Flight::Absent, ops),
        ops.len() > 0,
    ensures
        produce_count(Flight::Absent, ops) == 1,
{
    assert(ops[0] is Request);
    lemma_no_producer_after_claim(Flight::InFlight, ops.drop_first());
}

/// A published slot stays published: once a key's value is out, every
/// later caller finds it, and the in-flight marker never comes back.
pub proof fn lemma_published_stays(ops: Seq<FlightOp>)
    ensures
        flight_run(Flight::Present, ops) is Present,
    decreases ops.len(),
{
    if ops.len() > 0 {
        lemma_published_stays(ops.drop_first());
    }
}

/// The slot a table assigns to `k`: keys never touched are `Absent`.
pub open spec fn flight_slot(m: Map<u64, Flight>, k: u64) -> Flight {
    if m.contains_key(k) {
        m[k]
    } else {
        Flight::Absent
    }
}

/// A whole table after one operation on key `k`.
pub open spec fn table_next(m: Map<u64, Flight>, k: u64, op: FlightOp) -> Map<u64, Flight> {
    m.insert(k, flight_next(flight_slot(m, k), op))
}

/// Key independence: an operation on one key leaves every other key's
/// slot exactly as it was, so callers of distinct keys never wait on
/// each other.
pub proof fn lemma_key_independence(m: Map<u64, Flight>, k1: u64, k2: u64, op: FlightOp)
    requires
        k1 != k2,
    ensures
        flight_slot(table_next(m, k1, op), k2) == flight_slot(m, k2),
        request_decision(flight_slot(table_next(m, k1, op), k2)) == request_decision(
            flight_slot(m, k2),
        ),
{
}

/// Two absent keys proceed in parallel: after a request for the first
/// key claims its slot, a request for the second, distinct key is still
/// told to produce — it does not wait for the first.
pub proof fn lemma_distinct_keys_both_produce(m: Map<u64, Flight>, k1: u64, k2: u64)
    requires
        k1 != k2,
        flight_slot(m, k1) is Absent,
        flight_slot(m, k2) is Absent,
    ensures
        request_decision(flight_slot(m, k1)) == Decision::Produce,
        request_decision(flight_slot(table_next(m, k1, FlightOp::Request), k2))
            == Decision::Produce,
{
}

/// The in-flight markers of all keys, as the concurrent shell keeps
/// them: one table, consulted and updated under one short-lived lock,
/// while producers run outside of it.
pub struct FlightTable {
    slots: HashMap<u64, Flight>,
}

impl FlightTable {
    /// The table's slots as a map; untouched keys are `Absent`.
    pub closed spec fn view(&self) -> Map<u64, Flight> {
        self.slots@
    }

    /// An empty table: every key is `Absent`.
    pub fn new() -> (t: FlightTable)
        ensures
            forall|k: u64| flight_slot(t@, k) is Absent,
    {
        FlightTable { slots: HashMap::new() }
    }

    /// The current state of `key`'s slot, without changing anything.
    /// The shell reads it to check, before publishing, that the key is
    /// indeed held in flight by the publishing caller.
    pub fn state(&self, key: u64) -> (s: Flight)
        ensures
            s == flight_slot(self@, key),
    {
        match self.slots.get(&key) {
            Some(s) => *s,
            None => Flight::Absent,
        }
    }

    /// A caller requests `key`: claim the slot if it is absent, and in
    /// every case tell the caller what to do next. Slots of all other
    /// keys are untouched.
    pub fn request(&mut self, key: u64) -> (d: Decision)
        ensures
            d == request_decision(flight_slot(old(self)@, key)),
            flight_slot(final(self)@, key) == flight_next(
                flight_slot(old(self)@, key),
                FlightOp::Request,
            ),
            forall|k2: u64| k2 != key ==> flight_slot(final(self)@, k2) == flight_slot(
                old(self)@,
                k2,
            ),
    {
        let cur = match self.slots.get(&key) {
            Some(s) => *s,
            None => Flight::Absent,
        };
        match cur {
            Flight::Absent => {
                self.slots.insert(key, Flight::InFlight);
                Decision::Produce
            },
            Flight::InFlight => Decision::Wait,
            Flight::Present => Decision::Ready,
        }
    }

    /// The producer of `key` publishes its value: the in-flight marker
    /// resolves and every waiter may read. Slots of all other keys are
    /// untouched.
    pub fn publish(&mut self, key: u64)
        requires
            flight_slot(old(self)@, key) is InFlight,
        ensures
            flight_slot(final(self)@, key) is Present,
            flight_slot(final(self)@, key) == flight_next(
                flight_slot(old(self)@, key),
                FlightOp::Publish,
            ),
            forall|k2: u64| k2 != key ==> flight_slot(final(self)@, k2) == flight_slot(
                old(self)@,
                k2,
            ),
    {
        self.slots.insert(key, Flight::Present);
    }
}

} // verus!
