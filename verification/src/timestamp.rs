//! Points in time as the event model sees them.

use vstd::prelude::*;

verus! {

/// A UTC instant: whole seconds since the Unix epoch and the nanoseconds past
/// that second (above 999_999_999 only during a leap second).
#[derive(Clone, Copy, Debug, PartialEq, Eq, Structural)]
pub struct Timestamp {
    pub secs: i64,
    pub nanos: u32,
}

impl Timestamp {
    /// Chronological order of two instants.
    pub open spec fn spec_before(self, other: Timestamp) -> bool {
        self.secs < other.secs || (self.secs == other.secs && self.nanos < other.nanos)
    }

    /// Builds an instant from its seconds and nanoseconds.
    pub fn new(secs: i64, nanos: u32) -> (t: Timestamp)
        ensures
            t.secs == secs,
            t.nanos == nanos,
    {
        Timestamp { secs, nanos }
    }

    /// Whether `self` lies strictly before `other`.
    pub fn is_before(&self, other: &Timestamp) -> (b: bool)
        ensures
            b == self.spec_before(*other),
    {
        self.secs < other.secs || (self.secs == other.secs && self.nanos < other.nanos)
    }

    /// The current instant of the system clock.
    pub fn now() -> (t: Timestamp)
        ensures
            t.nanos < 1_000_000_000,
    {
        let (secs, nanos) = utc_now_parts();
        Timestamp { secs, nanos }
    }
}

/// Chronological order is a strict total order: never reflexive, transitive,
/// and any two distinct instants are ordered one way.
pub proof fn before_is_a_strict_total_order(a: Timestamp, b: Timestamp, c: Timestamp)
    ensures
        !a.spec_before(a),
        a.spec_before(b) && b.spec_before(c) ==> a.spec_before(c),
        a != b ==> a.spec_before(b) || b.spec_before(a),
        a.spec_before(b) ==> !b.spec_before(a),
{
}

/// Reads the system clock with `std::time::SystemTime::now()` and converts
/// it with chrono's `From<SystemTime> for DateTime<Utc>`, then splits the
/// result with `timestamp()` and `timestamp_subsec_nanos()`. chrono's source
/// handles a clock before 1970 too (negative seconds), and in both branches
/// keeps the nanoseconds below one second; that bound is all the contract
/// claims. Which instant comes back depends on the clock and is left unsaid.
#[verifier::external_body]
fn utc_now_parts() -> (r: (i64, u32))
    ensures
        r.1 < 1_000_000_000,
{
    let now = chrono::DateTime::<chrono::Utc>::from(std::time::SystemTime::now());
    (now.timestamp(), now.timestamp_subsec_nanos())
}

} // verus!
