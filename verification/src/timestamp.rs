//! Points in time, as the service stores and compares them.

use vstd::prelude::*;

verus! {

/// An instant in UTC: whole seconds since the Unix epoch and the nanoseconds
/// into that second (at or above one billion only inside a leap second).
#[derive(Debug, Clone, Copy, PartialEq, Eq, Structural)]
pub struct Timestamp {
    pub secs: i64,
    pub nanos: u32,
}

impl Timestamp {
    /// `self` is strictly earlier than `other`.
    pub open spec fn spec_before(self, other: Timestamp) -> bool {
        self.secs < other.secs || (self.secs == other.secs && self.nanos < other.nanos)
    }

    /// Whether `self` is strictly earlier than `other`.
    pub fn is_before(&self, other: &Timestamp) -> (b: bool)
        ensures
            b == self.spec_before(*other),
    {
        self.secs < other.secs || (self.secs == other.secs && self.nanos < other.nanos)
    }
}

/// An optional expiry has passed at `now`: it is set and strictly earlier.
pub open spec fn expired_at(expires_at: Option<Timestamp>, now: Timestamp) -> bool {
    match expires_at {
        Some(e) => e.spec_before(now),
        None => false,
    }
}

/// Whether the optional expiry `expires_at` has passed at `now`.
pub fn is_expired_at(expires_at: Option<Timestamp>, now: Timestamp) -> (b: bool)
    ensures
        b == expired_at(expires_at, now),
{
    match expires_at {
        Some(e) => e.is_before(&now),
        None => false,
    }
}

/// The current time, read from the system clock through `chrono::Utc::now`,
/// taken apart with `DateTime::timestamp` and `DateTime::timestamp_subsec_nanos`.
/// Nothing is claimed of the instant itself; chrono documents the nanoseconds
/// as below two billion (one billion and up only in a leap second).
#[verifier::external_body]
pub(crate) fn now() -> (t: Timestamp)
    ensures
        t.nanos < 2_000_000_000,
{
    let n = chrono::Utc::now();
    Timestamp { secs: n.timestamp(), nanos: n.timestamp_subsec_nanos() }
}

} // verus!
