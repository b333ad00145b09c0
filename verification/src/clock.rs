//! Points in time, and the reading of the system clock.

use vstd::prelude::*;

verus! {

/// The number of nanoseconds in a second.
pub const NANOS_PER_SEC: i128 = 1_000_000_000;

/// A point in time: whole seconds since the Unix epoch and the nanoseconds
/// that follow them.
#[derive(Debug, Clone, Copy, PartialEq, Eq, Structural)]
pub struct Timestamp {
    pub secs: i64,
    pub nanos: u32,
}

/// The length of `secs` seconds in nanoseconds.
pub open spec fn secs_to_nanos(secs: int) -> int {
    secs * NANOS_PER_SEC
}

impl Timestamp {
    /// The point in time as a count of nanoseconds since the Unix epoch.
    pub open spec fn total_nanos(self) -> int {
        self.secs * NANOS_PER_SEC + self.nanos
    }

    /// The point in time `nanos` nanoseconds after second `secs` of the Unix
    /// epoch.
    pub fn new(secs: i64, nanos: u32) -> (t: Timestamp)
        ensures
            t.secs == secs,
            t.nanos == nanos,
    {
        Timestamp { secs, nanos }
    }

    /// Whether a lifetime of `lifetime_secs` seconds that began at `self` has
    /// run out strictly before `now`.
    pub fn expired_at(&self, now: &Timestamp, lifetime_secs: i64) -> (expired: bool)
        ensures
            expired == (self.total_nanos() + secs_to_nanos(lifetime_secs as int) < now.total_nanos()),
    {
        let begun: i128 = self.secs as i128 * NANOS_PER_SEC + self.nanos as i128;
        let lifetime: i128 = lifetime_secs as i128 * NANOS_PER_SEC;
        let current: i128 = now.secs as i128 * NANOS_PER_SEC + now.nanos as i128;
        begun + lifetime < current
    }
}

/// Reads the system clock through `chrono::Utc::now`, and takes the result
/// apart with `DateTime::timestamp` and `DateTime::timestamp_subsec_nanos`.
///
/// Nothing is claimed of the time that comes back: two readings may differ
/// in any way. `Utc::now` panics if the system clock stands before the Unix
/// epoch, or so far after it that chrono cannot hold the date.
#[verifier::external_body]
pub(crate) fn system_time() -> (now: Timestamp) {
    let now = chrono::Utc::now();
    Timestamp { secs: now.timestamp(), nanos: now.timestamp_subsec_nanos() }
}

} // verus!
