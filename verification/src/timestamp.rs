//! The instant at which a block was made, held as plain integers.

use chrono::Local;
use vstd::prelude::*;

verus! {

/// An instant on the UTC time line: whole seconds since 1970-01-01 00:00:00
/// and the nanoseconds that have passed since that second began.
#[derive(Debug, Clone, Copy, PartialEq, Eq, Structural)]
pub struct Timestamp {
    pub secs: i64,
    pub nanos: u32,
}

impl Timestamp {
    /// The instant `secs` seconds and `nanos` nanoseconds after the epoch.
    pub fn new(secs: i64, nanos: u32) -> (t: Timestamp)
        ensures
            t.secs == secs,
            t.nanos == nanos,
    {
        Timestamp { secs, nanos }
    }
}

/// Reads the wall clock through `chrono::Local::now` and keeps what
/// `DateTime::timestamp` and `DateTime::timestamp_subsec_nanos` report of it.
/// Nothing is claimed of the instant: two readings may differ in any way.
/// chrono stops the program where the system clock stands before 1970.
#[verifier::external_body]
pub(crate) fn wall_clock() -> (t: Timestamp) {
    let now = Local::now();
    Timestamp { secs: now.timestamp(), nanos: now.timestamp_subsec_nanos() }
}

} // verus!
