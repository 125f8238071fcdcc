//! Readings of the clock, as plain values.

use vstd::prelude::*;

verus! {

/// A moment as `chrono` gives it: whole seconds since 1970 (UTC) and the
/// nanoseconds of the current second.
pub struct Zeitpunkt {
    pub sekunden: i64,
    pub nanos: u32,
}

/// Calls `chrono::Utc::now()` and gives its `timestamp()` and
/// `timestamp_subsec_nanos()`. The moment depends on the clock; nothing is
/// stated of it.
#[verifier::external_body]
pub fn utc_jetzt() -> (r: Zeitpunkt) {
    let t = chrono::Utc::now();
    Zeitpunkt { sekunden: t.timestamp(), nanos: t.timestamp_subsec_nanos() }
}

} // verus!
