//! Points in time as plain numbers, and the one call that reads the clock.

use vstd::prelude::*;

verus! {

/// Seconds in the lifetime of a bearer token (24 hours).
pub const TOKEN_LIFETIME_SECS: i64 = 86_400;

/// A point in time: whole seconds since the Unix epoch (UTC) and the
/// nanoseconds past that second.
#[derive(Clone, Copy, Debug, PartialEq, Eq, Structural)]
pub struct Timestamp {
    pub secs: i64,
    pub nanos: u32,
}

impl Timestamp {
    /// The instant `secs` seconds after the Unix epoch.
    pub fn from_secs(secs: i64) -> (r: Timestamp)
        ensures
            r.secs == secs,
            r.nanos == 0,
    {
        Timestamp { secs, nanos: 0 }
    }
}

/// Reads the system clock through `chrono::Utc::now`.
///
/// Trusted: the reading is not before the Unix epoch, its second count fits
/// in 48 bits (chrono builds the value with `DateTime::from_timestamp`, which
/// takes only day numbers that fit in 32 bits). Nothing else is known of the
/// value.
#[verifier::external_body]
pub(crate) fn now() -> (r: Timestamp)
    ensures
        0 <= r.secs < 0x1_0000_0000_0000,
{
    let t = chrono::Utc::now();
    Timestamp { secs: t.timestamp(), nanos: t.timestamp_subsec_nanos() }
}

} // verus!
