use chrono::TimeZone;
use vstd::prelude::*;

verus! {

/// The largest departure timestamp (milliseconds since the Unix epoch) that the
/// board accepts. Its year lies well inside the calendar range that chrono can
/// represent, so converting it to a local time cannot fail.
pub const MAX_TIMESTAMP_MS: u64 = 8_000_000_000_000_000;

/// A local-zoned instant: the instant itself, as milliseconds since the Unix
/// epoch, together with the local time zone's offset from UTC at that instant.
#[derive(Clone, Copy, Debug, PartialEq, Eq, Structural)]
pub struct LocalTime {
    pub epoch_ms: i64,
    pub offset_secs: i32,
}

impl LocalTime {
    /// The instant lies in the accepted range and the offset is less than a day.
    pub open spec fn wf(self) -> bool {
        &&& 0 <= self.epoch_ms <= MAX_TIMESTAMP_MS
        &&& -86400 < self.offset_secs < 86400
    }

    /// The local time zone's view of the instant `ms` milliseconds after the epoch.
    pub fn from_epoch_ms(ms: u64) -> (r: LocalTime)
        requires
            ms <= MAX_TIMESTAMP_MS,
        ensures
            r.wf(),
            r.epoch_ms == ms,
    {
        let epoch_ms = ms as i64;
        let offset_secs = local_offset_secs(epoch_ms);
        LocalTime { epoch_ms, offset_secs }
    }
}

/// Relies on chrono's `TimeZone::timestamp_millis_opt` for `Local`: a timestamp
/// inside chrono's calendar range maps to exactly one local date-time, whose
/// `FixedOffset::local_minus_utc` lies strictly between minus and plus one day.
#[verifier::external_body]
fn local_offset_secs(ms: i64) -> (r: i32)
    requires
        0 <= ms <= MAX_TIMESTAMP_MS,
    ensures
        -86400 < r < 86400,
{
    chrono::Local.timestamp_millis_opt(ms).unwrap().offset().local_minus_utc()
}

} // verus!
