//! The JSON form of timestamps: the number of microseconds since the Unix
//! epoch.
use vstd::prelude::*;

use crate::jiff_bridge::{jiff_timestamp_as_microsecond, jiff_timestamp_from_microsecond};
use crate::sql_types::{tdiv, truncate_to, Instant, OutOfJiffRange, MAX_UNIX_SECOND, MIN_UNIX_SECOND};

verus! {

/// Whether a count of microseconds since the Unix epoch lies in jiff's range.
pub open spec fn unix_micros_in_range(micros: int) -> bool {
    MIN_UNIX_SECOND * 1_000_000 <= micros <= MAX_UNIX_SECOND * 1_000_000
}

/// Reads a timestamp from its JSON number of microseconds since the Unix
/// epoch; a count outside jiff's range is refused.
pub fn deserialize(timestamp_micros: i64) -> (timestamp: Result<Instant, OutOfJiffRange>)
    ensures
        timestamp is Ok <==> unix_micros_in_range(timestamp_micros as int),
        timestamp matches Ok(t) ==> t.wf() && t.nanos() == timestamp_micros * 1000,
{
    match jiff_timestamp_from_microsecond(timestamp_micros) {
        Ok(t) => Ok(t),
        Err(cause) => Err(OutOfJiffRange::refused(cause)),
    }
}

/// Writes a timestamp as its JSON number of microseconds since the Unix
/// epoch, truncating any nanoseconds toward the Unix epoch.
pub fn serialize(timestamp: &Instant) -> (micros: i64)
    requires
        timestamp.wf(),
    ensures
        micros == tdiv(timestamp.nanos(), 1000),
{
    jiff_timestamp_as_microsecond(*timestamp)
}

/// Writing a timestamp read from JSON gives back the same number. Reading a
/// written timestamp gives back the instant truncated toward the Unix epoch
/// to whole microseconds, for every instant but those in the last second of
/// jiff's range past its first microsecond: their count lies beyond the
/// microseconds jiff accepts, and reading it back is refused.
pub proof fn lemma_json_round_trip(micros: int, instant: Instant)
    requires
        instant.wf(),
    ensures
        unix_micros_in_range(micros) ==> tdiv(micros * 1000, 1000) == micros,
        unix_micros_in_range(tdiv(instant.nanos(), 1000)) <==> instant.nanos() < MAX_UNIX_SECOND
            * 1_000_000_000 + 1000,
        tdiv(instant.nanos(), 1000) * 1000 == truncate_to(instant.nanos(), 1000),
{
}

} // verus!
