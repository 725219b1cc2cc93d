//! The current time.

use vstd::prelude::*;
use crate::calendar::{spec_at, timestamp_at};
use crate::timestamp::{Moment, Timestamp};

verus! {

/// Reads the system clock with `std::time::SystemTime::now` and counts the
/// whole seconds since the start of 1970 at UTC. There is no count where the
/// clock stands before 1970.
///
/// Not proved, and nothing is claimed: what the clock shows is known to
/// nobody beforehand, and two readings need not agree.
#[verifier::external_body]
fn clock_seconds() -> (r: Option<i64>) {
    let since = std::time::SystemTime::now().duration_since(std::time::UNIX_EPOCH).ok()?;
    i64::try_from(since.as_secs()).ok()
}

/// `m` is what some instant looks like at the given offset.
pub open spec fn shown_at(m: Moment, offset_minutes: int) -> bool {
    exists|unix_seconds: i64| Some(m) == #[trigger] spec_at(unix_seconds, offset_minutes)
}

/// The current time at a fixed offset of `offset_minutes` minutes east of
/// UTC: the instant that the clock shows, as `timestamp_at` places it at
/// the offset.
///
/// There is no timestamp where the offset is a day or more, where the
/// clock stands before 1970, or where the year at the offset does not fit
/// in four digits.
pub fn current_time_per_zone(offset_minutes: i32) -> (r: Option<Timestamp>)
    ensures
        !(-1440 < offset_minutes < 1440) ==> r is None,
        r matches Some(t) ==> {
            &&& t@.valid()
            &&& t@.offset_minutes == offset_minutes
            &&& shown_at(t@, offset_minutes as int)
        },
{
    match clock_seconds() {
        Some(now) => timestamp_at(now, offset_minutes),
        None => None,
    }
}

} // verus!
