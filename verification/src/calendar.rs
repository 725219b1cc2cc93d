//! Instants and the wall-clock times that stand for them.
//!
//! Which date an instant falls on, and which date a wall-clock time has at
//! another offset, is for the calendar to say. The calendar is chrono's.

use chrono::{Datelike, Timelike};
use vstd::prelude::*;
use crate::timestamp::{Moment, Timestamp};

verus! {

/// The fields (year, month, day, hour, minute, second) of the wall-clock time
/// that the instant `unix_seconds` seconds after the start of 1970 at UTC has
/// at `offset_seconds` seconds east of UTC, as chrono computes them; `None`
/// where chrono knows no such instant or no such offset.
pub uninterp spec fn local_fields(unix_seconds: i64, offset_seconds: i32) -> Option<
    (i32, u32, u32, u32, u32, u32),
>;

/// Makes the instant with `chrono::DateTime::from_timestamp`, moves it to
/// the offset with `chrono::DateTime::with_timezone`, and takes the fields
/// out.
///
/// Not proved: the result is taken to be `local_fields` of the arguments,
/// which claims only that it depends on nothing but them.
#[verifier::external_body]
fn chrono_local_fields(unix_seconds: i64, offset_seconds: i32) -> (r: Option<
    (i32, u32, u32, u32, u32, u32),
>)
    ensures
        r == local_fields(unix_seconds, offset_seconds),
{
    let zone = chrono::FixedOffset::east_opt(offset_seconds)?;
    let local = chrono::DateTime::from_timestamp(unix_seconds, 0)?.with_timezone(&zone);
    Some((local.year(), local.month(), local.day(), local.hour(), local.minute(), local.second()))
}

/// The moment that the instant `unix_seconds` seconds after the start of
/// 1970 at UTC is at `offset_minutes` minutes east of UTC, if the offset is
/// less than a day, the calendar knows the instant and the year at the
/// offset fits in four digits.
pub open spec fn spec_at(unix_seconds: i64, offset_minutes: int) -> Option<Moment> {
    if -1440 < offset_minutes < 1440 {
        match local_fields(unix_seconds, (offset_minutes * 60) as i32) {
            Some(fields) => {
                let local = Moment {
                    year: fields.0 as int,
                    month: fields.1 as int,
                    day: fields.2 as int,
                    hour: fields.3 as int,
                    minute: fields.4 as int,
                    second: fields.5 as int,
                    offset_minutes,
                };
                if local.valid() {
                    Some(local)
                } else {
                    None
                }
            },
            None => None,
        }
    } else {
        None
    }
}

/// The timestamp of an instant, given in seconds since the start of 1970 at
/// UTC, at a fixed offset of `offset_minutes` minutes east of UTC.
pub fn timestamp_at(unix_seconds: i64, offset_minutes: i32) -> (r: Option<Timestamp>)
    ensures
        r is Some <==> spec_at(unix_seconds, offset_minutes as int) is Some,
        r matches Some(t) ==> Some(t@) == spec_at(unix_seconds, offset_minutes as int),
{
    if -1440 < offset_minutes && offset_minutes < 1440 {
        match chrono_local_fields(unix_seconds, offset_minutes * 60) {
            Some((year, month, day, hour, minute, second)) => Timestamp::new(
                year,
                month,
                day,
                hour,
                minute,
                second,
                offset_minutes,
            ),
            None => None,
        }
    } else {
        None
    }
}

/// The fields (year, month, day, hour, minute, second) of the UTC time of the
/// instant that the given fields name at `offset_seconds` seconds east of
/// UTC, as chrono computes them; `None` where chrono knows no such instant
/// (a day that the month does not have, for one).
pub uninterp spec fn utc_fields(
    year: i32,
    month: u32,
    day: u32,
    hour: u32,
    minute: u32,
    second: u32,
    offset_seconds: i32,
) -> Option<(i32, u32, u32, u32, u32, u32)>;

/// Builds the local time with `chrono::NaiveDate::from_ymd_opt` and
/// `chrono::NaiveDate::and_hms_opt`, places it at the offset with
/// `chrono::TimeZone::from_local_datetime`, moves it to UTC with
/// `chrono::DateTime::with_timezone`, and takes the fields out.
///
/// Not proved: the result is taken to be `utc_fields` of the arguments,
/// which claims only that it depends on nothing but them.
#[verifier::external_body]
fn chrono_utc_fields(
    year: i32,
    month: u32,
    day: u32,
    hour: u32,
    minute: u32,
    second: u32,
    offset_seconds: i32,
) -> (r: Option<(i32, u32, u32, u32, u32, u32)>)
    ensures
        r == utc_fields(year, month, day, hour, minute, second, offset_seconds),
{
    let zone = chrono::FixedOffset::east_opt(offset_seconds)?;
    let date = chrono::NaiveDate::from_ymd_opt(year, month, day)?;
    let local = date.and_hms_opt(hour, minute, second)?;
    let placed = chrono::TimeZone::from_local_datetime(&zone, &local).single()?;
    let utc = placed.with_timezone(&chrono::Utc);
    Some((utc.year(), utc.month(), utc.day(), utc.hour(), utc.minute(), utc.second()))
}

/// The moment at UTC that names the same instant as `m`, if the calendar
/// knows the date of `m` and the year at UTC still fits in four digits.
pub open spec fn spec_to_utc(m: Moment) -> Option<Moment> {
    match utc_fields(
        m.year as i32,
        m.month as u32,
        m.day as u32,
        m.hour as u32,
        m.minute as u32,
        m.second as u32,
        (m.offset_minutes * 60) as i32,
    ) {
        Some(fields) => {
            let utc = Moment {
                year: fields.0 as int,
                month: fields.1 as int,
                day: fields.2 as int,
                hour: fields.3 as int,
                minute: fields.4 as int,
                second: fields.5 as int,
                offset_minutes: 0,
            };
            if utc.valid() {
                Some(utc)
            } else {
                None
            }
        },
        None => None,
    }
}

impl Timestamp {
    /// The same instant as a timestamp at UTC.
    pub fn to_utc(&self) -> (r: Option<Timestamp>)
        ensures
            r is Some <==> spec_to_utc(self@) is Some,
            r matches Some(utc) ==> Some(utc@) == spec_to_utc(self@),
    {
        let offset = self.offset_minutes();
        let fields = chrono_utc_fields(
            self.year() as i32,
            self.month(),
            self.day(),
            self.hour(),
            self.minute(),
            self.second(),
            offset * 60,
        );
        match fields {
            Some((year, month, day, hour, minute, second)) => Timestamp::new(
                year,
                month,
                day,
                hour,
                minute,
                second,
                0,
            ),
            None => None,
        }
    }
}

} // verus!
