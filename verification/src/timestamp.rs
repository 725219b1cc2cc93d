//! A wall-clock time together with a fixed offset from UTC.

use vstd::prelude::*;

verus! {

/// The mathematical value of a [`Timestamp`]: the fields of a wall-clock
/// time and the minutes by which it is ahead of UTC (negative: behind).
pub struct Moment {
    pub year: int,
    pub month: int,
    pub day: int,
    pub hour: int,
    pub minute: int,
    pub second: int,
    pub offset_minutes: int,
}

impl Moment {
    /// Every field is in its range. The year fits in four digits. The day
    /// is held to `1..=31` whatever the month: the calendar is not consulted.
    /// The offset is less than a day to either side, so that its hours fit
    /// in the two digits `00` to `23`.
    pub open spec fn valid(self) -> bool {
        &&& 0 <= self.year <= 9999
        &&& 1 <= self.month <= 12
        &&& 1 <= self.day <= 31
        &&& 0 <= self.hour <= 23
        &&& 0 <= self.minute <= 59
        &&& 0 <= self.second <= 59
        &&& -1440 < self.offset_minutes < 1440
    }

    /// The same wall-clock time at another offset.
    pub open spec fn with_offset(self, offset_minutes: int) -> Moment {
        Moment { offset_minutes, ..self }
    }
}

/// A wall-clock time with a fixed offset from UTC. Every value of this type
/// is valid: its fields are in the ranges of [`Moment::valid`].
#[derive(Clone, Copy, Debug, PartialEq, Eq, Structural)]
pub struct Timestamp {
    year: u32,
    month: u32,
    day: u32,
    hour: u32,
    minute: u32,
    second: u32,
    offset_minutes: i32,
}

impl View for Timestamp {
    type V = Moment;

    closed spec fn view(&self) -> Moment {
        Moment {
            year: self.year as int,
            month: self.month as int,
            day: self.day as int,
            hour: self.hour as int,
            minute: self.minute as int,
            second: self.second as int,
            offset_minutes: self.offset_minutes as int,
        }
    }
}

impl Timestamp {
    /// What holds of every `Timestamp`.
    #[verifier::type_invariant]
    pub open spec fn wf(&self) -> bool {
        self@.valid()
    }

    /// Makes a timestamp from its fields, if every one of them is in its
    /// range. `offset_minutes` counts minutes east of UTC.
    pub fn new(
        year: i32,
        month: u32,
        day: u32,
        hour: u32,
        minute: u32,
        second: u32,
        offset_minutes: i32,
    ) -> (r: Option<Timestamp>)
        ensures
            r is Some <==> (Moment {
                year: year as int,
                month: month as int,
                day: day as int,
                hour: hour as int,
                minute: minute as int,
                second: second as int,
                offset_minutes: offset_minutes as int,
            }).valid(),
            r matches Some(t) ==> t@ == (Moment {
                year: year as int,
                month: month as int,
                day: day as int,
                hour: hour as int,
                minute: minute as int,
                second: second as int,
                offset_minutes: offset_minutes as int,
            }),
    {
        if 0 <= year && year <= 9999 && 1 <= month && month <= 12 && 1 <= day && day <= 31 && hour
            <= 23 && minute <= 59 && second <= 59 && -1440 < offset_minutes && offset_minutes
            < 1440 {
            Some(
                Timestamp {
                    year: year as u32,
                    month,
                    day,
                    hour,
                    minute,
                    second,
                    offset_minutes,
                },
            )
        } else {
            None
        }
    }

    /// The year, `0..=9999`.
    pub fn year(&self) -> (r: u32)
        ensures
            r == self@.year,
            self@.valid(),
    {
        proof {
            use_type_invariant(self);
        }
        self.year
    }

    /// The month, `1..=12`.
    pub fn month(&self) -> (r: u32)
        ensures
            r == self@.month,
            self@.valid(),
    {
        proof {
            use_type_invariant(self);
        }
        self.month
    }

    /// The day of the month, `1..=31`.
    pub fn day(&self) -> (r: u32)
        ensures
            r == self@.day,
            self@.valid(),
    {
        proof {
            use_type_invariant(self);
        }
        self.day
    }

    /// The hour, `0..=23`.
    pub fn hour(&self) -> (r: u32)
        ensures
            r == self@.hour,
            self@.valid(),
    {
        proof {
            use_type_invariant(self);
        }
        self.hour
    }

    /// The minute, `0..=59`.
    pub fn minute(&self) -> (r: u32)
        ensures
            r == self@.minute,
            self@.valid(),
    {
        proof {
            use_type_invariant(self);
        }
        self.minute
    }

    /// The second, `0..=59`.
    pub fn second(&self) -> (r: u32)
        ensures
            r == self@.second,
            self@.valid(),
    {
        proof {
            use_type_invariant(self);
        }
        self.second
    }

    /// The offset from UTC in minutes, positive to the east.
    pub fn offset_minutes(&self) -> (r: i32)
        ensures
            r == self@.offset_minutes,
            self@.valid(),
    {
        proof {
            use_type_invariant(self);
        }
        self.offset_minutes
    }
}

} // verus!
