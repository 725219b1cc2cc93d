//! The ways in which an operation of this crate can fail.

use vstd::prelude::*;

verus! {

/// Why a name or a path could not be worked on.
#[derive(Clone, Copy, Debug, PartialEq, Eq, Structural)]
pub enum StampError {
    /// The name is the single character `.`, which names no file.
    InvalidName,
    /// The clock shows a time before 1970 or a year that does not fit in
    /// four digits.
    ClockOutOfRange,
    /// The path carries no datetime stamp.
    NotStamped,
    /// The path has no final component that could be stamped.
    NoFileName,
}

impl StampError {
    /// The text of the message for an error.
    pub open spec fn spec_message(self) -> Seq<char> {
        match self {
            StampError::InvalidName => {
                "Invalid file name: single Unicode character U+002E (period, full stop)"@
            },
            StampError::ClockOutOfRange => "The clock shows a time before 1970 or a year beyond four digits."@,
            StampError::NotStamped => "Path does not contain an ISO 8601 datetime."@,
            StampError::NoFileName => "Path has no file name."@,
        }
    }

    /// A message for the error.
    pub fn message(&self) -> (r: &'static str)
        ensures
            r@ == self.spec_message(),
    {
        match self {
            StampError::InvalidName => {
                "Invalid file name: single Unicode character U+002E (period, full stop)"
            },
            StampError::ClockOutOfRange => "The clock shows a time before 1970 or a year beyond four digits.",
            StampError::NotStamped => "Path does not contain an ISO 8601 datetime.",
            StampError::NoFileName => "Path has no file name.",
        }
    }
}

} // verus!
