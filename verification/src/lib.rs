//! Datetime stamps in file names.
//!
//! The crate splits a file name into stem and extension chain, encodes and
//! decodes the compact datetime text `YYYY-MM-DDTHHMMSS±HHMM`, finds such text
//! inside a path, and puts a stamp between a name's stem and its extension.

use vstd::prelude::*;
use vstd::string::*;

pub mod calendar;
pub mod clock;
pub mod codec;
pub mod detect;
pub mod error;
pub mod meta;
pub mod parts;
pub mod paths;
pub mod stamp;
pub mod timestamp;

pub use crate::calendar::timestamp_at;
pub use crate::clock::current_time_per_zone;
pub use crate::codec::datetime_from_iso_string;
pub use crate::detect::{is_path_datetime_stamped, path_datetime_indices};
pub use crate::error::StampError;
pub use crate::parts::parse_filename_parts;
pub use crate::stamp::{datetime_to_iso_string, FileName};
pub use crate::timestamp::Timestamp;

verus! {

/// Reads compact datetime text: `Some` exactly when the whole of
/// `dt_as_string` is such a text, and then the moment that it spells.
pub fn datetime_from_string(dt_as_string: &str) -> (r: Option<Timestamp>)
    ensures
        r is Some <==> crate::codec::spec_decode(dt_as_string@) is Some,
        r matches Some(t) ==> Some(t@) == crate::codec::spec_decode(dt_as_string@),
{
    datetime_from_iso_string(dt_as_string)
}

/// Says whether `path` holds a datetime stamp.
pub fn is_path_file8601(path: &str) -> (r: bool)
    ensures
        r == crate::detect::spec_find(path.spec_bytes()) is Some,
{
    is_path_datetime_stamped(path)
}

} // verus!
