//! Putting a datetime stamp into a file name or a path.
//!
//! The stamp goes between the stem and the extension chain, joined to the
//! stem by `_`: `report.tar.gz` becomes `report_1955-11-05T011011-0800.tar.gz`.

use vstd::prelude::*;
use vstd::string::*;
use crate::clock::{current_time_per_zone, shown_at};
use crate::codec::spec_encode;
use crate::error::StampError;
use crate::parts::{
    is_single_dot, parse_filename_parts, spec_extension, spec_rebuild, spec_stem,
};
use crate::paths::{
    file_name_of, join_paths, parent_of, path_file_name, path_join, path_parent,
};
use crate::timestamp::{Moment, Timestamp};

verus! {

/// The offset, in minutes east of UTC, at which the current time is taken
/// where no timestamp is given.
pub const DEFAULT_OFFSET_MINUTES: i32 = 0;

/// `name` with the compact text of `m` behind its stem.
pub open spec fn spec_stamp(name: Seq<char>, m: Moment) -> Seq<char> {
    match spec_extension(name) {
        Some(extension) => spec_stem(name) + seq!['_'] + spec_encode(m) + seq!['.'] + extension,
        None => spec_stem(name) + seq!['_'] + spec_encode(m),
    }
}

/// `path` with its final component `name` stamped and its parent, where it
/// has one, left as it is.
pub open spec fn spec_stamp_path(path: Seq<char>, name: Seq<char>, m: Moment) -> Seq<char> {
    match path_parent(path) {
        Some(parent) => path_join(parent, spec_stamp(name, m)),
        None => spec_stamp(name, m),
    }
}

/// The final component of `path`, where it has one that can be stamped:
/// one that is not the name `.`.
pub open spec fn stampable_name(path: Seq<char>) -> Option<Seq<char>> {
    match path_file_name(path) {
        Some(name) if !is_single_dot(name) => Some(name),
        _ => None,
    }
}

/// The timestamp to stamp with: the one that is given, or else the current
/// time at the default offset.
fn resolve(parm_date_time: &Option<Timestamp>) -> (r: Option<Timestamp>)
    ensures
        parm_date_time is Some ==> r == *parm_date_time,
        parm_date_time is None ==> (r matches Some(now) ==> now@.valid() && now@.offset_minutes
            == DEFAULT_OFFSET_MINUTES && shown_at(now@, DEFAULT_OFFSET_MINUTES as int)),
{
    match parm_date_time {
        Some(given) => Some(*given),
        None => current_time_per_zone(DEFAULT_OFFSET_MINUTES),
    }
}

/// Writes a timestamp as compact datetime text; without a timestamp, the
/// current time at the default offset.
///
/// A given timestamp always has its text. The current time has one unless
/// the clock stands before 1970 or shows a year that does not fit in four
/// digits.
pub fn datetime_to_iso_string(parm_date_time: &Option<Timestamp>) -> (r: Option<String>)
    ensures
        parm_date_time matches Some(given) ==> r matches Some(text) && text@ == spec_encode(
            given@,
        ),
        parm_date_time is None ==> (r matches Some(text) ==> exists|now: Moment|
            {
                &&& now.valid()
                &&& now.offset_minutes == DEFAULT_OFFSET_MINUTES
                &&& shown_at(now, DEFAULT_OFFSET_MINUTES as int)
                &&& text@ == spec_encode(now)
            }),
{
    match resolve(parm_date_time) {
        Some(moment) => Some(moment.to_iso_string()),
        None => None,
    }
}

/// Stamps `name` with `moment`.
///
/// The only name that is refused is `.`. The stamp goes behind the stem;
/// the extension chain, if the name has one, follows it behind a dot.
pub fn stamp_with(name: &str, moment: &Timestamp) -> (r: Result<String, StampError>)
    ensures
        r is Err <==> is_single_dot(name@),
        r matches Err(e) ==> e == StampError::InvalidName,
        r matches Ok(stamped) ==> stamped@ == spec_stamp(name@, moment@),
{
    let (stem, extension) = match parse_filename_parts(name) {
        Ok(parts) => parts,
        Err(e) => {
            return Err(e);
        },
    };
    let mut stamped = String::from_str(stem);
    stamped.append("_");
    stamped.append(moment.to_iso_string().as_str());
    match extension {
        Some(extension) => {
            stamped.append(".");
            stamped.append(extension);
        },
        None => {},
    }
    proof {
        reveal_strlit("_");
        reveal_strlit(".");
        assert(stamped@ =~= spec_stamp(name@, moment@));
    }
    Ok(stamped)
}

/// Stamps `parm_file_name` with the given timestamp or, without one, with
/// the current time at the default offset.
///
/// The name `.` is refused, whatever the timestamp. With a timestamp every
/// other name is stamped. Without one the clock decides: a time before
/// 1970 and a year beyond four digits cannot be written.
pub fn stamp_str(parm_file_name: &str, parm_date_time: &Option<Timestamp>) -> (r: Result<
    String,
    StampError,
>)
    ensures
        is_single_dot(parm_file_name@) ==> r == Err::<String, StampError>(
            StampError::InvalidName,
        ),
        !is_single_dot(parm_file_name@) ==> match *parm_date_time {
            Some(given) => r matches Ok(stamped) && stamped@ == spec_stamp(
                parm_file_name@,
                given@,
            ),
            None => r == Err::<String, StampError>(StampError::ClockOutOfRange) || exists|
                now: Moment,
            |
                {
                    &&& now.valid()
                    &&& now.offset_minutes == DEFAULT_OFFSET_MINUTES
                    &&& shown_at(now, DEFAULT_OFFSET_MINUTES as int)
                    &&& r matches Ok(stamped) && stamped@ == spec_stamp(parm_file_name@, now)
                },
        },
{
    if parm_file_name.unicode_len() == 1 && parm_file_name.get_char(0) == '.' {
        return Err(StampError::InvalidName);
    }
    match resolve(parm_date_time) {
        Some(moment) => {
            let r = stamp_with(parm_file_name, &moment);
            assert(r matches Ok(stamped) && stamped@ == spec_stamp(parm_file_name@, moment@));
            r
        },
        None => Err(StampError::ClockOutOfRange),
    }
}

/// Stamps the final component of `path` with `moment` and leaves the
/// parent, where there is one, as it is.
pub fn stamp_path_with(path: &str, moment: &Timestamp) -> (r: Result<String, StampError>)
    ensures
        path_file_name(path@) is None ==> r == Err::<String, StampError>(StampError::NoFileName),
        path_file_name(path@) matches Some(name) && is_single_dot(name) ==> r == Err::<
            String,
            StampError,
        >(StampError::InvalidName),
        stampable_name(path@) matches Some(name) ==> r matches Ok(stamped) && stamped@
            == spec_stamp_path(path@, name, moment@),
{
    let name = match file_name_of(path) {
        Some(name) => name,
        None => {
            return Err(StampError::NoFileName);
        },
    };
    let stamped = match stamp_with(name, moment) {
        Ok(stamped) => stamped,
        Err(e) => {
            return Err(e);
        },
    };
    match parent_of(path) {
        Some(parent) => Ok(join_paths(parent, stamped.as_str())),
        None => Ok(stamped),
    }
}

/// Stamps the final component of `parm_path` with the given timestamp or,
/// without one, with the current time at the default offset.
///
/// A path without a final component and one that ends in the name `.` are
/// refused, whatever the timestamp. With a timestamp every other path is
/// stamped. Without one the clock decides: a time before 1970 and a year
/// beyond four digits cannot be written.
pub fn stamp_path(parm_path: &str, parm_date_time: &Option<Timestamp>) -> (r: Result<
    String,
    StampError,
>)
    ensures
        path_file_name(parm_path@) is None ==> r == Err::<String, StampError>(
            StampError::NoFileName,
        ),
        path_file_name(parm_path@) matches Some(name) && is_single_dot(name) ==> r == Err::<
            String,
            StampError,
        >(StampError::InvalidName),
        stampable_name(parm_path@) matches Some(name) ==> match *parm_date_time {
            Some(given) => r matches Ok(stamped) && stamped@ == spec_stamp_path(
                parm_path@,
                name,
                given@,
            ),
            None => r == Err::<String, StampError>(StampError::ClockOutOfRange) || exists|
                now: Moment,
            |
                {
                    &&& now.valid()
                    &&& now.offset_minutes == DEFAULT_OFFSET_MINUTES
                    &&& shown_at(now, DEFAULT_OFFSET_MINUTES as int)
                    &&& r matches Ok(stamped) && stamped@ == spec_stamp_path(
                        parm_path@,
                        name,
                        now,
                    )
                },
        },
{
    match parm_date_time {
        Some(given) => stamp_path_with(parm_path, given),
        None => {
            match file_name_of(parm_path) {
                Some(name) => {
                    if name.unicode_len() == 1 && name.get_char(0) == '.' {
                        return Err(StampError::InvalidName);
                    }
                },
                None => {
                    return Err(StampError::NoFileName);
                },
            }
            match current_time_per_zone(DEFAULT_OFFSET_MINUTES) {
                Some(now) => {
                    let r = stamp_path_with(parm_path, &now);
                    assert(r matches Ok(stamped) && stamped@ == spec_stamp_path(
                        parm_path@,
                        stampable_name(parm_path@)->0,
                        now@,
                    ));
                    r
                },
                None => Err(StampError::ClockOutOfRange),
            }
        },
    }
}

/// The parts of a file name, as mathematical values.
pub struct FileNameParts {
    pub stem: Seq<char>,
    pub extension: Option<Seq<char>>,
    pub directory: Option<Seq<char>>,
}

/// A file name that was split into stem and extension chain, with the
/// directory that the text names as its parent.
#[derive(Debug)]
pub struct FileName {
    stem: String,
    extension: Option<String>,
    directory: Option<String>,
}

impl View for FileName {
    type V = FileNameParts;

    closed spec fn view(&self) -> FileNameParts {
        FileNameParts {
            stem: self.stem@,
            extension: match self.extension {
                Some(extension) => Some(extension@),
                None => None,
            },
            directory: match self.directory {
                Some(directory) => Some(directory@),
                None => None,
            },
        }
    }
}

impl FileName {
    /// Splits `some_string` into stem and extension chain and notes its
    /// parent directory. The only text that is refused is `.`.
    pub fn new(some_string: &str) -> (r: Result<FileName, StampError>)
        ensures
            r is Err <==> is_single_dot(some_string@),
            r matches Err(e) ==> e == StampError::InvalidName,
            r matches Ok(name) ==> name@ == (FileNameParts {
                stem: spec_stem(some_string@),
                extension: spec_extension(some_string@),
                directory: path_parent(some_string@),
            }),
    {
        let (stem, extension) = match parse_filename_parts(some_string) {
            Ok(parts) => parts,
            Err(e) => {
                return Err(e);
            },
        };
        let extension = match extension {
            Some(extension) => Some(String::from_str(extension)),
            None => None,
        };
        let directory = match parent_of(some_string) {
            Some(parent) => Some(String::from_str(parent)),
            None => None,
        };
        Ok(FileName { stem: String::from_str(stem), extension, directory })
    }

    /// The stem.
    pub fn stem(&self) -> (r: &str)
        ensures
            r@ == self@.stem,
    {
        self.stem.as_str()
    }

    /// The extension chain, if the name has one.
    pub fn extension(&self) -> (r: Option<&str>)
        ensures
            r is Some <==> self@.extension is Some,
            r matches Some(extension) ==> Some(extension@) == self@.extension,
    {
        match &self.extension {
            Some(extension) => Some(extension.as_str()),
            None => None,
        }
    }

    /// The parent directory, if the text named one.
    pub fn directory(&self) -> (r: Option<&str>)
        ensures
            r is Some <==> self@.directory is Some,
            r matches Some(directory) ==> Some(directory@) == self@.directory,
    {
        match &self.directory {
            Some(directory) => Some(directory.as_str()),
            None => None,
        }
    }

    /// Puts stem and extension chain together again, with a dot between
    /// them where there is an extension.
    pub fn to_owned_str(&self) -> (r: String)
        ensures
            r@ == spec_rebuild(self@.stem, self@.extension),
    {
        let mut whole = self.stem.clone();
        match &self.extension {
            Some(extension) => {
                whole.append(".");
                whole.append(extension.as_str());
            },
            None => {},
        }
        proof {
            reveal_strlit(".");
            assert(whole@ =~= spec_rebuild(self@.stem, self@.extension));
        }
        whole
    }
}

} // verus!
