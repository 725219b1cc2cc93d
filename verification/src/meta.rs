//! What a stamped path tells: the text before the stamp, the stamp, the
//! text behind it, and the moment that the stamp spells.

use vstd::prelude::*;
use vstd::string::*;
use vstd::utf8::{
    decode_utf8, encode_utf8, encode_utf8_decode_utf8, encode_utf8_valid_utf8, is_char_boundary,
    is_char_boundary_iff_not_is_continuation_byte, is_char_boundary_start_end_of_seq,
};
use crate::calendar::spec_to_utc;
use crate::codec::{datetime_from_iso_string, spec_decode};
use crate::detect::{
    lemma_first_stamp_is_leftmost, lemma_stamp_on_char_boundaries, path_datetime_indices,
    spec_find,
};
use crate::error::StampError;
use crate::paths::{file_name_of, parent_of, path_file_name, path_parent};
use crate::timestamp::{Moment, Timestamp};

verus! {

/// Cuts `text` in three at two character boundaries, given as byte offsets.
fn cut<'a>(text: &'a str, start: usize, end: usize) -> (r: (&'a str, &'a str, &'a str))
    requires
        start <= end <= text.spec_bytes().len(),
        is_char_boundary(text.spec_bytes(), start as int),
        is_char_boundary(text.spec_bytes(), end as int),
    ensures
        r.0@ == decode_utf8(text.spec_bytes().subrange(0, start as int)),
        r.1@ == decode_utf8(text.spec_bytes().subrange(start as int, end as int)),
        r.2@ == decode_utf8(
            text.spec_bytes().subrange(end as int, text.spec_bytes().len() as int),
        ),
{
    let ghost bytes = text.spec_bytes();
    let (front, tail) = text.split_at(end);
    proof {
        encode_utf8_valid_utf8(text@);
        encode_utf8_valid_utf8(front@);
        if start < end {
            is_char_boundary_iff_not_is_continuation_byte(bytes, start as int);
            is_char_boundary_iff_not_is_continuation_byte(front.spec_bytes(), start as int);
        } else {
            is_char_boundary_start_end_of_seq(front.spec_bytes());
        }
    }
    let (head, middle) = front.split_at(start);
    proof {
        encode_utf8_decode_utf8(head@);
        encode_utf8_decode_utf8(middle@);
        encode_utf8_decode_utf8(tail@);
        assert(head.spec_bytes() =~= bytes.subrange(0, start as int));
        assert(middle.spec_bytes() =~= bytes.subrange(start as int, end as int));
    }
    (head, middle, tail)
}

/// The parts of a stamped path, as mathematical values.
pub struct StampedParts {
    pub file_string: Seq<char>,
    pub directory: Option<Seq<char>>,
    pub filename_full: Option<Seq<char>>,
    pub filename_prefix: Seq<char>,
    pub filename_datetime_string: Seq<char>,
    pub file_name_suffix: Seq<char>,
    pub orig_datetime: Moment,
    pub utc_datetime: Option<Moment>,
}

/// What a stamped path tells.
#[derive(Debug)]
pub struct FileNameMeta {
    /// The path as it was given.
    pub file_string: String,
    /// The parent of the path, where it has one.
    pub directory: Option<String>,
    /// The final component of the path, where it has one.
    pub filename_full: Option<String>,
    /// All of the path before the stamp.
    pub filename_prefix: String,
    /// The stamp.
    pub filename_datetime_string: String,
    /// All of the path behind the stamp.
    pub file_name_suffix: String,
    /// The moment that the stamp spells.
    pub orig_datetime: Timestamp,
    /// The same instant at UTC, where the calendar knows the date of the
    /// stamp.
    pub utc_datetime: Option<Timestamp>,
}

/// The characters of a text, if there is one.
pub open spec fn text_view(text: Option<String>) -> Option<Seq<char>> {
    match text {
        Some(text) => Some(text@),
        None => None,
    }
}

impl View for FileNameMeta {
    type V = StampedParts;

    open spec fn view(&self) -> StampedParts {
        StampedParts {
            file_string: self.file_string@,
            directory: text_view(self.directory),
            filename_full: text_view(self.filename_full),
            filename_prefix: self.filename_prefix@,
            filename_datetime_string: self.filename_datetime_string@,
            file_name_suffix: self.file_name_suffix@,
            orig_datetime: self.orig_datetime@,
            utc_datetime: match self.utc_datetime {
                Some(utc) => Some(utc@),
                None => None,
            },
        }
    }
}

/// What `path` tells, if it is stamped and its stamp is a compact datetime
/// text: the first stamp in it is taken, and the path is cut before and
/// behind it.
pub open spec fn spec_meta(path: Seq<char>) -> Option<StampedParts> {
    let bytes = encode_utf8(path);
    match spec_find(bytes) {
        Some((start, end)) => {
            let stamp = decode_utf8(bytes.subrange(start, end));
            match spec_decode(stamp) {
                Some(moment) => Some(
                    StampedParts {
                        file_string: path,
                        directory: path_parent(path),
                        filename_full: path_file_name(path),
                        filename_prefix: decode_utf8(bytes.subrange(0, start)),
                        filename_datetime_string: stamp,
                        file_name_suffix: decode_utf8(bytes.subrange(end, bytes.len() as int)),
                        orig_datetime: moment,
                        utc_datetime: spec_to_utc(moment),
                    },
                ),
                None => None,
            }
        },
        None => None,
    }
}

impl FileNameMeta {
    /// Reads what a stamped path tells.
    ///
    /// There is a result exactly when `parm_path` holds a stamp and the
    /// first stamp in it is a compact datetime text. A stamp in another
    /// spelling that the search accepts (without dashes, with colons, without
    /// a sign) is found and not read.
    pub fn new_from_path(parm_path: &str) -> (r: Option<Box<FileNameMeta>>)
        ensures
            r is Some <==> spec_meta(parm_path@) is Some,
            r matches Some(meta) ==> Some(meta@) == spec_meta(parm_path@),
    {
        let (start, end) = match path_datetime_indices(parm_path) {
            Some(found) => found,
            None => {
                return None;
            },
        };
        proof {
            encode_utf8_valid_utf8(parm_path@);
            lemma_first_stamp_is_leftmost(parm_path.spec_bytes(), 0);
            lemma_stamp_on_char_boundaries(parm_path.spec_bytes(), start as int);
        }
        let (prefix, stamp, suffix) = cut(parm_path, start, end);
        let moment = match datetime_from_iso_string(stamp) {
            Some(moment) => moment,
            None => {
                return None;
            },
        };
        let directory = match parent_of(parm_path) {
            Some(parent) => Some(String::from_str(parent)),
            None => None,
        };
        let filename_full = match file_name_of(parm_path) {
            Some(name) => Some(String::from_str(name)),
            None => None,
        };
        Some(
            Box::new(
                FileNameMeta {
                    file_string: String::from_str(parm_path),
                    directory,
                    filename_full,
                    filename_prefix: String::from_str(prefix),
                    filename_datetime_string: String::from_str(stamp),
                    file_name_suffix: String::from_str(suffix),
                    orig_datetime: moment,
                    utc_datetime: moment.to_utc(),
                },
            ),
        )
    }
}

/// A path that is known to hold a datetime stamp.
#[derive(Debug)]
pub struct DatedPathBuf {
    pathbuf: String,
}

impl View for DatedPathBuf {
    type V = Seq<char>;

    closed spec fn view(&self) -> Seq<char> {
        self.pathbuf@
    }
}

impl DatedPathBuf {
    /// What holds of every `DatedPathBuf`: its text holds a stamp.
    #[verifier::type_invariant]
    pub open spec fn is_dated(&self) -> bool {
        spec_find(encode_utf8(self@)) is Some
    }

    /// Takes a path in if it holds a datetime stamp.
    pub fn new_from_pathbuf(path_buffer: String) -> (r: Result<DatedPathBuf, StampError>)
        ensures
            r is Ok <==> spec_find(encode_utf8(path_buffer@)) is Some,
            r matches Ok(dated) ==> dated@ == path_buffer@,
            r matches Err(e) ==> e == StampError::NotStamped,
    {
        if path_datetime_indices(path_buffer.as_str()).is_some() {
            Ok(DatedPathBuf { pathbuf: path_buffer })
        } else {
            Err(StampError::NotStamped)
        }
    }

    /// The path.
    pub fn as_str(&self) -> (r: &str)
        ensures
            r@ == self@,
            spec_find(r.spec_bytes()) is Some,
    {
        proof {
            use_type_invariant(self);
        }
        self.pathbuf.as_str()
    }
}

/// Where the metadata of a path come from.
#[derive(Clone, Copy, Debug, PartialEq, Eq, Structural)]
pub enum MetadataSource {
    /// The path must exist and does not.
    Missing,
    /// The path is a directory: its entries are listed.
    Directory,
    /// The path stands for a single file or name.
    SingleName,
}

/// Decides where the metadata of a path come from, given what the file
/// system says of it.
pub fn metadata_source(must_exist: bool, exists: bool, is_dir: bool) -> (r: MetadataSource)
    ensures
        r == (if must_exist && !exists {
            MetadataSource::Missing
        } else if exists && is_dir {
            MetadataSource::Directory
        } else {
            MetadataSource::SingleName
        }),
{
    if must_exist && !exists {
        MetadataSource::Missing
    } else if exists && is_dir {
        MetadataSource::Directory
    } else {
        MetadataSource::SingleName
    }
}

} // verus!
