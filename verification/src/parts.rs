//! Splitting a file name into its stem and its extension chain.
//!
//! The extension is found by the shape of the name, not by a list of known
//! suffixes. A leading dot marks a hidden file and separates nothing. After
//! it, every dot ends a segment. The first segment always belongs to the stem.
//! A later segment opens the extension chain when it starts with a character
//! that is no decimal digit; a segment that starts with a digit (a part of a
//! version number, as in `v1.7.5`) and an empty segment stay in the stem.

use vstd::prelude::*;
use vstd::string::*;
use crate::error::StampError;

verus! {

/// `c` is one of `0` to `9`.
pub open spec fn is_decimal_digit(c: char) -> bool {
    '0' <= c && c <= '9'
}

/// Where the search for separating dots starts: behind a leading dot, if the
/// name has one.
pub open spec fn scan_start(name: Seq<char>) -> int {
    if name.len() > 0 && name[0] == '.' {
        1
    } else {
        0
    }
}

/// The dot at index `at` is followed by a segment that can start an
/// extension chain.
pub open spec fn opens_extension(name: Seq<char>, at: int) -> bool {
    &&& scan_start(name) <= at
    &&& at + 1 < name.len()
    &&& name[at] == '.'
    &&& name[at + 1] != '.'
    &&& !is_decimal_digit(name[at + 1])
}

/// The first index from `from` on at which a dot opens the extension chain,
/// or the length of the name if there is none.
pub open spec fn boundary_from(name: Seq<char>, from: int) -> int
    decreases name.len() - from,
{
    if from >= name.len() {
        name.len() as int
    } else if opens_extension(name, from) {
        from
    } else {
        boundary_from(name, from + 1)
    }
}

/// The index of the dot between stem and extension, or the length of the
/// name if it has no extension.
pub open spec fn boundary(name: Seq<char>) -> int {
    boundary_from(name, 0)
}

/// The name has an extension.
pub open spec fn has_extension(name: Seq<char>) -> bool {
    boundary(name) < name.len()
}

/// The stem of `name`: all of it before the separating dot.
pub open spec fn spec_stem(name: Seq<char>) -> Seq<char> {
    name.subrange(0, boundary(name))
}

/// The extension chain of `name`: all of it behind the separating dot.
pub open spec fn spec_extension(name: Seq<char>) -> Option<Seq<char>> {
    if has_extension(name) {
        Some(name.subrange(boundary(name) + 1, name.len() as int))
    } else {
        None
    }
}

/// The name is the single character `.`.
pub open spec fn is_single_dot(name: Seq<char>) -> bool {
    name.len() == 1 && name[0] == '.'
}

/// The name that a stem and an extension chain make up.
pub open spec fn spec_rebuild(stem: Seq<char>, extension: Option<Seq<char>>) -> Seq<char> {
    match extension {
        Some(extension) => stem + seq!['.'] + extension,
        None => stem,
    }
}

/// `boundary_from` finds the first dot from `from` on that opens an
/// extension chain.
pub proof fn lemma_boundary_from_is_first(name: Seq<char>, from: int)
    requires
        0 <= from <= name.len(),
    ensures
        from <= boundary_from(name, from) <= name.len(),
        boundary_from(name, from) < name.len() ==> opens_extension(
            name,
            boundary_from(name, from),
        ),
        forall|j: int| from <= j < boundary_from(name, from) ==> !opens_extension(name, j),
    decreases name.len() - from,
{
    if from < name.len() && !opens_extension(name, from) {
        lemma_boundary_from_is_first(name, from + 1);
    }
}

/// If no dot in `from..upto` opens an extension chain, the search from
/// `from` continues at `upto`.
pub proof fn lemma_boundary_from_skips(name: Seq<char>, from: int, upto: int)
    requires
        0 <= from <= upto <= name.len(),
        forall|j: int| from <= j < upto ==> !opens_extension(name, j),
    ensures
        boundary_from(name, from) == boundary_from(name, upto),
    decreases upto - from,
{
    if from < upto {
        lemma_boundary_from_skips(name, from + 1, upto);
    }
}

/// Nothing is lost in the split: stem, dot and extension chain make up the
/// name again.
pub proof fn lemma_parts_rebuild_name(name: Seq<char>)
    ensures
        spec_rebuild(spec_stem(name), spec_extension(name)) == name,
{
    lemma_boundary_from_is_first(name, 0);
    assert(spec_rebuild(spec_stem(name), spec_extension(name)) =~= name);
}

/// The stem of a name holds no dot that opens an extension chain: split
/// again, it is its own stem and has no extension. (A name such as `..gz`
/// has the stem `.`, which `parse_filename_parts` refuses as a name; every
/// other stem is split again into itself.)
pub proof fn lemma_stem_has_no_extension(name: Seq<char>)
    ensures
        !has_extension(spec_stem(name)),
        spec_stem(spec_stem(name)) == spec_stem(name),
        spec_extension(spec_stem(name)) is None,
{
    let stem = spec_stem(name);
    lemma_boundary_from_is_first(name, 0);
    lemma_boundary_from_is_first(stem, 0);
    if boundary(stem) < stem.len() {
        let k = boundary(stem);
        assert(opens_extension(stem, k));
        assert(opens_extension(name, k));
    }
    assert(spec_stem(stem) =~= stem);
}

/// Splits a file name into stem and extension chain.
///
/// The only name that is refused is `.`. For every other name the stem is
/// all that stands before the first dot that opens an extension chain, and
/// the extension is all that stands behind that dot; a name without such a
/// dot is its own stem.
pub fn parse_filename_parts<'a>(filename: &'a str) -> (r: Result<
    (&'a str, Option<&'a str>),
    StampError,
>)
    ensures
        r is Err <==> is_single_dot(filename@),
        r matches Err(e) ==> e == StampError::InvalidName,
        r matches Ok(parts) ==> {
            &&& parts.0@ == spec_stem(filename@)
            &&& parts.1 is Some <==> has_extension(filename@)
            &&& parts.1 matches Some(ext) ==> Some(ext@) == spec_extension(filename@)
        },
{
    let len: usize = filename.unicode_len();
    if len == 1 && filename.get_char(0) == '.' {
        return Err(StampError::InvalidName);
    }
    let mut index: usize = 0;
    let mut start: usize = 0;
    let mut after_dot: bool = false;
    let mut found: Option<usize> = None;
    for c in it: filename.chars()
        invariant
            len == filename@.len(),
            it.seq() == filename@,
            index == it.index(),
            start == (if index > 0 { scan_start(filename@) } else { 0 }),
            after_dot <==> index > 0 && start <= index - 1 && filename@[index - 1] == '.',
            found is None ==> forall|j: int| 0 <= j < index - 1 ==> !opens_extension(filename@, j),
            found matches Some(k) ==> k < len && boundary(filename@) == k,
    {
        let is_dot: bool = c == '.';
        let is_digit: bool = '0' <= c && c <= '9';
        if index == 0 && is_dot {
            start = 1;
        }
        if found.is_none() && after_dot && !is_dot && !is_digit {
            let at: usize = index - 1;
            proof {
                assert(opens_extension(filename@, at as int));
                lemma_boundary_from_skips(filename@, 0, at as int);
            }
            found = Some(at);
        }
        after_dot = is_dot && index >= start;
        index = index + 1;
    }
    match found {
        Some(at) => {
            let stem = filename.substring_char(0, at);
            let extension = filename.substring_char(at + 1, len);
            Ok((stem, Some(extension)))
        },
        None => {
            proof {
                lemma_boundary_from_is_first(filename@, 0);
            }
            Ok((filename, None))
        },
    }
}

} // verus!
