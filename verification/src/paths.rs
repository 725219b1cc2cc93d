//! The parts of a path, as the standard library tells them apart.
//!
//! What counts as a separator, a root or a final component is the business
//! of `std::path`, and differs between platforms (a backslash separates on
//! Windows only). On one platform the answers depend on the text of the path
//! alone; nothing is looked up in a file system. This module names what
//! `std::path` answers and proves nothing about it.

use vstd::prelude::*;
use vstd::string::*;

verus! {

/// The final component of `path` as `std::path::Path::file_name` gives it,
/// or `None` where it gives none.
pub uninterp spec fn path_file_name(path: Seq<char>) -> Option<Seq<char>>;

/// `path` without its final component as `std::path::Path::parent` gives
/// it, or `None` where it gives none.
pub uninterp spec fn path_parent(path: Seq<char>) -> Option<Seq<char>>;

/// `name` adjoined to `base` as `std::path::Path::join` does it.
pub uninterp spec fn path_join(base: Seq<char>, name: Seq<char>) -> Seq<char>;

/// Calls `std::path::Path::file_name` on `path`. Not proved: the result is
/// taken to be `path_file_name` of the text of `path`, which claims only
/// that the final component depends on nothing but that text.
#[verifier::external_body]
pub(crate) fn file_name_of<'a>(path: &'a str) -> (r: Option<&'a str>)
    ensures
        r is Some <==> path_file_name(path@) is Some,
        r matches Some(name) ==> Some(name@) == path_file_name(path@),
{
    std::path::Path::new(path).file_name()?.to_str()
}

/// Calls `std::path::Path::parent` on `path`. Not proved: the result is
/// taken to be `path_parent` of the text of `path`, which claims only that
/// the parent depends on nothing but that text.
#[verifier::external_body]
pub(crate) fn parent_of<'a>(path: &'a str) -> (r: Option<&'a str>)
    ensures
        r is Some <==> path_parent(path@) is Some,
        r matches Some(parent) ==> Some(parent@) == path_parent(path@),
{
    std::path::Path::new(path).parent()?.to_str()
}

/// Calls `std::path::Path::join` on `base` with `name`. Not proved: the
/// result is taken to be `path_join` of the two texts, which claims only
/// that the joined path depends on nothing but them.
#[verifier::external_body]
pub(crate) fn join_paths(base: &str, name: &str) -> (r: String)
    ensures
        r@ == path_join(base@, name@),
{
    std::path::Path::new(base).join(name).to_string_lossy().into_owned()
}

/// Says whether `path` has a parent that is not empty.
pub fn path_has_parent(path: &str) -> (r: bool)
    ensures
        r == (path_parent(path@) matches Some(parent) && parent.len() > 0),
{
    match parent_of(path) {
        Some(parent) => parent.unicode_len() > 0,
        None => false,
    }
}

} // verus!
