//! The questions about file paths that the crate leaves to the standard
//! library. Paths are handed around as text.

use vstd::prelude::*;
use crate::text::text_of;

verus! {

/// The last component of a path, as `std::path::Path::file_name` gives it.
pub uninterp spec fn file_name_of(path: Seq<char>) -> Option<Seq<char>>;

/// A path without its last component, as `std::path::Path::parent` gives it.
pub uninterp spec fn parent_of(path: Seq<char>) -> Option<Seq<char>>;

/// Whether the components of `base` are the first components of `path`, as
/// `std::path::Path::starts_with` decides it.
pub uninterp spec fn path_starts_with(path: Seq<char>, base: Seq<char>) -> bool;

/// Calls `std::path::Path::file_name`. The result is the value that the
/// standard library computes from the path's text; nothing else is claimed
/// of it.
#[verifier::external_body]
pub(crate) fn file_name(path: &str) -> (r: Option<String>)
    ensures
        text_of(r) == file_name_of(path@),
{
    std::path::Path::new(path).file_name().and_then(|name| name.to_str()).map(|name| name.to_owned())
}

/// Calls `std::path::Path::parent`. The result is the value that the
/// standard library computes from the path's text; nothing else is claimed
/// of it.
#[verifier::external_body]
pub(crate) fn parent(path: &str) -> (r: Option<String>)
    ensures
        text_of(r) == parent_of(path@),
{
    std::path::Path::new(path).parent().and_then(|dir| dir.to_str()).map(|dir| dir.to_owned())
}

/// Calls `std::path::Path::starts_with`. The result is the value that the
/// standard library computes from the text of the two paths; nothing else
/// is claimed of it.
#[verifier::external_body]
pub(crate) fn starts_with(path: &str, base: &str) -> (r: bool)
    ensures
        r == path_starts_with(path@, base@),
{
    std::path::Path::new(path).starts_with(base)
}

} // verus!
