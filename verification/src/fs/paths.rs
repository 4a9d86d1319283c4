//! Paths as text, and what `std::path` makes of them.
use std::path::Path;
use vstd::prelude::*;

verus! {

/// The text of `base` joined with `rel` (`Path::join`): `rel` itself when it is absolute.
pub uninterp spec fn joined_path(base: Seq<char>, rel: Seq<char>) -> Seq<char>;

/// Whether a path is absolute on this platform (`Path::is_absolute`).
pub uninterp spec fn absolute_path(p: Seq<char>) -> bool;

/// `Path::join`, on paths given as text.
#[verifier::external_body]
pub(crate) fn path_join(base: &str, rel: &str) -> (r: String)
    ensures
        r@ == joined_path(base@, rel@),
{
    Path::new(base).join(rel).to_string_lossy().to_string()
}

/// `Path::is_absolute`, on a path given as text.
#[verifier::external_body]
pub(crate) fn path_is_absolute(p: &str) -> (r: bool)
    ensures
        r == absolute_path(p@),
{
    Path::new(p).is_absolute()
}

/// The final path component of a path (`Path::file_name`), if it has one.
pub uninterp spec fn file_name_of(p: Seq<char>) -> Option<Seq<char>>;

/// The path without its final component (`Path::parent`), if it has one.
pub uninterp spec fn parent_of(p: Seq<char>) -> Option<Seq<char>>;

/// `Path::file_name` of a path given as text.
#[verifier::external_body]
pub(crate) fn path_file_name(p: &str) -> (r: Option<String>)
    ensures
        r matches Some(n) ==> file_name_of(p@) == Some(n@),
        r is None ==> file_name_of(p@) is None,
{
    match Path::new(p).file_name() {
        Some(n) => Some(n.to_string_lossy().to_string()),
        None => None,
    }
}

/// `Path::parent` of a path given as text.
#[verifier::external_body]
pub(crate) fn path_parent(p: &str) -> (r: Option<String>)
    ensures
        r matches Some(q) ==> parent_of(p@) == Some(q@),
        r is None ==> parent_of(p@) is None,
{
    match Path::new(p).parent() {
        Some(q) => Some(q.to_string_lossy().to_string()),
        None => None,
    }
}

} // verus!
