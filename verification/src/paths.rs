//! Paths, held as text, and what `std::path` makes of them.
//!
//! How a path is read depends on the platform the program is built for, so the
//! answers of `std::path` are named here and not spelled out.

use std::path::Path;
use vstd::prelude::*;

verus! {

/// Whether `std::path::Path::is_relative` holds of the path.
pub uninterp spec fn is_relative_path(path: Seq<char>) -> bool;

/// What `std::path::Path::join` makes of a base and a path adjoined to it.
pub uninterp spec fn joined_path(base: Seq<char>, path: Seq<char>) -> Seq<char>;

/// What `std::path::Path::parent` finds above the path, if anything.
pub uninterp spec fn parent_path(path: Seq<char>) -> Option<Seq<char>>;

/// Whether `std::path::Path` holds the two paths to be equal.
pub uninterp spec fn same_path(a: Seq<char>, b: Seq<char>) -> bool;

/// What `std::path::Path::extension` finds at the end of the path, if anything.
pub uninterp spec fn path_extension(path: Seq<char>) -> Option<Seq<char>>;

/// Calls `std::path::Path::is_relative`. Trusted: the answer is the one named
/// by [`is_relative_path`].
#[verifier::external_body]
pub(crate) fn is_relative(path: &str) -> (relative: bool)
    ensures
        relative == is_relative_path(path@),
{
    Path::new(path).is_relative()
}

/// Calls `std::path::Path::join`. Trusted: the result is the path named by
/// [`joined_path`]. Both parts are text, so the joined path is text too.
#[verifier::external_body]
pub(crate) fn join(base: &str, path: &str) -> (joined: String)
    ensures
        joined@ == joined_path(base@, path@),
{
    Path::new(base).join(path).to_string_lossy().into_owned()
}

/// Calls `std::path::Path::parent`. Trusted: the result is the one named by
/// [`parent_path`].
#[verifier::external_body]
pub(crate) fn parent(path: &str) -> (above: Option<String>)
    ensures
        match above {
            Some(p) => parent_path(path@) == Some(p@),
            None => parent_path(path@) is None,
        },
{
    match Path::new(path).parent() {
        Some(p) => Some(p.to_string_lossy().into_owned()),
        None => None,
    }
}

/// Compares two paths as `std::path::Path` does, component by component.
/// Trusted: the answer is the one named by [`same_path`].
#[verifier::external_body]
pub(crate) fn same(a: &str, b: &str) -> (equal: bool)
    ensures
        equal == same_path(a@, b@),
{
    Path::new(a) == Path::new(b)
}

/// Calls `std::path::Path::extension`. Trusted: the result is the one named by
/// [`path_extension`]. The path is text, so its extension is text too.
#[verifier::external_body]
pub(crate) fn extension(path: &str) -> (ext: Option<String>)
    ensures
        match ext {
            Some(e) => path_extension(path@) == Some(e@),
            None => path_extension(path@) is None,
        },
{
    match Path::new(path).extension() {
        Some(e) => Some(e.to_string_lossy().into_owned()),
        None => None,
    }
}

} // verus!
