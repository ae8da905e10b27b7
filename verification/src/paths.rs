//! Paths, held as text. The operations are those of `std::path`, whose rules
//! for separators, roots and prefixes are those of the platform the crate is
//! compiled for; the contracts therefore give each result a name and leave its
//! value to the standard library.

use std::path::Path;
use vstd::prelude::*;

verus! {

/// What `Path::is_absolute` answers for the path written as `path`.
pub uninterp spec fn path_is_absolute(path: Seq<char>) -> bool;

/// What `Path::join` yields for `base` extended by `tail`.
pub uninterp spec fn path_join(base: Seq<char>, tail: Seq<char>) -> Seq<char>;

/// What `Path::file_stem` yields for the path written as `path`.
pub uninterp spec fn path_file_stem(path: Seq<char>) -> Option<Seq<char>>;

/// What `Path::eq` answers for the paths written as `left` and `right`,
/// which it compares component by component.
pub uninterp spec fn path_same(left: Seq<char>, right: Seq<char>) -> bool;

/// `Path::eq` on the paths written as `left` and `right`. Paths that are
/// written alike are the same path.
#[verifier::external_body]
pub(crate) fn same_path(left: &str, right: &str) -> (same: bool)
    ensures
        same == path_same(left@, right@),
        left@ == right@ ==> same,
{
    Path::new(left) == Path::new(right)
}

/// `Path::is_absolute` on the path written as `path`.
#[verifier::external_body]
pub(crate) fn is_absolute(path: &str) -> (absolute: bool)
    ensures
        absolute == path_is_absolute(path@),
{
    Path::new(path).is_absolute()
}

/// `Path::join`: `base` extended by `tail`, as text. Both arguments are valid
/// Unicode, hence so is the result, and nothing is lost in writing it out.
#[verifier::external_body]
pub(crate) fn join(base: &str, tail: &str) -> (joined: String)
    ensures
        joined@ == path_join(base@, tail@),
{
    Path::new(base).join(tail).to_string_lossy().into_owned()
}

/// `Path::file_stem` on the path written as `path`: the final component
/// without its extension, where there is a final component.
#[verifier::external_body]
pub(crate) fn file_stem(path: &str) -> (stem: Option<String>)
    ensures
        match stem {
            Some(text) => path_file_stem(path@) == Some(text@),
            None => path_file_stem(path@) is None,
        },
{
    match Path::new(path).file_stem() {
        Some(stem) => Some(stem.to_string_lossy().into_owned()),
        None => None,
    }
}

/// The path that stands for `path` when relative paths are read from
/// `base`: `path` itself where it is absolute, `base` extended by it
/// otherwise.
pub open spec fn resolved_against(base: Seq<char>, path: Seq<char>) -> Seq<char> {
    if path_is_absolute(path) {
        path
    } else {
        path_join(base, path)
    }
}

/// Reads `path` relative to `base` unless it is absolute.
pub fn resolve_against(base: &str, path: &str) -> (resolved: String)
    ensures
        resolved@ == resolved_against(base@, path@),
{
    if is_absolute(path) {
        path.to_string()
    } else {
        join(base, path)
    }
}

} // verus!
