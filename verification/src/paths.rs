//! Paths as text. How a path is taken apart and put together is the business
//! of `std::path::Path`, which reads it by the rules of the platform that the
//! library is built for. This module calls `Path` and gives the results names:
//! on one platform each of them depends on the texts alone.

use crate::text::text_of;
use std::path::Path;
use vstd::prelude::*;

verus! {

/// What `Path::join` makes of `path` read from the directory `base`.
pub uninterp spec fn joined(base: Seq<char>, path: Seq<char>) -> Seq<char>;

/// What `Path::strip_prefix` leaves of `path` once the leading `base` is
/// taken away, or `None` where `path` does not begin with `base`.
pub uninterp spec fn stripped(path: Seq<char>, base: Seq<char>) -> Option<Seq<char>>;

/// What `Path::file_name` finds as the last component of `path`, if it has
/// one.
pub uninterp spec fn last_component(path: Seq<char>) -> Option<Seq<char>>;

/// Whether `Path` holds `a` and `b` to be equal.
pub uninterp spec fn same_path(a: Seq<char>, b: Seq<char>) -> bool;

/// Calls `Path::join`. The result depends on the two texts alone, and
/// [`joined`] is its name; nothing else is claimed of it.
#[verifier::external_body]
pub(crate) fn join(base: &str, path: &str) -> (whole: String)
    ensures
        whole@ == joined(base@, path@),
{
    Path::new(base).join(path).to_string_lossy().into_owned()
}

/// Calls `Path::strip_prefix`, with `None` for its error. The result depends
/// on the two texts alone, and [`stripped`] is its name; nothing else is
/// claimed of it.
#[verifier::external_body]
pub(crate) fn strip_prefix(path: &str, base: &str) -> (rest: Option<String>)
    ensures
        text_of(rest) == stripped(path@, base@),
{
    match Path::new(path).strip_prefix(base) {
        Ok(rest) => Some(rest.to_string_lossy().into_owned()),
        Err(_) => None,
    }
}

/// Calls `Path::file_name`. The result depends on the text alone, and
/// [`last_component`] is its name; nothing else is claimed of it.
#[verifier::external_body]
pub(crate) fn file_name(path: &str) -> (name: Option<String>)
    ensures
        text_of(name) == last_component(path@),
{
    match Path::new(path).file_name() {
        Some(name) => Some(name.to_string_lossy().into_owned()),
        None => None,
    }
}

/// Compares two paths with the `==` of `Path`. The result depends on the two
/// texts alone, and [`same_path`] is its name; nothing else is claimed of it.
#[verifier::external_body]
pub(crate) fn path_eq(a: &str, b: &str) -> (same: bool)
    ensures
        same == same_path(a@, b@),
{
    Path::new(a) == Path::new(b)
}

} // verus!
