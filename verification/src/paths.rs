//! Paths in the file system, as far as the dashboard computes with them.

use vstd::prelude::*;
use std::path::PathBuf;

verus! {

#[verifier::external_type_specification]
#[verifier::external_body]
pub struct ExPathBuf(PathBuf);

/// Whether two paths are equal as `PathBuf` compares them: component by
/// component.
pub uninterp spec fn paths_equal(left: PathBuf, right: PathBuf) -> bool;

/// The path made of `base` and `part` behind it, as `Path::join` makes it.
pub uninterp spec fn path_join(base: PathBuf, part: Seq<char>) -> PathBuf;

/// `PathBuf::eq` of std: compares two paths by their components.
#[verifier::external_body]
pub(crate) fn same_path(left: &PathBuf, right: &PathBuf) -> (equal: bool)
    ensures
        equal == paths_equal(*left, *right),
{
    left == right
}

/// `Path::join` of std: the path with `part` adjoined.
#[verifier::external_body]
pub(crate) fn join_path(base: &PathBuf, part: &str) -> (joined: PathBuf)
    ensures
        joined == path_join(*base, part@),
{
    base.join(part)
}

/// `PathBuf::clone` of std: an owned copy of the same path.
pub assume_specification[ <PathBuf as Clone>::clone ](path: &PathBuf) -> (copy: PathBuf)
    ensures
        copy == *path,
;

} // verus!
