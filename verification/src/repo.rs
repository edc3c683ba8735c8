//! Where repositories live on disk, and in which order they are listed.

use vstd::prelude::*;
use std::path::PathBuf;
use crate::config::KeystoneRepo;
use crate::paths::{join_path, path_join};

verus! {

/// Whether `left` comes before `right`, or is equal to it, byte by byte.
pub open spec fn bytes_at_most(left: Seq<u8>, right: Seq<u8>) -> bool
    decreases left.len(),
{
    if left.len() == 0 {
        true
    } else if right.len() == 0 {
        false
    } else if left[0] != right[0] {
        left[0] < right[0]
    } else {
        bytes_at_most(left.drop_first(), right.drop_first())
    }
}

/// Whether the name `left` sorts before the name `right`, or is equal to
/// it: strings are ordered by their bytes.
pub open spec fn name_at_most(left: Seq<char>, right: Seq<char>) -> bool {
    bytes_at_most(vstd::utf8::encode_utf8(left), vstd::utf8::encode_utf8(right))
}

/// Whether `repos` are in the order of their names.
pub open spec fn sorted_by_name(repos: Seq<KeystoneRepo>) -> bool {
    forall|i: int, j: int|
        0 <= i < j < repos.len() ==> name_at_most(
            (#[trigger] repos[i]).name@,
            (#[trigger] repos[j]).name@,
        )
}

/// `slice::sort_by_key` of std, with the name as the key: the same
/// repositories, in the order of their names.
#[verifier::external_body]
pub(crate) fn sort_by_key_name(repos: &mut Vec<KeystoneRepo>)
    ensures
        final(repos)@.to_multiset() == old(repos)@.to_multiset(),
        sorted_by_name(final(repos)@),
{
    repos.sort_by_key(|repo| repo.name.clone());
}

/// Return the base repos directory under the home directory
/// (~/.keystone/repos/).
pub fn repos_dir(home: &PathBuf) -> (dir: PathBuf)
    ensures
        dir == path_join(path_join(*home, ".keystone"@), "repos"@),
{
    join_path(&join_path(home, ".keystone"), "repos")
}

/// The directory of the repository `repo_name` under `repos_dir`.
pub fn repo_dir(repos_dir: &PathBuf, repo_name: &str) -> (dir: PathBuf)
    ensures
        dir == path_join(*repos_dir, repo_name@),
{
    join_path(repos_dir, repo_name)
}

/// The repositories found on disk, in the order in which they are listed:
/// by name.
pub fn list_discovered(found: Vec<KeystoneRepo>) -> (listed: Vec<KeystoneRepo>)
    ensures
        listed@.to_multiset() == found@.to_multiset(),
        listed@.len() == found@.len(),
        sorted_by_name(listed@),
{
    let mut listed = found;
    sort_by_key_name(&mut listed);
    proof {
        found@.to_multiset_ensures();
        listed@.to_multiset_ensures();
    }
    listed
}

} // verus!
