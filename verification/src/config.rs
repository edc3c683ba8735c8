//! The repositories that the dashboard manages.

use vstd::prelude::*;
use std::path::PathBuf;
use crate::paths::{join_path, path_join, paths_equal, same_path};

verus! {

/// The name of the configuration file in the configuration directory.
pub const CONFIG_FILE_NAME: &'static str = "config.toml";

/// The path of the configuration file in the directory `config_dir`.
pub fn config_file_path(config_dir: &PathBuf) -> (path: PathBuf)
    ensures
        path == path_join(*config_dir, "config.toml"@),
{
    join_path(config_dir, "config.toml")
}

/// Represents a managed Keystone repository.
#[derive(Debug, PartialEq, Eq)]
pub struct KeystoneRepo {
    pub name: String,
    pub path: PathBuf,
}

impl Clone for KeystoneRepo {
    fn clone(&self) -> (copy: Self)
        ensures
            copy == *self,
    {
        KeystoneRepo { name: self.name.clone(), path: self.path.clone() }
    }
}

/// Application configuration, stored in XDG config directory.
#[derive(Debug, Default)]
pub struct AppConfig {
    pub repos: Vec<KeystoneRepo>,
}

/// Whether one of `repos` has a path equal to `path`.
pub open spec fn has_path(repos: Seq<KeystoneRepo>, path: PathBuf) -> bool {
    exists|i: int| 0 <= i < repos.len() && paths_equal(#[trigger] repos[i].path, path)
}

/// `known` followed by those of `found` whose path is not yet among the
/// repositories collected before them, in order.
pub open spec fn merged(known: Seq<KeystoneRepo>, found: Seq<KeystoneRepo>) -> Seq<KeystoneRepo>
    decreases found.len(),
{
    if found.len() == 0 {
        known
    } else {
        let before = merged(known, found.drop_last());
        if has_path(before, found.last().path) {
            before
        } else {
            before.push(found.last())
        }
    }
}

impl AppConfig {
    /// Whether a repository with a path equal to `path` is configured.
    pub fn contains_path(&self, path: &PathBuf) -> (found: bool)
        ensures
            found == has_path(self.repos@, *path),
    {
        let mut next: usize = 0;
        while next < self.repos.len()
            invariant
                next <= self.repos.len(),
                forall|i: int| 0 <= i < next ==> !paths_equal(#[trigger] self.repos[i].path, *path),
            decreases self.repos.len() - next,
        {
            if same_path(&self.repos[next].path, path) {
                return true;
            }
            next = next + 1;
        }
        false
    }

    /// Adds the repositories found on disk that are not configured yet.
    pub fn merge_discovered(&mut self, discovered: Vec<KeystoneRepo>)
        ensures
            final(self).repos@ == merged(old(self).repos@, discovered@),
    {
        let mut next: usize = 0;
        while next < discovered.len()
            invariant
                next <= discovered.len(),
                self.repos@ == merged(old(self).repos@, discovered@.take(next as int)),
            decreases discovered.len() - next,
        {
            proof {
                let more = discovered@.take(next + 1);
                assert(more.drop_last() =~= discovered@.take(next as int));
                assert(more.last() == discovered[next as int]);
            }
            if !self.contains_path(&discovered[next].path) {
                self.repos.push(discovered[next].clone());
            }
            next = next + 1;
        }
        assert(discovered@.take(next as int) =~= discovered@);
    }
}

} // verus!
