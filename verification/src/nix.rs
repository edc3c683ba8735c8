//! What a flake says about the hosts it configures.

use vstd::prelude::*;

pub mod flake;
pub mod syntax;

verus! {

/// Information about a single NixOS host configuration.
#[derive(Debug, PartialEq, Eq)]
pub struct HostInfo {
    /// Host name (attribute key in nixosConfigurations).
    pub name: String,
    /// System architecture (e.g. "x86_64-linux"), parsed from `system = "..."`.
    pub system: Option<String>,
    /// Keystone modules imported (e.g. ["operating-system", "desktop"]).
    pub keystone_modules: Vec<String>,
    /// Local config file paths from the modules list (e.g. ["./configuration.nix"]).
    pub config_files: Vec<String>,
}

/// A host, over plain text.
pub struct HostView {
    pub name: Seq<char>,
    pub system: Option<Seq<char>>,
    pub keystone_modules: Seq<Seq<char>>,
    pub config_files: Seq<Seq<char>>,
}

impl View for HostInfo {
    type V = HostView;

    open spec fn view(&self) -> HostView {
        HostView {
            name: self.name@,
            system: match self.system {
                Some(text) => Some(text@),
                None => None,
            },
            keystone_modules: self.keystone_modules.deep_view(),
            config_files: self.config_files.deep_view(),
        }
    }
}

impl DeepView for HostInfo {
    type V = HostView;

    open spec fn deep_view(&self) -> HostView {
        self@
    }
}

/// A copy of `lines`.
pub fn clone_lines(lines: &Vec<String>) -> (copy: Vec<String>)
    ensures
        copy.deep_view() == lines.deep_view(),
{
    let mut copy: Vec<String> = Vec::new();
    let mut next: usize = 0;
    while next < lines.len()
        invariant
            next <= lines.len(),
            copy.deep_view() == lines.deep_view().take(next as int),
        decreases lines.len() - next,
    {
        let ghost before = copy.deep_view();
        copy.push(lines[next].clone());
        assert(copy.deep_view() =~= before.push(lines[next as int]@));
        assert(copy.deep_view() =~= lines.deep_view().take(next + 1));
        next = next + 1;
    }
    assert(lines.deep_view().take(next as int) =~= lines.deep_view());
    copy
}

impl Clone for HostInfo {
    fn clone(&self) -> (copy: Self)
        ensures
            copy@ == self@,
    {
        HostInfo {
            name: self.name.clone(),
            system: match &self.system {
                Some(text) => Some(text.clone()),
                None => None,
            },
            keystone_modules: clone_lines(&self.keystone_modules),
            config_files: clone_lines(&self.config_files),
        }
    }
}

/// Parsed information about a Keystone flake.
#[derive(Debug, PartialEq, Eq)]
pub struct FlakeInfo {
    /// List of NixOS host configurations defined in the flake.
    pub hosts: Vec<HostInfo>,
}

} // verus!
