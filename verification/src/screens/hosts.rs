//! Hosts screen: the NixOS configurations of a flake, and which is selected.

use vstd::prelude::*;
use crate::nix::HostInfo;
use crate::ui::menu::{ring_next, ring_previous};

verus! {

/// Screen for viewing and managing hosts in a Keystone repo.
pub struct HostsScreen {
    /// Name of the current repository.
    repo_name: String,
    /// List of host info from nixosConfigurations.
    hosts: Vec<HostInfo>,
    /// Currently selected host index.
    selected: Option<usize>,
}

/// A host as one line of the list: two blanks, the name, and the system in
/// brackets where it is known.
pub open spec fn host_line_text(name: Seq<char>, system: Option<Seq<char>>) -> Seq<char> {
    match system {
        Some(system) => "  "@ + name + "  ("@ + system + ")"@,
        None => "  "@ + name,
    }
}

/// A host as one line of the list.
pub fn host_line(host: &HostInfo) -> (line: String)
    ensures
        line@ == host_line_text(host@.name, host@.system),
{
    let mut line = String::from_str("  ");
    line.append(host.name.as_str());
    match &host.system {
        Some(system) => {
            line.append("  (");
            line.append(system.as_str());
            line.append(")");
        },
        None => {},
    }
    line
}

/// The selection after a step forward over `count` hosts.
pub open spec fn selection_next(selected: Option<usize>, count: nat) -> Option<usize> {
    if count == 0 {
        selected
    } else {
        match selected {
            Some(index) => Some(ring_next(index as nat, count) as usize),
            None => Some(0),
        }
    }
}

/// The selection after a step back over `count` hosts.
pub open spec fn selection_previous(selected: Option<usize>, count: nat) -> Option<usize> {
    if count == 0 {
        selected
    } else {
        match selected {
            Some(index) => Some(ring_previous(index as nat, count) as usize),
            None => Some(0),
        }
    }
}

impl HostsScreen {
    #[verifier::type_invariant]
    spec fn selection_in_range(&self) -> bool {
        match self.selected {
            Some(index) => index < self.hosts@.len(),
            None => true,
        }
    }

    /// The name of the repository, as text.
    pub closed spec fn repo(&self) -> Seq<char> {
        self.repo_name@
    }

    /// The hosts on display, in order.
    pub closed spec fn listed(&self) -> Seq<HostInfo> {
        self.hosts@
    }

    /// The index of the selected host, if one is selected.
    pub closed spec fn selection(&self) -> Option<usize> {
        self.selected
    }

    /// The screen over `hosts`, with the first host selected if there is one.
    pub fn new(repo_name: String, hosts: Vec<HostInfo>) -> (screen: Self)
        ensures
            screen.repo() == repo_name@,
            screen.listed() == hosts@,
            screen.selection() == if hosts@.len() == 0 {
                None
            } else {
                Some(0usize)
            },
    {
        let selected = if hosts.len() > 0 {
            Some(0)
        } else {
            None
        };
        HostsScreen { repo_name, hosts, selected }
    }

    /// The title line: `Hosts - ` and the name of the repository.
    pub fn title(&self) -> (text: String)
        ensures
            text@ == "Hosts - "@ + self.repo(),
    {
        let mut text = String::from_str("Hosts - ");
        text.append(self.repo_name.as_str());
        text
    }

    /// The name of the repository.
    pub fn repo_name(&self) -> (name: &String)
        ensures
            name@ == self.repo(),
    {
        &self.repo_name
    }

    pub fn hosts(&self) -> (hosts: &Vec<HostInfo>)
        ensures
            hosts@ == self.listed(),
    {
        &self.hosts
    }

    /// The index of the selected host, if one is selected.
    pub fn selected_index(&self) -> (selected: Option<usize>)
        ensures
            selected == self.selection(),
            selected matches Some(index) ==> index < self.listed().len(),
    {
        proof {
            use_type_invariant(self);
        }
        self.selected
    }

    /// The selected host, if one is selected.
    pub fn selected_host(&self) -> (host: Option<&HostInfo>)
        ensures
            match self.selection() {
                Some(index) => index < self.listed().len() && host == Some(
                    &self.listed()[index as int],
                ),
                None => host is None,
            },
    {
        proof {
            use_type_invariant(self);
        }
        match self.selected {
            Some(index) => Some(&self.hosts[index]),
            None => None,
        }
    }

    /// Selects the next host, going round from the last to the first.
    pub fn next(&mut self)
        ensures
            final(self).repo() == old(self).repo(),
            final(self).listed() == old(self).listed(),
            final(self).selection() == selection_next(
                old(self).selection(),
                old(self).listed().len(),
            ),
    {
        proof {
            use_type_invariant(&*self);
        }
        let count: usize = self.hosts.len();
        if count == 0 {
            return ;
        }
        let index: usize = match self.selected {
            Some(index) => if index + 1 >= count {
                0
            } else {
                index + 1
            },
            None => 0,
        };
        self.selected = Some(index);
    }

    /// Selects the previous host, going round from the first to the last.
    pub fn previous(&mut self)
        ensures
            final(self).repo() == old(self).repo(),
            final(self).listed() == old(self).listed(),
            final(self).selection() == selection_previous(
                old(self).selection(),
                old(self).listed().len(),
            ),
    {
        proof {
            use_type_invariant(&*self);
        }
        let count: usize = self.hosts.len();
        if count == 0 {
            return ;
        }
        let index: usize = match self.selected {
            Some(index) => if index == 0 {
                count - 1
            } else {
                index - 1
            },
            None => 0,
        };
        self.selected = Some(index);
    }
}

} // verus!
