//! Host detail screen: the configuration summary of a single host.

use vstd::prelude::*;
use crate::nix::HostInfo;

verus! {

/// Screen displaying details about a single NixOS host configuration.
pub struct HostDetailScreen {
    /// The host info being displayed.
    host: HostInfo,
}

impl HostDetailScreen {
    /// The host on display.
    pub closed spec fn shown(&self) -> HostInfo {
        self.host
    }

    pub fn new(host: HostInfo) -> (screen: Self)
        ensures
            screen.shown() == host,
    {
        HostDetailScreen { host }
    }

    /// The title line: `Host: ` and the name of the host.
    pub fn title(&self) -> (text: String)
        ensures
            text@ == "Host: "@ + self.shown().name@,
    {
        let mut text = String::from_str("Host: ");
        text.append(self.host.name.as_str());
        text
    }

    pub fn host(&self) -> (host: &HostInfo)
        ensures
            *host == self.shown(),
    {
        &self.host
    }
}

} // verus!
