//! A realm as the manager shows it: a distinct identity boundary, such as a
//! person, a household or an organization, that owns and controls its own
//! infrastructure.

use vstd::prelude::*;
use crate::defs::realm::{ConnectionType, RealmResourceUsage};
use crate::defs::workload::{summarize_usage, usage_summary};
use crate::text::optional_text;

verus! {

/// Connected realm information
#[derive(Clone, Debug, Default)]
pub struct Realm {
    /// Unique realm identifier
    pub id: String,
    /// Human-readable realm name
    pub name: String,
    /// Connection method used
    pub connection_type: ConnectionType,
    /// Address used to connect (domain or IP)
    pub address: String,
    /// Whether the realm is currently reachable
    pub connected: bool,
    /// Grantor identity (who granted us access)
    pub grantor: Option<String>,
    /// Resource limits from grant
    pub resource_limits: Option<RealmResourceUsage>,
    /// Current resource usage
    pub current_usage: Option<RealmResourceUsage>,
    /// Network policy (egress status)
    pub egress_allowed: bool,
    /// When we connected to this realm
    pub connected_at: Option<String>,
}

/// How the reachability of a realm reads on screen.
pub open spec fn status_text(connected: bool) -> Seq<char> {
    if connected {
        "Connected"@
    } else {
        "Disconnected"@
    }
}

/// The summary of a realm's limits.
pub open spec fn limits_summary(limits: Option<RealmResourceUsage>) -> Seq<char> {
    match limits {
        Some(limits) => usage_summary(
            optional_text(limits.cpu),
            optional_text(limits.memory),
            "No limits"@,
        ),
        None => "No limits"@,
    }
}

impl Realm {
    /// Get display status
    pub fn status_display(&self) -> (text: &'static str)
        ensures
            text@ == status_text(self.connected),
    {
        if self.connected {
            "Connected"
        } else {
            "Disconnected"
        }
    }

    /// Get resource summary
    pub fn resource_summary(&self) -> (summary: String)
        ensures
            summary@ == limits_summary(self.resource_limits),
    {
        match &self.resource_limits {
            Some(limits) => summarize_usage(&limits.cpu, &limits.memory, "No limits"),
            None => String::from_str("No limits"),
        }
    }
}

} // verus!
