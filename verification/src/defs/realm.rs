//! Realms: the identities that own infrastructure, as the cluster stores them.

use vstd::prelude::*;
use crate::defs::meta::Metadata;

verus! {

/// Connection method used
#[derive(Clone, Debug, Default, PartialEq, Eq, Structural)]
pub enum ConnectionType {
    /// Connected via Tailscale
    Tailscale,
    /// Connected via Headscale
    Headscale,
    /// Connected via direct token exchange
    #[default]
    Token,
}

/// How a connection type reads on screen.
pub open spec fn connection_type_label(kind: ConnectionType) -> Seq<char> {
    match kind {
        ConnectionType::Tailscale => "Tailscale"@,
        ConnectionType::Headscale => "Headscale"@,
        ConnectionType::Token => "Token"@,
    }
}

impl ConnectionType {
    /// The connection type as it reads on screen.
    pub fn label(&self) -> (text: &'static str)
        ensures
            text@ == connection_type_label(*self),
    {
        match self {
            ConnectionType::Tailscale => "Tailscale",
            ConnectionType::Headscale => "Headscale",
            ConnectionType::Token => "Token",
        }
    }

    /// The connection type as it reads on screen, as an owned string.
    pub fn to_string(&self) -> (text: String)
        ensures
            text@ == connection_type_label(*self),
    {
        String::from_str(self.label())
    }
}

/// Resource usage stats
#[derive(Clone, Debug, Default, PartialEq)]
pub struct RealmResourceUsage {
    pub cpu: Option<String>,
    pub memory: Option<String>,
    pub storage: Option<String>,
}

/// Realm specification
#[derive(Clone, Debug, Default, PartialEq)]
pub struct RealmSpec {
    pub identity: String,
    pub connection_type: ConnectionType,
    pub trust_level: Option<String>,
}

/// Realm status
#[derive(Clone, Debug, Default, PartialEq)]
pub struct RealmStatus {
    pub phase: RealmPhase,
    pub message: Option<String>,
    pub last_seen: Option<String>,
    pub current_usage: Option<RealmResourceUsage>,
}

/// Realm lifecycle phases
#[derive(Clone, Debug, Default, PartialEq, Eq, Structural)]
pub enum RealmPhase {
    #[default]
    Unknown,
    Connecting,
    Connected,
    Disconnected,
    Error,
}

/// How a realm phase reads on screen.
pub open spec fn realm_phase_label(phase: RealmPhase) -> Seq<char> {
    match phase {
        RealmPhase::Unknown => "Unknown"@,
        RealmPhase::Connecting => "Connecting"@,
        RealmPhase::Connected => "Connected"@,
        RealmPhase::Disconnected => "Disconnected"@,
        RealmPhase::Error => "Error"@,
    }
}

impl RealmPhase {
    /// The phase as it reads on screen.
    pub fn label(&self) -> (text: &'static str)
        ensures
            text@ == realm_phase_label(*self),
    {
        match self {
            RealmPhase::Unknown => "Unknown",
            RealmPhase::Connecting => "Connecting",
            RealmPhase::Connected => "Connected",
            RealmPhase::Disconnected => "Disconnected",
            RealmPhase::Error => "Error",
        }
    }

    /// The phase as it reads on screen, as an owned string.
    pub fn to_string(&self) -> (text: String)
        ensures
            text@ == realm_phase_label(*self),
    {
        String::from_str(self.label())
    }
}

/// A realm as the cluster stores it.
#[derive(Clone, Debug, Default, PartialEq)]
pub struct Realm {
    pub metadata: Metadata,
    pub spec: RealmSpec,
    pub status: Option<RealmStatus>,
}

} // verus!
