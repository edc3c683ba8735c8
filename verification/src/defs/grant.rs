//! Grants: resources that one realm lets another use.

use vstd::prelude::*;
use crate::defs::meta::{name_or_empty, Metadata};
use crate::text::{join, joined, labelled, optional_text};

verus! {

/// Resource limits following Kubernetes ResourceQuota pattern
#[derive(Clone, Debug, Default, PartialEq)]
pub struct ResourceLimits {
    pub requests_cpu: Option<String>,
    pub requests_memory: Option<String>,
    pub limits_cpu: Option<String>,
    pub limits_memory: Option<String>,
    pub requests_storage: Option<String>,
    pub requests_gpu: Option<i32>,
}

/// Network policy for granted workloads
#[derive(Clone, Debug, Default, PartialEq)]
pub struct NetworkPolicy {
    pub egress_allowed: bool,
    pub allowed_destinations: Vec<String>,
}

/// Validity period for a grant
#[derive(Clone, Debug, PartialEq)]
pub struct Validity {
    pub valid_from: String,
    pub valid_until: Option<String>,
}

/// Grant specification
#[derive(Clone, Debug, Default, PartialEq)]
pub struct GrantSpec {
    pub grantor_realm: String,
    pub grantee_realm: String,
    pub hard: ResourceLimits,
    pub network_policy: NetworkPolicy,
    pub validity: Option<Validity>,
}

/// Grant status
#[derive(Clone, Debug, Default, PartialEq)]
pub struct GrantStatus {
    pub phase: GrantPhase,
    pub used: Option<ResourceLimits>,
    pub message: Option<String>,
    pub last_updated: Option<String>,
}

/// Grant lifecycle phases
#[derive(Clone, Debug, Default, PartialEq, Eq, Structural)]
pub enum GrantPhase {
    #[default]
    Pending,
    Active,
    Revoked,
    Expired,
}

/// How a grant phase reads on screen.
pub open spec fn grant_phase_label(phase: GrantPhase) -> Seq<char> {
    match phase {
        GrantPhase::Pending => "Pending"@,
        GrantPhase::Active => "Active"@,
        GrantPhase::Revoked => "Revoked"@,
        GrantPhase::Expired => "Expired"@,
    }
}

impl GrantPhase {
    /// The phase as it reads on screen.
    pub fn label(&self) -> (text: &'static str)
        ensures
            text@ == grant_phase_label(*self),
    {
        match self {
            GrantPhase::Pending => "Pending",
            GrantPhase::Active => "Active",
            GrantPhase::Revoked => "Revoked",
            GrantPhase::Expired => "Expired",
        }
    }

    /// The phase as it reads on screen, as an owned string.
    pub fn to_string(&self) -> (text: String)
        ensures
            text@ == grant_phase_label(*self),
    {
        String::from_str(self.label())
    }
}

/// `label` before the value, as a one-element list; nothing where the value
/// is missing.
pub open spec fn labelled_part(label: Seq<char>, value: Option<Seq<char>>) -> Seq<Seq<char>> {
    match value {
        Some(text) => seq![label + text],
        None => Seq::empty(),
    }
}

/// The parts of a grant's summary: CPU, memory and storage requests, each
/// only where it is set.
pub open spec fn grant_summary_parts(
    cpu: Option<Seq<char>>,
    memory: Option<Seq<char>>,
    storage: Option<Seq<char>>,
) -> Seq<Seq<char>> {
    labelled_part("CPU: "@, cpu) + labelled_part("Mem: "@, memory) + labelled_part(
        "Storage: "@,
        storage,
    )
}

/// The summary of a grant's limits.
pub open spec fn grant_summary(
    cpu: Option<Seq<char>>,
    memory: Option<Seq<char>>,
    storage: Option<Seq<char>>,
) -> Seq<char> {
    if grant_summary_parts(cpu, memory, storage).len() == 0 {
        "No limits specified"@
    } else {
        joined(grant_summary_parts(cpu, memory, storage), ", "@)
    }
}

/// Appends `label` and the value to `parts` where the value is set.
pub fn push_labelled(parts: &mut Vec<String>, label: &str, value: &Option<String>)
    ensures
        final(parts).deep_view() == old(parts).deep_view() + labelled_part(
            label@,
            optional_text(*value),
        ),
{
    let ghost before = parts.deep_view();
    match value {
        Some(text) => {
            parts.push(labelled(label, text.as_str()));
            assert(parts.deep_view() =~= before + seq![label@ + text@]);
        },
        None => {
            assert(parts.deep_view() =~= before + Seq::empty());
        },
    }
}

/// A grant: who lets whom use how much.
#[derive(Clone, Debug, Default, PartialEq)]
pub struct Grant {
    pub metadata: Metadata,
    pub spec: GrantSpec,
    pub status: Option<GrantStatus>,
}

impl Grant {
    /// Get the grant name from metadata
    pub fn name(&self) -> (name: String)
        ensures
            name@ == name_or_empty(self.metadata.name),
    {
        self.metadata.name_or_default()
    }

    /// Get display-friendly resource summary
    pub fn resource_summary(&self) -> (summary: String)
        ensures
            summary@ == grant_summary(
                optional_text(self.spec.hard.requests_cpu),
                optional_text(self.spec.hard.requests_memory),
                optional_text(self.spec.hard.requests_storage),
            ),
    {
        let mut parts: Vec<String> = Vec::new();
        assert(parts.deep_view() =~= Seq::empty());
        push_labelled(&mut parts, "CPU: ", &self.spec.hard.requests_cpu);
        push_labelled(&mut parts, "Mem: ", &self.spec.hard.requests_memory);
        push_labelled(&mut parts, "Storage: ", &self.spec.hard.requests_storage);
        assert(parts.deep_view() =~= grant_summary_parts(
            optional_text(self.spec.hard.requests_cpu),
            optional_text(self.spec.hard.requests_memory),
            optional_text(self.spec.hard.requests_storage),
        ));
        if parts.is_empty() {
            String::from_str("No limits specified")
        } else {
            join(&parts, ", ")
        }
    }
}

} // verus!
