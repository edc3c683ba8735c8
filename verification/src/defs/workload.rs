//! Workloads deployed to a realm.

use vstd::prelude::*;
use crate::defs::grant::{labelled_part, push_labelled};
use crate::text::{join, joined, optional_text};

verus! {

/// A deployed workload
#[derive(Clone, Debug, Default, PartialEq)]
pub struct Workload {
    pub id: String,
    pub name: String,
    pub image: String,
    pub target_realm: String,
    pub status: WorkloadPhase,
    pub resources: WorkloadResources,
    pub ports: Vec<PortMapping>,
    pub env: Vec<EnvVar>,
    pub created_at: Option<String>,
    pub started_at: Option<String>,
}

/// The parts of a resource summary: CPU and memory, each only where set.
pub open spec fn usage_summary_parts(
    cpu: Option<Seq<char>>,
    memory: Option<Seq<char>>,
) -> Seq<Seq<char>> {
    labelled_part("CPU: "@, cpu) + labelled_part("Mem: "@, memory)
}

/// The summary of CPU and memory, or `fallback` where neither is set.
pub open spec fn usage_summary(
    cpu: Option<Seq<char>>,
    memory: Option<Seq<char>>,
    fallback: Seq<char>,
) -> Seq<char> {
    if usage_summary_parts(cpu, memory).len() == 0 {
        fallback
    } else {
        joined(usage_summary_parts(cpu, memory), ", "@)
    }
}

/// Summarises CPU and memory, or answers `fallback` where neither is set.
pub fn summarize_usage(cpu: &Option<String>, memory: &Option<String>, fallback: &str) -> (summary:
    String)
    ensures
        summary@ == usage_summary(optional_text(*cpu), optional_text(*memory), fallback@),
{
    let mut parts: Vec<String> = Vec::new();
    assert(parts.deep_view() =~= Seq::empty());
    push_labelled(&mut parts, "CPU: ", cpu);
    push_labelled(&mut parts, "Mem: ", memory);
    assert(parts.deep_view() =~= usage_summary_parts(optional_text(*cpu), optional_text(*memory)));
    if parts.is_empty() {
        String::from_str(fallback)
    } else {
        join(&parts, ", ")
    }
}

impl Workload {
    /// Get resource summary
    pub fn resource_summary(&self) -> (summary: String)
        ensures
            summary@ == usage_summary(
                optional_text(self.resources.cpu),
                optional_text(self.resources.memory),
                "Default resources"@,
            ),
    {
        summarize_usage(&self.resources.cpu, &self.resources.memory, "Default resources")
    }
}

/// Workload lifecycle phases
#[derive(Clone, Debug, Default, PartialEq, Eq, Structural)]
pub enum WorkloadPhase {
    #[default]
    Pending,
    Creating,
    Running,
    Stopped,
    Failed,
    Terminating,
}

/// How a workload phase reads on screen.
pub open spec fn workload_phase_label(phase: WorkloadPhase) -> Seq<char> {
    match phase {
        WorkloadPhase::Pending => "Pending"@,
        WorkloadPhase::Creating => "Creating"@,
        WorkloadPhase::Running => "Running"@,
        WorkloadPhase::Stopped => "Stopped"@,
        WorkloadPhase::Failed => "Failed"@,
        WorkloadPhase::Terminating => "Terminating"@,
    }
}

impl WorkloadPhase {
    /// The phase as it reads on screen.
    pub fn label(&self) -> (text: &'static str)
        ensures
            text@ == workload_phase_label(*self),
    {
        match self {
            WorkloadPhase::Pending => "Pending",
            WorkloadPhase::Creating => "Creating",
            WorkloadPhase::Running => "Running",
            WorkloadPhase::Stopped => "Stopped",
            WorkloadPhase::Failed => "Failed",
            WorkloadPhase::Terminating => "Terminating",
        }
    }

    /// The phase as it reads on screen, as an owned string.
    pub fn to_string(&self) -> (text: String)
        ensures
            text@ == workload_phase_label(*self),
    {
        String::from_str(self.label())
    }
}

/// Resource requests for a workload
#[derive(Clone, Debug, Default, PartialEq)]
pub struct WorkloadResources {
    pub cpu: Option<String>,
    pub memory: Option<String>,
    pub storage: Option<String>,
}

/// Port mapping for a workload
#[derive(Clone, Debug, PartialEq)]
pub struct PortMapping {
    pub container_port: u16,
    pub host_port: Option<u16>,
    pub protocol: String,
}

/// Environment variable
#[derive(Clone, Debug, PartialEq)]
pub struct EnvVar {
    pub name: String,
    pub value: String,
}

/// Workload specification (for CRD)
#[derive(Clone, Debug, Default, PartialEq)]
pub struct WorkloadSpec {
    pub name: String,
    pub image: String,
    pub target_realm: String,
    pub resources: WorkloadResources,
    pub ports: Vec<PortMapping>,
    pub env: Vec<EnvVar>,
}

/// Workload status
#[derive(Clone, Debug, Default, PartialEq)]
pub struct WorkloadStatus {
    pub phase: WorkloadPhase,
    pub message: Option<String>,
    pub started_at: Option<String>,
}

} // verus!
