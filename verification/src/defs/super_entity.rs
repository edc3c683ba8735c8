//! Super entities: structures that several realms own together.

use vstd::prelude::*;
use crate::defs::meta::{name_or_empty, Metadata};

verus! {

/// Super entity specification
#[derive(Clone, Debug, Default, PartialEq)]
pub struct SuperEntitySpec {
    pub name: String,
    pub purpose: String,
    pub member_realms: Vec<String>,
    pub storage_contributed: String,
}

/// Super entity status
#[derive(Clone, Debug, Default, PartialEq)]
pub struct SuperEntityStatus {
    pub phase: SuperEntityPhase,
    pub message: Option<String>,
}

/// Super entity lifecycle phases
#[derive(Clone, Debug, Default, PartialEq, Eq, Structural)]
pub enum SuperEntityPhase {
    #[default]
    Pending,
    Active,
    Incomplete,
}

/// How a super entity phase reads on screen.
pub open spec fn super_entity_phase_label(phase: SuperEntityPhase) -> Seq<char> {
    match phase {
        SuperEntityPhase::Pending => "Pending"@,
        SuperEntityPhase::Active => "Active"@,
        SuperEntityPhase::Incomplete => "Incomplete"@,
    }
}

impl SuperEntityPhase {
    /// The phase as it reads on screen.
    pub fn label(&self) -> (text: &'static str)
        ensures
            text@ == super_entity_phase_label(*self),
    {
        match self {
            SuperEntityPhase::Pending => "Pending",
            SuperEntityPhase::Active => "Active",
            SuperEntityPhase::Incomplete => "Incomplete",
        }
    }

    /// The phase as it reads on screen, as an owned string.
    pub fn to_string(&self) -> (text: String)
        ensures
            text@ == super_entity_phase_label(*self),
    {
        String::from_str(self.label())
    }
}

/// A super entity as the cluster stores it.
#[derive(Clone, Debug, Default, PartialEq)]
pub struct SuperEntity {
    pub metadata: Metadata,
    pub spec: SuperEntitySpec,
    pub status: Option<SuperEntityStatus>,
}

impl SuperEntity {
    /// The name of the super entity, from its metadata.
    pub fn name(&self) -> (name: String)
        ensures
            name@ == name_or_empty(self.metadata.name),
    {
        self.metadata.name_or_default()
    }
}

} // verus!
