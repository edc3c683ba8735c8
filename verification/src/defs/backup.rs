//! Backups and where their copies are.

use vstd::prelude::*;

verus! {

/// Backup information
#[derive(Clone, Debug, Default, PartialEq)]
pub struct Backup {
    pub id: String,
    pub name: String,
    pub backup_type: BackupType,
    pub copy_count: u32,
    pub locations: Vec<String>,
    pub last_verified: Option<String>,
    pub status: BackupPhase,
    pub size: Option<String>,
    pub created_at: Option<String>,
}

/// Type of backup
#[derive(Clone, Debug, Default, PartialEq, Eq, Structural)]
pub enum BackupType {
    #[default]
    Local,
    SuperEntity,
    Remote,
}

/// How a backup type reads on screen.
pub open spec fn backup_type_label(kind: BackupType) -> Seq<char> {
    match kind {
        BackupType::Local => "Local"@,
        BackupType::SuperEntity => "Super Entity"@,
        BackupType::Remote => "Remote"@,
    }
}

impl BackupType {
    /// The type as it reads on screen.
    pub fn label(&self) -> (text: &'static str)
        ensures
            text@ == backup_type_label(*self),
    {
        match self {
            BackupType::Local => "Local",
            BackupType::SuperEntity => "Super Entity",
            BackupType::Remote => "Remote",
        }
    }

    /// The type as it reads on screen, as an owned string.
    pub fn to_string(&self) -> (text: String)
        ensures
            text@ == backup_type_label(*self),
    {
        String::from_str(self.label())
    }
}

/// Backup verification status
#[derive(Clone, Debug, Default, PartialEq, Eq, Structural)]
pub enum BackupPhase {
    #[default]
    Unknown,
    Healthy,
    Degraded,
    Verifying,
    Failed,
}

/// How a backup phase reads on screen.
pub open spec fn backup_phase_label(phase: BackupPhase) -> Seq<char> {
    match phase {
        BackupPhase::Unknown => "Unknown"@,
        BackupPhase::Healthy => "Healthy"@,
        BackupPhase::Degraded => "Degraded"@,
        BackupPhase::Verifying => "Verifying"@,
        BackupPhase::Failed => "Failed"@,
    }
}

impl BackupPhase {
    /// The phase as it reads on screen.
    pub fn label(&self) -> (text: &'static str)
        ensures
            text@ == backup_phase_label(*self),
    {
        match self {
            BackupPhase::Unknown => "Unknown",
            BackupPhase::Healthy => "Healthy",
            BackupPhase::Degraded => "Degraded",
            BackupPhase::Verifying => "Verifying",
            BackupPhase::Failed => "Failed",
        }
    }

    /// The phase as it reads on screen, as an owned string.
    pub fn to_string(&self) -> (text: String)
        ensures
            text@ == backup_phase_label(*self),
    {
        String::from_str(self.label())
    }
}

/// Backup specification
#[derive(Clone, Debug, Default, PartialEq)]
pub struct BackupSpec {
    pub name: String,
    pub source_path: String,
    pub target_realms: Vec<String>,
    pub replication_factor: u32,
}

/// Backup status
#[derive(Clone, Debug, Default, PartialEq)]
pub struct BackupStatus {
    pub phase: BackupPhase,
    pub copy_count: u32,
    pub locations: Vec<String>,
    pub last_verified: Option<String>,
    pub message: Option<String>,
}

} // verus!
