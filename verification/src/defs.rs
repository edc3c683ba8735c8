//! The records shared between realms: grants, realms, workloads, super
//! entities and backups.

pub mod backup;
pub mod grant;
pub mod meta;
pub mod realm;
pub mod super_entity;
pub mod workload;
