//! Operations on grants in the cluster. Offline, they answer with
//! placeholders, so that the screens have something to show.

use vstd::prelude::*;
use crate::defs::grant::{Grant, GrantPhase, GrantSpec, GrantStatus, NetworkPolicy, ResourceLimits};
use crate::defs::meta::{name_or_empty, Metadata};
use crate::ha::client::{ClientError, KubeClient};
use crate::text::optional_text;

verus! {

/// Whether `spec` is the specification of the placeholder grant: from
/// `offline` to `unknown`, without limits, network policy or validity.
pub open spec fn is_placeholder_spec(spec: GrantSpec) -> bool {
    &&& spec.grantor_realm@ == "offline"@
    &&& spec.grantee_realm@ == "unknown"@
    &&& spec.hard.requests_cpu is None
    &&& spec.hard.requests_memory is None
    &&& spec.hard.limits_cpu is None
    &&& spec.hard.limits_memory is None
    &&& spec.hard.requests_storage is None
    &&& spec.hard.requests_gpu is None
    &&& !spec.network_policy.egress_allowed
    &&& spec.network_policy.allowed_destinations@.len() == 0
    &&& spec.validity is None
}

/// Whether `status` is pending, with `message` and nothing else.
pub open spec fn is_pending_with(status: Option<GrantStatus>, message: Seq<char>) -> bool {
    match status {
        Some(status) => {
            &&& status.phase == GrantPhase::Pending
            &&& status.used is None
            &&& optional_text(status.message) == Some(message)
            &&& status.last_updated is None
        },
        None => false,
    }
}

fn placeholder_spec() -> (spec: GrantSpec)
    ensures
        is_placeholder_spec(spec),
{
    GrantSpec {
        grantor_realm: String::from_str("offline"),
        grantee_realm: String::from_str("unknown"),
        hard: ResourceLimits {
            requests_cpu: None,
            requests_memory: None,
            limits_cpu: None,
            limits_memory: None,
            requests_storage: None,
            requests_gpu: None,
        },
        network_policy: NetworkPolicy { egress_allowed: false, allowed_destinations: Vec::new() },
        validity: None,
    }
}

fn pending_status(message: &str) -> (status: GrantStatus)
    ensures
        is_pending_with(Some(status), message@),
{
    GrantStatus {
        phase: GrantPhase::Pending,
        used: None,
        message: Some(String::from_str(message)),
        last_updated: None,
    }
}

/// List all grants in the keystone namespace. Offline, there are none.
pub fn list_grants(_client: &KubeClient) -> (grants: Result<Vec<Grant>, ClientError>)
    ensures
        grants matches Ok(list) && list@.len() == 0,
{
    Ok(Vec::new())
}

/// Get a specific grant by name. Offline, a placeholder under that name.
pub fn get_grant(_client: &KubeClient, name: &str) -> (grant: Result<Grant, ClientError>)
    ensures
        grant matches Ok(found) && name_or_empty(found.metadata.name) == name@
            && found.metadata.name is Some && is_placeholder_spec(found.spec) && is_pending_with(
            found.status,
            "Mock data"@,
        ),
{
    Ok(
        Grant {
            metadata: Metadata::named(name),
            spec: placeholder_spec(),
            status: Some(pending_status("Mock data")),
        },
    )
}

/// Create a new grant. Offline, the grant is handed back as pending.
pub fn create_grant(_client: &KubeClient, name: &str, spec: GrantSpec) -> (grant: Result<
    Grant,
    ClientError,
>)
    ensures
        grant matches Ok(made) && name_or_empty(made.metadata.name) == name@
            && made.metadata.name is Some && made.spec == spec && is_pending_with(
            made.status,
            "Created in mock mode"@,
        ),
{
    Ok(
        Grant {
            metadata: Metadata::named(name),
            spec,
            status: Some(pending_status("Created in mock mode")),
        },
    )
}

/// Delete (revoke) a grant. Offline, there is nothing to delete.
pub fn delete_grant(_client: &KubeClient, _name: &str) -> (done: Result<(), ClientError>)
    ensures
        done is Ok,
{
    Ok(())
}

/// Update grant status. Offline, a placeholder that carries the status.
pub fn update_grant_status(_client: &KubeClient, name: &str, status: GrantStatus) -> (grant: Result<
    Grant,
    ClientError,
>)
    ensures
        grant matches Ok(updated) && name_or_empty(updated.metadata.name) == name@
            && updated.metadata.name is Some && is_placeholder_spec(updated.spec)
            && updated.status == Some(status),
{
    Ok(Grant { metadata: Metadata::named(name), spec: placeholder_spec(), status: Some(status) })
}

/// Check if the Grant CRD is installed in the cluster. Offline, it is not.
pub fn check_crd_installed(_client: &KubeClient) -> (installed: Result<bool, ClientError>)
    ensures
        installed == Ok::<bool, ClientError>(false),
{
    Ok(false)
}

} // verus!
