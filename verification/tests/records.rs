use keystone_tui::defs::backup::{Backup, BackupPhase, BackupType};
use keystone_tui::defs::grant::{Grant, GrantPhase, GrantSpec, GrantStatus, ResourceLimits};
use keystone_tui::defs::meta::Metadata;
use keystone_tui::defs::realm::{ConnectionType, RealmPhase, RealmResourceUsage};
use keystone_tui::defs::super_entity::{SuperEntity, SuperEntityPhase};
use keystone_tui::defs::workload::{summarize_usage, Workload, WorkloadPhase, WorkloadResources};
use keystone_tui::ha::client::KubeClient;
use keystone_tui::ha::operations::{
    check_crd_installed, create_grant, delete_grant, get_grant, list_grants, update_grant_status,
};
use keystone_tui::ha::realm::Realm;
use keystone_tui::text::{chars_of, join, labelled, string_of};

fn some(text: &str) -> Option<String> {
    Some(text.to_string())
}

fn grant(cpu: Option<&str>, memory: Option<&str>, storage: Option<&str>) -> Grant {
    Grant {
        metadata: Metadata::named("g"),
        spec: GrantSpec {
            hard: ResourceLimits {
                requests_cpu: cpu.map(str::to_string),
                requests_memory: memory.map(str::to_string),
                requests_storage: storage.map(str::to_string),
                limits_cpu: some("99"),
                limits_memory: some("99Gi"),
                requests_gpu: Some(1),
            },
            ..GrantSpec::default()
        },
        status: None,
    }
}

#[test]
fn test_list_grants() {
    let client = KubeClient::try_default().unwrap();
    let grants = list_grants(&client).unwrap();
    assert!(grants.is_empty());
}

#[test]
fn phases_read_as_their_names() {
    assert_eq!(BackupType::Local.to_string(), "Local");
    assert_eq!(BackupType::SuperEntity.to_string(), "Super Entity");
    assert_eq!(BackupType::Remote.to_string(), "Remote");
    assert_eq!(BackupPhase::Unknown.to_string(), "Unknown");
    assert_eq!(BackupPhase::Healthy.to_string(), "Healthy");
    assert_eq!(BackupPhase::Degraded.to_string(), "Degraded");
    assert_eq!(BackupPhase::Verifying.to_string(), "Verifying");
    assert_eq!(BackupPhase::Failed.to_string(), "Failed");
    assert_eq!(GrantPhase::Pending.to_string(), "Pending");
    assert_eq!(GrantPhase::Active.to_string(), "Active");
    assert_eq!(GrantPhase::Revoked.to_string(), "Revoked");
    assert_eq!(GrantPhase::Expired.to_string(), "Expired");
    assert_eq!(ConnectionType::Tailscale.to_string(), "Tailscale");
    assert_eq!(ConnectionType::Headscale.to_string(), "Headscale");
    assert_eq!(ConnectionType::Token.to_string(), "Token");
    assert_eq!(RealmPhase::Unknown.to_string(), "Unknown");
    assert_eq!(RealmPhase::Connecting.to_string(), "Connecting");
    assert_eq!(RealmPhase::Connected.to_string(), "Connected");
    assert_eq!(RealmPhase::Disconnected.to_string(), "Disconnected");
    assert_eq!(RealmPhase::Error.to_string(), "Error");
    assert_eq!(SuperEntityPhase::Pending.to_string(), "Pending");
    assert_eq!(SuperEntityPhase::Active.to_string(), "Active");
    assert_eq!(SuperEntityPhase::Incomplete.to_string(), "Incomplete");
    assert_eq!(WorkloadPhase::Pending.to_string(), "Pending");
    assert_eq!(WorkloadPhase::Creating.to_string(), "Creating");
    assert_eq!(WorkloadPhase::Running.to_string(), "Running");
    assert_eq!(WorkloadPhase::Stopped.to_string(), "Stopped");
    assert_eq!(WorkloadPhase::Failed.to_string(), "Failed");
    assert_eq!(WorkloadPhase::Terminating.to_string(), "Terminating");
    assert_eq!(WorkloadPhase::Terminating.label(), "Terminating");
}

#[test]
fn defaults_are_the_first_phases() {
    assert_eq!(BackupType::default(), BackupType::Local);
    assert_eq!(BackupPhase::default(), BackupPhase::Unknown);
    assert_eq!(GrantPhase::default(), GrantPhase::Pending);
    assert_eq!(ConnectionType::default(), ConnectionType::Token);
    assert_eq!(RealmPhase::default(), RealmPhase::Unknown);
    assert_eq!(SuperEntityPhase::default(), SuperEntityPhase::Pending);
    assert_eq!(WorkloadPhase::default(), WorkloadPhase::Pending);
    assert_eq!(Backup::default().copy_count, 0);
}

#[test]
fn grant_name_comes_from_the_metadata() {
    assert_eq!(grant(None, None, None).name(), "g");
    let unnamed = Grant::default();
    assert_eq!(unnamed.name(), "");
    let entity = SuperEntity { metadata: Metadata::named("family-fabric"), ..SuperEntity::default() };
    assert_eq!(entity.name(), "family-fabric");
    assert_eq!(SuperEntity::default().name(), "");
    assert_eq!(Metadata::named("x").name, some("x"));
}

#[test]
fn grant_summary_lists_what_is_set() {
    assert_eq!(
        grant(Some("4"), Some("8Gi"), Some("250Gi")).resource_summary(),
        "CPU: 4, Mem: 8Gi, Storage: 250Gi"
    );
    assert_eq!(grant(Some("4"), None, Some("250Gi")).resource_summary(), "CPU: 4, Storage: 250Gi");
    assert_eq!(grant(None, Some("8Gi"), None).resource_summary(), "Mem: 8Gi");
    assert_eq!(grant(None, None, Some("1Ti")).resource_summary(), "Storage: 1Ti");
    assert_eq!(grant(None, None, None).resource_summary(), "No limits specified");
    assert_eq!(grant(Some(""), None, None).resource_summary(), "CPU: ");
}

#[test]
fn workload_summary_lists_cpu_and_memory() {
    let mut workload = Workload::default();
    assert_eq!(workload.resource_summary(), "Default resources");
    workload.resources = WorkloadResources { cpu: some("2"), memory: some("4Gi"), storage: some("1Ti") };
    assert_eq!(workload.resource_summary(), "CPU: 2, Mem: 4Gi");
    workload.resources.cpu = None;
    assert_eq!(workload.resource_summary(), "Mem: 4Gi");
    workload.resources = WorkloadResources { cpu: None, memory: None, storage: some("1Ti") };
    assert_eq!(workload.resource_summary(), "Default resources");
    assert_eq!(summarize_usage(&some("1"), &None, "none"), "CPU: 1");
    assert_eq!(summarize_usage(&None, &None, "none"), "none");
}

#[test]
fn realm_status_and_summary() {
    let mut realm = Realm::default();
    assert_eq!(realm.status_display(), "Disconnected");
    assert_eq!(realm.resource_summary(), "No limits");
    realm.connected = true;
    assert_eq!(realm.status_display(), "Connected");
    realm.resource_limits = Some(RealmResourceUsage { cpu: None, memory: None, storage: some("8Ti") });
    assert_eq!(realm.resource_summary(), "No limits");
    realm.resource_limits = Some(RealmResourceUsage { cpu: some("12"), memory: some("64Gi"), storage: None });
    assert_eq!(realm.resource_summary(), "CPU: 12, Mem: 64Gi");
}

#[test]
fn client_keeps_its_namespace() {
    let mut client = KubeClient::try_default().unwrap();
    assert_eq!(client.namespace(), "keystone-system");
    client.set_namespace("other");
    assert_eq!(client.namespace(), "other");
    let named = KubeClient::with_namespace("mine").unwrap();
    assert_eq!(named.namespace(), "mine");
    assert_eq!(named.health_check(), Ok(false));
    assert_eq!(keystone_tui::ha::client::KEYSTONE_NAMESPACE, "keystone-system");
}

#[test]
fn offline_operations_answer_with_placeholders() {
    let client = KubeClient::try_default().unwrap();
    let found = get_grant(&client, "family-compute").unwrap();
    assert_eq!(found.name(), "family-compute");
    assert_eq!(found.spec.grantor_realm, "offline");
    assert_eq!(found.spec.grantee_realm, "unknown");
    assert_eq!(found.spec.hard, ResourceLimits::default());
    assert_eq!(found.spec.validity, None);
    assert_eq!(found.resource_summary(), "No limits specified");
    let status = found.status.unwrap();
    assert_eq!(status.phase, GrantPhase::Pending);
    assert_eq!(status.message, some("Mock data"));

    let spec = grant(Some("1"), None, None).spec;
    let made = create_grant(&client, "new", spec.clone()).unwrap();
    assert_eq!(made.name(), "new");
    assert_eq!(made.spec, spec);
    assert_eq!(made.status.unwrap().message, some("Created in mock mode"));

    assert_eq!(delete_grant(&client, "new"), Ok(()));
    assert_eq!(check_crd_installed(&client), Ok(false));

    let status = GrantStatus { phase: GrantPhase::Revoked, used: None, message: some("gone"), last_updated: None };
    let updated = update_grant_status(&client, "old", status.clone()).unwrap();
    assert_eq!(updated.name(), "old");
    assert_eq!(updated.status, Some(status));
    assert_eq!(updated.spec.grantor_realm, "offline");
}

#[test]
fn text_helpers() {
    assert_eq!(labelled("CPU: ", "4"), "CPU: 4");
    assert_eq!(labelled("", ""), "");
    let parts = vec!["a".to_string(), "b".to_string(), "c".to_string()];
    assert_eq!(join(&parts, ", "), "a, b, c");
    assert_eq!(join(&parts[..1].to_vec(), ", "), "a");
    assert_eq!(join(&Vec::new(), ", "), "");
    assert_eq!(join(&vec![String::new(), String::new()], "-"), "-");
    assert_eq!(chars_of("héllo"), vec!['h', 'é', 'l', 'l', 'o']);
    assert_eq!(string_of(&vec!['n', 'é', 'e']), "née");
    assert_eq!(string_of(&chars_of("round trip")), "round trip");
    assert!(chars_of("").is_empty());
}
