//! The records that populate the manager while no cluster is connected.

use vstd::prelude::*;
use crate::defs::backup::{Backup, BackupPhase, BackupType};
use crate::defs::grant::{
    Grant, GrantPhase, GrantSpec, GrantStatus, NetworkPolicy, ResourceLimits, Validity,
};
use crate::defs::meta::{name_or_empty, Metadata};
use crate::defs::realm::{ConnectionType, RealmResourceUsage};
use crate::defs::super_entity::{
    SuperEntity, SuperEntityPhase, SuperEntitySpec, SuperEntityStatus,
};
use crate::defs::workload::{EnvVar, PortMapping, Workload, WorkloadPhase, WorkloadResources};
use crate::ha::app::{App, AppView};
use crate::ha::realm::Realm;
use crate::text::optional_text;

verus! {

/// The names of the grants on offer offline.
pub open spec fn mock_grant_names() -> Seq<Seq<char>> {
    seq!["family-compute"@, "shared-gpu"@]
}

/// The identifiers of the realms connected offline.
pub open spec fn mock_realm_ids() -> Seq<Seq<char>> {
    seq!["home-lab"@, "research-lab"@]
}

/// The identifiers of the workloads running offline.
pub open spec fn mock_workload_ids() -> Seq<Seq<char>> {
    seq!["ml-api"@, "video-pipeline"@]
}

/// The names of the super entities known offline.
pub open spec fn mock_super_entity_names() -> Seq<Seq<char>> {
    seq!["family-fabric"@, "friends-gaming"@]
}

/// The identifiers of the backups known offline.
pub open spec fn mock_backup_ids() -> Seq<Seq<char>> {
    seq!["photos-2024"@, "db-snapshots"@, "research-datasets"@]
}

fn owned(text: &str) -> (owned: String)
    ensures
        owned@ == text@,
{
    String::from_str(text)
}

fn given(text: &str) -> (given: Option<String>)
    ensures
        given matches Some(owned) && owned@ == text@,
{
    Some(String::from_str(text))
}

/// The usage or the limits of a realm, with all three amounts given.
fn usage(cpu: &str, memory: &str, storage: &str) -> (usage: Option<RealmResourceUsage>)
    ensures
        usage matches Some(amounts) && optional_text(amounts.cpu) == Some(cpu@) && optional_text(
            amounts.memory,
        ) == Some(memory@) && optional_text(amounts.storage) == Some(storage@),
{
    Some(RealmResourceUsage { cpu: given(cpu), memory: given(memory), storage: given(storage) })
}

/// The limits of a grant, with every amount but the GPUs given.
fn limits(
    requests_cpu: &str,
    requests_memory: &str,
    limits_cpu: &str,
    limits_memory: &str,
    requests_storage: &str,
    requests_gpu: Option<i32>,
) -> (limits: ResourceLimits)
    ensures
        optional_text(limits.requests_cpu) == Some(requests_cpu@),
        optional_text(limits.requests_memory) == Some(requests_memory@),
        optional_text(limits.limits_cpu) == Some(limits_cpu@),
        optional_text(limits.limits_memory) == Some(limits_memory@),
        optional_text(limits.requests_storage) == Some(requests_storage@),
        limits.requests_gpu == requests_gpu,
{
    ResourceLimits {
        requests_cpu: given(requests_cpu),
        requests_memory: given(requests_memory),
        limits_cpu: given(limits_cpu),
        limits_memory: given(limits_memory),
        requests_storage: given(requests_storage),
        requests_gpu,
    }
}

/// The status of a grant in `phase`, with `message` and nothing else.
fn grant_status(phase: GrantPhase, message: &str) -> (status: Option<GrantStatus>)
    ensures
        status matches Some(made) && made.phase == phase && made.used is None && optional_text(
            made.message,
        ) == Some(message@) && made.last_updated is None,
{
    Some(GrantStatus { phase, used: None, message: given(message), last_updated: None })
}

fn mock_grants() -> (grants: Vec<Grant>)
    ensures
        grants@.len() == 2,
        name_or_empty(grants@[0].metadata.name) == "family-compute"@,
        name_or_empty(grants@[1].metadata.name) == "shared-gpu"@,
{
    let mut destinations: Vec<String> = Vec::new();
    destinations.push(owned("10.42.0.0/16"));
    destinations.push(owned("home-lab"));
    let mut grants: Vec<Grant> = Vec::new();
    grants.push(
        Grant {
            metadata: Metadata::named("family-compute"),
            spec: GrantSpec {
                grantor_realm: owned("home-lab"),
                grantee_realm: owned("alice-cloud"),
                hard: limits("4", "8Gi", "6", "12Gi", "250Gi", None),
                network_policy: NetworkPolicy {
                    egress_allowed: true,
                    allowed_destinations: destinations,
                },
                validity: Some(
                    Validity { valid_from: owned("2024-11-01T00:00:00Z"), valid_until: None },
                ),
            },
            status: grant_status(GrantPhase::Active, "Ready for workloads"),
        },
    );
    grants.push(
        Grant {
            metadata: Metadata::named("shared-gpu"),
            spec: GrantSpec {
                grantor_realm: owned("research-lab"),
                grantee_realm: owned("home-lab"),
                hard: limits("2", "16Gi", "4", "32Gi", "100Gi", Some(1)),
                network_policy: NetworkPolicy {
                    egress_allowed: false,
                    allowed_destinations: Vec::new(),
                },
                validity: None,
            },
            status: grant_status(GrantPhase::Pending, "Awaiting approval from research-lab"),
        },
    );
    grants
}

fn mock_realms() -> (realms: Vec<Realm>)
    ensures
        realms@.len() == 2,
        realms@[0].id@ == "home-lab"@,
        realms@[1].id@ == "research-lab"@,
{
    let mut realms: Vec<Realm> = Vec::new();
    realms.push(
        Realm {
            id: owned("home-lab"),
            name: owned("Home Lab"),
            connection_type: ConnectionType::Tailscale,
            address: owned("home.ts.net"),
            connected: true,
            grantor: given("self"),
            resource_limits: usage("12", "64Gi", "8Ti"),
            current_usage: usage("4.2", "18Gi", "1.4Ti"),
            egress_allowed: true,
            connected_at: given("2024-10-15T08:00:00Z"),
        },
    );
    realms.push(
        Realm {
            id: owned("research-lab"),
            name: owned("Research Lab"),
            connection_type: ConnectionType::Headscale,
            address: owned("research.headscale.example.com"),
            connected: true,
            grantor: given("research-admin"),
            resource_limits: usage("32", "256Gi", "20Ti"),
            current_usage: usage("12.5", "110Gi", "4.0Ti"),
            egress_allowed: false,
            connected_at: given("2024-10-20T13:00:00Z"),
        },
    );
    realms
}

/// The port list of a workload that exposes one port.
fn one_port(container_port: u16, host_port: Option<u16>, protocol: &str) -> (ports: Vec<
    PortMapping,
>)
    ensures
        ports@.len() == 1,
        ports@[0].container_port == container_port,
        ports@[0].host_port == host_port,
        ports@[0].protocol@ == protocol@,
{
    let mut ports: Vec<PortMapping> = Vec::new();
    ports.push(PortMapping { container_port, host_port, protocol: owned(protocol) });
    ports
}

/// The environment of a workload that sets one variable.
fn one_variable(name: &str, value: &str) -> (env: Vec<EnvVar>)
    ensures
        env@.len() == 1,
        env@[0].name@ == name@,
        env@[0].value@ == value@,
{
    let mut env: Vec<EnvVar> = Vec::new();
    env.push(EnvVar { name: owned(name), value: owned(value) });
    env
}

fn mock_workloads() -> (workloads: Vec<Workload>)
    ensures
        workloads@.len() == 2,
        workloads@[0].id@ == "ml-api"@,
        workloads@[1].id@ == "video-pipeline"@,
{
    let mut workloads: Vec<Workload> = Vec::new();
    workloads.push(
        Workload {
            id: owned("ml-api"),
            name: owned("Edge ML API"),
            image: owned("ghcr.io/keystone/edge-ml:main"),
            target_realm: owned("home-lab"),
            status: WorkloadPhase::Running,
            resources: WorkloadResources { cpu: given("2"), memory: given("4Gi"), storage: None },
            ports: one_port(8080, Some(30080), "TCP"),
            env: one_variable("ENV", "prod"),
            created_at: given("2024-11-05T12:00:00Z"),
            started_at: given("2024-11-05T12:05:00Z"),
        },
    );
    workloads.push(
        Workload {
            id: owned("video-pipeline"),
            name: owned("Video Pipeline"),
            image: owned("ghcr.io/keystone/video-pipeline:latest"),
            target_realm: owned("research-lab"),
            status: WorkloadPhase::Creating,
            resources: WorkloadResources {
                cpu: given("6"),
                memory: given("24Gi"),
                storage: given("500Gi"),
            },
            ports: one_port(9000, None, "UDP"),
            env: one_variable("STAGE", "testing"),
            created_at: given("2024-11-07T09:00:00Z"),
            started_at: None,
        },
    );
    workloads
}

fn mock_super_entities() -> (entities: Vec<SuperEntity>)
    ensures
        entities@.len() == 2,
        name_or_empty(entities@[0].metadata.name) == "family-fabric"@,
        name_or_empty(entities@[1].metadata.name) == "friends-gaming"@,
{
    let mut family: Vec<String> = Vec::new();
    family.push(owned("home-lab"));
    family.push(owned("alice-cloud"));
    family.push(owned("bob-hub"));
    let mut friends: Vec<String> = Vec::new();
    friends.push(owned("home-lab"));
    friends.push(owned("carl-hub"));
    let mut entities: Vec<SuperEntity> = Vec::new();
    entities.push(
        SuperEntity {
            metadata: Metadata::named("family-fabric"),
            spec: SuperEntitySpec {
                name: owned("Family Fabric"),
                purpose: owned("Shared backups across households"),
                member_realms: family,
                storage_contributed: owned("12Ti"),
            },
            status: Some(SuperEntityStatus { phase: SuperEntityPhase::Active, message: None }),
        },
    );
    entities.push(
        SuperEntity {
            metadata: Metadata::named("friends-gaming"),
            spec: SuperEntitySpec {
                name: owned("Friends Gaming Pool"),
                purpose: owned("Low-latency game server hosting"),
                member_realms: friends,
                storage_contributed: owned("2Ti"),
            },
            status: Some(SuperEntityStatus { phase: SuperEntityPhase::Pending, message: None }),
        },
    );
    entities
}

fn mock_backups() -> (backups: Vec<Backup>)
    ensures
        backups@.len() == 3,
        backups@[0].id@ == "photos-2024"@,
        backups@[1].id@ == "db-snapshots"@,
        backups@[2].id@ == "research-datasets"@,
{
    let mut everywhere: Vec<String> = Vec::new();
    everywhere.push(owned("home-lab"));
    everywhere.push(owned("alice-cloud"));
    everywhere.push(owned("bob-hub"));
    let mut at_home: Vec<String> = Vec::new();
    at_home.push(owned("home-lab"));
    let mut remote: Vec<String> = Vec::new();
    remote.push(owned("research-lab"));
    remote.push(owned("cold-storage"));
    let mut backups: Vec<Backup> = Vec::new();
    backups.push(
        Backup {
            id: owned("photos-2024"),
            name: owned("Family Photos 2024"),
            backup_type: BackupType::SuperEntity,
            copy_count: 3,
            locations: everywhere,
            last_verified: given("2024-11-06T18:30:00Z"),
            status: BackupPhase::Healthy,
            size: given("1.2Ti"),
            created_at: given("2024-01-01T00:00:00Z"),
        },
    );
    backups.push(
        Backup {
            id: owned("db-snapshots"),
            name: owned("DB Snapshots"),
            backup_type: BackupType::Local,
            copy_count: 1,
            locations: at_home,
            last_verified: given("2024-11-02T07:10:00Z"),
            status: BackupPhase::Degraded,
            size: given("220Gi"),
            created_at: given("2024-06-15T00:00:00Z"),
        },
    );
    backups.push(
        Backup {
            id: owned("research-datasets"),
            name: owned("Research Datasets"),
            backup_type: BackupType::Remote,
            copy_count: 2,
            locations: remote,
            last_verified: None,
            status: BackupPhase::Verifying,
            size: given("4.5Ti"),
            created_at: given("2024-08-20T00:00:00Z"),
        },
    );
    backups
}

impl App {
    /// Create a new application instance: on the home screen, with the
    /// offline records loaded.
    pub fn new() -> (app: Self)
        ensures
            app@ == (AppView {
                grant_names: mock_grant_names(),
                realm_ids: mock_realm_ids(),
                workload_ids: mock_workload_ids(),
                super_entity_names: mock_super_entity_names(),
                backup_ids: mock_backup_ids(),
                ..App::empty_view()
            }),
            !app.connected,
            app.current_realm is None,
            !app.loading,
    {
        let mut app = App::empty();
        app.load_mock_data();
        app
    }

    /// Seed the app with mocked data so UI screens are populated offline
    pub fn load_mock_data(&mut self)
        ensures
            final(self)@ == (AppView {
                grant_names: mock_grant_names(),
                realm_ids: mock_realm_ids(),
                workload_ids: mock_workload_ids(),
                super_entity_names: mock_super_entity_names(),
                backup_ids: mock_backup_ids(),
                ..old(self)@
            }),
            final(self).connected == old(self).connected,
            final(self).current_realm == old(self).current_realm,
            final(self).loading == old(self).loading,
    {
        self.grants = mock_grants();
        self.realms = mock_realms();
        self.workloads = mock_workloads();
        self.super_entities = mock_super_entities();
        self.backups = mock_backups();
        assert(self@.grant_names =~= mock_grant_names());
        assert(self@.realm_ids =~= mock_realm_ids());
        assert(self@.workload_ids =~= mock_workload_ids());
        assert(self@.super_entity_names =~= mock_super_entity_names());
        assert(self@.backup_ids =~= mock_backup_ids());
    }
}

impl Default for App {
    fn default() -> (app: Self)
        ensures
            app@ == (AppView {
                grant_names: mock_grant_names(),
                realm_ids: mock_realm_ids(),
                workload_ids: mock_workload_ids(),
                super_entity_names: mock_super_entity_names(),
                backup_ids: mock_backup_ids(),
                ..App::empty_view()
            }),
            !app.connected,
            app.current_realm is None,
            !app.loading,
    {
        App::new()
    }
}

} // verus!
