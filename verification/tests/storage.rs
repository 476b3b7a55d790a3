use neoengramd::agent_registry::bootstrap::{
    apply_bootstrap, bootstrap_candidate, AgentBootstrapRequest, BootstrapIdentityOwners,
    BootstrapStep,
};
use neoengramd::agent_registry::decision::{decide_enrollment, EnrollmentDecisionStep};
use neoengramd::agent_registry::intent::{
    plan_token_intent, AgentEnrollmentTokenCreateRequest, StorageIntentMetadata,
};
use neoengramd::agent_registry::records::{
    AgentBootstrapProbe, AgentCredentialEvidence, AgentEnrollmentApprovalRequest,
    AgentEnrollmentAuditKind, AgentEnrollmentDecision, AgentRegistryRecord,
    AgentSignatureAlgorithm, BootstrapTokenMetadata, Ed25519PublicKeySpki, FrozenPvcReference,
    FrozenStorageDescriptor, MountAccessMode, ResourceHealth, StorageEnrollmentAccessMode,
    StorageEnrollmentRegistrationKind, StorageEnrollmentState,
};
use neoengramd::catalog::records::{
    CatalogInsertOutcome, CatalogPvcReference, PlaygroundRecord, PlaygroundState,
    StorageAccessMode, StorageBackendType, StorageVolumeRecord, StorageVolumeState, TenantRecord,
};
use neoengramd::digest::ContentDigest;
use neoengramd::error::{CentralErrorCode, CentralResult};
use neoengramd::identifier::Identifier;
use neoengramd::memory::outbox::AssignmentReservation;
use neoengramd::model::{AddJobSpec, AuditKind, JobKey, JobRecord};
use neoengramd::ports::{
    AssignmentPublishOutcome, AssignmentReserveOutcome, AssignmentRetireOutcome,
};
use neoengramd::precommit::{PreCommitKey, PreCommitRecord, PreCommitState};
use neoengramd::protocol::{
    AssignmentIdentity, AssignmentOperation, JobAssignment, JobOperation, JobState,
    MetadataBatchDescriptor, MetadataBatchPage, MetadataBatchScope, WireIndexVersion,
};
use neoengramd::storage::authority_rows::{
    decode_descriptor_row, decode_index_record, decode_job_row, decode_page_row,
    decode_precommit_row, job_write_missed, precommit_state_name, resolve_existing_reservation,
    resolve_publish, resolve_reactivate, resolve_retire, validate_active_rows,
    validate_index_digest, validate_job_replace, validate_manifest_identity,
    validate_precommit_replace, IndexRecordColumns, JobColumns, MetadataDescriptorColumns,
    PreCommitColumns,
};
use neoengramd::storage::catalog_rows::{
    decode_playground, decode_tenant, decode_volume, encode_playground, encode_tenant,
    encode_volume, resolve_existing_tenant, resolve_tenant_race, tenant_page,
};
use neoengramd::storage::codec::{
    as_i64, escape_like, escape_like_pattern, exact_32, optional_digest, parse_canonical_u64,
    parse_id, parse_u64, registry_storage_error, sqlite_millis, storage_corruption,
    storage_error, unix_ms, validate_stored_format, STORED_FORMAT_VERSION,
};
use neoengramd::storage::datasource::{
    already_open, authority_table, index_scope_is_current, plan_authority_open,
    plan_registry_open, prepare_root, validate_authority_table, validate_database_path,
    validate_index_migration, validate_integrity, validate_lock_path,
    validate_playground_migration, validate_registry_schema, validate_table_set,
    IndexMigrationCheck, Migration, OpenPlan, PathState, SqliteAuthorityConfig, Store,
    StoredObject, AUTHORITY_APPLICATION_ID, DEFAULT_BUSY_TIMEOUT_MS, REGISTRY_APPLICATION_ID,
    REGISTRY_SCHEMA_VERSION,
};
use neoengramd::storage::names::{
    access_mode_name, audit_kind_name, backend_name, enrollment_audit_kind_name, job_state_name,
    parse_access_mode, parse_backend, parse_playground_state, parse_volume_state,
    playground_state_name, registration_kind_name, storage_enrollment_state_name,
    volume_state_name,
};
use neoengramd::storage::registry_rows::{
    binding_by_claim, current_by_volume, decode_row, identity_columns, query_columns,
    validate_lookup, validate_query_columns, RegistryLookup,
};
use neoengramd::storage::schema::{
    is_catalog_schema_object, is_snapshot_catalog_schema_object, normalize_schema_sql,
    schema_object, schema_presence, schema_statements, words_of, CatalogSchemaPresence,
    SchemaEntry, SchemaObjectKind, SchemaPart,
};
use neoengramd::storage::volume_sync::{sync_volume_from_registry, VolumeRow, VolumeSync};

fn id(text: &str) -> Identifier {
    Identifier::new(text.to_owned())
}

fn digest(byte: u8) -> ContentDigest {
    ContentDigest::from_bytes([byte; 32])
}

fn code<T>(result: CentralResult<T>) -> CentralErrorCode {
    match result {
        Ok(_) => panic!("expected a failure"),
        Err(error) => error.code(),
    }
}

fn message<T>(result: CentralResult<T>) -> String {
    match result {
        Ok(_) => panic!("expected a failure"),
        Err(error) => error.message().to_owned(),
    }
}

fn ok<T>(result: CentralResult<T>) -> T {
    match result {
        Ok(value) => value,
        Err(error) => panic!("{}", error.display()),
    }
}

#[test]
fn numerals_are_read_in_their_canonical_form_only() {
    assert_eq!(ok(parse_canonical_u64("0", "field")), 0);
    assert_eq!(ok(parse_canonical_u64("18446744073709551615", "field")), u64::MAX);
    for odd in ["", "01", "+1", "1 ", "-1", "18446744073709551616", "x"] {
        assert_eq!(
            code(parse_canonical_u64(odd, "field")),
            CentralErrorCode::StorageFailure
        );
    }
    assert_eq!(ok(parse_u64("42", "field")), 42);
    assert!(parse_u64("forty-two", "field").is_err());
}

#[test]
fn blobs_have_exactly_the_length_of_a_digest() {
    assert_eq!(ok(exact_32(&vec![7; 32], "digest")), [7; 32]);
    assert!(exact_32(&vec![7; 31], "digest").is_err());
    assert!(exact_32(&vec![7; 33], "digest").is_err());
    assert!(ok(optional_digest(&None, "digest")).is_none());
    assert!(ok(optional_digest(&Some(vec![1; 32]), "digest")) == Some(digest(1)));
    assert!(optional_digest(&Some(vec![]), "digest").is_err());
}

#[test]
fn times_fit_the_signed_column() {
    assert_eq!(ok(unix_ms(5)), 5);
    assert!(unix_ms(-1).is_err());
    assert_eq!(ok(as_i64(5)), 5);
    assert!(as_i64(u64::MAX).is_err());
    assert_eq!(ok(sqlite_millis(i64::MAX as u64)), i64::MAX);
    assert!(sqlite_millis(i64::MAX as u64 + 1).is_err());
}

#[test]
fn wildcards_are_escaped() {
    assert_eq!(escape_like("50%_a\\b"), "50\\%\\_a\\\\b");
    assert_eq!(escape_like_pattern("a%"), "a\\%");
}

#[test]
fn storage_problems_are_told_apart() {
    assert!(validate_stored_format(STORED_FORMAT_VERSION, "payload").is_ok());
    assert!(validate_stored_format(STORED_FORMAT_VERSION + 1, "payload").is_err());
    assert_eq!(
        storage_error("SQLite authority", "locked").code(),
        CentralErrorCode::StorageFailure
    );
    assert!(storage_error("SQLite authority", "locked").message().contains("locked"));
    assert_eq!(registry_storage_error().code(), CentralErrorCode::StorageFailure);
    assert_eq!(storage_corruption("bad row").message(), "bad row");
    assert!(!storage_corruption("bad row").retryable());
    assert!(parse_id(Ok(id("a"))).is_ok());
    assert!(parse_id(Err("bad id".to_owned())).is_err());
}

#[test]
fn names_are_read_back() {
    for value in [StorageBackendType::Pvc, StorageBackendType::Nfs] {
        assert!(ok(parse_backend(backend_name(value))) == value);
    }
    for value in [
        StorageAccessMode::ReadWriteOnce,
        StorageAccessMode::ReadWriteMany,
        StorageAccessMode::ReadOnlyMany,
    ] {
        assert!(ok(parse_access_mode(access_mode_name(value))) == value);
    }
    for value in [
        StorageVolumeState::Ready,
        StorageVolumeState::Degraded,
        StorageVolumeState::Unavailable,
    ] {
        assert!(ok(parse_volume_state(volume_state_name(value))) == value);
    }
    for value in [
        PlaygroundState::Creating,
        PlaygroundState::Ready,
        PlaygroundState::Abnormal,
    ] {
        assert!(ok(parse_playground_state(playground_state_name(value))) == value);
    }
    assert!(parse_backend("tape").is_err());
    assert!(parse_access_mode("rw").is_err());
    assert!(parse_volume_state("gone").is_err());
    assert!(parse_playground_state("gone").is_err());
    assert_eq!(job_state_name(JobState::CancelRequested), "cancel_requested");
    assert_eq!(job_state_name(JobState::Queued), "queued");
    assert_eq!(audit_kind_name(AuditKind::JobCreated), "job_created");
    assert_eq!(
        enrollment_audit_kind_name(AgentEnrollmentAuditKind::ReplacementApproved),
        "replacement_approved"
    );
    assert_eq!(
        storage_enrollment_state_name(StorageEnrollmentState::PendingApproval),
        "pending_approval"
    );
    assert_eq!(
        registration_kind_name(StorageEnrollmentRegistrationKind::Initial),
        "initial"
    );
    assert_eq!(precommit_state_name(PreCommitState::Abnormal), "abnormal");
}

#[test]
fn schema_text_is_split_and_normalized() {
    assert_eq!(words_of("  a \n b  c "), vec!["a", "b", "c"]);
    assert_eq!(normalize_schema_sql("CREATE  TABLE\n t (x)"), "CREATETABLEt(x)");
    let statements = schema_statements("CREATE TABLE a (x);\n\nCREATE INDEX b ON a (x);\n");
    assert_eq!(statements.len(), 2);
    let table = ok(schema_object("CREATE TABLE tenants (id TEXT)"));
    assert!(table.kind == SchemaObjectKind::Table && table.name == "tenants");
    let index = ok(schema_object("CREATE INDEX tenants_by_id ON tenants (id)"));
    assert!(index.kind == SchemaObjectKind::Index && index.name == "tenants_by_id");
    assert!(schema_object("DROP TABLE tenants").is_err());
    assert!(!is_catalog_schema_object("agent_registry"));
    assert!(!is_snapshot_catalog_schema_object("agent_registry"));
}

#[test]
fn part_of_a_schema_is_there_whole_or_not_at_all() {
    let entry = |name: &str, stored: bool| {
        let statement = format!("CREATE TABLE {name} (id TEXT)");
        SchemaEntry {
            stored: if stored { Some(statement.clone()) } else { None },
            statement,
        }
    };
    let presence = |tenants: bool, artifacts: bool| {
        schema_presence(
            &vec![
                entry("agent_registry", true),
                entry("tenant_catalog_records", tenants),
                entry("artifact_catalog_records", artifacts),
            ],
            SchemaPart::ControlCatalog,
        )
    };
    assert!(ok(presence(false, false)) == CatalogSchemaPresence::Absent);
    assert!(ok(presence(true, true)) == CatalogSchemaPresence::Current);
    assert!(presence(true, false).is_err());
    assert!(is_catalog_schema_object("snapshot_catalog_records"));
    assert!(is_snapshot_catalog_schema_object("snapshot_catalog_records"));
    assert!(!is_snapshot_catalog_schema_object("tenant_catalog_records"));
}

#[test]
fn paths_are_checked_before_they_are_opened() {
    for store in [Store::AgentRegistry, Store::Authority] {
        assert!(prepare_root(store, "/data", PathState::Directory).is_ok());
        assert!(prepare_root(store, "/data", PathState::SymbolicLink).is_err());
        assert!(prepare_root(store, "/data", PathState::RegularFile).is_err());
        assert!(validate_lock_path(store, PathState::Missing).is_ok());
        assert!(validate_lock_path(store, PathState::RegularFile).is_ok());
        assert!(validate_lock_path(store, PathState::SymbolicLink).is_err());
        assert!(validate_database_path(store, PathState::RegularFile).is_ok());
        assert!(validate_database_path(store, PathState::SymbolicLink).is_err());
    }
    assert_eq!(
        already_open(Store::AgentRegistry, "busy").message(),
        "Agent registry is already open"
    );
    assert_eq!(
        already_open(Store::Authority, "busy").message(),
        "SQLite authority is already open: busy"
    );
    let config = SqliteAuthorityConfig::new("/data".to_owned());
    assert_eq!(config.busy_timeout_ms, DEFAULT_BUSY_TIMEOUT_MS);
    assert_eq!(config.registry_config().busy_timeout_ms, DEFAULT_BUSY_TIMEOUT_MS);
}

#[test]
fn a_store_is_initialized_or_upgraded_to_the_current_schema() {
    match ok(plan_registry_open(true, 0, 0)) {
        OpenPlan::Initialize => {}
        OpenPlan::Upgrade(_) => panic!("expected to initialize"),
    }
    match ok(plan_registry_open(false, REGISTRY_APPLICATION_ID, 2)) {
        OpenPlan::Upgrade(steps) => assert!(
            steps
                == vec![
                    Migration::RegistryV2ToV3,
                    Migration::RegistryV3ToV5,
                    Migration::RegistryV5ToV6
                ]
        ),
        OpenPlan::Initialize => panic!("expected to upgrade"),
    }
    match ok(plan_registry_open(
        false,
        REGISTRY_APPLICATION_ID,
        REGISTRY_SCHEMA_VERSION,
    )) {
        OpenPlan::Upgrade(steps) => assert!(steps.is_empty()),
        OpenPlan::Initialize => panic!("expected nothing to do"),
    }
    assert!(plan_registry_open(false, REGISTRY_APPLICATION_ID + 1, 2).is_err());
    assert!(plan_registry_open(false, REGISTRY_APPLICATION_ID, 99).is_err());
    match ok(plan_authority_open(false, AUTHORITY_APPLICATION_ID, 1)) {
        OpenPlan::Upgrade(steps) => assert_eq!(steps.len(), 3),
        OpenPlan::Initialize => panic!("expected to upgrade"),
    }
    assert!(plan_authority_open(false, AUTHORITY_APPLICATION_ID, 0).is_err());
}

#[test]
fn migrations_refuse_what_they_cannot_map() {
    assert!(validate_playground_migration(None).is_ok());
    assert!(!ok(index_scope_is_current(0, 0)));
    assert!(ok(index_scope_is_current(1, 1)));
    assert!(index_scope_is_current(1, 0).is_err());
    for check in [
        IndexMigrationCheck::UnscopedPublications,
        IndexMigrationCheck::MismatchedPublications,
        IndexMigrationCheck::UnmappedIndexes,
    ] {
        assert!(validate_index_migration(check, 0).is_ok());
        assert!(validate_index_migration(check, 1).is_err());
    }
}

#[test]
fn the_stored_schema_is_the_expected_one() {
    let tables = |names: &[&str]| names.iter().map(|name| name.to_string()).collect::<Vec<_>>();
    assert!(validate_table_set(&tables(&["a", "b"]), &tables(&["a", "b"])).is_ok());
    assert!(validate_table_set(&tables(&["a"]), &tables(&["a", "b"])).is_err());
    assert_eq!(ok(authority_table("CREATE TABLE jobs (id TEXT)")), "jobs");
    assert!(
        validate_authority_table("CREATE TABLE jobs (id TEXT)", "CREATE TABLE  jobs (id TEXT)")
            .is_ok()
    );
    assert!(
        validate_authority_table("CREATE TABLE jobs (id TEXT)", "CREATE TABLE jobs (id BLOB)")
            .is_err()
    );
    let entry = SchemaEntry {
        statement: "CREATE TABLE jobs (id TEXT)".to_owned(),
        stored: Some("CREATE TABLE jobs (id TEXT)".to_owned()),
    };
    let object = |name: &str| StoredObject {
        kind: "table".to_owned(),
        name: name.to_owned(),
    };
    assert!(validate_registry_schema(&vec![entry], &vec![object("jobs")]).is_ok());
    let entry = SchemaEntry {
        statement: "CREATE TABLE jobs (id TEXT)".to_owned(),
        stored: None,
    };
    assert!(validate_registry_schema(&vec![entry], &vec![object("jobs")]).is_err());
    assert!(validate_integrity(Store::Authority, &vec!["ok".to_owned()], 0).is_ok());
    assert!(validate_integrity(Store::Authority, &vec!["ok".to_owned()], 1).is_err());
    assert!(validate_integrity(Store::Authority, &vec!["damaged".to_owned()], 0).is_err());
}

fn tenant() -> TenantRecord {
    TenantRecord {
        tenant_id: id("tenant-1"),
        display_name: "Tenant".to_owned(),
        description: Some(id("about")),
        resource_version: 3,
        created_at_unix_ms: 1,
        updated_at_unix_ms: 2,
    }
}

fn volume() -> StorageVolumeRecord {
    StorageVolumeRecord {
        tenant_id: id("tenant-1"),
        storage_volume_id: id("volume-1"),
        display_name: "Volume".to_owned(),
        edge_cluster_id: id("cluster-1"),
        region: "eu-1".to_owned(),
        backend_type: StorageBackendType::Pvc,
        access_mode: StorageAccessMode::ReadWriteMany,
        pvc_reference: Some(CatalogPvcReference {
            namespace: "ns".to_owned(),
            claim_name: "claim".to_owned(),
        }),
        nfs_reference: None,
        state: StorageVolumeState::Degraded,
        resource_version: 4,
        created_at_unix_ms: 1,
        updated_at_unix_ms: 2,
    }
}

fn playground() -> PlaygroundRecord {
    PlaygroundRecord {
        tenant_id: id("tenant-1"),
        project_id: id("project-1"),
        artifact_id: id("artifact-1"),
        playground_id: id("playground-1"),
        storage_volume_id: id("volume-1"),
        region: "eu-1".to_owned(),
        display_name: "Playground".to_owned(),
        base_commit_id: Some(digest(1)),
        head_commit_id: None,
        index_version: WireIndexVersion {
            revision: 9,
            digest: digest(2),
            extensions: id(""),
        },
        state: PlaygroundState::Ready,
        relative_root: "root".to_owned(),
        created_at_unix_ms: 1,
        updated_at_unix_ms: 2,
    }
}

#[test]
fn catalog_rows_are_read_back() {
    assert!(ok(decode_tenant(&ok(encode_tenant(&tenant())))) == tenant());
    assert!(ok(decode_volume(&ok(encode_volume(&volume())))) == volume());
    assert!(ok(decode_playground(&ok(encode_playground(&playground())))) == playground());
    let mut late = tenant();
    late.created_at_unix_ms = u64::MAX;
    assert!(encode_tenant(&late).is_err());
    let mut row = ok(encode_tenant(&tenant()));
    row.resource_version = "03".to_owned();
    assert_eq!(code(decode_tenant(&row)), CentralErrorCode::StorageFailure);
    let mut row = ok(encode_volume(&volume()));
    row.pvc_claim_name = None;
    assert!(decode_volume(&row).is_err());
    let mut row = ok(encode_playground(&playground()));
    row.index_digest = vec![0; 3];
    assert!(decode_playground(&row).is_err());
}

#[test]
fn an_insert_race_is_resolved_by_the_stored_row() {
    match ok(resolve_existing_tenant(tenant(), &tenant())) {
        CatalogInsertOutcome::Existing(_) => {}
        CatalogInsertOutcome::Inserted(_) => panic!("expected the stored tenant"),
    }
    let mut other = tenant();
    other.display_name = "Other".to_owned();
    assert!(resolve_existing_tenant(other, &tenant()).is_err());
    assert!(resolve_tenant_race(None, &tenant()).is_err());
    let page = tenant_page(vec![tenant(), tenant()], 1);
    assert_eq!(page.records.len(), 1);
    assert!(page.next.is_some());
    assert!(tenant_page(vec![tenant()], 1).next.is_none());
}

fn registry_record() -> AgentRegistryRecord {
    let request = AgentEnrollmentTokenCreateRequest {
        token_id: id("token-1"),
        token_request_id: id("token-request-1"),
        enrollment_id: id("enrollment-1"),
        tenant_id: id("tenant-1"),
        edge_cluster_id: id("cluster-1"),
        storage_volume_id: id("volume-1"),
        volume_descriptor_digest: digest(50),
        pvc_identity_digest: digest(51),
        agent_id: id("agent-1"),
        agent_mount_id: id("mount-1"),
        bootstrap_token_digest: digest(1),
        created_at_unix_ms: 10,
        expires_at_unix_ms: 1_000,
        expected_volume_marker: id("volume-1"),
        desired_access_mode: MountAccessMode::ReadWrite,
        extensions: id(""),
    };
    let metadata = Some(StorageIntentMetadata {
        descriptor: FrozenStorageDescriptor {
            display_name: "Data".to_owned(),
            region: "eu-1".to_owned(),
            access_mode: StorageEnrollmentAccessMode::ReadWriteMany,
            pvc_reference: FrozenPvcReference {
                namespace: "ns".to_owned(),
                claim_name: "claim".to_owned(),
            },
        },
        token: BootstrapTokenMetadata {
            key_id: "key-1".to_owned(),
        },
    });
    let intent = ok(plan_token_intent(request, &metadata, &None, &None));
    let bootstrap = AgentBootstrapRequest {
        tenant_id: id("tenant-1"),
        edge_cluster_id: id("cluster-1"),
        storage_volume_id: id("volume-1"),
        volume_descriptor_digest: digest(50),
        bootstrap_request_id: id("bootstrap-1"),
        installation_id: id("installation-1"),
        public_key_fingerprint: digest(71),
        bootstrap_token_digest: digest(1),
        signed_payload_digest: digest(91),
        agent_version: id("1.0"),
        supported_protocol_versions: vec![1],
        capabilities: vec![],
        probe: AgentBootstrapProbe {
            mount_identity_digest: digest(60),
            observed_volume_marker: Some(id("volume-1")),
            marker_matches: true,
            mount_boundary_detected: true,
            access_mode: Some(MountAccessMode::ReadWrite),
            rename_supported: true,
            fsync_supported: true,
            health: ResourceHealth::Ready,
        },
    };
    let evidence = AgentCredentialEvidence {
        algorithm: AgentSignatureAlgorithm::Ed25519,
        public_key_spki: Ed25519PublicKeySpki {
            encoded: id("key"),
            fingerprint: digest(71),
        },
        proof_of_possession: id("proof"),
    };
    let owners = BootstrapIdentityOwners {
        request: None,
        installation: None,
        public_key: None,
    };
    let pending = match ok(apply_bootstrap(
        intent,
        bootstrap_candidate(bootstrap, Some(evidence)),
        digest(1),
        &owners,
        &None,
        20,
    )) {
        BootstrapStep::Store { record, .. } => record,
        BootstrapStep::Replayed(_) => panic!("expected a fresh bootstrap"),
    };
    let decision = AgentEnrollmentApprovalRequest {
        decision_request_id: id("decision-1"),
        enrollment_id: id("enrollment-1"),
        decision: AgentEnrollmentDecision::Approve,
        expected_resource_version: 2,
        confirm_replacement: false,
        extensions: id(""),
    };
    match ok(decide_enrollment(
        pending,
        decision,
        id("admin"),
        None,
        &None,
        None,
        30,
    )) {
        EnrollmentDecisionStep::Store { record, .. } => record,
        _ => panic!("expected an approval"),
    }
}

#[test]
fn a_registry_row_agrees_with_its_columns() {
    let record = registry_record();
    let columns = identity_columns(&record);
    assert_eq!(columns.resource_version, "3");
    assert_eq!(columns.pvc_binding_role.as_deref(), Some("owner"));
    assert!(decode_row(
        STORED_FORMAT_VERSION,
        record.clone(),
        Some(digest(51)),
        &columns
    )
    .is_ok());
    let mut altered = identity_columns(&record);
    altered.agent_id = "agent-9".to_owned();
    assert_eq!(
        code(decode_row(
            STORED_FORMAT_VERSION,
            record.clone(),
            Some(digest(51)),
            &altered
        )),
        CentralErrorCode::StorageFailure
    );
    let query = ok(query_columns(&record));
    assert!(validate_query_columns(&record, &query).is_ok());
    let mut wrong = ok(query_columns(&record));
    wrong.enrollment_state = "expired".to_owned();
    assert!(validate_query_columns(&record, &wrong).is_err());
    assert!(validate_lookup(
        &record,
        &RegistryLookup::Installation(id("installation-1"))
    )
    .is_ok());
    assert!(validate_lookup(
        &record,
        &RegistryLookup::Installation(id("installation-2"))
    )
    .is_err());
    assert!(ok(current_by_volume(&vec![record.clone()])).is_some());
    assert!(current_by_volume(&vec![record.clone(), record.clone()]).is_err());
    assert!(ok(binding_by_claim(&vec![record]))
        .is_some_and(|binding| binding.storage_volume_id == id("volume-1")));
    assert!(ok(binding_by_claim(&vec![])).is_none());
}

#[test]
fn the_catalog_follows_an_approved_enrollment() {
    let record = registry_record();
    let row: VolumeRow = match ok(sync_volume_from_registry(&record, None)) {
        VolumeSync::Insert(row, at) => {
            assert_eq!(at, 30);
            row
        }
        _ => panic!("expected an insert"),
    };
    assert_eq!(row.state, "unavailable");
    assert_eq!(row.display_name, "Data");
    match ok(sync_volume_from_registry(&record, Some(&row))) {
        VolumeSync::Unchanged => {}
        _ => panic!("expected nothing to do"),
    }
    let mut foreign = row;
    foreign.region = "us-1".to_owned();
    assert!(sync_volume_from_registry(&record, Some(&foreign)).is_err());
}

fn job() -> JobRecord {
    JobRecord {
        spec: AddJobSpec {
            job_id: id("job-1"),
            principal: id("user-1"),
            tenant_id: id("tenant-1"),
            project_id: id("project-1"),
            artifact_id: id("artifact-1"),
            playground_id: id("playground-1"),
            expected_index_version: WireIndexVersion {
                revision: 0,
                digest: digest(0),
                extensions: id(""),
            },
            request_digest: digest(2),
            deadline_unix_ms: 10,
            paths: vec![],
            all: true,
            extensions: id(""),
        },
        operation: JobOperation::Add,
        state: JobState::Queued,
        resource_version: 7,
        assignment: None,
        accepted: None,
        progress: None,
        prepared: None,
        publication_candidate: None,
        decision: None,
        finalized: None,
        finalized_ack: None,
        failure: None,
    }
}

#[test]
fn a_job_row_agrees_with_its_columns() {
    let key = JobKey::new(id("tenant-1"), id("job-1"));
    let columns = |state: &str, version: &str| JobColumns {
        state: state.to_owned(),
        resource_version: version.to_owned(),
    };
    assert!(decode_job_row(&key, job(), &columns("queued", "7")).is_ok());
    assert_eq!(
        message(decode_job_row(&key, job(), &columns("running", "7"))),
        "Job relational identity differs from its payload"
    );
    assert!(decode_job_row(&key, job(), &columns("queued", "07")).is_err());
    assert!(validate_job_replace(6, &job()).is_ok());
    assert_eq!(
        code(validate_job_replace(7, &job())),
        CentralErrorCode::ConcurrentUpdate
    );
    assert_eq!(job_write_missed(true).code(), CentralErrorCode::ConcurrentUpdate);
    assert_eq!(job_write_missed(false).code(), CentralErrorCode::JobNotFound);
}

#[test]
fn a_precommit_row_agrees_with_its_columns() {
    let record = PreCommitRecord {
        tenant_id: id("tenant-1"),
        precommit_id: id("pre-1"),
        precommit_request_id: id("start-1"),
        project_id: id("project-1"),
        artifact_id: id("artifact-1"),
        playground_id: id("playground-1"),
        job_id: id("job-1"),
        state: PreCommitState::Ready,
        attempt: 2,
        resource_version: 5,
        frozen_head_commit_id: None,
        head_published_at_unix_ms: None,
        detail: id(""),
    };
    let columns = |attempt: i64| PreCommitColumns {
        project_id: "project-1".to_owned(),
        artifact_id: "artifact-1".to_owned(),
        playground_id: "playground-1".to_owned(),
        precommit_request_id: "start-1".to_owned(),
        current_job_id: "job-1".to_owned(),
        state: "ready".to_owned(),
        attempt,
        resource_version: "5".to_owned(),
    };
    let key = PreCommitKey::new(id("tenant-1"), id("pre-1"));
    assert!(decode_precommit_row(&key, record.clone(), Ok(()), &columns(2)).is_ok());
    assert!(decode_precommit_row(&key, record.clone(), Ok(()), &columns(3)).is_err());
    assert!(validate_precommit_replace(4, &record, Ok(())).is_ok());
    assert!(validate_precommit_replace(5, &record, Ok(())).is_err());
    assert!(validate_active_rows(1).is_ok());
    assert!(validate_active_rows(2).is_err());
}

#[test]
fn outbox_rows_decide_what_a_request_means() {
    let assignment = |payload: &str| JobAssignment {
        assignment: AssignmentOperation::Other {
            identity: AssignmentIdentity {
                tenant_id: id("tenant-1"),
                job_id: id("job-1"),
                assignment_id: id("a-1"),
                agent_id: id("agent-1"),
            },
            payload: id(payload),
        },
        extensions: id(""),
    };
    let row = |published: bool, retired: bool| AssignmentReservation {
        assignment: assignment("x"),
        published,
        retired,
    };
    assert!(
        ok(resolve_existing_reservation(&assignment("x"), &assignment("x")))
            == AssignmentReserveOutcome::Existing
    );
    assert_eq!(
        code(resolve_existing_reservation(&assignment("x"), &assignment("y"))),
        CentralErrorCode::JobIdReused
    );
    assert!(
        ok(resolve_publish(Some(&row(false, false)), &assignment("x")))
            == AssignmentPublishOutcome::Published
    );
    assert_eq!(
        message(resolve_publish(None, &assignment("x"))),
        "Assignment must be reserved first"
    );
    assert!(
        ok(resolve_reactivate(Some(&row(true, true)), &assignment("x")))
            == AssignmentPublishOutcome::Published
    );
    assert!(
        ok(resolve_reactivate(Some(&row(true, false)), &assignment("x")))
            == AssignmentPublishOutcome::AlreadyPublished
    );
    assert!(
        ok(resolve_retire(Some(&row(true, false)), &id("a-1")))
            == AssignmentRetireOutcome::Retired
    );
    assert_eq!(
        message(resolve_retire(Some(&row(false, false)), &id("a-1"))),
        "assignment a-1 is not published"
    );
}

#[test]
fn metadata_and_index_rows_agree_with_their_columns() {
    let descriptor = MetadataBatchDescriptor {
        batch_id: id("batch-1"),
        scope: MetadataBatchScope {
            tenant_id: id("tenant-1"),
            artifact_id: id("artifact-1"),
            playground_id: id("playground-1"),
            job_id: id("job-1"),
        },
        page_count: 1,
        content: id(""),
    };
    let columns = |job: &str| MetadataDescriptorColumns {
        job_id: job.to_owned(),
        artifact_id: "artifact-1".to_owned(),
        playground_id: "playground-1".to_owned(),
    };
    assert!(decode_descriptor_row(
        descriptor.clone(),
        &id("tenant-1"),
        &id("batch-1"),
        &columns("job-1")
    )
    .is_ok());
    assert!(decode_descriptor_row(
        descriptor,
        &id("tenant-1"),
        &id("batch-1"),
        &columns("job-2")
    )
    .is_err());
    let page = || MetadataBatchPage {
        batch_id: id("batch-1"),
        page_number: 4,
        content: id(""),
    };
    assert!(decode_page_row(page(), &id("batch-1"), 4, Ok(())).is_ok());
    assert_eq!(
        message(decode_page_row(page(), &id("batch-1"), -1, Ok(()))),
        "metadata page number is outside u32"
    );
    assert!(decode_page_row(page(), &id("batch-1"), 5, Ok(())).is_err());
    let columns = |size: &str| IndexRecordColumns {
        path: Ok(id("a/b")),
        manifest_id: vec![5; 32],
        total_size: size.to_owned(),
        chunk_count: "2".to_owned(),
    };
    let record = ok(decode_index_record(&columns("12")));
    assert!(record.path == id("a/b") && record.manifest_id == digest(5));
    assert_eq!((record.total_size, record.chunk_count), (12, 2));
    assert!(decode_index_record(&columns("012")).is_err());
    assert!(validate_index_digest(digest(1), &Ok(digest(1))).is_ok());
    assert_eq!(
        message(validate_index_digest(digest(1), &Ok(digest(2)))),
        "stored Index digest differs from its canonical records"
    );
    assert_eq!(
        message(validate_manifest_identity(digest(1), &Err("short".to_owned()))),
        "invalid stored Manifest: short"
    );
}
