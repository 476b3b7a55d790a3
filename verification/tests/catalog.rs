use neoengramd::catalog::listing::{matches_query, validate_limit};
use neoengramd::catalog::memory::InMemoryControlCatalog;
use neoengramd::catalog::records::{
    AdvancePlaygroundCommitRequest, ArtifactHeadExpectation, ArtifactInitialization,
    ArtifactListRequest, ArtifactRecord, CatalogInsertOutcome, CatalogNfsReference,
    CatalogPvcReference, PlaygroundInsertRequest, PlaygroundListRequest, PlaygroundRecord,
    PlaygroundState, SnapshotInsertOutcome, SnapshotInsertRequest, SnapshotListRequest,
    SnapshotRecord, StorageAccessMode, StorageBackendType, StorageVolumeListRequest,
    StorageVolumeRecord, StorageVolumeState, TenantListRequest, TenantRecord,
};
use neoengramd::catalog::rules::validate_volume_shape;
use neoengramd::digest::ContentDigest;
use neoengramd::error::{CentralErrorCode, CentralResult};
use neoengramd::identifier::Identifier;
use neoengramd::protocol::WireIndexVersion;

fn id(text: &str) -> Identifier {
    Identifier::new(text.to_owned())
}

fn digest(byte: u8) -> ContentDigest {
    ContentDigest::from_bytes([byte; 32])
}

fn code<T>(result: CentralResult<T>) -> CentralErrorCode {
    match result {
        Ok(_) => panic!("expected a failure"),
        Err(error) => error.code(),
    }
}

fn inserted<T>(result: CentralResult<CatalogInsertOutcome<T>>) -> bool {
    match result {
        Ok(CatalogInsertOutcome::Inserted(_)) => true,
        Ok(CatalogInsertOutcome::Existing(_)) => false,
        Err(error) => panic!("{}", error.display()),
    }
}

fn tenant(name: &str, at: u64) -> TenantRecord {
    TenantRecord {
        tenant_id: id(name),
        display_name: format!("Name of {name}"),
        description: None,
        resource_version: 1,
        created_at_unix_ms: at,
        updated_at_unix_ms: at,
    }
}

fn artifact(name: &str, head: Option<ContentDigest>) -> ArtifactRecord {
    ArtifactRecord {
        tenant_id: id("tenant-1"),
        project_id: id("project-1"),
        artifact_id: id(name),
        display_name: "Weights".to_owned(),
        description: None,
        initialization: ArtifactInitialization::Empty,
        head_commit_id: head,
        resource_version: 1,
        created_at_unix_ms: 10,
        updated_at_unix_ms: 10,
    }
}

fn volume(name: &str, claim: &str) -> StorageVolumeRecord {
    StorageVolumeRecord {
        tenant_id: id("tenant-1"),
        storage_volume_id: id(name),
        display_name: "Volume".to_owned(),
        edge_cluster_id: id("cluster-1"),
        region: "eu-1".to_owned(),
        backend_type: StorageBackendType::Pvc,
        access_mode: StorageAccessMode::ReadWriteMany,
        pvc_reference: Some(CatalogPvcReference {
            namespace: "ns".to_owned(),
            claim_name: claim.to_owned(),
        }),
        nfs_reference: None,
        state: StorageVolumeState::Ready,
        resource_version: 1,
        created_at_unix_ms: 10,
        updated_at_unix_ms: 10,
    }
}

fn playground(name: &str) -> PlaygroundRecord {
    PlaygroundRecord {
        tenant_id: id("tenant-1"),
        project_id: id("project-1"),
        artifact_id: id("artifact-1"),
        playground_id: id(name),
        storage_volume_id: id("volume-1"),
        region: "eu-1".to_owned(),
        display_name: "Playground".to_owned(),
        base_commit_id: None,
        head_commit_id: None,
        index_version: WireIndexVersion {
            revision: 0,
            digest: digest(0),
            extensions: id(""),
        },
        state: PlaygroundState::Ready,
        relative_root: "root".to_owned(),
        created_at_unix_ms: 20,
        updated_at_unix_ms: 20,
    }
}

fn snapshot(name: &str, request: &str, commit: u8) -> SnapshotRecord {
    SnapshotRecord {
        tenant_id: id("tenant-1"),
        project_id: id("project-1"),
        artifact_id: id("artifact-1"),
        snapshot_id: id(name),
        snapshot_request_id: id(request),
        commit_id: digest(commit),
        storage_volume_id: id("volume-1"),
        region: "eu-1".to_owned(),
        relative_root: "snap".to_owned(),
        state: id("pending"),
        phase: id("queued"),
        created_at_unix_ms: 30,
        updated_at_unix_ms: 30,
    }
}

fn catalog() -> InMemoryControlCatalog {
    let mut catalog = InMemoryControlCatalog::new();
    assert!(inserted(catalog.insert_tenant(tenant("tenant-1", 5))));
    assert!(inserted(catalog.insert_artifact(artifact("artifact-1", None))));
    assert!(inserted(catalog.insert_storage_volume(volume("volume-1", "claim-1"))));
    assert!(inserted(catalog.insert_playground_fenced(PlaygroundInsertRequest {
        record: playground("playground-1"),
        artifact_head: ArtifactHeadExpectation::Any,
    })));
    catalog
}

#[test]
fn records_are_inserted_once_and_read_back() {
    let mut catalog = catalog();
    assert!(catalog.get_tenant(&id("tenant-1")) == Some(tenant("tenant-1", 5)));
    assert!(!inserted(catalog.insert_tenant(tenant("tenant-1", 9))));
    let mut renamed = tenant("tenant-1", 5);
    renamed.display_name = "Other".to_owned();
    assert_eq!(code(catalog.insert_tenant(renamed)), CentralErrorCode::InvalidState);
    assert!(!inserted(catalog.insert_artifact(artifact("artifact-1", None))));
    assert!(catalog
        .get_artifact(&id("tenant-1"), &id("project-1"), &id("artifact-1"))
        .is_some());
    assert!(catalog
        .get_artifact(&id("tenant-1"), &id("project-2"), &id("artifact-1"))
        .is_none());
    assert!(catalog
        .get_storage_volume(&id("tenant-1"), &id("volume-1"))
        .is_some());
    assert!(catalog
        .get_playground(
            &id("tenant-1"),
            &id("project-1"),
            &id("artifact-1"),
            &id("playground-1")
        )
        .is_some());
}

#[test]
fn an_artifact_needs_its_tenant_and_its_source() {
    let mut catalog = InMemoryControlCatalog::new();
    assert_eq!(
        code(catalog.insert_artifact(artifact("artifact-1", None))),
        CentralErrorCode::InvalidState
    );
    assert!(inserted(catalog.insert_tenant(tenant("tenant-1", 5))));
    let mut derived = artifact("artifact-2", None);
    derived.initialization = ArtifactInitialization::Derived {
        source_project_id: id("project-1"),
        source_artifact_id: id("artifact-1"),
        source_commit_id: digest(1),
    };
    assert_eq!(
        code(catalog.insert_artifact(derived.clone())),
        CentralErrorCode::InvalidState
    );
    assert!(inserted(catalog.insert_artifact(artifact("artifact-1", None))));
    assert!(inserted(catalog.insert_artifact(derived)));
}

#[test]
fn a_claim_belongs_to_one_volume() {
    let mut catalog = catalog();
    assert_eq!(
        code(catalog.insert_storage_volume(volume("volume-2", "claim-1"))),
        CentralErrorCode::VolumeOwnerConflict
    );
    assert!(inserted(catalog.insert_storage_volume(volume("volume-2", "claim-2"))));
}

#[test]
fn a_volume_has_the_reference_of_its_backend() {
    assert!(validate_volume_shape(&volume("volume-1", "claim-1")).is_ok());
    let mut bare = volume("volume-1", "claim-1");
    bare.pvc_reference = None;
    assert!(validate_volume_shape(&bare).is_err());
    let mut both = volume("volume-1", "claim-1");
    both.nfs_reference = Some(CatalogNfsReference {
        server: "nfs".to_owned(),
        export_path: "/x".to_owned(),
    });
    assert!(validate_volume_shape(&both).is_err());
}

#[test]
fn a_playground_is_fenced_by_artifact_volume_and_head() {
    let mut catalog = catalog();
    let mut orphan = playground("playground-2");
    orphan.artifact_id = id("artifact-9");
    assert_eq!(
        code(catalog.insert_playground_fenced(PlaygroundInsertRequest {
            record: orphan,
            artifact_head: ArtifactHeadExpectation::Any,
        })),
        CentralErrorCode::ArtifactNotFound
    );
    let mut elsewhere = playground("playground-2");
    elsewhere.storage_volume_id = id("volume-9");
    assert_eq!(
        code(catalog.insert_playground_fenced(PlaygroundInsertRequest {
            record: elsewhere,
            artifact_head: ArtifactHeadExpectation::Any,
        })),
        CentralErrorCode::StorageVolumeNotFound
    );
    let mut abroad = playground("playground-2");
    abroad.region = "us-1".to_owned();
    assert_eq!(
        code(catalog.insert_playground_fenced(PlaygroundInsertRequest {
            record: abroad,
            artifact_head: ArtifactHeadExpectation::Any,
        })),
        CentralErrorCode::StorageVolumeRegionMismatch
    );
    assert_eq!(
        code(catalog.insert_playground_fenced(PlaygroundInsertRequest {
            record: playground("playground-2"),
            artifact_head: ArtifactHeadExpectation::Exact(Some(digest(4))),
        })),
        CentralErrorCode::ProtocolInvalid
    );
    let mut stale = playground("playground-2");
    stale.base_commit_id = Some(digest(4));
    stale.head_commit_id = Some(digest(4));
    assert_eq!(
        code(catalog.insert_playground_fenced(PlaygroundInsertRequest {
            record: stale,
            artifact_head: ArtifactHeadExpectation::Exact(Some(digest(4))),
        })),
        CentralErrorCode::ArtifactHeadMismatch
    );
}

fn advance(expected: Option<ContentDigest>, commit: u8) -> AdvancePlaygroundCommitRequest {
    AdvancePlaygroundCommitRequest {
        tenant_id: id("tenant-1"),
        project_id: id("project-1"),
        artifact_id: id("artifact-1"),
        playground_id: id("playground-1"),
        expected_head_commit_id: expected,
        commit_id: digest(commit),
        updated_at_unix_ms: 50,
    }
}

#[test]
fn heads_move_together_and_only_from_where_they_are() {
    let mut catalog = catalog();
    let moved = catalog
        .advance_playground_commit(advance(None, 1))
        .unwrap_or_else(|error| panic!("{}", error.display()));
    assert!(!moved.replayed);
    assert!(moved.artifact.head_commit_id == Some(digest(1)));
    assert!(moved.playground.head_commit_id == Some(digest(1)));
    assert_eq!(moved.artifact.resource_version, 2);
    let again = catalog
        .advance_playground_commit(advance(None, 1))
        .unwrap_or_else(|error| panic!("{}", error.display()));
    assert!(again.replayed);
    assert_eq!(again.artifact.resource_version, 2);
    assert_eq!(
        code(catalog.advance_playground_commit(advance(None, 2))),
        CentralErrorCode::ArtifactHeadMismatch
    );
    assert!(catalog
        .advance_playground_commit(advance(Some(digest(1)), 2))
        .is_ok());
}

#[test]
fn only_a_ready_playground_publishes() {
    let mut catalog = catalog();
    let state = catalog.transition_playground_state(
        &id("tenant-1"),
        &id("project-1"),
        &id("artifact-1"),
        &id("playground-1"),
        PlaygroundState::Ready,
        PlaygroundState::Abnormal,
        40,
    );
    assert!(state.is_ok_and(|record| record.state == PlaygroundState::Abnormal));
    assert_eq!(
        code(catalog.advance_playground_commit(advance(None, 1))),
        CentralErrorCode::InvalidState
    );
    assert_eq!(
        code(catalog.transition_playground_state(
            &id("tenant-1"),
            &id("project-1"),
            &id("artifact-1"),
            &id("playground-1"),
            PlaygroundState::Creating,
            PlaygroundState::Ready,
            41,
        )),
        CentralErrorCode::ConcurrentUpdate
    );
    assert_eq!(
        code(catalog.transition_playground_state(
            &id("tenant-1"),
            &id("project-1"),
            &id("artifact-1"),
            &id("playground-9"),
            PlaygroundState::Creating,
            PlaygroundState::Ready,
            41,
        )),
        CentralErrorCode::ArtifactNotFound
    );
}

fn insert_snapshot(
    catalog: &mut InMemoryControlCatalog,
    record: SnapshotRecord,
) -> CentralResult<SnapshotInsertOutcome> {
    catalog.insert_snapshot_fenced(SnapshotInsertRequest {
        record,
        artifact_head: ArtifactHeadExpectation::Any,
    })
}

#[test]
fn a_snapshot_request_and_a_placement_are_unique() {
    let mut catalog = catalog();
    assert!(catalog.advance_playground_commit(advance(None, 1)).is_ok());
    match insert_snapshot(&mut catalog, snapshot("snapshot-1", "request-1", 1)) {
        Ok(SnapshotInsertOutcome::Inserted(_)) => {}
        Ok(_) => panic!("expected an insert"),
        Err(error) => panic!("{}", error.display()),
    }
    match insert_snapshot(&mut catalog, snapshot("snapshot-1", "request-1", 1)) {
        Ok(SnapshotInsertOutcome::ExistingRequest(_)) => {}
        _ => panic!("expected the same request"),
    }
    match insert_snapshot(&mut catalog, snapshot("snapshot-2", "request-2", 1)) {
        Ok(SnapshotInsertOutcome::ExistingPlacement(found)) => {
            assert!(found.snapshot_id == id("snapshot-1"))
        }
        _ => panic!("expected the same placement"),
    }
    assert_eq!(
        code(insert_snapshot(
            &mut catalog,
            snapshot("snapshot-1", "request-3", 2)
        )),
        CentralErrorCode::InvalidState
    );
    assert!(catalog
        .get_snapshot(&id("tenant-1"), &id("snapshot-1"))
        .is_some());
}

#[test]
fn a_snapshot_transition_that_comes_again_moves_only_its_time() {
    let mut catalog = catalog();
    assert!(catalog.advance_playground_commit(advance(None, 1)).is_ok());
    assert!(insert_snapshot(&mut catalog, snapshot("snapshot-1", "request-1", 1)).is_ok());
    let step = |catalog: &mut InMemoryControlCatalog, at: u64| {
        catalog.transition_snapshot_state(
            &id("tenant-1"),
            &id("snapshot-1"),
            &id("pending"),
            &id("ready"),
            &id("done"),
            at,
        )
    };
    assert!(step(&mut catalog, 60).is_ok_and(|record| record.updated_at_unix_ms == 60));
    assert!(step(&mut catalog, 55).is_ok_and(|record| record.updated_at_unix_ms == 60
        && record.state == id("ready")));
    assert!(step(&mut catalog, 70).is_ok_and(|record| record.updated_at_unix_ms == 70));
    assert_eq!(
        code(catalog.transition_snapshot_state(
            &id("tenant-1"),
            &id("snapshot-1"),
            &id("pending"),
            &id("failed"),
            &id("done"),
            80,
        )),
        CentralErrorCode::ConcurrentUpdate
    );
}

#[test]
fn queries_ignore_case_on_both_sides() {
    assert!(matches_query("vol-1", "Big Volume", &Some("BIG".to_owned())));
    assert!(matches_query("VOL-1", "x", &Some("vol".to_owned())));
    assert!(matches_query("id", "ÄRGER", &Some("ärger".to_owned())));
    assert!(!matches_query("vol-1", "Big", &Some("small".to_owned())));
    assert!(matches_query("vol-1", "Big", &None));
}

#[test]
fn a_page_has_a_size_in_range() {
    assert!(validate_limit(0).is_err());
    assert!(validate_limit(1).is_ok());
    assert!(validate_limit(u16::MAX).is_err());
}

#[test]
fn a_listing_continues_where_its_page_ended() {
    let mut catalog = InMemoryControlCatalog::new();
    for (name, at) in [("t-a", 1), ("t-b", 3), ("t-c", 3), ("t-d", 2)] {
        assert!(inserted(catalog.insert_tenant(tenant(name, at))));
    }
    let mut request = TenantListRequest {
        visible_tenant_ids: None,
        query: None,
        after: None,
        limit: 2,
    };
    let first = catalog
        .list_tenants(&request)
        .unwrap_or_else(|error| panic!("{}", error.display()));
    let mut seen: Vec<String> = Vec::new();
    for record in &first.records {
        seen.push(record.tenant_id.as_str().to_owned());
    }
    assert!(first.next.is_some());
    request.after = first.next;
    let second = catalog
        .list_tenants(&request)
        .unwrap_or_else(|error| panic!("{}", error.display()));
    assert!(second.next.is_none());
    for record in &second.records {
        seen.push(record.tenant_id.as_str().to_owned());
    }
    seen.sort();
    assert_eq!(seen, vec!["t-a", "t-b", "t-c", "t-d"]);
    request.after = None;
    request.visible_tenant_ids = Some(vec![id("t-d")]);
    let visible = catalog
        .list_tenants(&request)
        .unwrap_or_else(|error| panic!("{}", error.display()));
    assert_eq!(visible.records.len(), 1);
    request.limit = 0;
    assert!(catalog.list_tenants(&request).is_err());
}

#[test]
fn a_walk_through_the_pages_meets_each_tenant_once() {
    let mut catalog = InMemoryControlCatalog::new();
    for (name, at) in [("t-a", 1), ("t-c", 3), ("t-b", 3), ("t-d", 2), ("t-e", 9)] {
        assert!(inserted(catalog.insert_tenant(tenant(name, at))));
    }
    for limit in [1, 2, 3, 5, 100] {
        let mut request = TenantListRequest {
            visible_tenant_ids: None,
            query: None,
            after: None,
            limit,
        };
        let mut seen: Vec<String> = Vec::new();
        loop {
            let page = catalog
                .list_tenants(&request)
                .unwrap_or_else(|error| panic!("{}", error.display()));
            assert!(page.records.len() <= limit as usize);
            for record in &page.records {
                seen.push(record.tenant_id.as_str().to_owned());
            }
            if page.next.is_none() {
                break;
            }
            request.after = page.next;
        }
        assert_eq!(seen, vec!["t-e", "t-b", "t-c", "t-d", "t-a"]);
    }
    let none = catalog
        .list_tenants(&TenantListRequest {
            visible_tenant_ids: Some(vec![]),
            query: None,
            after: None,
            limit: 10,
        })
        .unwrap_or_else(|error| panic!("{}", error.display()));
    assert!(none.records.is_empty() && none.next.is_none());
}

#[test]
fn listings_are_filtered() {
    let mut catalog = catalog();
    assert!(catalog.advance_playground_commit(advance(None, 1)).is_ok());
    assert!(insert_snapshot(&mut catalog, snapshot("snapshot-1", "request-1", 1)).is_ok());
    let artifacts = |query: Option<&str>| ArtifactListRequest {
        tenant_id: id("tenant-1"),
        project_id: Some(id("project-1")),
        query: query.map(str::to_owned),
        after: None,
        limit: 10,
    };
    assert!(catalog
        .list_artifacts(&artifacts(Some("WEIGHTS")))
        .is_ok_and(|page| page.records.len() == 1 && page.next.is_none()));
    assert!(catalog
        .list_artifacts(&artifacts(Some("nothing")))
        .is_ok_and(|page| page.records.is_empty()));
    let volumes = |backend_type: StorageBackendType| StorageVolumeListRequest {
        tenant_id: id("tenant-1"),
        region: Some("eu-1".to_owned()),
        backend_type: Some(backend_type),
        query: None,
        after: None,
        limit: 10,
    };
    assert!(catalog
        .list_storage_volumes(&volumes(StorageBackendType::Pvc))
        .is_ok_and(|page| page.records.len() == 1));
    assert!(catalog
        .list_storage_volumes(&volumes(StorageBackendType::Nfs))
        .is_ok_and(|page| page.records.is_empty()));
    let playgrounds = |state: PlaygroundState| PlaygroundListRequest {
        tenant_id: id("tenant-1"),
        project_id: None,
        artifact_id: None,
        region: None,
        state: Some(state),
        query: None,
        after: None,
        limit: 10,
    };
    assert!(catalog
        .list_playgrounds(&playgrounds(PlaygroundState::Ready))
        .is_ok_and(|page| page.records.len() == 1));
    assert!(catalog
        .list_playgrounds(&playgrounds(PlaygroundState::Creating))
        .is_ok_and(|page| page.records.is_empty()));
    let snapshots = |commit: u8| SnapshotListRequest {
        tenant_id: id("tenant-1"),
        project_id: None,
        artifact_id: None,
        commit_id: Some(digest(commit)),
        storage_volume_id: None,
        region: None,
        state: None,
        after: None,
        limit: 10,
    };
    assert!(catalog
        .list_snapshots(&snapshots(1))
        .is_ok_and(|page| page.records.len() == 1));
    assert!(catalog
        .list_snapshots(&snapshots(2))
        .is_ok_and(|page| page.records.is_empty()));
}
