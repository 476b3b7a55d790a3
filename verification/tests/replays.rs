use neoengramd::agent_registry::session::{require_agent, require_enrollment};
use neoengramd::digest::ContentDigest;
use neoengramd::error::CentralErrorCode;
use neoengramd::identifier::Identifier;
use neoengramd::memory::audit::resolve_existing_event;
use neoengramd::memory::publisher::{
    file_records, list_records, resolve_existing_index, IndexSnapshot,
};
use neoengramd::memory::stager::{
    resolve_existing_descriptor, resolve_existing_page, validate_staged_descriptor,
};
use neoengramd::model::{
    AuditEvent, AuditKind, IndexKey, IndexPublishOutcome, IndexPublishRejection,
    IndexPublishRequest, InitializeIndexSnapshotRequest, JobKey,
};
use neoengramd::protocol::{
    FileRecord, JobState, Manifest, MetadataBatchDescriptor, MetadataBatchPage,
    MetadataBatchScope, WireIndexVersion,
};
use neoengramd::publication::{
    begin_publication, check_content, resolve_stored_publication, validate_publication_scope,
    ManifestFacts, PublicationStep,
};
use neoengramd::storage::authority_rows::{is_held_by_another, resolve_stored_mutation};

fn id(text: &str) -> Identifier {
    Identifier::new(text.to_owned())
}

fn digest(byte: u8) -> ContentDigest {
    ContentDigest::from_bytes([byte; 32])
}

fn version(revision: u64, byte: u8) -> WireIndexVersion {
    WireIndexVersion {
        revision,
        digest: digest(byte),
        extensions: id(""),
    }
}

fn file(path: &str, size: u64) -> FileRecord {
    FileRecord {
        path: id(path),
        manifest_id: digest(9),
        total_size: size,
        chunk_count: 1,
    }
}

fn index_key() -> IndexKey {
    IndexKey {
        tenant_id: id("tenant-1"),
        artifact_id: id("artifact-1"),
        playground_id: id("playground-1"),
    }
}

fn publication(byte: u8) -> IndexPublishRequest {
    IndexPublishRequest {
        job_key: JobKey::new(id("tenant-1"), id("job-1")),
        index_key: index_key(),
        expected_index_version: version(0, 0),
        expected_result_digest: digest(byte),
        manifests: Vec::new(),
        mutations: Vec::new(),
    }
}

fn event(state: JobState, occurred_at: u64) -> AuditEvent {
    AuditEvent {
        event_id: "job-1:create".to_owned(),
        kind: AuditKind::JobCreated,
        job_key: JobKey::new(id("tenant-1"), id("job-1")),
        state,
        occurred_at_unix_ms: occurred_at,
    }
}

fn descriptor(pages: u32) -> MetadataBatchDescriptor {
    MetadataBatchDescriptor {
        batch_id: id("batch-1"),
        scope: MetadataBatchScope {
            tenant_id: id("tenant-1"),
            artifact_id: id("artifact-1"),
            playground_id: id("playground-1"),
            job_id: id("job-1"),
        },
        page_count: pages,
        content: id("index"),
    }
}

fn page(content: &str) -> MetadataBatchPage {
    MetadataBatchPage {
        batch_id: id("batch-1"),
        page_number: 3,
        content: id(content),
    }
}

#[test]
fn a_stored_mutation_is_replayed_by_its_own_kind_and_request() {
    assert!(resolve_stored_mutation("start", "start", true).is_ok());
    for refused in [
        resolve_stored_mutation("start", "start", false),
        resolve_stored_mutation("start", "cancel", true),
    ] {
        let failure = refused.err().unwrap();
        assert!(failure.code() == CentralErrorCode::ConcurrentUpdate);
        assert!(!failure.retryable());
        assert_eq!(
            failure.message(),
            "Pre-commit mutation identity was reused with another payload"
        );
    }
}

#[test]
fn a_holder_is_in_the_way_of_others_only() {
    let own = id("precommit-1");
    assert!(!is_held_by_another(None, None));
    assert!(!is_held_by_another(None, Some(&own)));
    assert!(is_held_by_another(Some("precommit-1"), None));
    assert!(!is_held_by_another(Some("precommit-1"), Some(&own)));
    assert!(is_held_by_another(Some("precommit-2"), Some(&own)));
}

#[test]
fn files_are_kept_in_path_order_and_the_later_one_stays() {
    let files = vec![file("b", 1), file("a", 2), file("b", 3)];
    let listing = list_records(&file_records(&files));
    assert_eq!(listing.len(), 2);
    assert_eq!(listing[0].path.as_str(), "a");
    assert_eq!(listing[1].path.as_str(), "b");
    assert_eq!(listing[1].total_size, 3);
}

#[test]
fn an_index_is_initialized_once() {
    let request = InitializeIndexSnapshotRequest {
        index_key: index_key(),
        version: version(1, 5),
        records: vec![file("a", 2), file("b", 3)],
    };
    let same = IndexSnapshot {
        version: version(1, 5),
        records: file_records(&vec![file("b", 3), file("a", 2)]),
    };
    assert!(resolve_existing_index(&same, &request).is_ok());
    let other = IndexSnapshot {
        version: version(1, 5),
        records: file_records(&vec![file("a", 2)]),
    };
    let failure = resolve_existing_index(&other, &request).err().unwrap();
    assert!(failure.code() == CentralErrorCode::ConcurrentUpdate);
    assert_eq!(
        failure.message(),
        "Index for Playground playground-1 is already initialized with a different snapshot"
    );
}

#[test]
fn a_job_publishes_one_request_within_its_tenant() {
    assert!(validate_publication_scope(&publication(1)).is_ok());
    assert!(resolve_stored_publication(&publication(1), &publication(1)).is_ok());
    let failure = resolve_stored_publication(&publication(1), &publication(2))
        .err()
        .unwrap();
    assert!(failure.code() == CentralErrorCode::JobIdReused);
    assert_eq!(
        failure.message(),
        "job job-1 attempted a different Index publication"
    );
    let mut foreign = publication(1);
    foreign.job_key = JobKey::new(id("tenant-2"), id("job-1"));
    let failure = validate_publication_scope(&foreign).err().unwrap();
    assert!(failure.code() == CentralErrorCode::MetadataInvalid);
}

#[test]
fn an_audit_event_is_told_apart_by_kind_job_and_state() {
    let recorded = event(JobState::Queued, 10);
    assert!(resolve_existing_event(&recorded, &event(JobState::Queued, 11)).is_ok());
    let failure = resolve_existing_event(&recorded, &event(JobState::Assigned, 10))
        .err()
        .unwrap();
    assert!(failure.code() == CentralErrorCode::Internal);
    assert_eq!(
        failure.message(),
        "audit event ID job-1:create was reused"
    );
}

#[test]
fn staged_batches_do_not_change() {
    assert!(resolve_existing_descriptor(&descriptor(2), &descriptor(2)).is_ok());
    let failure = resolve_existing_descriptor(&descriptor(2), &descriptor(3))
        .err()
        .unwrap();
    assert!(failure.code() == CentralErrorCode::BatchTampered);
    assert_eq!(
        failure.message(),
        "metadata batch batch-1 descriptor changed"
    );

    let failure = validate_staged_descriptor(None, &descriptor(2))
        .err()
        .unwrap();
    assert!(failure.code() == CentralErrorCode::BatchIncomplete);
    let failure = validate_staged_descriptor(Some(&descriptor(3)), &descriptor(2))
        .err()
        .unwrap();
    assert_eq!(
        failure.message(),
        "metadata batch batch-1 descriptor differs from staging"
    );
    assert!(validate_staged_descriptor(Some(&descriptor(2)), &descriptor(2)).is_ok());

    assert!(resolve_existing_page(&page("x"), &id("batch-1"), &page("x")).is_ok());
    let failure = resolve_existing_page(&page("x"), &id("batch-1"), &page("y"))
        .err()
        .unwrap();
    assert_eq!(failure.message(), "metadata batch batch-1 page 3 changed");
}

#[test]
fn an_unknown_enrollment_is_not_found() {
    let failure = require_enrollment(None).err().unwrap();
    assert!(failure.code() == CentralErrorCode::EnrollmentNotFound);
    assert_eq!(failure.message(), "enrollment was not found");
    let failure = require_agent(None).err().unwrap();
    assert!(failure.code() == CentralErrorCode::EnrollmentNotFound);
    assert_eq!(failure.message(), "Agent was not enrolled");
}

#[test]
fn a_decided_publication_stands_before_its_version_is_looked_at() {
    let expected = publication(1).expected_index_version;
    let mut moved = expected.clone();
    moved.revision += 1;
    let decided = (publication(1), IndexPublishOutcome::Published(version(9, 9)));
    for current in [None, Some(&expected), Some(&moved)] {
        let step = begin_publication(Some(&decided), current, &publication(1));
        assert!(step.is_ok_and(|step| matches!(
            step,
            PublicationStep::Replay(IndexPublishOutcome::Published(found)) if found == version(9, 9)
        )));
        let refused = begin_publication(Some(&decided), current, &publication(2)).err();
        assert!(refused.is_some_and(|error| error.code() == CentralErrorCode::JobIdReused));
    }
    let step = begin_publication(None, None, &publication(1));
    assert!(step.is_ok_and(|step| matches!(step, PublicationStep::Load)));
    let step = begin_publication(None, Some(&expected), &publication(1));
    assert!(step.is_ok_and(|step| matches!(step, PublicationStep::Plan)));
    let step = begin_publication(None, Some(&moved), &publication(1));
    assert!(step.is_ok_and(
        |step| matches!(step, PublicationStep::Conflict(found) if found == moved)
    ));
}

#[test]
fn a_publication_is_rejected_for_what_it_says() {
    assert!(check_content(&publication(1), &vec![]).is_none());
    let mut extra = publication(1);
    extra.manifests = vec![Manifest {
        total_size: 1,
        content: id("chunk"),
    }];
    let facts = vec![ManifestFacts {
        canonical_id: Ok(digest(7)),
        chunk_count: Ok(1),
    }];
    assert!(matches!(
        check_content(&extra, &facts),
        Some(IndexPublishRejection::InvalidMetadata { message })
            if message == "publication Manifests are not the exact Index upsert set"
    ));
}
