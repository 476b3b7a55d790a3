use neoengramd::agent_registry::records::{AgentEnrollmentAuditEvent, AgentEnrollmentAuditKind};
use neoengramd::digest::{hex_text, ContentDigest};
use neoengramd::error::{CentralError, CentralErrorCode, CentralResult};
use neoengramd::identifier::Identifier;
use neoengramd::memory::audit::InMemoryAuditSink;
use neoengramd::memory::authorizer::{AllowAllAuthorizer, DenyAllAuthorizer};
use neoengramd::memory::clock::InMemoryClock;
use neoengramd::memory::objects::{
    validate_placement_generation, InMemoryObjectCatalog, PlacementQuery,
};
use neoengramd::memory::outbox::InMemoryAssignmentOutbox;
use neoengramd::memory::publisher::InMemoryIndexPublisher;
use neoengramd::memory::stager::InMemoryMetadataBatchStager;
use neoengramd::model::{
    Action, Actor, AuditEvent, AuditKind, AuthorizationRequest, IndexKey, IndexPublishOutcome,
    IndexPublishRejection, IndexPublishRequest, InitializeIndexSnapshotRequest, JobKey,
};
use neoengramd::ports::{
    AssignmentPublishOutcome, AssignmentReserveOutcome, AssignmentRetireOutcome,
    AuthorityCapabilities,
};
use neoengramd::protocol::{
    AssignmentIdentity, AssignmentOperation, FileRecord, IndexDeltaRecord, JobAssignment,
    JobState, Manifest, MetadataBatchDescriptor, MetadataBatchPage, MetadataBatchScope,
    ObjectPlacementEvidence, ObjectReceipt, WireIndexVersion,
};
use neoengramd::publication::ManifestFacts;

fn id(text: &str) -> Identifier {
    Identifier::new(text.to_owned())
}

fn digest(byte: u8) -> ContentDigest {
    ContentDigest::from_bytes([byte; 32])
}

fn code<T>(result: CentralResult<T>) -> CentralErrorCode {
    match result {
        Ok(_) => panic!("expected a failure"),
        Err(error) => error.code(),
    }
}

fn message<T>(result: CentralResult<T>) -> String {
    match result {
        Ok(_) => panic!("expected a failure"),
        Err(error) => error.message().to_owned(),
    }
}

fn version(revision: u64, byte: u8) -> WireIndexVersion {
    WireIndexVersion {
        revision,
        digest: digest(byte),
        extensions: id(""),
    }
}

fn assignment(name: &str, payload: &str) -> JobAssignment {
    JobAssignment {
        assignment: AssignmentOperation::Other {
            identity: AssignmentIdentity {
                tenant_id: id("tenant-1"),
                job_id: id("job-1"),
                assignment_id: id(name),
                agent_id: id("agent-1"),
            },
            payload: id(payload),
        },
        extensions: id(""),
    }
}

#[test]
fn the_clock_counts_and_does_not_wrap() {
    let mut clock = InMemoryClock::new(10);
    assert_eq!(clock.now(), 10);
    assert!(clock.advance(5).is_ok_and(|now| now == 15));
    clock.set(u64::MAX);
    assert!(clock.advance(1).is_err());
    assert_eq!(clock.now(), u64::MAX);
}

#[test]
fn authorizers_allow_everything_or_nothing() {
    let request = AuthorizationRequest {
        actor: Actor::Principal(id("user-1")),
        action: Action::CreateAddJob,
        tenant_id: id("tenant-1"),
        artifact_id: id("artifact-1"),
        playground_id: id("playground-1"),
        job_id: id("job-1"),
    };
    assert!(AllowAllAuthorizer.authorize(&request).is_ok());
    assert_eq!(
        code(DenyAllAuthorizer.authorize(&request)),
        CentralErrorCode::Unauthorized
    );
}

#[test]
fn capabilities_tell_memory_from_sqlite() {
    let memory = AuthorityCapabilities::in_memory();
    let sqlite = AuthorityCapabilities::sqlite();
    assert!(memory.single_process && sqlite.single_process);
    assert!(!memory.high_availability && !sqlite.high_availability);
}

#[test]
fn errors_carry_a_stable_code_and_a_class_of_retry() {
    let error = CentralError::new(CentralErrorCode::StorageFailure, "disk".to_owned());
    assert!(error.retryable());
    assert_eq!(error.message(), "disk");
    assert_eq!(error.stable_code(), CentralErrorCode::StorageFailure.as_str());
    assert!(error.display().contains("disk"));
    assert!(!error.with_retryable(false).retryable());
    let reused = CentralError::new(CentralErrorCode::JobIdReused, "id".to_owned());
    assert!(!reused.retryable());
    assert_eq!(CentralErrorCode::MetadataInvalid.as_str(), "METADATA_INVALID");
    assert_eq!(
        CentralErrorCode::DeadlineExceeded.as_str(),
        "JOB_DEADLINE_EXCEEDED"
    );
    let wrapped = CentralError::from_protocol("BAD_FIELD", "name".to_owned());
    assert_eq!(wrapped.code(), CentralErrorCode::ProtocolInvalid);
}

#[test]
fn stable_codes_are_words_that_differ() {
    let codes = [
        CentralErrorCode::Unauthorized,
        CentralErrorCode::EnrollmentNotFound,
        CentralErrorCode::EnrollmentExpired,
        CentralErrorCode::StorageVolumeNotFound,
        CentralErrorCode::StorageVolumeNotReady,
        CentralErrorCode::JobNotFound,
        CentralErrorCode::BatchUndeclared,
        CentralErrorCode::BatchIncomplete,
        CentralErrorCode::ConcurrentUpdate,
        CentralErrorCode::Internal,
    ];
    for (at, left) in codes.iter().enumerate() {
        assert!(!left.as_str().is_empty());
        assert!(left
            .as_str()
            .chars()
            .all(|letter| letter == '_' || letter.is_ascii_uppercase()));
        for right in &codes[at + 1..] {
            assert_ne!(left.as_str(), right.as_str());
        }
    }
}

#[test]
fn a_reserved_assignment_becomes_visible_only_when_published() {
    let mut outbox = InMemoryAssignmentOutbox::new();
    assert!(outbox
        .reserve(assignment("a-1", "x"))
        .is_ok_and(|outcome| outcome == AssignmentReserveOutcome::Reserved));
    assert!(outbox.pending_for_agent(&id("agent-1"), 10).is_empty());
    assert!(outbox.messages().is_empty());
    assert!(outbox
        .publish(assignment("a-1", "x"))
        .is_ok_and(|outcome| outcome == AssignmentPublishOutcome::Published));
    assert!(outbox
        .publish(assignment("a-1", "x"))
        .is_ok_and(|outcome| outcome == AssignmentPublishOutcome::AlreadyPublished));
    assert_eq!(outbox.pending_for_agent(&id("agent-1"), 10).len(), 1);
    assert!(outbox.pending_for_agent(&id("agent-2"), 10).is_empty());
    assert!(outbox.messages() == vec![assignment("a-1", "x")]);
}

#[test]
fn a_retired_assignment_stays_claimed() {
    let mut outbox = InMemoryAssignmentOutbox::new();
    assert_eq!(
        message(outbox.retire(&id("tenant-1"), &id("a-1"))),
        "assignment a-1 is not reserved"
    );
    assert!(outbox.reserve(assignment("a-1", "x")).is_ok());
    assert_eq!(
        code(outbox.retire(&id("tenant-1"), &id("a-1"))),
        CentralErrorCode::InvalidState
    );
    assert!(outbox.publish(assignment("a-1", "x")).is_ok());
    assert!(outbox
        .retire(&id("tenant-1"), &id("a-1"))
        .is_ok_and(|outcome| outcome == AssignmentRetireOutcome::Retired));
    assert!(outbox
        .retire(&id("tenant-1"), &id("a-1"))
        .is_ok_and(|outcome| outcome == AssignmentRetireOutcome::AlreadyRetired));
    assert!(outbox.pending_for_agent(&id("agent-1"), 10).is_empty());
    assert!(outbox
        .reserve(assignment("a-1", "x"))
        .is_ok_and(|outcome| outcome == AssignmentReserveOutcome::Existing));
    assert_eq!(
        code(outbox.reserve(assignment("a-1", "y"))),
        CentralErrorCode::JobIdReused
    );
    assert!(outbox
        .reactivate(assignment("a-1", "x"))
        .is_ok_and(|outcome| outcome == AssignmentPublishOutcome::Published));
    assert_eq!(outbox.pending_for_agent(&id("agent-1"), 10).len(), 1);
    assert_eq!(
        code(outbox.reactivate(assignment("a-1", "y"))),
        CentralErrorCode::JobIdReused
    );
    assert_eq!(
        code(outbox.publish(assignment("a-2", "x"))),
        CentralErrorCode::Internal
    );
}

fn descriptor() -> MetadataBatchDescriptor {
    MetadataBatchDescriptor {
        batch_id: id("batch-1"),
        scope: MetadataBatchScope {
            tenant_id: id("tenant-1"),
            artifact_id: id("artifact-1"),
            playground_id: id("playground-1"),
            job_id: id("job-1"),
        },
        page_count: 2,
        content: id(""),
    }
}

fn page(number: u32, content: &str) -> MetadataBatchPage {
    MetadataBatchPage {
        batch_id: id("batch-1"),
        page_number: number,
        content: id(content),
    }
}

#[test]
fn a_batch_is_complete_with_all_its_pages() {
    let mut stager = InMemoryMetadataBatchStager::new();
    assert!(stager.stage_page(&descriptor(), page(0, "x")).is_err());
    assert!(stager
        .stage_descriptor(descriptor())
        .is_ok_and(|replayed| !replayed));
    assert!(stager
        .stage_descriptor(descriptor())
        .is_ok_and(|replayed| replayed));
    assert!(stager.stage_page(&descriptor(), page(0, "x")).is_ok());
    assert!(stager
        .get(&id("tenant-1"), &id("batch-1"))
        .is_some_and(|batch| !batch.is_complete()));
    assert!(stager.stage_page(&descriptor(), page(1, "y")).is_ok());
    assert!(stager
        .get(&id("tenant-1"), &id("batch-1"))
        .is_some_and(|batch| batch.is_complete()));
    assert_eq!(
        code(stager.stage_page(&descriptor(), page(1, "z"))),
        CentralErrorCode::BatchTampered
    );
    let mut altered = descriptor();
    altered.page_count = 5;
    assert_eq!(
        code(stager.stage_descriptor(altered)),
        CentralErrorCode::BatchTampered
    );
    stager.clear();
    assert!(stager.get(&id("tenant-1"), &id("batch-1")).is_none());
}

#[test]
fn staged_batches_are_listed_by_name() {
    let mut stager = InMemoryMetadataBatchStager::new();
    assert!(stager.batches().is_empty());
    let mut late = descriptor();
    late.batch_id = id("batch-2");
    assert!(stager.stage_descriptor(late.clone()).is_ok());
    assert!(stager.stage_descriptor(descriptor()).is_ok());
    assert!(stager.stage_page(&descriptor(), page(1, "y")).is_ok());
    assert!(stager.stage_page(&descriptor(), page(0, "x")).is_ok());
    let batches = stager.batches();
    assert_eq!(batches.len(), 2);
    assert!(batches[0].descriptor == descriptor() && batches[1].descriptor == late);
    assert_eq!(batches[0].pages.len(), 2);
    assert!(batches[0].pages.entry_at(0).1 == page(0, "x"));
    assert!(batches[0].pages.entry_at(1).1 == page(1, "y"));
    assert!(batches[0].is_complete() && !batches[1].is_complete());
    stager.clear();
    assert!(stager.batches().is_empty());
}

fn evidence(receipt: &str, size: u64) -> ObjectPlacementEvidence {
    ObjectPlacementEvidence {
        receipt: ObjectReceipt {
            tenant_id: id("tenant-1"),
            receipt_id: id(receipt),
            artifact_id: id("artifact-1"),
            job_id: id("job-1"),
            storage_volume_id: id("volume-1"),
            artifact_placement_id: id("placement-1"),
            object_id: digest(3),
            size,
            verified_at_unix_ms: 5,
        },
        placement_generation: 1,
    }
}

#[test]
fn placements_are_recorded_once_and_found_by_place() {
    let mut objects = InMemoryObjectCatalog::new();
    assert!(objects.record_placement(&evidence("r-1", 10)).is_ok());
    assert!(objects.record_placement(&evidence("r-1", 10)).is_ok());
    assert_eq!(
        code(objects.record_placement(&evidence("r-1", 11))),
        CentralErrorCode::MetadataInvalid
    );
    let mut query = PlacementQuery {
        tenant_id: id("tenant-1"),
        artifact_id: id("artifact-1"),
        storage_volume_id: id("volume-1"),
        artifact_placement_id: id("placement-1"),
        placement_generation: 1,
        object_id: digest(3),
    };
    assert!(objects.object_placement(&query) == Some(evidence("r-1", 10)));
    query.placement_generation = 2;
    assert!(objects.object_placement(&query).is_none());
    assert!(validate_placement_generation(1).is_ok());
    assert!(validate_placement_generation(0).is_err());
}

fn event(name: &str, at: u64) -> AuditEvent {
    AuditEvent {
        event_id: name.to_owned(),
        kind: AuditKind::JobCreated,
        job_key: JobKey::new(id("tenant-1"), id("job-1")),
        state: JobState::Queued,
        occurred_at_unix_ms: at,
    }
}

#[test]
fn audit_events_are_recorded_once() {
    let mut audit = InMemoryAuditSink::new();
    assert!(audit.record(event("e-1", 1)).is_ok_and(|replayed| !replayed));
    assert!(audit.record(event("e-1", 2)).is_ok_and(|replayed| replayed));
    let mut reused = event("e-1", 1);
    reused.state = JobState::Failed;
    assert_eq!(code(audit.record(reused)), CentralErrorCode::Internal);
    let events = audit.events();
    assert_eq!(events.len(), 1);
    assert_eq!(events[0].occurred_at_unix_ms, 1);
    let decision = AgentEnrollmentAuditEvent {
        event_id: id("agent-enrollment:e:d"),
        kind: AgentEnrollmentAuditKind::Approved,
        tenant_id: id("tenant-1"),
        enrollment_id: id("e"),
        storage_volume_id: id("v"),
        decision_request_id: id("d"),
        resource_version: 3,
        actor: id("user-1"),
        occurred_at_unix_ms: 7,
    };
    assert!(audit
        .record_enrollment_decision(decision.clone())
        .is_ok_and(|replayed| !replayed));
    let mut other = decision.clone();
    other.resource_version = 4;
    assert!(audit.record_enrollment_decision(other).is_err());
    assert!(audit.enrollment_events() == vec![decision]);
}

fn index_key() -> IndexKey {
    IndexKey {
        tenant_id: id("tenant-1"),
        artifact_id: id("artifact-1"),
        playground_id: id("playground-1"),
    }
}

fn publish_request(job: &str, expected: WireIndexVersion, result: u8) -> IndexPublishRequest {
    IndexPublishRequest {
        job_key: JobKey::new(id("tenant-1"), id(job)),
        index_key: index_key(),
        expected_index_version: expected,
        expected_result_digest: digest(result),
        manifests: vec![Manifest {
            total_size: 12,
            content: id("m"),
        }],
        mutations: vec![IndexDeltaRecord::Upsert {
            path: id("b"),
            manifest_id: digest(5),
            total_size: 12,
            chunk_count: 2,
            extensions: id(""),
        }],
    }
}

fn facts() -> Vec<ManifestFacts> {
    vec![ManifestFacts {
        canonical_id: Ok(digest(5)),
        chunk_count: Ok(2),
    }]
}

fn compute(revision: u64, listing: &Vec<FileRecord>) -> Result<WireIndexVersion, String> {
    Ok(version(revision, 100 + listing.len() as u8))
}

fn publish(
    publisher: &mut InMemoryIndexPublisher,
    request: IndexPublishRequest,
) -> CentralResult<IndexPublishOutcome> {
    publisher.compare_and_swap(request, &facts(), &vec![None], compute)
}

#[test]
fn of_two_publications_onto_one_version_the_first_wins() {
    let mut publisher = InMemoryIndexPublisher::new(version(0, 0));
    assert!(publisher.current_version(&index_key()) == version(0, 0));
    let first = publish(&mut publisher, publish_request("job-1", version(0, 0), 101));
    assert!(first.is_ok_and(|outcome| outcome == IndexPublishOutcome::Published(version(1, 101))));
    let second = publish(&mut publisher, publish_request("job-2", version(0, 0), 101));
    assert!(second.is_ok_and(|outcome| outcome == IndexPublishOutcome::Conflict(version(1, 101))));
    let again = publish(&mut publisher, publish_request("job-1", version(0, 0), 101));
    assert!(again.is_ok_and(|outcome| outcome == IndexPublishOutcome::Published(version(1, 101))));
    let index = publisher.published_index(&index_key());
    assert!(index.version == version(1, 101));
    assert_eq!(index.records.len(), 1);
    assert!(index.records[0].path == id("b"));
    assert!(publisher
        .manifest(&id("tenant-1"), &id("artifact-1"), digest(5))
        .is_some_and(|manifest| manifest.total_size == 12));
    assert_eq!(
        code(publish(&mut publisher, publish_request("job-1", version(1, 101), 102))),
        CentralErrorCode::JobIdReused
    );
}

#[test]
fn a_rejected_publication_leaves_the_index_alone() {
    let mut publisher = InMemoryIndexPublisher::new(version(0, 0));
    let mismatch = publish(&mut publisher, publish_request("job-1", version(0, 0), 9));
    match mismatch {
        Ok(IndexPublishOutcome::Rejected(IndexPublishRejection::ResultDigestMismatch {
            expected_digest,
            observed_digest,
        })) => {
            assert!(expected_digest == digest(9));
            assert!(observed_digest == digest(101));
        }
        _ => panic!("expected a mismatch"),
    }
    assert!(publisher.current_version(&index_key()) == version(0, 0));
    let mut tenants = publish_request("job-2", version(0, 0), 9);
    tenants.job_key.tenant_id = id("tenant-2");
    assert_eq!(
        code(publish(&mut publisher, tenants)),
        CentralErrorCode::MetadataInvalid
    );
    let mut inexact = publish_request("job-3", version(0, 0), 101);
    inexact.mutations = vec![];
    let rejected = publisher.compare_and_swap(inexact, &facts(), &vec![], compute);
    match rejected {
        Ok(IndexPublishOutcome::Rejected(IndexPublishRejection::InvalidMetadata { message })) => {
            assert_eq!(
                message,
                "publication Manifests are not the exact Index upsert set"
            )
        }
        _ => panic!("expected invalid metadata"),
    }
    let failing = publisher.compare_and_swap(
        publish_request("job-4", version(0, 0), 101),
        &facts(),
        &vec![None],
        |_, _| Err("no digest".to_owned()),
    );
    match failing {
        Ok(IndexPublishOutcome::Rejected(IndexPublishRejection::InvalidMetadata { message })) => {
            assert_eq!(message, "published Index is invalid: no digest")
        }
        _ => panic!("expected invalid metadata"),
    }
}

#[test]
fn the_last_revision_has_no_successor() {
    let mut publisher = InMemoryIndexPublisher::new(version(0, 0));
    publisher.seed(index_key(), version(u64::MAX, 7), vec![]);
    let outcome = publish(&mut publisher, publish_request("job-1", version(u64::MAX, 7), 101));
    match outcome {
        Ok(IndexPublishOutcome::Rejected(IndexPublishRejection::RevisionExhausted)) => {}
        _ => panic!("expected exhaustion"),
    }
}

#[test]
fn a_deleted_path_leaves_the_index() {
    let mut publisher = InMemoryIndexPublisher::new(version(0, 0));
    let file = |path: &str| FileRecord {
        path: id(path),
        manifest_id: digest(5),
        total_size: 12,
        chunk_count: 2,
    };
    publisher.seed(index_key(), version(3, 7), vec![file("b"), file("a")]);
    let listed = publisher.snapshot(&index_key());
    assert!(listed.records[0].path == id("a") && listed.records[1].path == id("b"));
    let mut request = publish_request("job-1", version(3, 7), 101);
    request.manifests = vec![];
    request.mutations = vec![IndexDeltaRecord::Delete {
        path: id("a"),
        extensions: id(""),
    }];
    let outcome = publisher.compare_and_swap(request, &vec![], &vec![None], compute);
    assert!(outcome.is_ok_and(|outcome| outcome == IndexPublishOutcome::Published(version(4, 101))));
    assert_eq!(publisher.snapshot(&index_key()).records.len(), 1);
}

#[test]
fn a_first_index_is_initialized_once() {
    let mut publisher = InMemoryIndexPublisher::new(version(0, 0));
    let request = |byte: u8| InitializeIndexSnapshotRequest {
        index_key: index_key(),
        version: version(0, byte),
        records: vec![],
    };
    assert!(publisher
        .initialize_snapshot(request(1), Ok(()))
        .is_ok_and(|found| found == version(0, 1)));
    assert!(publisher.initialize_snapshot(request(1), Ok(())).is_ok());
    assert_eq!(
        code(publisher.initialize_snapshot(request(2), Ok(()))),
        CentralErrorCode::ConcurrentUpdate
    );
    let invalid = CentralError::new(CentralErrorCode::MetadataInvalid, "digest".to_owned());
    assert_eq!(
        code(publisher.initialize_snapshot(request(1), Err(invalid))),
        CentralErrorCode::MetadataInvalid
    );
}

#[test]
fn digests_are_written_in_lower_case_hex() {
    let text = hex_text(&digest(0xaf));
    assert_eq!(text, "af".repeat(32));
}
