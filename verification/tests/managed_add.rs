use neoengramd::control_plane::assign::{
    add_assignment, assign_job, conclude_assignment_race, AssignJobStep,
};
use neoengramd::control_plane::create::{
    advance_job, audit_event, authorization_request, conclude_create, create_add_job,
    query_authorization, require_job, CreateJobStep,
};
use neoengramd::control_plane::expiry::{expire_add_job, expiry_result, ExpireJobStep};
use neoengramd::control_plane::finalize::{
    begin_finalization, conclude_publication, finalization_result, freeze_publication,
    publication_request, resume_publication, validate_frozen_publication, FinalizeStep,
};
use neoengramd::control_plane::message::bounded_control_error_message;
use neoengramd::control_plane::report::{
    receive_report, validate_report_identity, validate_terminal_state, ReportStep,
};
use neoengramd::control_plane::staging::{
    stage_metadata_batch, staging_suffix, validate_descriptor_scope,
};
use neoengramd::digest::ContentDigest;
use neoengramd::error::{CentralError, CentralErrorCode, CentralResult};
use neoengramd::identifier::Identifier;
use neoengramd::memory::jobs::InMemoryJobRepository;
use neoengramd::model::{
    Action, Actor, AddJobSpec, AgentReport, AssignmentTarget, AuditKind, IndexPublishOutcome,
    IndexPublishRejection, JobRecord, MetadataBatchSubmission, ReceiveReportRequest,
    ValidatedMetadata,
};
use neoengramd::ports::JobInsertOutcome;
use neoengramd::protocol::{
    AssignmentOperation, ControlError, IndexDeltaRecord, JobAccepted, JobFailed, JobFinalized,
    JobPrepared, JobProgress, JobState, LeaseGrant, Manifest, MetadataBatchDescriptor,
    MetadataBatchPage, MetadataBatchScope, PublishDecision, WireIndexVersion,
};

const NOW: u64 = 1_000;
const DEADLINE: u64 = 5_000;

fn id(text: &str) -> Identifier {
    Identifier::new(text.to_owned())
}

fn digest(byte: u8) -> ContentDigest {
    ContentDigest::from_bytes([byte; 32])
}

fn none() -> Identifier {
    id("")
}

fn version(revision: u64, byte: u8) -> WireIndexVersion {
    WireIndexVersion {
        revision,
        digest: digest(byte),
        extensions: none(),
    }
}

fn spec() -> AddJobSpec {
    AddJobSpec {
        job_id: id("job-1"),
        principal: id("user-1"),
        tenant_id: id("tenant-1"),
        project_id: id("project-1"),
        artifact_id: id("artifact-1"),
        playground_id: id("playground-1"),
        expected_index_version: version(4, 1),
        request_digest: digest(2),
        deadline_unix_ms: DEADLINE,
        paths: vec![id("a/b"), id("c")],
        all: false,
        extensions: none(),
    }
}

fn target() -> AssignmentTarget {
    AssignmentTarget {
        assignment_id: id("assignment-1"),
        assignment_generation: 3,
        agent_id: id("agent-1"),
        edge_cluster_id: id("cluster-1"),
        storage_volume_id: id("volume-1"),
        artifact_placement_id: id("placement-1"),
        placement_generation: 2,
        agent_mount_id: id("mount-1"),
        mount_generation: 7,
        owner_generation: 8,
        lease: Some(LeaseGrant {
            lease_id: id("lease-1"),
            expires_at_unix_ms: 4_000,
            extensions: none(),
        }),
    }
}

fn code<T>(result: CentralResult<T>) -> CentralErrorCode {
    match result {
        Ok(_) => panic!("expected a failure"),
        Err(error) => error.code(),
    }
}

fn created() -> JobRecord {
    match create_add_job(None, spec(), Ok(())) {
        Ok(CreateJobStep::Insert(job)) => job,
        _ => panic!("expected a new job"),
    }
}

fn assigned() -> JobRecord {
    match assign_job(created(), &target(), Ok(()), NOW) {
        Ok(AssignJobStep::Reserve { job, .. }) => job,
        _ => panic!("expected an assignment"),
    }
}

fn report(report: AgentReport) -> ReceiveReportRequest {
    ReceiveReportRequest {
        tenant_id: id("tenant-1"),
        agent_id: id("agent-1"),
        report,
    }
}

fn apply(job: JobRecord, request: ReceiveReportRequest) -> JobRecord {
    match receive_report(job, request, Ok(())) {
        Ok(ReportStep::Store(job)) => job,
        Ok(ReportStep::Replayed(_)) => panic!("expected a fresh report"),
        Err(error) => panic!("{}", error.display()),
    }
}

fn acceptance() -> JobAccepted {
    JobAccepted {
        job_id: id("job-1"),
        assignment_id: id("assignment-1"),
        assignment_generation: 3,
        request_digest: digest(2),
        extensions: none(),
    }
}

fn progress() -> JobProgress {
    JobProgress {
        job_id: id("job-1"),
        assignment_id: id("assignment-1"),
        assignment_generation: 3,
        state: JobState::Running,
        extensions: none(),
    }
}

fn descriptor(batch: &str) -> MetadataBatchDescriptor {
    MetadataBatchDescriptor {
        batch_id: id(batch),
        scope: MetadataBatchScope {
            tenant_id: id("tenant-1"),
            artifact_id: id("artifact-1"),
            playground_id: id("playground-1"),
            job_id: id("job-1"),
        },
        page_count: 2,
        content: none(),
    }
}

fn preparation() -> JobPrepared {
    JobPrepared {
        job_id: id("job-1"),
        assignment_id: id("assignment-1"),
        assignment_generation: 3,
        result_index_digest: digest(9),
        publication_digest: digest(10),
        metadata_batches: vec![descriptor("batch-1")],
        extensions: none(),
    }
}

fn failure_report(state: JobState) -> JobFailed {
    JobFailed {
        tenant_id: id("tenant-1"),
        job_id: id("job-1"),
        assignment_id: id("assignment-1"),
        assignment_generation: 3,
        final_state: state,
        error: ControlError {
            code: id("DISK_FULL"),
            message: "no space".to_owned(),
            retryable: true,
            retry_after_ms: None,
            extensions: none(),
        },
        failed_at_unix_ms: 1_500,
        extensions: none(),
    }
}

fn running() -> JobRecord {
    let accepted = apply(assigned(), report(AgentReport::Accepted(acceptance())));
    assert_eq!(accepted.state, JobState::Accepted);
    apply(accepted, report(AgentReport::Progress(progress())))
}

fn prepared() -> JobRecord {
    apply(running(), report(AgentReport::Prepared(preparation())))
}

fn metadata() -> ValidatedMetadata {
    ValidatedMetadata {
        manifests: vec![Manifest {
            total_size: 12,
            content: id("manifest"),
        }],
        mutations: vec![IndexDeltaRecord::Delete {
            path: id("c"),
            extensions: none(),
        }],
    }
}

fn frozen() -> JobRecord {
    freeze_publication(prepared(), metadata(), NOW).unwrap_or_else(|_| panic!("not frozen"))
}

#[test]
fn a_new_job_is_queued_at_version_one() {
    let job = created();
    assert_eq!(job.state, JobState::Queued);
    assert_eq!(job.resource_version, 1);
    assert!(job.assignment.is_none());
    assert!(job.spec == spec());
}

#[test]
fn creating_a_job_again_replays_it_and_refuses_another_request() {
    match create_add_job(Some(created()), spec(), Ok(())) {
        Ok(CreateJobStep::Replayed(job)) => assert!(job == created()),
        _ => panic!("expected a replay"),
    }
    let mut other = spec();
    other.all = true;
    assert_eq!(
        code(create_add_job(Some(created()), other, Ok(()))),
        CentralErrorCode::JobIdReused
    );
    let refused = CentralError::new(CentralErrorCode::MetadataInvalid, "bad".to_owned());
    assert_eq!(
        code(create_add_job(None, spec(), Err(refused))),
        CentralErrorCode::MetadataInvalid
    );
}

#[test]
fn an_insert_that_found_another_job_is_concluded_by_comparison() {
    let inserted = conclude_create(JobInsertOutcome::Inserted(created()), &spec());
    assert!(inserted.is_ok_and(|result| !result.replayed));
    let existing = conclude_create(JobInsertOutcome::Existing(created()), &spec());
    assert!(existing.is_ok_and(|result| result.replayed));
    let mut other = spec();
    other.deadline_unix_ms = 1;
    assert_eq!(
        code(conclude_create(JobInsertOutcome::Existing(created()), &other)),
        CentralErrorCode::JobIdReused
    );
}

#[test]
fn a_missing_job_is_told_by_name() {
    let missing = require_job(None, &id("job-9"));
    match missing {
        Ok(_) => panic!("found a job"),
        Err(error) => {
            assert_eq!(error.code(), CentralErrorCode::JobNotFound);
            assert!(error.message().contains("job-9"));
        }
    }
    assert!(require_job(Some(created()), &id("job-1")).is_ok());
}

#[test]
fn authorization_names_the_scope_of_the_job() {
    let request = authorization_request(
        Actor::Principal(id("user-1")),
        Action::CreateAddJob,
        &spec(),
    );
    assert!(request.tenant_id == id("tenant-1"));
    assert!(request.artifact_id == id("artifact-1"));
    assert!(request.playground_id == id("playground-1"));
    assert!(request.job_id == id("job-1"));
    let query = query_authorization(id("user-2"), &id("tenant-1"), &id("job-1"));
    assert!(query.tenant_id == id("tenant-1"));
    assert!(query.job_id == id("job-1"));
    assert!(query.action == Action::QueryJob);
}

#[test]
fn versions_advance_by_one_until_they_are_exhausted() {
    let advanced = advance_job(1, created()).unwrap_or_else(|_| panic!("not advanced"));
    assert_eq!(advanced.resource_version, 2);
    assert_eq!(
        code(advance_job(u64::MAX, created())),
        CentralErrorCode::Internal
    );
}

#[test]
fn an_assignment_carries_job_and_target() {
    let job = assigned();
    assert_eq!(job.state, JobState::Assigned);
    let assignment = add_assignment(&created(), &target());
    assert!(job.assignment == Some(assignment.clone()));
    assert!(assignment.agent_id == id("agent-1"));
    assert!(assignment.expected_index_version == version(4, 1));
    assert_eq!(assignment.deadline_unix_ms, DEADLINE);
    assert_eq!(assignment.owner_generation, 8);
    match assign_job(created(), &target(), Ok(()), NOW) {
        Ok(AssignJobStep::Reserve { assignment: message, .. }) => match message.assignment {
            AssignmentOperation::Add { input, .. } => assert!(input == assignment),
            AssignmentOperation::Other { .. } => panic!("unexpected operation"),
        },
        _ => panic!("expected a reservation"),
    }
}

#[test]
fn assigning_again_replays_the_same_target_only() {
    match assign_job(assigned(), &target(), Ok(()), DEADLINE + 1) {
        Ok(AssignJobStep::Replayed { job, .. }) => assert!(job == assigned()),
        _ => panic!("expected a replay"),
    }
    let mut other = target();
    other.agent_id = id("agent-2");
    assert_eq!(
        code(assign_job(assigned(), &other, Ok(()), NOW)),
        CentralErrorCode::JobIdReused
    );
}

#[test]
fn assignment_is_refused_after_the_deadline_or_with_a_bad_target() {
    assert_eq!(
        code(assign_job(created(), &target(), Ok(()), DEADLINE)),
        CentralErrorCode::DeadlineExceeded
    );
    let bad = CentralError::new(CentralErrorCode::ProtocolInvalid, "target".to_owned());
    assert_eq!(
        code(assign_job(created(), &target(), Err(bad), NOW)),
        CentralErrorCode::ProtocolInvalid
    );
    let mut cancelled = created();
    cancelled.state = JobState::Cancelled;
    assert_eq!(
        code(assign_job(cancelled, &target(), Ok(()), NOW)),
        CentralErrorCode::InvalidState
    );
}

#[test]
fn a_lost_assignment_race_counts_only_with_the_same_assignment() {
    let assignment = add_assignment(&created(), &target());
    let lost = || CentralError::new(CentralErrorCode::ConcurrentUpdate, "lost".to_owned());
    assert!(conclude_assignment_race(assigned(), &assignment, lost()).is_ok());
    assert_eq!(
        code(conclude_assignment_race(created(), &assignment, lost())),
        CentralErrorCode::ConcurrentUpdate
    );
}

#[test]
fn reports_walk_a_job_to_prepared() {
    let job = prepared();
    assert_eq!(job.state, JobState::Prepared);
    assert!(job.accepted == Some(acceptance()));
    assert!(job.progress == Some(progress()));
    assert!(job.prepared == Some(preparation()));
}

#[test]
fn a_report_that_comes_again_is_recognised() {
    for request in [
        AgentReport::Accepted(acceptance()),
        AgentReport::Progress(progress()),
        AgentReport::Prepared(preparation()),
    ] {
        match receive_report(prepared(), report(request), Ok(())) {
            Ok(ReportStep::Replayed(job)) => assert!(job == prepared()),
            _ => panic!("expected a replay"),
        }
    }
}

#[test]
fn reports_of_another_agent_assignment_or_generation_are_refused() {
    let mut request = report(AgentReport::Accepted(acceptance()));
    request.agent_id = id("agent-2");
    assert_eq!(
        code(receive_report(assigned(), request, Ok(()))),
        CentralErrorCode::AssignmentMismatch
    );
    let mut stale = acceptance();
    stale.assignment_generation = 2;
    assert_eq!(
        code(receive_report(
            assigned(),
            report(AgentReport::Accepted(stale)),
            Ok(())
        )),
        CentralErrorCode::GenerationMismatch
    );
    let mut altered = acceptance();
    altered.request_digest = digest(77);
    assert_eq!(
        code(receive_report(
            assigned(),
            report(AgentReport::Accepted(altered)),
            Ok(())
        )),
        CentralErrorCode::AssignmentMismatch
    );
    assert_eq!(
        code(receive_report(
            created(),
            report(AgentReport::Accepted(acceptance())),
            Ok(())
        )),
        CentralErrorCode::InvalidState
    );
    let invalid = CentralError::new(CentralErrorCode::ProtocolInvalid, "shape".to_owned());
    assert_eq!(
        code(receive_report(
            assigned(),
            report(AgentReport::Accepted(acceptance())),
            Err(invalid)
        )),
        CentralErrorCode::ProtocolInvalid
    );
}

#[test]
fn progress_carries_running_state_and_follows_acceptance() {
    let mut odd = progress();
    odd.state = JobState::Prepared;
    assert_eq!(
        code(receive_report(running(), report(AgentReport::Progress(odd)), Ok(()))),
        CentralErrorCode::InvalidState
    );
    assert_eq!(
        code(receive_report(
            assigned(),
            report(AgentReport::Progress(progress())),
            Ok(())
        )),
        CentralErrorCode::InvalidState
    );
}

#[test]
fn other_metadata_after_preparation_is_tampering() {
    let mut other = preparation();
    other.publication_digest = digest(99);
    assert_eq!(
        code(receive_report(prepared(), report(AgentReport::Prepared(other)), Ok(()))),
        CentralErrorCode::BatchTampered
    );
}

#[test]
fn a_terminal_report_rejects_the_job_and_is_final() {
    let failed = apply(
        running(),
        report(AgentReport::Failed(failure_report(JobState::Failed))),
    );
    assert_eq!(failed.state, JobState::Failed);
    let decision = failed.decision.clone().unwrap_or_else(|| panic!("no decision"));
    assert_eq!(decision.decision_generation, 1);
    assert_eq!(decision.final_state, JobState::Failed);
    match decision.decision {
        PublishDecision::Reject { error, .. } => assert_eq!(error.message, "no space"),
        _ => panic!("expected a rejection"),
    }
    let finalized = failed.finalized.clone().unwrap_or_else(|| panic!("not finalized"));
    assert_eq!(finalized.finalized_at_unix_ms, 1_500);
    assert_eq!(
        code(receive_report(
            failed.clone(),
            report(AgentReport::Failed(failure_report(JobState::Cancelled))),
            Ok(())
        )),
        CentralErrorCode::AssignmentMismatch
    );
    let acknowledged = apply(failed.clone(), report(AgentReport::Finalized(finalized)));
    assert_eq!(acknowledged.state, JobState::Failed);
    assert!(acknowledged.decision == failed.decision);
}

#[test]
fn an_agent_cannot_claim_success_or_end_a_publication() {
    assert_eq!(
        code(validate_terminal_state(JobState::Succeeded)),
        CentralErrorCode::InvalidState
    );
    assert_eq!(
        code(validate_terminal_state(JobState::Running)),
        CentralErrorCode::InvalidState
    );
    assert!(validate_terminal_state(JobState::TimedOut).is_ok());
    assert_eq!(
        code(receive_report(
            running(),
            report(AgentReport::Failed(failure_report(JobState::Succeeded))),
            Ok(())
        )),
        CentralErrorCode::InvalidState
    );
    assert_eq!(
        code(receive_report(
            frozen(),
            report(AgentReport::Failed(failure_report(JobState::Failed))),
            Ok(())
        )),
        CentralErrorCode::InvalidState
    );
    let mut foreign = failure_report(JobState::Failed);
    foreign.tenant_id = id("tenant-2");
    assert_eq!(
        code(receive_report(running(), report(AgentReport::Failed(foreign)), Ok(()))),
        CentralErrorCode::AssignmentMismatch
    );
}

#[test]
fn an_acknowledgement_follows_the_decision_and_agrees_with_it() {
    let acknowledgement = JobFinalized {
        job_id: id("job-1"),
        assignment_id: id("assignment-1"),
        assignment_generation: 3,
        decision_generation: 1,
        final_state: JobState::Failed,
        finalized_at_unix_ms: 1_600,
        extensions: none(),
    };
    assert_eq!(
        code(receive_report(
            running(),
            report(AgentReport::Finalized(acknowledgement.clone())),
            Ok(())
        )),
        CentralErrorCode::InvalidState
    );
    let failed = apply(
        running(),
        report(AgentReport::Failed(failure_report(JobState::Failed))),
    );
    let mut other = acknowledgement.clone();
    other.final_state = JobState::Cancelled;
    assert_eq!(
        code(receive_report(
            failed.clone(),
            report(AgentReport::Finalized(other)),
            Ok(())
        )),
        CentralErrorCode::GenerationMismatch
    );
    let heard = apply(failed, report(AgentReport::Finalized(acknowledgement.clone())));
    let mut second = acknowledgement;
    second.finalized_at_unix_ms = 1_700;
    assert_eq!(
        code(receive_report(heard, report(AgentReport::Finalized(second)), Ok(()))),
        CentralErrorCode::AssignmentMismatch
    );
}

#[test]
fn report_identity_is_checked_before_its_generation() {
    let assignment = add_assignment(&created(), &target());
    assert!(
        validate_report_identity(&assignment, &id("job-1"), &id("assignment-1"), 3).is_ok()
    );
    assert_eq!(
        code(validate_report_identity(&assignment, &id("job-2"), &id("assignment-1"), 4)),
        CentralErrorCode::AssignmentMismatch
    );
    assert_eq!(
        code(validate_report_identity(&assignment, &id("job-1"), &id("assignment-1"), 4)),
        CentralErrorCode::GenerationMismatch
    );
}

#[test]
fn a_job_times_out_at_its_deadline_and_not_before() {
    assert_eq!(
        code(expire_add_job(running(), Ok(()), DEADLINE - 1)),
        CentralErrorCode::InvalidState
    );
    let expired = match expire_add_job(running(), Ok(()), DEADLINE) {
        Ok(ExpireJobStep::Store(job)) => job,
        _ => panic!("expected a timeout"),
    };
    assert_eq!(expired.state, JobState::TimedOut);
    match expired.decision.clone().map(|decision| decision.decision) {
        Some(PublishDecision::Reject { error, .. }) => {
            assert_eq!(error.code.as_str(), "JOB_DEADLINE_EXCEEDED");
            assert_eq!(error.message, "managed Add deadline elapsed before publication");
        }
        _ => panic!("expected a rejection"),
    }
    match expire_add_job(expired.clone(), Ok(()), DEADLINE + 9) {
        Ok(ExpireJobStep::Replayed(job)) => assert!(job == expired),
        _ => panic!("expected a replay"),
    }
    let answer = expiry_result(expired, true);
    assert!(answer.replayed && answer.decision.is_some() && answer.finalized.is_some());
}

#[test]
fn a_queued_job_times_out_without_a_decision() {
    match expire_add_job(created(), Ok(()), DEADLINE) {
        Ok(ExpireJobStep::Store(job)) => {
            assert_eq!(job.state, JobState::TimedOut);
            assert!(job.decision.is_none() && job.finalized.is_none());
        }
        _ => panic!("expected a timeout"),
    }
}

#[test]
fn a_frozen_publication_does_not_expire() {
    assert_eq!(
        code(expire_add_job(frozen(), Ok(()), DEADLINE + 1)),
        CentralErrorCode::InvalidState
    );
    let mut torn = running();
    torn.assignment = None;
    assert_eq!(
        code(expire_add_job(torn, Ok(()), DEADLINE)),
        CentralErrorCode::Internal
    );
}

#[test]
fn finalization_freezes_publishes_and_replays() {
    match begin_finalization(prepared()) {
        Ok(FinalizeStep::Freeze(job)) => assert!(job == prepared()),
        _ => panic!("expected to freeze"),
    }
    let job = frozen();
    assert_eq!(job.state, JobState::Publishing);
    let candidate = job
        .publication_candidate
        .clone()
        .unwrap_or_else(|| panic!("no candidate"));
    assert!(candidate.result_index_digest == digest(9));
    assert!(candidate.expected_index_version == version(4, 1));
    assert!(validate_frozen_publication(&job, &candidate).is_ok());
    assert!(resume_publication(job.clone()).is_ok());
    match begin_finalization(job.clone()) {
        Ok(FinalizeStep::Publish(_)) => {}
        _ => panic!("expected to publish"),
    }
    let request = publication_request(&job, &candidate);
    assert!(request.expected_result_digest == digest(9));
    assert!(request.index_key.playground_id == id("playground-1"));
    let concluded =
        conclude_publication(job, IndexPublishOutcome::Published(version(5, 9)), 2_000)
            .unwrap_or_else(|_| panic!("not concluded"));
    assert_eq!(concluded.state, JobState::Succeeded);
    match begin_finalization(concluded.clone()) {
        Ok(FinalizeStep::Replayed(found)) => assert!(found == concluded),
        _ => panic!("expected a replay"),
    }
    let answer = finalization_result(concluded, true).unwrap_or_else(|| panic!("no answer"));
    assert_eq!(answer.finalized.finalized_at_unix_ms, 2_000);
    match answer.decision.decision {
        PublishDecision::Publish { published_index_version, .. } => {
            assert!(published_index_version == version(5, 9))
        }
        _ => panic!("expected a publication"),
    }
}

#[test]
fn conflicts_and_rejections_end_a_job_with_their_reason() {
    let conflicted =
        conclude_publication(frozen(), IndexPublishOutcome::Conflict(version(8, 3)), 2_000)
            .unwrap_or_else(|_| panic!("not concluded"));
    assert_eq!(conflicted.state, JobState::Conflicted);
    let mismatch = IndexPublishOutcome::Rejected(IndexPublishRejection::ResultDigestMismatch {
        expected_digest: digest(0xab),
        observed_digest: digest(0x01),
    });
    let rejected = conclude_publication(frozen(), mismatch, 2_000)
        .unwrap_or_else(|_| panic!("not concluded"));
    assert_eq!(rejected.state, JobState::Failed);
    match rejected.decision.map(|decision| decision.decision) {
        Some(PublishDecision::Reject { error, .. }) => {
            assert_eq!(error.code.as_str(), "INDEX_RESULT_DIGEST_MISMATCH");
            assert_eq!(
                error.message,
                format!(
                    "published Index digest {} differs from prepared result {}",
                    "01".repeat(32),
                    "ab".repeat(32)
                )
            );
            assert!(!error.retryable);
        }
        _ => panic!("expected a rejection"),
    }
    let exhausted = conclude_publication(
        frozen(),
        IndexPublishOutcome::Rejected(IndexPublishRejection::RevisionExhausted),
        2_000,
    )
    .unwrap_or_else(|_| panic!("not concluded"));
    match exhausted.decision.map(|decision| decision.decision) {
        Some(PublishDecision::Reject { error, .. }) => {
            assert_eq!(error.code.as_str(), "INDEX_REVISION_EXHAUSTED")
        }
        _ => panic!("expected a rejection"),
    }
    let invalid = conclude_publication(
        frozen(),
        IndexPublishOutcome::Rejected(IndexPublishRejection::InvalidMetadata {
            message: "bad page".to_owned(),
        }),
        2_000,
    )
    .unwrap_or_else(|_| panic!("not concluded"));
    match invalid.decision.map(|decision| decision.decision) {
        Some(PublishDecision::Reject { error, .. }) => {
            assert_eq!(error.code.as_str(), "METADATA_INVALID");
            assert_eq!(error.message, "bad page");
        }
        _ => panic!("expected a rejection"),
    }
}

#[test]
fn freezing_is_refused_after_deadline_or_lease() {
    assert_eq!(
        code(freeze_publication(prepared(), metadata(), DEADLINE)),
        CentralErrorCode::DeadlineExceeded
    );
    assert_eq!(
        code(freeze_publication(prepared(), metadata(), 4_000)),
        CentralErrorCode::DeadlineExceeded
    );
    assert!(freeze_publication(prepared(), metadata(), 3_999).is_ok());
    assert_eq!(
        code(begin_finalization(running())),
        CentralErrorCode::InvalidState
    );
    assert_eq!(
        code(resume_publication(prepared())),
        CentralErrorCode::InvalidState
    );
}

#[test]
fn a_torn_publication_is_an_internal_failure() {
    let mut lost = frozen();
    lost.publication_candidate = None;
    assert_eq!(code(begin_finalization(lost)), CentralErrorCode::Internal);
    let mut altered = frozen();
    if let Some(candidate) = altered.publication_candidate.as_mut() {
        candidate.publication_digest = digest(0);
    }
    assert_eq!(code(begin_finalization(altered)), CentralErrorCode::Internal);
    let mut unassigned = prepared();
    unassigned.assignment = None;
    assert_eq!(code(begin_finalization(unassigned)), CentralErrorCode::Internal);
}

#[test]
fn staging_needs_a_declared_batch_of_the_assigned_agent() {
    let page = |batch: &str| {
        MetadataBatchSubmission::Page(MetadataBatchPage {
            batch_id: id(batch),
            page_number: 0,
            content: none(),
        })
    };
    let job = prepared();
    let staged = stage_metadata_batch(&job, &id("agent-1"), &page("batch-1"), Ok(()));
    assert!(staged.is_ok_and(|found| *found == descriptor("batch-1")));
    assert_eq!(
        code(stage_metadata_batch(&job, &id("agent-1"), &page("batch-2"), Ok(()))),
        CentralErrorCode::BatchUndeclared
    );
    assert_eq!(
        code(stage_metadata_batch(&job, &id("agent-2"), &page("batch-1"), Ok(()))),
        CentralErrorCode::AssignmentMismatch
    );
    let mut altered = descriptor("batch-1");
    altered.page_count = 3;
    assert_eq!(
        code(stage_metadata_batch(
            &job,
            &id("agent-1"),
            &MetadataBatchSubmission::Descriptor(altered),
            Ok(())
        )),
        CentralErrorCode::BatchTampered
    );
    let queued = created();
    assert_eq!(
        code(stage_metadata_batch(&queued, &id("agent-1"), &page("batch-1"), Ok(()))),
        CentralErrorCode::InvalidState
    );
    assert!(staging_suffix(&page("batch-1")).contains("batch-1"));
}

#[test]
fn a_batch_of_another_scope_is_refused() {
    let assignment = add_assignment(&created(), &target());
    assert!(validate_descriptor_scope(&assignment, &descriptor("batch-1")).is_ok());
    let mut foreign = descriptor("batch-1");
    foreign.scope.playground_id = id("playground-2");
    assert!(validate_descriptor_scope(&assignment, &foreign).is_err());
}

#[test]
fn audit_events_are_named_by_job_and_version() {
    let event = audit_event(&created(), AuditKind::JobCreated, "created", 42);
    assert!(event.event_id.contains("job-1"));
    assert!(event.event_id.contains("created"));
    assert_eq!(event.occurred_at_unix_ms, 42);
    let mut later = created();
    later.resource_version = 2;
    assert!(audit_event(&later, AuditKind::JobCreated, "created", 42).event_id != event.event_id);
}

#[test]
fn short_messages_are_kept_and_blank_ones_are_replaced() {
    assert_eq!(bounded_control_error_message("plain".to_owned()), "plain");
    assert!(!bounded_control_error_message(String::new()).is_empty());
}

#[test]
fn the_first_writer_of_a_version_wins() {
    let mut jobs = InMemoryJobRepository::new();
    match jobs.insert_or_load(created()) {
        JobInsertOutcome::Inserted(job) => assert!(job == created()),
        JobInsertOutcome::Existing(_) => panic!("expected an insert"),
    }
    match jobs.insert_or_load(created()) {
        JobInsertOutcome::Existing(job) => assert!(job == created()),
        JobInsertOutcome::Inserted(_) => panic!("expected the stored job"),
    }
    let first = advance_job(1, assigned()).unwrap_or_else(|_| panic!("not advanced"));
    let second = first.clone();
    assert!(jobs.replace(1, first.clone()).is_ok());
    assert_eq!(
        code(jobs.replace(1, second)),
        CentralErrorCode::ConcurrentUpdate
    );
    assert!(jobs.get(&created().key()) == Some(first));
    let mut unknown = created();
    unknown.spec.job_id = id("job-2");
    assert_eq!(code(jobs.replace(1, unknown)), CentralErrorCode::JobNotFound);
    assert_eq!(jobs.all().len(), 1);
}

#[test]
fn recoverable_jobs_and_pending_decisions_are_listed() {
    let mut jobs = InMemoryJobRepository::new();
    jobs.insert_or_load(frozen());
    let mut failed = apply(
        running(),
        report(AgentReport::Failed(failure_report(JobState::Failed))),
    );
    failed.spec.job_id = id("job-2");
    jobs.insert_or_load(failed);
    let recoverable = jobs.list_recoverable(None, NOW, 10);
    assert_eq!(recoverable.len(), 1);
    assert!(recoverable[0].spec.job_id == id("job-1"));
    assert!(jobs
        .list_recoverable(Some(&recoverable[0].key()), NOW, 10)
        .is_empty());
    let pending = jobs.list_pending_decisions_for_agent(&id("agent-1"), 10);
    assert_eq!(pending.len(), 1);
    assert!(pending[0].spec.job_id == id("job-2"));
    assert!(jobs
        .list_pending_decisions_for_agent(&id("agent-2"), 10)
        .is_empty());
    assert!(jobs.list_recoverable(None, NOW, 0).is_empty());
}
