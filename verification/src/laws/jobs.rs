//! What each step of a managed Add promises.
use vstd::prelude::*;

use crate::control_plane::assign::{
    add_assignment, assign_job, conclude_assignment_race, AssignJobStep,
};
use crate::control_plane::create::{
    advance_job, conclude_create, create_add_job, require_job, CreateJobStep,
};
use crate::control_plane::expiry::{expire_add_job, ExpireJobStep};
use crate::control_plane::finalize::{
    begin_finalization, conclude_publication, freeze_publication, publication_request,
    resume_publication, FinalizeStep,
};
use crate::control_plane::laws::is_coherent;
use crate::control_plane::report::{receive_report, ReportStep};
use crate::control_plane::staging::stage_metadata_batch;
use crate::equality::Same;
use crate::error::{CentralError, CentralErrorCode, CentralResult};
use crate::identifier::{AgentId, JobId, UnixMillis};
use crate::model::{
    AddJobSpec, AgentReport, AssignmentTarget, CreateAddJobResult, IndexPublishOutcome,
    IndexPublishRejection, IndexPublishRequest, JobRecord, MetadataBatchSubmission,
    PublicationCandidate, ReceiveReportRequest, ValidatedMetadata,
};
use crate::ports::JobInsertOutcome;
use crate::protocol::{
    AddAssignment, AssignmentOperation, JobAccepted, JobAssignment, JobFailed, JobFinalized,
    JobPrepared, JobProgress, JobState, MetadataBatchDescriptor, PublishDecision,
};

verus! {

/// A call failed with a code.
pub open spec fn fails_with<T>(result: CentralResult<T>, code: CentralErrorCode) -> bool {
    result matches Err(error) && error@.code == code
}

/// Two specifications ask for the same work, field by field.
pub open spec fn asks_the_same(left: AddJobSpec, right: AddJobSpec) -> bool {
    &&& left.job_id@ == right.job_id@
    &&& left.principal@ == right.principal@
    &&& left.tenant_id@ == right.tenant_id@
    &&& left.project_id@ == right.project_id@
    &&& left.artifact_id@ == right.artifact_id@
    &&& left.playground_id@ == right.playground_id@
    &&& left.expected_index_version.revision == right.expected_index_version.revision
    &&& left.expected_index_version.digest == right.expected_index_version.digest
    &&& left.expected_index_version.extensions@ == right.expected_index_version.extensions@
    &&& left.request_digest == right.request_digest
    &&& left.deadline_unix_ms == right.deadline_unix_ms
    &&& left.paths@.len() == right.paths@.len()
    &&& forall|i: int|
        0 <= i < left.paths@.len() ==> (#[trigger] left.paths@[i])@ == right.paths@[i]@
    &&& left.all == right.all
    &&& left.extensions@ == right.extensions@
}

/// A first request with a valid specification queues a job for exactly that specification, at
/// version one and with nothing else on it.
pub proof fn lemma_first_request_queues_the_job(
    spec: AddJobSpec,
    result: CentralResult<CreateJobStep>,
)
    requires
        call_ensures(create_add_job, (None, spec, Ok(())), result),
    ensures
        result matches Ok(CreateJobStep::Insert(job)) && {
            &&& job.spec == spec
            &&& job.operation is Add
            &&& job.state is Queued
            &&& job.resource_version == 1
            &&& job.assignment is None
            &&& job.accepted is None
            &&& job.progress is None
            &&& job.prepared is None
            &&& job.publication_candidate is None
            &&& job.decision is None
            &&& job.finalized is None
            &&& job.finalized_ack is None
            &&& job.failure is None
        },
{
}

/// A first request with an invalid specification is refused with the failure that validation gave.
pub proof fn lemma_invalid_specification_creates_nothing(
    spec: AddJobSpec,
    invalid: CentralError,
    result: CentralResult<CreateJobStep>,
)
    requires
        call_ensures(create_add_job, (None, spec, Err(invalid)), result),
    ensures
        result matches Err(error) && error@ == invalid@,
{
}

/// A request for a job that is stored is a replay where it asks for the same work in every field,
/// whatever became of the job since and whatever the clock says of the specification now; with any
/// other content the JobId is refused.
pub proof fn lemma_stored_job_answers_only_its_own_request(
    job: JobRecord,
    spec: AddJobSpec,
    validity: CentralResult<()>,
    result: CentralResult<CreateJobStep>,
)
    requires
        call_ensures(create_add_job, (Some(job), spec, validity), result),
    ensures
        asks_the_same(job.spec, spec) ==> result == Ok::<CreateJobStep, CentralError>(
            CreateJobStep::Replayed(job),
        ),
        !asks_the_same(job.spec, spec) ==> fails_with(result, CentralErrorCode::JobIdReused),
{
}

/// The insert that a creation came to decides its answer in the same way: a job that was there
/// first answers only a request for the same work.
pub proof fn lemma_insert_outcome_answers_the_request(
    job: JobRecord,
    spec: &AddJobSpec,
    inserted: CentralResult<CreateAddJobResult>,
    existing: CentralResult<CreateAddJobResult>,
)
    requires
        call_ensures(conclude_create, (JobInsertOutcome::Inserted(job), spec), inserted),
        call_ensures(conclude_create, (JobInsertOutcome::Existing(job), spec), existing),
    ensures
        inserted matches Ok(answer) && answer.job == job && !answer.replayed,
        asks_the_same(job.spec, *spec) ==> (existing matches Ok(answer) && answer.job == job
            && answer.replayed),
        !asks_the_same(job.spec, *spec) ==> fails_with(existing, CentralErrorCode::JobIdReused),
{
}

/// A lookup gives the job that was found, and refuses a job that was not.
pub proof fn lemma_missing_job_is_refused(
    found: Option<JobRecord>,
    job_id: &JobId,
    result: CentralResult<JobRecord>,
)
    requires
        call_ensures(require_job, (found, job_id), result),
    ensures
        found matches Some(job) ==> result == Ok::<JobRecord, CentralError>(job),
        found is None ==> fails_with(result, CentralErrorCode::JobNotFound),
{
}

/// Every write moves a job to the next version and changes nothing else of it.
pub proof fn lemma_write_moves_the_version_by_one(
    expected: u64,
    job: JobRecord,
    result: CentralResult<JobRecord>,
)
    requires
        call_ensures(advance_job, (expected, job), result),
    ensures
        expected < u64::MAX ==> (result matches Ok(after) && {
            &&& after.resource_version == expected + 1
            &&& after == JobRecord { resource_version: after.resource_version, ..job }
        }),
        expected == u64::MAX ==> fails_with(result, CentralErrorCode::Internal),
{
}

/// An assignment hands a job's own request to a target: what is to be done comes from the job,
/// where it is to be done from the target.
pub open spec fn hands_over(
    assignment: AddAssignment,
    job: JobRecord,
    target: AssignmentTarget,
) -> bool {
    &&& assignment.job_id@ == job.spec.job_id@
    &&& assignment.principal@ == job.spec.principal@
    &&& assignment.tenant_id@ == job.spec.tenant_id@
    &&& assignment.project_id@ == job.spec.project_id@
    &&& assignment.artifact_id@ == job.spec.artifact_id@
    &&& assignment.playground_id@ == job.spec.playground_id@
    &&& assignment.expected_index_version.revision == job.spec.expected_index_version.revision
    &&& assignment.expected_index_version.digest == job.spec.expected_index_version.digest
    &&& assignment.expected_index_version.extensions@
        == job.spec.expected_index_version.extensions@
    &&& assignment.request_digest == job.spec.request_digest
    &&& assignment.deadline_unix_ms == job.spec.deadline_unix_ms
    &&& assignment.paths@.len() == job.spec.paths@.len()
    &&& forall|i: int|
        0 <= i < assignment.paths@.len() ==> (#[trigger] assignment.paths@[i])@
            == job.spec.paths@[i]@
    &&& assignment.all == job.spec.all
    &&& assignment.extensions@ == job.spec.extensions@
    &&& assignment.assignment_id@ == target.assignment_id@
    &&& assignment.assignment_generation == target.assignment_generation
    &&& assignment.agent_id@ == target.agent_id@
    &&& assignment.edge_cluster_id@ == target.edge_cluster_id@
    &&& assignment.storage_volume_id@ == target.storage_volume_id@
    &&& assignment.artifact_placement_id@ == target.artifact_placement_id@
    &&& assignment.placement_generation == target.placement_generation
    &&& assignment.agent_mount_id@ == target.agent_mount_id@
    &&& assignment.mount_generation == target.mount_generation
    &&& assignment.owner_generation == target.owner_generation
    &&& match (assignment.lease, target.lease) {
        (Some(given), Some(asked)) => {
            &&& given.lease_id@ == asked.lease_id@
            &&& given.expires_at_unix_ms == asked.expires_at_unix_ms
            &&& given.extensions@ == asked.extensions@
        },
        (None, None) => true,
        _ => false,
    }
}

/// A message carries an assignment, whole and alone.
pub open spec fn carries(message: JobAssignment, job: JobRecord, target: AssignmentTarget) -> bool {
    &&& message.extensions@.len() == 0
    &&& message.assignment matches AssignmentOperation::Add { input, extensions }
    &&& hands_over(input, job, target)
    &&& extensions@.len() == 0
}

/// The assignment that is built for a job and a target hands the one over to the other.
pub proof fn lemma_built_assignment_hands_the_job_over(
    job: &JobRecord,
    target: &AssignmentTarget,
    assignment: AddAssignment,
)
    requires
        call_ensures(add_assignment, (job, target), assignment),
    ensures
        hands_over(assignment, *job, *target),
{
}

/// A queued job whose deadline lies ahead takes a valid target: it is assigned, and what is sent
/// and what is stored hand the job over to that target. Nothing else of the job changes.
pub proof fn lemma_queued_job_takes_an_assignment(
    job: JobRecord,
    target: &AssignmentTarget,
    now: UnixMillis,
    result: CentralResult<AssignJobStep>,
)
    requires
        call_ensures(assign_job, (job, target, Ok(()), now), result),
        job.state is Queued,
        job.assignment is None,
        now < job.spec.deadline_unix_ms,
    ensures
        result matches Ok(AssignJobStep::Reserve { job: after, assignment: message }) && {
            &&& after.state is Assigned
            &&& after.assignment matches Some(assignment)
            &&& hands_over(assignment, job, *target)
            &&& carries(message, job, *target)
            &&& after == JobRecord { state: after.state, assignment: after.assignment, ..job }
        },
{
}

/// A job that has no assignment is refused one after its deadline, for an invalid target, and in
/// every state but queued.
pub proof fn lemma_assignment_needs_a_queued_job_in_time(
    job: JobRecord,
    target: &AssignmentTarget,
    validity: CentralResult<()>,
    now: UnixMillis,
    result: CentralResult<AssignJobStep>,
)
    requires
        call_ensures(assign_job, (job, target, validity, now), result),
        job.assignment is None,
    ensures
        validity matches Err(invalid) ==> (result matches Err(error) && error@ == invalid@),
        validity is Ok && job.spec.deadline_unix_ms <= now ==> fails_with(
            result,
            CentralErrorCode::DeadlineExceeded,
        ),
        validity is Ok && now < job.spec.deadline_unix_ms && !(job.state is Queued) ==> fails_with(
            result,
            CentralErrorCode::InvalidState,
        ),
{
}

/// A job that has an assignment gives the same message again to the same target, in whatever state
/// and at whatever time; another target is refused.
pub proof fn lemma_assigned_job_keeps_its_assignment(
    job: JobRecord,
    target: &AssignmentTarget,
    validity: CentralResult<()>,
    now: UnixMillis,
    result: CentralResult<AssignJobStep>,
)
    requires
        call_ensures(assign_job, (job, target, validity, now), result),
        job.assignment is Some,
    ensures
        hands_over(job.assignment->0, job, *target) ==> (result matches Ok(
            AssignJobStep::Replayed { job: found, assignment: message },
        ) && found == job && carries(message, job, *target)),
        !hands_over(job.assignment->0, job, *target) ==> fails_with(
            result,
            CentralErrorCode::JobIdReused,
        ),
{
}

/// An assignment that lost its write still stands where the job that won carries it, and otherwise
/// gives the failure of the write.
pub proof fn lemma_lost_assignment_counts_where_it_is_stored(
    persisted: JobRecord,
    assignment: &AddAssignment,
    lost: CentralError,
    result: CentralResult<JobRecord>,
)
    requires
        call_ensures(conclude_assignment_race, (persisted, assignment, lost), result),
    ensures
        persisted.assignment is Some && persisted.assignment->0.same(*assignment) ==> result
            == Ok::<JobRecord, CentralError>(persisted),
        persisted.assignment is None || !persisted.assignment->0.same(*assignment) ==> (
        result matches Err(error) && error@ == lost@),
{
}

/// A report comes from the Agent of an assignment and names it: its job, itself and its generation.
pub open spec fn speaks_for(
    request: ReceiveReportRequest,
    assignment: AddAssignment,
    job_id: Seq<char>,
    assignment_id: Seq<char>,
    generation: u64,
) -> bool {
    &&& request.agent_id@ == assignment.agent_id@
    &&& job_id == assignment.job_id@
    &&& assignment_id == assignment.assignment_id@
    &&& generation == assignment.assignment_generation
}

/// A report is written down, or was before.
pub open spec fn stores(result: CentralResult<ReportStep>, after: JobRecord) -> bool {
    result == Ok::<ReportStep, CentralError>(ReportStep::Store(after))
}

/// Nothing that an Agent says is heard before a job has an assignment, nor from another Agent than
/// the one that holds it.
pub proof fn lemma_only_the_assigned_agent_reports(
    job: JobRecord,
    request: ReceiveReportRequest,
    validity: CentralResult<()>,
    result: CentralResult<ReportStep>,
)
    requires
        call_ensures(receive_report, (job, request, validity), result),
    ensures
        job.assignment is None ==> fails_with(result, CentralErrorCode::InvalidState),
        job.assignment is Some && job.assignment->0.agent_id@ != request.agent_id@ ==> fails_with(
            result,
            CentralErrorCode::AssignmentMismatch,
        ),
        job.assignment is Some && job.assignment->0.agent_id@ == request.agent_id@ && validity is Err
            ==> (result matches Err(error) && error@ == validity->Err_0@),
{
}

/// An acceptance, a progress report, an acknowledgement or a failure that names another job or
/// assignment, or an older generation, is refused.
pub proof fn lemma_report_for_another_assignment_is_refused(
    job: JobRecord,
    request: ReceiveReportRequest,
    assignment: AddAssignment,
    result: CentralResult<ReportStep>,
)
    requires
        call_ensures(receive_report, (job, request, Ok(())), result),
        job.assignment == Some(assignment),
        request.agent_id@ == assignment.agent_id@,
    ensures
        request.report matches AgentReport::Accepted(report) && !speaks_for(
            request,
            assignment,
            report.job_id@,
            report.assignment_id@,
            report.assignment_generation,
        ) ==> result is Err,
        request.report matches AgentReport::Progress(report) && !speaks_for(
            request,
            assignment,
            report.job_id@,
            report.assignment_id@,
            report.assignment_generation,
        ) ==> result is Err,
        request.report matches AgentReport::Finalized(report) && !speaks_for(
            request,
            assignment,
            report.job_id@,
            report.assignment_id@,
            report.assignment_generation,
        ) ==> result is Err,
        request.report matches AgentReport::Failed(report) && !speaks_for(
            request,
            assignment,
            report.job_id@,
            report.assignment_id@,
            report.assignment_generation,
        ) ==> result is Err,
{
}

/// An assigned job takes the acceptance of its Agent: it is accepted and holds the report, and
/// nothing else of it changes.
pub proof fn lemma_assigned_job_takes_its_acceptance(
    job: JobRecord,
    request: ReceiveReportRequest,
    report: JobAccepted,
    result: CentralResult<ReportStep>,
)
    requires
        call_ensures(receive_report, (job, request, Ok(())), result),
        request.report == AgentReport::Accepted(report),
        job.assignment is Some,
        speaks_for(
            request,
            job.assignment->0,
            report.job_id@,
            report.assignment_id@,
            report.assignment_generation,
        ),
        report.request_digest == job.assignment->0.request_digest,
        job.state is Assigned,
        job.accepted is None,
    ensures
        stores(result, JobRecord { state: JobState::Accepted, accepted: Some(report), ..job }),
{
}

/// An acceptance is refused where it carries another request digest, where the job was accepted
/// with other words, and where it was never accepted and is no longer assigned. The very acceptance
/// that a job holds changes nothing, however far the job has come.
pub proof fn lemma_job_is_accepted_once(
    job: JobRecord,
    request: ReceiveReportRequest,
    report: JobAccepted,
    result: CentralResult<ReportStep>,
)
    requires
        call_ensures(receive_report, (job, request, Ok(())), result),
        request.report == AgentReport::Accepted(report),
        job.assignment is Some,
        speaks_for(
            request,
            job.assignment->0,
            report.job_id@,
            report.assignment_id@,
            report.assignment_generation,
        ),
    ensures
        report.request_digest != job.assignment->0.request_digest ==> fails_with(
            result,
            CentralErrorCode::AssignmentMismatch,
        ),
        report.request_digest == job.assignment->0.request_digest && job.accepted is Some
            && job.accepted->0.same(report) ==> result == Ok::<ReportStep, CentralError>(
            ReportStep::Replayed(job),
        ),
        report.request_digest == job.assignment->0.request_digest && job.accepted is Some
            && !job.accepted->0.same(report) ==> fails_with(
            result,
            CentralErrorCode::AssignmentMismatch,
        ),
        report.request_digest == job.assignment->0.request_digest && job.accepted is None && !(
        job.state is Assigned) ==> fails_with(result, CentralErrorCode::InvalidState),
{
}

/// A running job takes progress: an accepted or running job with an assignment takes every progress
/// report of its Agent that carries the running state, is running afterwards and holds that report.
/// So it takes the next one too.
pub proof fn lemma_running_job_takes_progress(
    job: JobRecord,
    request: ReceiveReportRequest,
    report: JobProgress,
    result: CentralResult<ReportStep>,
)
    requires
        call_ensures(receive_report, (job, request, Ok(())), result),
        request.report == AgentReport::Progress(report),
        job.assignment is Some,
        speaks_for(
            request,
            job.assignment->0,
            report.job_id@,
            report.assignment_id@,
            report.assignment_generation,
        ),
        report.state is Running,
        job.state is Accepted || job.state is Running,
    ensures
        result is Ok,
        result matches Ok(ReportStep::Store(after)) ==> {
            &&& after == JobRecord { state: JobState::Running, progress: Some(report), ..job }
            &&& job.progress is None || !job.progress->0.same(report)
        },
        result matches Ok(ReportStep::Replayed(after)) ==> {
            &&& after == job
            &&& job.progress is Some
            &&& job.progress->0.same(report)
        },
{
}

/// After any progress report that was stored, the job takes a further one that says something else
/// and holds that one then.
pub proof fn lemma_progress_follows_progress(
    job: JobRecord,
    after: JobRecord,
    first: ReceiveReportRequest,
    second: ReceiveReportRequest,
    report: JobProgress,
    result: CentralResult<ReportStep>,
)
    requires
        call_ensures(
            receive_report,
            (job, first, Ok(())),
            Ok::<ReportStep, CentralError>(ReportStep::Store(after)),
        ),
        first.report is Progress,
        call_ensures(receive_report, (after, second, Ok(())), result),
        second.report == AgentReport::Progress(report),
        speaks_for(
            second,
            after.assignment->0,
            report.job_id@,
            report.assignment_id@,
            report.assignment_generation,
        ),
        report.state is Running,
        !first.report->Progress_0.same(report),
    ensures
        stores(result, JobRecord { progress: Some(report), ..after }),
        after.state is Running,
        after.progress == Some(first.report->Progress_0),
{
}

/// Progress is refused unless it carries the running state, and in every state but accepted and
/// running, where it is not the report that the job holds.
pub proof fn lemma_progress_needs_a_running_job(
    job: JobRecord,
    request: ReceiveReportRequest,
    report: JobProgress,
    result: CentralResult<ReportStep>,
)
    requires
        call_ensures(receive_report, (job, request, Ok(())), result),
        request.report == AgentReport::Progress(report),
        job.assignment is Some,
        speaks_for(
            request,
            job.assignment->0,
            report.job_id@,
            report.assignment_id@,
            report.assignment_generation,
        ),
    ensures
        !(report.state is Running) ==> fails_with(result, CentralErrorCode::InvalidState),
        report.state is Running && !(job.state is Accepted) && !(job.state is Running) && (
        job.progress is None || !job.progress->0.same(report)) ==> fails_with(
            result,
            CentralErrorCode::InvalidState,
        ),
        report.state is Running && job.progress is Some && job.progress->0.same(report) ==> result
            == Ok::<ReportStep, CentralError>(ReportStep::Replayed(job)),
{
}

/// A running job takes what its Agent prepared: it is prepared and holds the report, and nothing
/// else of it changes.
pub proof fn lemma_running_job_is_prepared(
    job: JobRecord,
    request: ReceiveReportRequest,
    report: JobPrepared,
    result: CentralResult<ReportStep>,
)
    requires
        call_ensures(receive_report, (job, request, Ok(())), result),
        request.report == AgentReport::Prepared(report),
        job.assignment is Some,
        request.agent_id@ == job.assignment->0.agent_id@,
        job.state is Running,
        job.prepared is None,
    ensures
        stores(result, JobRecord { state: JobState::Prepared, prepared: Some(report), ..job }),
{
}

/// A job is prepared once, from the running state: the same report changes nothing afterwards, in
/// whatever state, other descriptors are refused as tampered with, and a job that was never prepared
/// and does not run is refused.
pub proof fn lemma_job_is_prepared_once(
    job: JobRecord,
    request: ReceiveReportRequest,
    report: JobPrepared,
    result: CentralResult<ReportStep>,
)
    requires
        call_ensures(receive_report, (job, request, Ok(())), result),
        request.report == AgentReport::Prepared(report),
        job.assignment is Some,
        request.agent_id@ == job.assignment->0.agent_id@,
    ensures
        job.prepared is Some && job.prepared->0.same(report) ==> result == Ok::<
            ReportStep,
            CentralError,
        >(ReportStep::Replayed(job)),
        job.prepared is Some && !job.prepared->0.same(report) ==> fails_with(
            result,
            CentralErrorCode::BatchTampered,
        ),
        job.prepared is None && !(job.state is Running) ==> fails_with(
            result,
            CentralErrorCode::InvalidState,
        ),
{
}

/// The Agent may acknowledge the outcome of a job exactly as it stands: the acknowledgement is
/// written down and changes nothing else, an acknowledgement of another generation or another state
/// is refused, and so is one before there is an outcome or one that differs from the first.
pub proof fn lemma_outcome_is_acknowledged_as_it_stands(
    job: JobRecord,
    request: ReceiveReportRequest,
    report: JobFinalized,
    result: CentralResult<ReportStep>,
)
    requires
        call_ensures(receive_report, (job, request, Ok(())), result),
        request.report == AgentReport::Finalized(report),
        job.assignment is Some,
        speaks_for(
            request,
            job.assignment->0,
            report.job_id@,
            report.assignment_id@,
            report.assignment_generation,
        ),
    ensures
        job.finalized is None ==> fails_with(result, CentralErrorCode::InvalidState),
        job.finalized is Some && (report.decision_generation
            != job.finalized->0.decision_generation || report.final_state
            != job.finalized->0.final_state) ==> fails_with(
            result,
            CentralErrorCode::GenerationMismatch,
        ),
        job.finalized is Some && report.decision_generation
            == job.finalized->0.decision_generation && report.final_state
            == job.finalized->0.final_state ==> match job.finalized_ack {
            None => stores(result, JobRecord { finalized_ack: Some(report), ..job }),
            Some(first) => if first.same(report) {
                result == Ok::<ReportStep, CentralError>(ReportStep::Replayed(job))
            } else {
                fails_with(result, CentralErrorCode::AssignmentMismatch)
            },
        },
{
}

/// A state in which a job has not come to its end and nothing is being published.
pub open spec fn may_still_fail(state: JobState) -> bool {
    match state {
        JobState::Queued
        | JobState::Assigned
        | JobState::Accepted
        | JobState::Running
        | JobState::Prepared
        | JobState::CancelRequested
        | JobState::RecoveryRequired
        | JobState::Unknown => true,
        JobState::Publishing
        | JobState::Succeeded
        | JobState::Conflicted
        | JobState::Rejected
        | JobState::Failed
        | JobState::Cancelled
        | JobState::TimedOut => false,
    }
}

/// An Agent may give up a job that has not come to its end and is not being published: the job ends
/// in the state that the Agent gives, rejected with the error that it gives, and the outcome names
/// the assignment.
pub proof fn lemma_agent_may_give_a_job_up(
    job: JobRecord,
    request: ReceiveReportRequest,
    report: JobFailed,
    result: CentralResult<ReportStep>,
)
    requires
        call_ensures(receive_report, (job, request, Ok(())), result),
        request.report == AgentReport::Failed(report),
        job.assignment is Some,
        speaks_for(
            request,
            job.assignment->0,
            report.job_id@,
            report.assignment_id@,
            report.assignment_generation,
        ),
        report.tenant_id@ == request.tenant_id@,
        report.final_state is Rejected || report.final_state is Failed
            || report.final_state is Cancelled || report.final_state is TimedOut,
        may_still_fail(job.state),
        job.failure is None,
    ensures
        result matches Ok(ReportStep::Store(after)) && {
            &&& after.state == report.final_state
            &&& after.failure == Some(report)
            &&& after.decision matches Some(decision)
            &&& decision.job_id@ == job.assignment->0.job_id@
            &&& decision.assignment_id@ == job.assignment->0.assignment_id@
            &&& decision.assignment_generation == job.assignment->0.assignment_generation
            &&& decision.decision_generation == 1
            &&& decision.final_state == report.final_state
            &&& decision.decision matches PublishDecision::Reject { error, .. }
            &&& error == report.error
            &&& after.finalized matches Some(finalized)
            &&& finalized.job_id@ == job.assignment->0.job_id@
            &&& finalized.assignment_id@ == job.assignment->0.assignment_id@
            &&& finalized.assignment_generation == job.assignment->0.assignment_generation
            &&& finalized.decision_generation == 1
            &&& finalized.final_state == report.final_state
            &&& finalized.finalized_at_unix_ms == report.failed_at_unix_ms
            &&& after == JobRecord {
                state: after.state,
                failure: after.failure,
                decision: after.decision,
                finalized: after.finalized,
                ..job
            }
        },
{
}

/// An Agent cannot give up a job for another tenant, in a state that only a publication may give, or
/// once it is being published; nor can it replace an outcome that the job has.
pub proof fn lemma_agent_failure_has_its_limits(
    job: JobRecord,
    request: ReceiveReportRequest,
    report: JobFailed,
    result: CentralResult<ReportStep>,
)
    requires
        call_ensures(receive_report, (job, request, Ok(())), result),
        request.report == AgentReport::Failed(report),
        job.assignment is Some,
        speaks_for(
            request,
            job.assignment->0,
            report.job_id@,
            report.assignment_id@,
            report.assignment_generation,
        ),
    ensures
        report.tenant_id@ != request.tenant_id@ ==> fails_with(
            result,
            CentralErrorCode::AssignmentMismatch,
        ),
        report.tenant_id@ == request.tenant_id@ && !(report.final_state is Rejected) && !(
        report.final_state is Failed) && !(report.final_state is Cancelled) && !(
        report.final_state is TimedOut) ==> fails_with(result, CentralErrorCode::InvalidState),
        job.state is Publishing ==> result is Err,
        job.failure is Some && !job.failure->0.same(report) ==> result is Err,
        job.failure is None && !may_still_fail(job.state) ==> result is Err,
        report.tenant_id@ == request.tenant_id@ && (report.final_state is Rejected
            || report.final_state is Failed || report.final_state is Cancelled
            || report.final_state is TimedOut) && !(job.state is Publishing) && job.failure is Some
            && job.failure->0.same(report) ==> result == Ok::<ReportStep, CentralError>(
            ReportStep::Replayed(job),
        ),
{
}

/// A submission names a batch.
pub open spec fn submits(submission: MetadataBatchSubmission, batch_id: Seq<char>) -> bool {
    match submission {
        MetadataBatchSubmission::Descriptor(descriptor) => descriptor.batch_id@ == batch_id,
        MetadataBatchSubmission::Page(page) => page.batch_id@ == batch_id,
    }
}

/// A prepared job, and one whose publication runs or ended in success or conflict, takes metadata
/// of its Agent for a batch that it declared in the scope of its assignment: a page that is valid,
/// or the descriptor as it was declared. The answer is the first declaration of that batch.
pub proof fn lemma_declared_batch_is_staged(
    job: &JobRecord,
    agent_id: &AgentId,
    submission: &MetadataBatchSubmission,
    index: int,
    result: CentralResult<&MetadataBatchDescriptor>,
)
    requires
        call_ensures(stage_metadata_batch, (job, agent_id, submission, Ok(())), result),
        job.state is Prepared || job.state is Publishing || job.state is Succeeded
            || job.state is Conflicted,
        job.assignment is Some,
        job.assignment->0.agent_id@ == agent_id@,
        job.prepared is Some,
        0 <= index < job.prepared->0.metadata_batches@.len(),
        submits(*submission, job.prepared->0.metadata_batches@[index].batch_id@),
        forall|earlier: int|
            0 <= earlier < index ==> !submits(
                *submission,
                (#[trigger] job.prepared->0.metadata_batches@[earlier]).batch_id@,
            ),
        job.prepared->0.metadata_batches@[index].scope.tenant_id@
            == job.assignment->0.tenant_id@,
        job.prepared->0.metadata_batches@[index].scope.artifact_id@
            == job.assignment->0.artifact_id@,
        job.prepared->0.metadata_batches@[index].scope.playground_id@
            == job.assignment->0.playground_id@,
        job.prepared->0.metadata_batches@[index].scope.job_id@ == job.assignment->0.job_id@,
    ensures
        submission is Page ==> (result matches Ok(declared) && *declared
            == job.prepared->0.metadata_batches@[index]),
        submission matches MetadataBatchSubmission::Descriptor(descriptor) ==> if descriptor.same(
            job.prepared->0.metadata_batches@[index],
        ) {
            result matches Ok(declared) && *declared == job.prepared->0.metadata_batches@[index]
        } else {
            fails_with(result, CentralErrorCode::BatchTampered)
        },
{
    let batches = job.prepared->0.metadata_batches@;
    let name = batches[index].batch_id@;
    assert(submission.batch_name() == name);
    assert(crate::control_plane::staging::is_declared_at(batches, name, index));
    assert forall|other: int|
        crate::control_plane::staging::is_declared_at(batches, name, other) implies other
        == index by {
        if other < index {
            assert(!submits(*submission, batches[other].batch_id@));
        }
    }
}

/// Metadata is refused in every other state, of an unassigned or unprepared job, of another Agent,
/// of a batch that was not declared or whose first declaration lies outside the assignment, and of a
/// page that is invalid.
pub proof fn lemma_staging_has_its_limits(
    job: &JobRecord,
    agent_id: &AgentId,
    submission: &MetadataBatchSubmission,
    validity: CentralResult<()>,
    result: CentralResult<&MetadataBatchDescriptor>,
)
    requires
        call_ensures(stage_metadata_batch, (job, agent_id, submission, validity), result),
    ensures
        !(job.state is Prepared) && !(job.state is Publishing) && !(job.state is Succeeded) && !(
        job.state is Conflicted) ==> fails_with(result, CentralErrorCode::InvalidState),
        job.assignment is None || job.prepared is None ==> result is Err,
        job.assignment is Some && job.assignment->0.agent_id@ != agent_id@ ==> result is Err,
        job.prepared is Some && (forall|i: int|
            0 <= i < job.prepared->0.metadata_batches@.len() ==> !submits(
                *submission,
                (#[trigger] job.prepared->0.metadata_batches@[i]).batch_id@,
            )) ==> result is Err,
        submission is Page && validity is Err ==> result is Err,
        result matches Ok(declared) ==> {
            &&& submits(*submission, declared.batch_id@)
            &&& declared.scope.tenant_id@ == job.assignment->0.tenant_id@
            &&& declared.scope.artifact_id@ == job.assignment->0.artifact_id@
            &&& declared.scope.playground_id@ == job.assignment->0.playground_id@
            &&& declared.scope.job_id@ == job.assignment->0.job_id@
            &&& exists|i: int|
                0 <= i < job.prepared->0.metadata_batches@.len() && *declared
                    == #[trigger] job.prepared->0.metadata_batches@[i]
        },
{
    if result is Ok {
        let batches = job.prepared->0.metadata_batches@;
        let name = submission.batch_name();
        let some = choose|i: int| 0 <= i < batches.len() && (#[trigger] batches[i]).batch_id@ == name;
        lemma_first_declaration(batches, name, some);
        let index = choose|i: int| crate::control_plane::staging::is_declared_at(batches, name, i);
        assert(*result->Ok_0 == batches[index]);
    }
}

proof fn lemma_first_declaration(
    batches: Seq<MetadataBatchDescriptor>,
    name: Seq<char>,
    index: int,
)
    requires
        0 <= index < batches.len(),
        batches[index].batch_id@ == name,
    ensures
        exists|i: int| crate::control_plane::staging::is_declared_at(batches, name, i),
    decreases index,
{
    if exists|i: int| 0 <= i < index && (#[trigger] batches[i]).batch_id@ == name {
        let earlier = choose|i: int| 0 <= i < index && (#[trigger] batches[i]).batch_id@ == name;
        lemma_first_declaration(batches, name, earlier);
    } else {
        assert(crate::control_plane::staging::is_declared_at(batches, name, index));
    }
}

/// Once its deadline is not after now, every job that waits, runs or is prepared can be ended:
/// queued, assigned, accepted, running, prepared or asked to cancel. It is timed out then, and where
/// it has an assignment it gets an outcome that names it and says so; nothing else of it changes.
pub proof fn lemma_elapsed_job_times_out(
    job: JobRecord,
    validity: CentralResult<()>,
    now: UnixMillis,
    result: CentralResult<ExpireJobStep>,
)
    requires
        call_ensures(expire_add_job, (job, validity, now), result),
        job.state is Queued || job.state is Assigned || job.state is Accepted
            || job.state is Running || job.state is Prepared || job.state is CancelRequested,
        job.spec.deadline_unix_ms <= now,
        job.decision is None,
        job.finalized is None,
        job.assignment is None <==> job.state is Queued,
    ensures
        result matches Ok(ExpireJobStep::Store(after)) && {
            &&& after.state is TimedOut
            &&& after == JobRecord {
                state: after.state,
                decision: after.decision,
                finalized: after.finalized,
                ..job
            }
            &&& job.assignment is None ==> after.decision is None && after.finalized is None
            &&& job.assignment is Some ==> {
                &&& after.decision matches Some(decision)
                &&& decision.job_id@ == job.assignment->0.job_id@
                &&& decision.assignment_id@ == job.assignment->0.assignment_id@
                &&& decision.assignment_generation == job.assignment->0.assignment_generation
                &&& decision.decision_generation == 1
                &&& decision.final_state is TimedOut
                &&& decision.decision matches PublishDecision::Reject { error, .. }
                &&& error.code@ == "JOB_DEADLINE_EXCEEDED"@
                &&& error.message@ == "managed Add deadline elapsed before publication"@
                &&& !error.retryable
                &&& after.finalized matches Some(finalized)
                &&& finalized.job_id@ == job.assignment->0.job_id@
                &&& finalized.assignment_id@ == job.assignment->0.assignment_id@
                &&& finalized.assignment_generation == job.assignment->0.assignment_generation
                &&& finalized.decision_generation == 1
                &&& finalized.final_state is TimedOut
                &&& finalized.finalized_at_unix_ms == now
            }
        },
{
}

/// A coherent job that has not ended, is not being published and is neither unknown nor in need of
/// recovery can be ended once its deadline is not after now.
pub proof fn lemma_coherent_elapsed_job_times_out(
    job: JobRecord,
    validity: CentralResult<()>,
    now: UnixMillis,
    result: CentralResult<ExpireJobStep>,
)
    requires
        call_ensures(expire_add_job, (job, validity, now), result),
        is_coherent(job),
        !(job.state is Succeeded),
        !(job.state is Conflicted),
        !(job.state is Rejected),
        !(job.state is Failed),
        !(job.state is Cancelled),
        !(job.state is TimedOut),
        !(job.state is Publishing),
        !(job.state is RecoveryRequired),
        !(job.state is Unknown),
        job.spec.deadline_unix_ms <= now,
    ensures
        result matches Ok(ExpireJobStep::Store(after)) && after.state is TimedOut,
{
}

/// No deadline ends a job before it has come, nor one that is being published, has ended otherwise,
/// is unknown or needs recovery, nor one that has an outcome; and a job timed out before stays as it
/// is.
pub proof fn lemma_expiry_has_its_limits(
    job: JobRecord,
    validity: CentralResult<()>,
    now: UnixMillis,
    result: CentralResult<ExpireJobStep>,
)
    requires
        call_ensures(expire_add_job, (job, validity, now), result),
    ensures
        !(job.state is TimedOut) && now < job.spec.deadline_unix_ms ==> fails_with(
            result,
            CentralErrorCode::InvalidState,
        ),
        job.state is Publishing || job.state is Succeeded || job.state is Conflicted
            || job.state is Rejected || job.state is Failed || job.state is Cancelled
            || job.state is RecoveryRequired || job.state is Unknown ==> fails_with(
            result,
            CentralErrorCode::InvalidState,
        ),
        !(job.state is TimedOut) && (job.decision is Some || job.finalized is Some) ==> result is Err,
        !(job.state is TimedOut) && (job.assignment is Some <==> job.state is Queued)
            ==> result is Err,
        job.state is TimedOut && result is Ok ==> result == Ok::<ExpireJobStep, CentralError>(
            ExpireJobStep::Replayed(job),
        ),
        job.state is TimedOut && job.assignment is None && job.decision is None
            && job.finalized is None ==> result is Ok,
{
}

/// A timed-out job answers again where it was never assigned, or where its decision and its end are
/// those of its assignment and both say that it timed out; anything else is found to be inconsistent.
pub proof fn lemma_timed_out_job_answers_again(
    job: JobRecord,
    validity: CentralResult<()>,
    now: UnixMillis,
    result: CentralResult<ExpireJobStep>,
)
    requires
        call_ensures(expire_add_job, (job, validity, now), result),
        job.state is TimedOut,
        validity is Ok,
    ensures
        ({
            let untouched = job.assignment is None && job.decision is None && job.finalized is None;
            let assignment = job.assignment->0;
            let decision = job.decision->0;
            let finalized = job.finalized->0;
            let whole = {
                &&& job.assignment is Some && job.decision is Some && job.finalized is Some
                &&& decision.job_id@ == assignment.job_id@
                &&& decision.assignment_id@ == assignment.assignment_id@
                &&& decision.assignment_generation == assignment.assignment_generation
                &&& decision.decision is Reject
                &&& decision.final_state is TimedOut
                &&& finalized.job_id@ == assignment.job_id@
                &&& finalized.assignment_id@ == assignment.assignment_id@
                &&& finalized.assignment_generation == assignment.assignment_generation
                &&& finalized.decision_generation == decision.decision_generation
                &&& finalized.final_state is TimedOut
            };
            result is Ok <==> untouched || whole
        }),
{
}

/// A job that ended in a publication is finalized again by its stored decision; a prepared job with
/// an assignment is to be frozen; a publishing job with its assignment and the very candidate that
/// it prepared is to be published.
pub proof fn lemma_finalization_starts_where_the_job_stands(
    job: JobRecord,
    result: CentralResult<FinalizeStep>,
)
    requires
        call_ensures(begin_finalization, (job,), result),
    ensures
        (job.state is Succeeded || job.state is Conflicted || job.state is Failed)
            && job.decision is Some && job.finalized is Some ==> result == Ok::<
            FinalizeStep,
            CentralError,
        >(FinalizeStep::Replayed(job)),
        job.state is Prepared && job.assignment is Some && job.publication_candidate is None
            ==> result == Ok::<FinalizeStep, CentralError>(FinalizeStep::Freeze(job)),
        job.state is Publishing && job.assignment is Some && holds_what_it_prepared(job) ==> result
            == Ok::<FinalizeStep, CentralError>(FinalizeStep::Publish(job)),
        job.state is Publishing && !(job.assignment is Some && holds_what_it_prepared(job))
            ==> fails_with(result, CentralErrorCode::Internal),
        job.state is Prepared && !(job.assignment is Some && job.publication_candidate is None)
            ==> fails_with(result, CentralErrorCode::Internal),
        !(job.state is Prepared) && !(job.state is Publishing) && !(job.state is Succeeded) && !(
        job.state is Conflicted) && !(job.state is Failed) ==> fails_with(
            result,
            CentralErrorCode::InvalidState,
        ),
        !(job.state is Prepared) && !(job.state is Publishing) && (job.decision is None
            || job.finalized is None) ==> fails_with(result, CentralErrorCode::InvalidState),
{
}

/// The candidate that a job froze is what it prepared, against the Index version that it was asked
/// to start from.
pub open spec fn holds_what_it_prepared(job: JobRecord) -> bool {
    match (job.publication_candidate, job.prepared) {
        (Some(candidate), Some(prepared)) => {
            &&& candidate.result_index_digest == prepared.result_index_digest
            &&& candidate.publication_digest == prepared.publication_digest
            &&& candidate.expected_index_version.revision
                == job.spec.expected_index_version.revision
            &&& candidate.expected_index_version.digest == job.spec.expected_index_version.digest
            &&& candidate.expected_index_version.extensions@
                == job.spec.expected_index_version.extensions@
        },
        _ => false,
    }
}

/// Only a job whose publication was frozen is resumed, and it is resumed as it stands.
pub proof fn lemma_only_a_frozen_publication_resumes(
    job: JobRecord,
    result: CentralResult<JobRecord>,
)
    requires
        call_ensures(resume_publication, (job,), result),
    ensures
        job.state is Publishing && job.assignment is Some && holds_what_it_prepared(job) ==> result
            == Ok::<JobRecord, CentralError>(job),
        !(job.state is Publishing) ==> fails_with(result, CentralErrorCode::InvalidState),
        job.state is Publishing && !(job.assignment is Some && holds_what_it_prepared(job))
            ==> fails_with(result, CentralErrorCode::Internal),
{
}

/// A prepared report is frozen while the deadline of the job and the lease of its assignment lie
/// ahead: the job publishes then, and its candidate is what was prepared, with the metadata that was
/// validated, against the version that the job was asked to start from.
pub proof fn lemma_publication_is_frozen_in_time(
    job: JobRecord,
    metadata: ValidatedMetadata,
    now: UnixMillis,
    result: CentralResult<JobRecord>,
)
    requires
        call_ensures(freeze_publication, (job, metadata, now), result),
        job.assignment is Some,
        job.prepared is Some,
        now < job.spec.deadline_unix_ms,
        job.assignment->0.lease matches Some(lease) ==> now < lease.expires_at_unix_ms,
    ensures
        result matches Ok(after) && {
            &&& after.state is Publishing
            &&& after.publication_candidate matches Some(candidate)
            &&& candidate.expected_index_version == job.spec.expected_index_version
            &&& candidate.result_index_digest == job.prepared->0.result_index_digest
            &&& candidate.publication_digest == job.prepared->0.publication_digest
            &&& candidate.manifests == metadata.manifests
            &&& candidate.mutations == metadata.mutations
            &&& after == JobRecord {
                state: after.state,
                publication_candidate: after.publication_candidate,
                ..job
            }
        },
{
}

/// No publication is frozen once the deadline or the lease has come, or without an assignment or a
/// prepared report.
pub proof fn lemma_publication_is_not_frozen_too_late(
    job: JobRecord,
    metadata: ValidatedMetadata,
    now: UnixMillis,
    result: CentralResult<JobRecord>,
)
    requires
        call_ensures(freeze_publication, (job, metadata, now), result),
    ensures
        job.assignment is Some && (job.spec.deadline_unix_ms <= now || (
        job.assignment->0.lease is Some && job.assignment->0.lease->0.expires_at_unix_ms <= now))
            ==> fails_with(result, CentralErrorCode::DeadlineExceeded),
        job.assignment is None || job.prepared is None ==> result is Err,
{
}

/// What is asked of the publisher is the candidate, for the job's own Index.
pub proof fn lemma_publisher_is_asked_for_the_candidate(
    job: &JobRecord,
    candidate: &PublicationCandidate,
    request: IndexPublishRequest,
)
    requires
        call_ensures(publication_request, (job, candidate), request),
    ensures
        request.job_key.tenant_id@ == job.spec.tenant_id@,
        request.job_key.job_id@ == job.spec.job_id@,
        request.index_key.tenant_id@ == job.spec.tenant_id@,
        request.index_key.artifact_id@ == job.spec.artifact_id@,
        request.index_key.playground_id@ == job.spec.playground_id@,
        request.expected_index_version == candidate.expected_index_version,
        request.expected_result_digest == candidate.result_index_digest,
        request.manifests@.len() == candidate.manifests@.len(),
        request.mutations@.len() == candidate.mutations@.len(),
{
}

/// A publication that went through ends its job in success and tells the version that it made; a
/// conflict ends it in conflict and tells the version that stands; a rejection ends it in failure
/// and is told with its code, not to be retried. The outcome names the assignment, and nothing else
/// of the job changes.
pub proof fn lemma_publication_outcome_ends_the_job(
    job: JobRecord,
    outcome: IndexPublishOutcome,
    now: UnixMillis,
    result: CentralResult<JobRecord>,
)
    requires
        call_ensures(conclude_publication, (job, outcome, now), result),
    ensures
        job.assignment is None ==> fails_with(result, CentralErrorCode::Internal),
        job.assignment is Some ==> (result matches Ok(after) && {
            &&& after == JobRecord {
                state: after.state,
                decision: after.decision,
                finalized: after.finalized,
                ..job
            }
            &&& after.decision matches Some(decision)
            &&& decision.job_id@ == job.assignment->0.job_id@
            &&& decision.assignment_id@ == job.assignment->0.assignment_id@
            &&& decision.assignment_generation == job.assignment->0.assignment_generation
            &&& decision.decision_generation == 1
            &&& decision.final_state == after.state
            &&& after.finalized matches Some(finalized)
            &&& finalized.job_id@ == job.assignment->0.job_id@
            &&& finalized.assignment_id@ == job.assignment->0.assignment_id@
            &&& finalized.assignment_generation == job.assignment->0.assignment_generation
            &&& finalized.decision_generation == 1
            &&& finalized.final_state == after.state
            &&& finalized.finalized_at_unix_ms == now
            &&& match outcome {
                IndexPublishOutcome::Published(version) => {
                    &&& after.state is Succeeded
                    &&& decision.decision matches PublishDecision::Publish {
                        published_index_version,
                        ..
                    }
                    &&& published_index_version == version
                },
                IndexPublishOutcome::Conflict(version) => {
                    &&& after.state is Conflicted
                    &&& decision.decision matches PublishDecision::Conflict {
                        current_index_version,
                        ..
                    }
                    &&& current_index_version == version
                },
                IndexPublishOutcome::Rejected(rejection) => {
                    &&& after.state is Failed
                    &&& decision.decision matches PublishDecision::Reject { error, .. }
                    &&& !error.retryable
                    &&& error.code@ == match rejection {
                        IndexPublishRejection::ResultDigestMismatch { .. } =>
                            "INDEX_RESULT_DIGEST_MISMATCH"@,
                        IndexPublishRejection::InvalidMetadata { .. } => "METADATA_INVALID"@,
                        IndexPublishRejection::RevisionExhausted => "INDEX_REVISION_EXHAUSTED"@,
                    }
                },
            }
        }),
{
}

} // verus!
