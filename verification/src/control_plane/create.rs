//! Creating and reading jobs, and what every request has in common.
use vstd::prelude::*;

use crate::equality::Same;
use crate::error::{
    failure, fault, fault_of, CentralError, CentralErrorCode, CentralResult, Fault,
};
use crate::identifier::{Identifier, JobId, PrincipalRef, ResourceVersion, TenantId, UnixMillis};
use crate::model::{
    Action, Actor, AddJobSpec, AuditEvent, AuditKind, AuthorizationRequest, CreateAddJobResult,
    JobRecord,
};
use crate::ports::JobInsertOutcome;
use crate::protocol::{state_text, JobOperation, JobState};
use crate::text::{decimal, decimal_text};

verus! {

/// A request that the state of its job does not allow.
pub open spec fn state_fault(what: Seq<char>, state: JobState) -> Fault {
    fault(CentralErrorCode::InvalidState, what + state_text(state))
}

pub(crate) fn state_failure(what: &str, state: JobState) -> (failure: CentralError)
    ensures
        failure@ == state_fault(what@, state),
{
    let mut message = String::from_str(what);
    message.append(state.text());
    CentralError::new(CentralErrorCode::InvalidState, message)
}

/// The question that the authorizer is asked before a job is touched.
#[must_use]
pub fn authorization_request(actor: Actor, action: Action, spec: &AddJobSpec) -> (request:
    AuthorizationRequest)
    ensures
        request.actor == actor,
        request.action == action,
        request.tenant_id == spec.tenant_id,
        request.artifact_id == spec.artifact_id,
        request.playground_id == spec.playground_id,
        request.job_id == spec.job_id,
{
    AuthorizationRequest {
        actor,
        action,
        tenant_id: spec.tenant_id.clone(),
        artifact_id: spec.artifact_id.clone(),
        playground_id: spec.playground_id.clone(),
        job_id: spec.job_id.clone(),
    }
}

/// The question that the authorizer is asked before a job is read. The job is not known yet, so
/// Artifact and Playground carry a placeholder.
#[must_use]
pub fn query_authorization(actor: PrincipalRef, tenant_id: &TenantId, job_id: &JobId) -> (request:
    AuthorizationRequest)
    ensures
        request.actor == Actor::Principal(actor),
        request.action is QueryJob,
        request.tenant_id == *tenant_id,
        request.artifact_id@ == "query"@,
        request.playground_id@ == "query"@,
        request.job_id == *job_id,
{
    AuthorizationRequest {
        actor: Actor::Principal(actor),
        action: Action::QueryJob,
        tenant_id: tenant_id.clone(),
        artifact_id: Identifier::new(String::from_str("query")),
        playground_id: Identifier::new(String::from_str("query")),
        job_id: job_id.clone(),
    }
}

/// The answer to a request for a job that is not stored.
pub open spec fn job_missing(job_id: Seq<char>) -> Fault {
    fault(CentralErrorCode::JobNotFound, "managed Add job "@ + job_id + " was not found"@)
}

/// The job that a lookup found.
pub fn require_job(found: Option<JobRecord>, job_id: &JobId) -> (result: CentralResult<JobRecord>)
    ensures
        fault_of(result) == if found is Some {
            None
        } else {
            Some(job_missing(job_id@))
        },
        result matches Ok(job) ==> found == Some(job),
{
    match found {
        Some(job) => Ok(job),
        None => {
            let mut message = String::from_str("managed Add job ");
            message.append(job_id.as_str());
            message.append(" was not found");
            Err(CentralError::new(CentralErrorCode::JobNotFound, message))
        },
    }
}

/// A job that nothing has happened to yet.
pub open spec fn is_new_job(job: JobRecord, spec: AddJobSpec) -> bool {
    &&& job.spec == spec
    &&& job.operation is Add
    &&& job.state is Queued
    &&& job.resource_version == 1
    &&& job.assignment is None
    &&& job.accepted is None
    &&& job.progress is None
    &&& job.prepared is None
    &&& job.publication_candidate is None
    &&& job.decision is None
    &&& job.finalized is None
    &&& job.finalized_ack is None
    &&& job.failure is None
}

/// The answer to a job identity that stands for another request.
pub open spec fn job_id_reused() -> Fault {
    fault(
        CentralErrorCode::JobIdReused,
        "JobId already belongs to a different managed Add request"@,
    )
}

fn job_id_was_reused() -> (failure: CentralError)
    ensures
        failure@ == job_id_reused(),
{
    failure(
        CentralErrorCode::JobIdReused,
        "JobId already belongs to a different managed Add request",
    )
}

/// What creating a job comes to.
pub enum CreateJobStep {
    /// The job was created before, with the same specification.
    Replayed(JobRecord),
    /// The job is to be inserted.
    Insert(JobRecord),
}

/// Why a job is not created.
pub open spec fn create_fault(
    existing: Option<JobRecord>,
    spec: AddJobSpec,
    spec_validity: CentralResult<()>,
) -> Option<Fault> {
    match existing {
        Some(job) => if job.spec.same(spec) {
            None
        } else {
            Some(job_id_reused())
        },
        None => fault_of(spec_validity),
    }
}

/// Creates the queued job for a specification, or recognises that it exists. Reusing a JobId with
/// another specification is rejected.
///
/// `existing` is what is stored under the specification's tenant and job, `spec_validity` the
/// outcome of validating the specification against the clock.
pub fn create_add_job(
    existing: Option<JobRecord>,
    spec: AddJobSpec,
    spec_validity: CentralResult<()>,
) -> (result: CentralResult<CreateJobStep>)
    ensures
        fault_of(result) == create_fault(existing, spec, spec_validity),
        result matches Ok(CreateJobStep::Replayed(job)) ==> existing == Some(job),
        result matches Ok(CreateJobStep::Insert(job)) ==> existing is None && is_new_job(job, spec),
{
    if let Some(job) = existing {
        if job.spec != spec {
            return Err(job_id_was_reused());
        }
        return Ok(CreateJobStep::Replayed(job));
    }
    spec_validity?;
    Ok(
        CreateJobStep::Insert(
            JobRecord {
                spec,
                operation: JobOperation::Add,
                state: JobState::Queued,
                resource_version: 1,
                assignment: None,
                accepted: None,
                progress: None,
                prepared: None,
                publication_candidate: None,
                decision: None,
                finalized: None,
                finalized_ack: None,
                failure: None,
            },
        ),
    )
}

/// Concludes a creation from what the insert found.
pub fn conclude_create(outcome: JobInsertOutcome, spec: &AddJobSpec) -> (result: CentralResult<
    CreateAddJobResult,
>)
    ensures
        fault_of(result) == match outcome {
            JobInsertOutcome::Inserted(_) => None::<Fault>,
            JobInsertOutcome::Existing(job) => if job.spec.same(*spec) {
                None
            } else {
                Some(job_id_reused())
            },
        },
        result matches Ok(created) ==> match outcome {
            JobInsertOutcome::Inserted(job) => created.job == job && !created.replayed,
            JobInsertOutcome::Existing(job) => created.job == job && created.replayed,
        },
{
    match outcome {
        JobInsertOutcome::Inserted(job) => Ok(CreateAddJobResult { job, replayed: false }),
        JobInsertOutcome::Existing(job) => {
            if job.spec != *spec {
                return Err(job_id_was_reused());
            }
            Ok(CreateAddJobResult { job, replayed: true })
        },
    }
}

/// Gives a job the version that follows the one it replaces.
pub fn advance_job(expected: ResourceVersion, job: JobRecord) -> (result: CentralResult<JobRecord>)
    ensures
        fault_of(result) == if expected == u64::MAX {
            Some(fault(CentralErrorCode::Internal, "job ResourceVersion overflow"@))
        } else {
            None
        },
        result matches Ok(advanced) ==> advanced == (JobRecord {
            resource_version: (expected + 1) as u64,
            ..job
        }),
{
    let mut job = job;
    job.resource_version = match expected.checked_add(1) {
        Some(next) => next,
        None => return Err(failure(CentralErrorCode::Internal, "job ResourceVersion overflow")),
    };
    Ok(job)
}

/// The identity of the audit event for one version of a job.
pub open spec fn audit_event_name(job: JobRecord, suffix: Seq<char>) -> Seq<char> {
    job.spec.tenant_id@ + ":"@ + job.spec.job_id@ + ":"@ + decimal(job.resource_version as nat)
        + ":"@ + suffix
}

/// The audit event for what was done to a job. Its identity is a function of the job's version, so
/// a replay records the same event again.
#[must_use]
pub fn audit_event(job: &JobRecord, kind: AuditKind, suffix: &str, now: UnixMillis) -> (event:
    AuditEvent)
    ensures
        event.event_id@ == audit_event_name(*job, suffix@),
        event.kind == kind,
        event.job_key.tenant_id == job.spec.tenant_id,
        event.job_key.job_id == job.spec.job_id,
        event.state == job.state,
        event.occurred_at_unix_ms == now,
{
    let mut event_id = String::from_str(job.spec.tenant_id.as_str());
    event_id.append(":");
    event_id.append(job.spec.job_id.as_str());
    event_id.append(":");
    event_id.append(decimal_text(job.resource_version).as_str());
    event_id.append(":");
    event_id.append(suffix);
    AuditEvent {
        event_id,
        kind,
        job_key: job.key(),
        state: job.state,
        occurred_at_unix_ms: now,
    }
}

} // verus!
