//! Handing a queued job to an Agent.
use vstd::prelude::*;

use crate::control_plane::create::{state_failure, state_fault};
use crate::equality::Same;
use crate::error::{
    failure, fault, fault_of, CentralError, CentralErrorCode, CentralResult, Fault,
};
use crate::identifier::{no_extensions, UnixMillis};
use crate::model::{AssignmentTarget, JobRecord};
use crate::protocol::{AddAssignment, AssignmentOperation, JobAssignment, JobState};

verus! {

/// The assignment of a job to a target.
pub open spec fn assignment_of(job: JobRecord, target: AssignmentTarget) -> AddAssignment {
    AddAssignment {
        job_id: job.spec.job_id,
        assignment_id: target.assignment_id,
        assignment_generation: target.assignment_generation,
        agent_id: target.agent_id,
        principal: job.spec.principal,
        tenant_id: job.spec.tenant_id,
        project_id: job.spec.project_id,
        artifact_id: job.spec.artifact_id,
        playground_id: job.spec.playground_id,
        edge_cluster_id: target.edge_cluster_id,
        storage_volume_id: target.storage_volume_id,
        artifact_placement_id: target.artifact_placement_id,
        placement_generation: target.placement_generation,
        agent_mount_id: target.agent_mount_id,
        mount_generation: target.mount_generation,
        owner_generation: target.owner_generation,
        expected_index_version: job.spec.expected_index_version,
        lease: target.lease,
        request_digest: job.spec.request_digest,
        deadline_unix_ms: job.spec.deadline_unix_ms,
        paths: job.spec.paths,
        all: job.spec.all,
        extensions: job.spec.extensions,
    }
}

/// The assignment of a job to a target.
#[must_use]
pub fn add_assignment(job: &JobRecord, target: &AssignmentTarget) -> (assignment: AddAssignment)
    ensures
        assignment.same(assignment_of(*job, *target)),
{
    AddAssignment {
        job_id: job.spec.job_id.clone(),
        assignment_id: target.assignment_id.clone(),
        assignment_generation: target.assignment_generation,
        agent_id: target.agent_id.clone(),
        principal: job.spec.principal.clone(),
        tenant_id: job.spec.tenant_id.clone(),
        project_id: job.spec.project_id.clone(),
        artifact_id: job.spec.artifact_id.clone(),
        playground_id: job.spec.playground_id.clone(),
        edge_cluster_id: target.edge_cluster_id.clone(),
        storage_volume_id: target.storage_volume_id.clone(),
        artifact_placement_id: target.artifact_placement_id.clone(),
        placement_generation: target.placement_generation,
        agent_mount_id: target.agent_mount_id.clone(),
        mount_generation: target.mount_generation,
        owner_generation: target.owner_generation,
        expected_index_version: job.spec.expected_index_version.clone(),
        lease: target.lease.clone(),
        request_digest: job.spec.request_digest,
        deadline_unix_ms: job.spec.deadline_unix_ms,
        paths: job.spec.paths.clone(),
        all: job.spec.all,
        extensions: job.spec.extensions.clone(),
    }
}

/// The envelope that carries an assignment and nothing else.
pub open spec fn is_envelope_of(envelope: JobAssignment, assignment: AddAssignment) -> bool {
    &&& envelope.extensions@.len() == 0
    &&& envelope.assignment matches AssignmentOperation::Add { input, extensions }
    &&& input.same(assignment)
    &&& extensions@.len() == 0
}

fn envelope(assignment: &AddAssignment) -> (envelope: JobAssignment)
    ensures
        is_envelope_of(envelope, *assignment),
{
    JobAssignment {
        assignment: AssignmentOperation::Add {
            input: assignment.clone(),
            extensions: no_extensions(),
        },
        extensions: no_extensions(),
    }
}

/// What assigning a job comes to.
pub enum AssignJobStep {
    /// The job has this very assignment. Reserve and publish it again.
    Replayed { job: JobRecord, assignment: JobAssignment },
    /// Reserve `assignment`, then store `job` in place of the version it was read at, then publish.
    Reserve { job: JobRecord, assignment: JobAssignment },
}

/// Why a job is not assigned.
pub open spec fn assign_fault(
    job: JobRecord,
    target: AssignmentTarget,
    target_validity: CentralResult<()>,
    now: UnixMillis,
) -> Option<Fault> {
    match job.assignment {
        Some(existing) => if existing.same(assignment_of(job, target)) {
            None
        } else {
            Some(
                fault(
                    CentralErrorCode::JobIdReused,
                    "job already has a different persisted assignment"@,
                ),
            )
        },
        None => if target_validity is Err {
            fault_of(target_validity)
        } else if job.spec.deadline_unix_ms <= now {
            Some(
                fault(
                    CentralErrorCode::DeadlineExceeded,
                    "managed Add deadline elapsed before assignment"@,
                ),
            )
        } else if !(job.state is Queued) {
            Some(state_fault("cannot assign a job in state "@, job.state))
        } else {
            None
        },
    }
}

/// `after` is `before` with its assignment; its version has not moved yet.
pub open spec fn is_assigned_from(
    before: JobRecord,
    after: JobRecord,
    target: AssignmentTarget,
) -> bool {
    &&& after == JobRecord { state: JobState::Assigned, assignment: after.assignment, ..before }
    &&& after.assignment matches Some(assignment)
    &&& assignment.same(assignment_of(before, target))
}

/// Assigns a queued job, or recognises that it has this assignment.
///
/// `target_validity` is the outcome of validating the target against the clock.
pub fn assign_job(
    job: JobRecord,
    target: &AssignmentTarget,
    target_validity: CentralResult<()>,
    now: UnixMillis,
) -> (result: CentralResult<AssignJobStep>)
    ensures
        fault_of(result) == assign_fault(job, *target, target_validity, now),
        result matches Ok(AssignJobStep::Replayed { job: found, assignment }) ==> {
            &&& job.assignment is Some
            &&& found == job
            &&& is_envelope_of(assignment, assignment_of(job, *target))
        },
        result matches Ok(AssignJobStep::Reserve { job: assigned, assignment }) ==> {
            &&& job.assignment is None
            &&& is_assigned_from(job, assigned, *target)
            &&& is_envelope_of(assignment, assignment_of(job, *target))
        },
{
    let assignment = add_assignment(&job, target);
    let message = envelope(&assignment);
    if let Some(existing) = &job.assignment {
        if *existing != assignment {
            return Err(
                failure(
                    CentralErrorCode::JobIdReused,
                    "job already has a different persisted assignment",
                ),
            );
        }
        return Ok(AssignJobStep::Replayed { job, assignment: message });
    }
    target_validity?;
    if job.spec.deadline_unix_ms <= now {
        return Err(
            failure(
                CentralErrorCode::DeadlineExceeded,
                "managed Add deadline elapsed before assignment",
            ),
        );
    }
    if job.state != JobState::Queued {
        return Err(state_failure("cannot assign a job in state ", job.state));
    }
    let mut job = job;
    job.assignment = Some(assignment);
    job.state = JobState::Assigned;
    Ok(AssignJobStep::Reserve { job, assignment: message })
}

/// Concludes an assignment whose write lost a race: it still counts where the job that won carries
/// the same assignment.
pub fn conclude_assignment_race(
    persisted: JobRecord,
    assignment: &AddAssignment,
    lost: CentralError,
) -> (result: CentralResult<JobRecord>)
    ensures
        fault_of(result) == if persisted.assignment matches Some(existing) && existing.same(
            *assignment,
        ) {
            None
        } else {
            Some(lost@)
        },
        result matches Ok(job) ==> job == persisted,
{
    let agrees = match &persisted.assignment {
        Some(existing) => *existing == *assignment,
        None => false,
    };
    if agrees {
        Ok(persisted)
    } else {
        Err(lost)
    }
}

} // verus!
