//! Ending a job whose deadline has passed.
use vstd::prelude::*;

use crate::control_plane::create::{state_failure, state_fault};
use crate::control_plane::report::{
    decides, finalizes, job_decision, job_finalized, report_identity_fault,
    validate_report_identity,
};
use crate::error::{failure, fault, fault_of, CentralErrorCode, CentralResult, Fault};
use crate::identifier::{no_extensions, Identifier, UnixMillis};
use crate::model::{ExpireAddJobResult, JobRecord};
use crate::protocol::{ControlError, JobDecision, JobFinalized, JobState, PublishDecision};

verus! {

/// A stored timeout agrees with itself.
pub open spec fn timeout_is_consistent(decision: JobDecision, finalized: JobFinalized) -> bool {
    &&& decision.decision is Reject
    &&& decision.final_state is TimedOut
    &&& finalized.job_id@ == decision.job_id@
    &&& finalized.assignment_id@ == decision.assignment_id@
    &&& finalized.assignment_generation == decision.assignment_generation
    &&& finalized.decision_generation == decision.decision_generation
    &&& finalized.final_state is TimedOut
}

/// Why the record of a timed-out job is not to be trusted.
pub open spec fn timed_out_fault(job: JobRecord, validity: CentralResult<()>) -> Option<Fault> {
    match (job.assignment, job.decision, job.finalized) {
        (None, None, None) => None,
        (Some(assignment), Some(decision), Some(finalized)) => {
            let identity = report_identity_fault(
                assignment,
                decision.job_id@,
                decision.assignment_id@,
                decision.assignment_generation,
            );
            if validity is Err {
                fault_of(validity)
            } else if identity is Some {
                identity
            } else if !timeout_is_consistent(decision, finalized) {
                Some(
                    fault(
                        CentralErrorCode::Internal,
                        "timed-out job has an inconsistent durable decision"@,
                    ),
                )
            } else {
                None
            }
        },
        _ => Some(
            fault(
                CentralErrorCode::Internal,
                "timed-out job has inconsistent assignment or decision state"@,
            ),
        ),
    }
}

/// A state that a deadline can end.
pub open spec fn may_expire(state: JobState) -> bool {
    ||| state is Queued
    ||| state is Assigned
    ||| state is Accepted
    ||| state is Running
    ||| state is Prepared
    ||| state is CancelRequested
}

/// Why a job does not expire.
pub open spec fn expire_fault(
    job: JobRecord,
    validity: CentralResult<()>,
    now: UnixMillis,
) -> Option<Fault> {
    if job.state is TimedOut {
        timed_out_fault(job, validity)
    } else if !may_expire(job.state) {
        Some(state_fault("cannot expire managed Add in state "@, job.state))
    } else if job.spec.deadline_unix_ms > now {
        Some(
            fault(
                CentralErrorCode::InvalidState,
                "cannot expire managed Add before its deadline"@,
            ),
        )
    } else if job.decision is Some || job.finalized is Some {
        Some(
            fault(
                CentralErrorCode::Internal,
                "non-terminal job already has a publish decision"@,
            ),
        )
    } else if (job.assignment is Some) == (job.state is Queued) {
        Some(
            fault(
                CentralErrorCode::Internal,
                "job assignment is inconsistent with its pre-timeout state"@,
            ),
        )
    } else {
        None
    }
}

/// The error that a timed-out assignment is told.
pub open spec fn is_deadline_error(error: ControlError) -> bool {
    &&& error.code@ == "JOB_DEADLINE_EXCEEDED"@
    &&& error.message@ == "managed Add deadline elapsed before publication"@
    &&& !error.retryable
    &&& error.retry_after_ms is None
    &&& error.extensions@.len() == 0
}

/// `after` is `before`, timed out at `now`; its version has not moved yet. A job that has an
/// assignment gets a decision that tells the Agent so.
pub open spec fn is_timed_out_from(before: JobRecord, after: JobRecord, now: UnixMillis) -> bool {
    &&& after == (JobRecord {
        state: JobState::TimedOut,
        decision: after.decision,
        finalized: after.finalized,
        ..before
    })
    &&& match before.assignment {
        None => after.decision is None && after.finalized is None,
        Some(assignment) => {
            &&& after.decision matches Some(decision)
            &&& decides(decision, assignment, JobState::TimedOut)
            &&& decision.decision matches PublishDecision::Reject { error, extensions }
            &&& is_deadline_error(error)
            &&& extensions@.len() == 0
            &&& after.finalized matches Some(finalized)
            &&& finalizes(finalized, assignment, JobState::TimedOut, now)
        },
    }
}

/// What expiring a job comes to.
pub enum ExpireJobStep {
    /// The job timed out before.
    Replayed(JobRecord),
    /// The job is to be stored in place of the version it was read at.
    Store(JobRecord),
}

fn timeout_agrees(decision: &JobDecision, finalized: &JobFinalized) -> (agrees: bool)
    ensures
        agrees == timeout_is_consistent(*decision, *finalized),
{
    let rejected = match &decision.decision {
        PublishDecision::Reject { .. } => true,
        _ => false,
    };
    rejected && decision.final_state == JobState::TimedOut && finalized.job_id == decision.job_id
        && finalized.assignment_id == decision.assignment_id && finalized.assignment_generation
        == decision.assignment_generation && finalized.decision_generation
        == decision.decision_generation && finalized.final_state == JobState::TimedOut
}

fn check_timed_out(job: &JobRecord, validity: CentralResult<()>) -> (result: CentralResult<()>)
    ensures
        fault_of(result) == timed_out_fault(*job, validity),
{
    match (&job.assignment, &job.decision, &job.finalized) {
        (None, None, None) => Ok(()),
        (Some(assignment), Some(decision), Some(finalized)) => {
            validity?;
            validate_report_identity(
                assignment,
                &decision.job_id,
                &decision.assignment_id,
                decision.assignment_generation,
            )?;
            if !timeout_agrees(decision, finalized) {
                return Err(
                    failure(
                        CentralErrorCode::Internal,
                        "timed-out job has an inconsistent durable decision",
                    ),
                );
            }
            Ok(())
        },
        _ => Err(
            failure(
                CentralErrorCode::Internal,
                "timed-out job has inconsistent assignment or decision state",
            ),
        ),
    }
}

/// Marks an elapsed managed Add as timed out, and creates a terminal decision when the job already
/// has an assignment.
///
/// `validity` is the outcome of validating the decision and the final record that a timed-out job
/// carries; nothing else reads it.
pub fn expire_add_job(job: JobRecord, validity: CentralResult<()>, now: UnixMillis) -> (result:
    CentralResult<ExpireJobStep>)
    ensures
        fault_of(result) == expire_fault(job, validity, now),
        result matches Ok(ExpireJobStep::Replayed(found)) ==> job.state is TimedOut && found == job,
        result matches Ok(ExpireJobStep::Store(expired)) ==> !(job.state is TimedOut)
            && is_timed_out_from(job, expired, now),
{
    let mut job = job;
    if job.state == JobState::TimedOut {
        check_timed_out(&job, validity)?;
        return Ok(ExpireJobStep::Replayed(job));
    }
    match job.state {
        JobState::Queued
        | JobState::Assigned
        | JobState::Accepted
        | JobState::Running
        | JobState::Prepared
        | JobState::CancelRequested => {},
        _ => return Err(state_failure("cannot expire managed Add in state ", job.state)),
    }
    if job.spec.deadline_unix_ms > now {
        return Err(
            failure(
                CentralErrorCode::InvalidState,
                "cannot expire managed Add before its deadline",
            ),
        );
    }
    if job.decision.is_some() || job.finalized.is_some() {
        return Err(
            failure(
                CentralErrorCode::Internal,
                "non-terminal job already has a publish decision",
            ),
        );
    }
    if job.assignment.is_some() == (job.state == JobState::Queued) {
        return Err(
            failure(
                CentralErrorCode::Internal,
                "job assignment is inconsistent with its pre-timeout state",
            ),
        );
    }
    if let Some(assignment) = &job.assignment {
        let decision = job_decision(
            assignment,
            PublishDecision::Reject {
                error: ControlError {
                    code: Identifier::new(
                        String::from_str(CentralErrorCode::DeadlineExceeded.as_str()),
                    ),
                    message: String::from_str("managed Add deadline elapsed before publication"),
                    retryable: false,
                    retry_after_ms: None,
                    extensions: no_extensions(),
                },
                extensions: no_extensions(),
            },
            JobState::TimedOut,
        );
        let finalized = job_finalized(assignment, JobState::TimedOut, now);
        job.decision = Some(decision);
        job.finalized = Some(finalized);
    }
    job.state = JobState::TimedOut;
    Ok(ExpireJobStep::Store(job))
}

/// The answer to an expiry.
#[must_use]
pub fn expiry_result(job: JobRecord, replayed: bool) -> (result: ExpireAddJobResult)
    ensures
        result.job == job,
        result.decision == job.decision,
        result.finalized == job.finalized,
        result.replayed == replayed,
{
    let decision = job.decision.clone();
    let finalized = job.finalized.clone();
    ExpireAddJobResult { job, decision, finalized, replayed }
}

} // verus!
