//! Applying what an Agent reports.
use vstd::prelude::*;

use crate::control_plane::create::{state_failure, state_fault};
use crate::equality::Same;
use crate::error::{failure, fault, fault_of, CentralErrorCode, CentralResult, Fault};
use crate::identifier::{
    no_extensions, AssignmentGeneration, AssignmentId, JobId, UnixMillis,
};
use crate::model::{AgentReport, JobRecord, ReceiveReportRequest};
use crate::protocol::{
    is_terminal_state, AddAssignment, ControlError, JobAccepted, JobDecision, JobFailed,
    JobFinalized, JobPrepared, JobProgress, JobState, PublishDecision,
};

verus! {

/// Why a report does not belong to an assignment.
pub open spec fn report_identity_fault(
    assignment: AddAssignment,
    job_id: Seq<char>,
    assignment_id: Seq<char>,
    generation: AssignmentGeneration,
) -> Option<Fault> {
    if job_id != assignment.job_id@ || assignment_id != assignment.assignment_id@ {
        Some(
            fault(
                CentralErrorCode::AssignmentMismatch,
                "report does not belong to the persisted assignment"@,
            ),
        )
    } else if generation != assignment.assignment_generation {
        Some(
            fault(
                CentralErrorCode::GenerationMismatch,
                "report carries a stale assignment generation"@,
            ),
        )
    } else {
        None
    }
}

/// Checks that a report belongs to an assignment.
///
/// Which fields are compared and in which order, and the codes and words of the failures, are this
/// library's own reading of the protocol.
pub fn validate_report_identity(
    assignment: &AddAssignment,
    job_id: &JobId,
    assignment_id: &AssignmentId,
    generation: AssignmentGeneration,
) -> (result: CentralResult<()>)
    ensures
        fault_of(result) == report_identity_fault(
            *assignment,
            job_id@,
            assignment_id@,
            generation,
        ),
{
    if *job_id != assignment.job_id || *assignment_id != assignment.assignment_id {
        return Err(
            failure(
                CentralErrorCode::AssignmentMismatch,
                "report does not belong to the persisted assignment",
            ),
        );
    }
    if generation != assignment.assignment_generation {
        return Err(
            failure(
                CentralErrorCode::GenerationMismatch,
                "report carries a stale assignment generation",
            ),
        );
    }
    Ok(())
}

/// A terminal state that an Agent may give a job: publishing is not its to decide. Which states
/// these are is this library's own reading of the protocol.
pub open spec fn is_failure_state(state: JobState) -> bool {
    is_terminal_state(state) && !(state is Succeeded) && !(state is Conflicted)
}

/// Checks that an Agent gives a job up in a state that is its to give.
///
/// The rule, the code and the words of the failure are this library's own reading of the protocol.
pub fn validate_terminal_state(state: JobState) -> (result: CentralResult<()>)
    ensures
        fault_of(result) == if is_failure_state(state) {
            None::<Fault>
        } else {
            Some(
                fault(
                    CentralErrorCode::InvalidState,
                    "agent terminal report must carry a failure state"@,
                ),
            )
        },
{
    if !state.is_terminal() || state == JobState::Succeeded || state == JobState::Conflicted {
        return Err(
            failure(
                CentralErrorCode::InvalidState,
                "agent terminal report must carry a failure state",
            ),
        );
    }
    Ok(())
}

/// The first decision on an assignment, ending in `final_state`.
pub open spec fn decides(
    decision: JobDecision,
    assignment: AddAssignment,
    final_state: JobState,
) -> bool {
    &&& decision.job_id == assignment.job_id
    &&& decision.assignment_id == assignment.assignment_id
    &&& decision.assignment_generation == assignment.assignment_generation
    &&& decision.decision_generation == 1
    &&& decision.final_state == final_state
    &&& decision.extensions@.len() == 0
}

/// A decision that rejects with `error`.
pub open spec fn rejects_with(decision: JobDecision, error: ControlError) -> bool {
    &&& decision.decision matches PublishDecision::Reject { error: carried, extensions }
    &&& carried == error
    &&& extensions@.len() == 0
}

/// The record that an assignment ended in `final_state` at `at`.
pub open spec fn finalizes(
    finalized: JobFinalized,
    assignment: AddAssignment,
    final_state: JobState,
    at: UnixMillis,
) -> bool {
    &&& finalized.job_id == assignment.job_id
    &&& finalized.assignment_id == assignment.assignment_id
    &&& finalized.assignment_generation == assignment.assignment_generation
    &&& finalized.decision_generation == 1
    &&& finalized.final_state == final_state
    &&& finalized.finalized_at_unix_ms == at
    &&& finalized.extensions@.len() == 0
}

pub(crate) fn job_decision(
    assignment: &AddAssignment,
    decision: PublishDecision,
    final_state: JobState,
) -> (made: JobDecision)
    ensures
        decides(made, *assignment, final_state),
        made.decision == decision,
{
    JobDecision {
        job_id: assignment.job_id.clone(),
        assignment_id: assignment.assignment_id.clone(),
        assignment_generation: assignment.assignment_generation,
        decision_generation: 1,
        decision,
        final_state,
        extensions: no_extensions(),
    }
}

pub(crate) fn job_finalized(
    assignment: &AddAssignment,
    final_state: JobState,
    at: UnixMillis,
) -> (made: JobFinalized)
    ensures
        finalizes(made, *assignment, final_state, at),
{
    JobFinalized {
        job_id: assignment.job_id.clone(),
        assignment_id: assignment.assignment_id.clone(),
        assignment_generation: assignment.assignment_generation,
        decision_generation: 1,
        final_state,
        finalized_at_unix_ms: at,
        extensions: no_extensions(),
    }
}

/// Why an acceptance is refused.
pub open spec fn accepted_fault(
    job: JobRecord,
    assignment: AddAssignment,
    report: JobAccepted,
) -> Option<Fault> {
    let identity = report_identity_fault(
        assignment,
        report.job_id@,
        report.assignment_id@,
        report.assignment_generation,
    );
    if identity is Some {
        identity
    } else if report.request_digest != assignment.request_digest {
        Some(
            fault(
                CentralErrorCode::AssignmentMismatch,
                "accepted report carries a different request digest"@,
            ),
        )
    } else if job.accepted is Some {
        if job.accepted->0.same(report) {
            None
        } else {
            Some(
                fault(
                    CentralErrorCode::AssignmentMismatch,
                    "assignment was accepted with a different report payload"@,
                ),
            )
        }
    } else if !(job.state is Assigned) {
        Some(state_fault("cannot accept a job in state "@, job.state))
    } else {
        None
    }
}

/// Why a progress report is refused.
pub open spec fn progress_fault(
    job: JobRecord,
    assignment: AddAssignment,
    report: JobProgress,
) -> Option<Fault> {
    let identity = report_identity_fault(
        assignment,
        report.job_id@,
        report.assignment_id@,
        report.assignment_generation,
    );
    if identity is Some {
        identity
    } else if !(report.state is Running) {
        Some(
            fault(
                CentralErrorCode::InvalidState,
                "progress reports must carry running state"@,
            ),
        )
    } else if job.progress matches Some(existing) && existing.same(report) {
        None
    } else if !(job.state is Accepted) && !(job.state is Running) {
        Some(state_fault("cannot apply progress in state "@, job.state))
    } else {
        None
    }
}

/// Why a prepared report is refused.
pub open spec fn prepared_fault(job: JobRecord, report: JobPrepared) -> Option<Fault> {
    if job.prepared is Some {
        if job.prepared->0.same(report) {
            None
        } else {
            Some(
                fault(
                    CentralErrorCode::BatchTampered,
                    "job was prepared with different metadata descriptors"@,
                ),
            )
        }
    } else if !(job.state is Running) {
        Some(state_fault("cannot prepare a job in state "@, job.state))
    } else {
        None
    }
}

/// Why an acknowledgement of the terminal decision is refused.
pub open spec fn finalized_fault(
    job: JobRecord,
    assignment: AddAssignment,
    report: JobFinalized,
) -> Option<Fault> {
    let identity = report_identity_fault(
        assignment,
        report.job_id@,
        report.assignment_id@,
        report.assignment_generation,
    );
    if identity is Some {
        identity
    } else if job.finalized is None {
        Some(
            fault(
                CentralErrorCode::InvalidState,
                "agent finalized before the central publish decision"@,
            ),
        )
    } else if report.decision_generation != job.finalized->0.decision_generation
        || report.final_state != job.finalized->0.final_state {
        Some(
            fault(
                CentralErrorCode::GenerationMismatch,
                "agent finalized acknowledgement differs from central decision"@,
            ),
        )
    } else if job.finalized_ack matches Some(existing) && !existing.same(report) {
        Some(
            fault(
                CentralErrorCode::AssignmentMismatch,
                "agent replayed a different finalized acknowledgement"@,
            ),
        )
    } else {
        None
    }
}

/// Why a terminal report is refused.
pub open spec fn failed_fault(
    job: JobRecord,
    assignment: AddAssignment,
    tenant_id: Seq<char>,
    report: JobFailed,
) -> Option<Fault> {
    let identity = report_identity_fault(
        assignment,
        report.job_id@,
        report.assignment_id@,
        report.assignment_generation,
    );
    if report.tenant_id@ != tenant_id {
        Some(
            fault(
                CentralErrorCode::AssignmentMismatch,
                "job failure tenant does not match the report authority scope"@,
            ),
        )
    } else if identity is Some {
        identity
    } else if !is_failure_state(report.final_state) {
        Some(
            fault(
                CentralErrorCode::InvalidState,
                "agent terminal report must carry a failure state"@,
            ),
        )
    } else if job.state is Publishing {
        Some(
            fault(
                CentralErrorCode::InvalidState,
                "cannot replace a publishing job with an agent terminal report"@,
            ),
        )
    } else if job.failure is Some {
        if job.failure->0.same(report) {
            None
        } else {
            Some(
                fault(
                    CentralErrorCode::AssignmentMismatch,
                    "agent replayed a different terminal report"@,
                ),
            )
        }
    } else if is_terminal_state(job.state) {
        Some(
            fault(
                CentralErrorCode::InvalidState,
                "job already has a different terminal outcome"@,
            ),
        )
    } else {
        None
    }
}

/// Why a report is refused.
pub open spec fn report_fault(
    job: JobRecord,
    request: ReceiveReportRequest,
    validity: CentralResult<()>,
) -> Option<Fault> {
    match job.assignment {
        None => Some(
            fault(
                CentralErrorCode::InvalidState,
                "cannot receive an agent report before assignment"@,
            ),
        ),
        Some(assignment) => if assignment.agent_id@ != request.agent_id@ {
            Some(
                fault(
                    CentralErrorCode::AssignmentMismatch,
                    "reporting agent does not own the persisted assignment"@,
                ),
            )
        } else if validity is Err {
            fault_of(validity)
        } else {
            match request.report {
                AgentReport::Accepted(report) => accepted_fault(job, assignment, report),
                AgentReport::Progress(report) => progress_fault(job, assignment, report),
                AgentReport::Prepared(report) => prepared_fault(job, report),
                AgentReport::Finalized(report) => finalized_fault(job, assignment, report),
                AgentReport::Failed(report) => failed_fault(
                    job,
                    assignment,
                    request.tenant_id@,
                    report,
                ),
            }
        },
    }
}

/// The job already holds this very report.
pub open spec fn is_reported(job: JobRecord, report: AgentReport) -> bool {
    match report {
        AgentReport::Accepted(report) => job.accepted matches Some(existing) && existing.same(
            report,
        ),
        AgentReport::Progress(report) => job.progress matches Some(existing) && existing.same(
            report,
        ),
        AgentReport::Prepared(report) => job.prepared matches Some(existing) && existing.same(
            report,
        ),
        AgentReport::Finalized(report) => job.finalized_ack matches Some(existing)
            && existing.same(report),
        AgentReport::Failed(report) => job.failure matches Some(existing) && existing.same(report),
    }
}

/// `after` is `before` with the report written down; its version has not moved yet.
pub open spec fn is_reported_from(
    before: JobRecord,
    after: JobRecord,
    report: AgentReport,
) -> bool {
    match report {
        AgentReport::Accepted(report) => after == (JobRecord {
            accepted: Some(report),
            state: JobState::Accepted,
            ..before
        }),
        AgentReport::Progress(report) => after == (JobRecord {
            progress: Some(report),
            state: JobState::Running,
            ..before
        }),
        AgentReport::Prepared(report) => after == (JobRecord {
            prepared: Some(report),
            state: JobState::Prepared,
            ..before
        }),
        AgentReport::Finalized(report) => after == (JobRecord {
            finalized_ack: Some(report),
            ..before
        }),
        AgentReport::Failed(report) => {
            &&& after == (JobRecord {
                decision: after.decision,
                finalized: after.finalized,
                state: report.final_state,
                failure: Some(report),
                ..before
            })
            &&& before.assignment matches Some(assignment)
            &&& after.decision matches Some(decision)
            &&& decides(decision, assignment, report.final_state)
            &&& rejects_with(decision, report.error)
            &&& after.finalized matches Some(finalized)
            &&& finalizes(finalized, assignment, report.final_state, report.failed_at_unix_ms)
        },
    }
}

/// What a report comes to.
pub enum ReportStep {
    /// The job already holds this report.
    Replayed(JobRecord),
    /// The job is to be stored in place of the version it was read at.
    Store(JobRecord),
}

/// Applies one idempotent Agent report to the job that it names.
///
/// `validity` is the outcome of validating the report's own shape and, for a prepared report, its
/// descriptors against the job.
pub fn receive_report(
    job: JobRecord,
    request: ReceiveReportRequest,
    validity: CentralResult<()>,
) -> (result: CentralResult<ReportStep>)
    ensures
        fault_of(result) == report_fault(job, request, validity),
        result matches Ok(ReportStep::Replayed(found)) ==> is_reported(job, request.report) && found
            == job,
        result matches Ok(ReportStep::Store(stored)) ==> !is_reported(job, request.report)
            && is_reported_from(job, stored, request.report),
{
    let mut job = job;
    let assignment = match &job.assignment {
        Some(assignment) => assignment,
        None => return Err(
            failure(
                CentralErrorCode::InvalidState,
                "cannot receive an agent report before assignment",
            ),
        ),
    };
    if assignment.agent_id != request.agent_id {
        return Err(
            failure(
                CentralErrorCode::AssignmentMismatch,
                "reporting agent does not own the persisted assignment",
            ),
        );
    }
    validity?;
    match request.report {
        AgentReport::Accepted(report) => {
            validate_report_identity(
                assignment,
                &report.job_id,
                &report.assignment_id,
                report.assignment_generation,
            )?;
            if report.request_digest != assignment.request_digest {
                return Err(
                    failure(
                        CentralErrorCode::AssignmentMismatch,
                        "accepted report carries a different request digest",
                    ),
                );
            }
            if let Some(existing) = &job.accepted {
                if *existing == report {
                    return Ok(ReportStep::Replayed(job));
                }
                return Err(
                    failure(
                        CentralErrorCode::AssignmentMismatch,
                        "assignment was accepted with a different report payload",
                    ),
                );
            }
            if job.state != JobState::Assigned {
                return Err(state_failure("cannot accept a job in state ", job.state));
            }
            job.accepted = Some(report);
            job.state = JobState::Accepted;
            Ok(ReportStep::Store(job))
        },
        AgentReport::Progress(report) => {
            validate_report_identity(
                assignment,
                &report.job_id,
                &report.assignment_id,
                report.assignment_generation,
            )?;
            if report.state != JobState::Running {
                return Err(
                    failure(
                        CentralErrorCode::InvalidState,
                        "progress reports must carry running state",
                    ),
                );
            }
            if let Some(existing) = &job.progress {
                if *existing == report {
                    return Ok(ReportStep::Replayed(job));
                }
            }
            if job.state != JobState::Accepted && job.state != JobState::Running {
                return Err(state_failure("cannot apply progress in state ", job.state));
            }
            job.progress = Some(report);
            job.state = JobState::Running;
            Ok(ReportStep::Store(job))
        },
        AgentReport::Prepared(report) => {
            if let Some(existing) = &job.prepared {
                if *existing == report {
                    return Ok(ReportStep::Replayed(job));
                }
                return Err(
                    failure(
                        CentralErrorCode::BatchTampered,
                        "job was prepared with different metadata descriptors",
                    ),
                );
            }
            if job.state != JobState::Running {
                return Err(state_failure("cannot prepare a job in state ", job.state));
            }
            job.prepared = Some(report);
            job.state = JobState::Prepared;
            Ok(ReportStep::Store(job))
        },
        AgentReport::Finalized(report) => {
            validate_report_identity(
                assignment,
                &report.job_id,
                &report.assignment_id,
                report.assignment_generation,
            )?;
            let finalized = match &job.finalized {
                Some(finalized) => finalized,
                None => return Err(
                    failure(
                        CentralErrorCode::InvalidState,
                        "agent finalized before the central publish decision",
                    ),
                ),
            };
            if report.decision_generation != finalized.decision_generation || report.final_state
                != finalized.final_state {
                return Err(
                    failure(
                        CentralErrorCode::GenerationMismatch,
                        "agent finalized acknowledgement differs from central decision",
                    ),
                );
            }
            if let Some(existing) = &job.finalized_ack {
                if *existing == report {
                    return Ok(ReportStep::Replayed(job));
                }
                return Err(
                    failure(
                        CentralErrorCode::AssignmentMismatch,
                        "agent replayed a different finalized acknowledgement",
                    ),
                );
            }
            job.finalized_ack = Some(report);
            Ok(ReportStep::Store(job))
        },
        AgentReport::Failed(report) => {
            if report.tenant_id != request.tenant_id {
                return Err(
                    failure(
                        CentralErrorCode::AssignmentMismatch,
                        "job failure tenant does not match the report authority scope",
                    ),
                );
            }
            validate_report_identity(
                assignment,
                &report.job_id,
                &report.assignment_id,
                report.assignment_generation,
            )?;
            validate_terminal_state(report.final_state)?;
            if job.state == JobState::Publishing {
                return Err(
                    failure(
                        CentralErrorCode::InvalidState,
                        "cannot replace a publishing job with an agent terminal report",
                    ),
                );
            }
            if let Some(existing) = &job.failure {
                if *existing == report {
                    return Ok(ReportStep::Replayed(job));
                }
                return Err(
                    failure(
                        CentralErrorCode::AssignmentMismatch,
                        "agent replayed a different terminal report",
                    ),
                );
            }
            if job.state.is_terminal() {
                return Err(
                    failure(
                        CentralErrorCode::InvalidState,
                        "job already has a different terminal outcome",
                    ),
                );
            }
            let decision = job_decision(
                assignment,
                PublishDecision::Reject {
                    error: report.error.clone(),
                    extensions: no_extensions(),
                },
                report.final_state,
            );
            let finalized = job_finalized(
                assignment,
                report.final_state,
                report.failed_at_unix_ms,
            );
            job.decision = Some(decision);
            job.finalized = Some(finalized);
            job.state = report.final_state;
            job.failure = Some(report);
            Ok(ReportStep::Store(job))
        },
    }
}

} // verus!
