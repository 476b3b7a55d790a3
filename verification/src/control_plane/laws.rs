//! What holds across the steps of a managed Add: the parts of a job agree with its state, a
//! terminal state is final, a frozen publication is settled, and steps that come again change
//! nothing.
use vstd::prelude::*;

use crate::control_plane::assign::{assign_fault, is_assigned_from};
use crate::control_plane::create::is_new_job;
use crate::control_plane::expiry::{
    expire_fault, is_timed_out_from, may_expire, timed_out_fault,
};
use crate::control_plane::finalize::{
    finalization_fault, freeze_fault, frozen_publication_fault, is_concluded_from, is_finalized,
    is_frozen_from,
};
use crate::control_plane::report::{is_reported, is_reported_from, report_fault};
use crate::equality::Same;
use crate::error::CentralResult;
use crate::identifier::{ResourceVersion, UnixMillis};
use crate::memory::jobs::job_replace_fault;
use crate::model::{
    AddJobSpec, AssignmentTarget, IndexPublishOutcome, JobRecord, ReceiveReportRequest,
    ValidatedMetadata,
};
use crate::protocol::{is_terminal_state, JobState};

verus! {

/// A job that still runs has its assignment and no outcome.
pub open spec fn is_under_way(job: JobRecord) -> bool {
    &&& job.assignment is Some
    &&& job.decision is None
    &&& job.finalized is None
    &&& job.failure is None
}

/// The parts of a job agree with its state.
pub open spec fn is_coherent(job: JobRecord) -> bool {
    match job.state {
        JobState::Queued => {
            &&& job.assignment is None
            &&& job.accepted is None
            &&& job.progress is None
            &&& job.prepared is None
            &&& job.publication_candidate is None
            &&& job.decision is None
            &&& job.finalized is None
            &&& job.finalized_ack is None
            &&& job.failure is None
        },
        JobState::Assigned | JobState::Accepted | JobState::Running | JobState::CancelRequested => {
            &&& is_under_way(job)
            &&& job.publication_candidate is None
        },
        JobState::Prepared => {
            &&& is_under_way(job)
            &&& job.prepared is Some
            &&& job.publication_candidate is None
        },
        JobState::Publishing => {
            &&& is_under_way(job)
            &&& job.publication_candidate matches Some(candidate)
            &&& frozen_publication_fault(job, candidate) is None
        },
        JobState::Succeeded
        | JobState::Conflicted
        | JobState::Rejected
        | JobState::Failed
        | JobState::Cancelled => {
            &&& job.assignment is Some
            &&& job.decision matches Some(decision) && decision.final_state == job.state
            &&& job.finalized matches Some(finalized) && finalized.final_state == job.state
        },
        JobState::TimedOut => timed_out_fault(job, Ok(())) is None,
        JobState::RecoveryRequired | JobState::Unknown => true,
    }
}

/// A new job is coherent.
pub proof fn lemma_new_job_is_coherent(job: JobRecord, spec: AddJobSpec)
    requires
        is_new_job(job, spec),
    ensures
        is_coherent(job),
{
}

/// Assigning a job keeps it coherent.
pub proof fn lemma_assignment_is_coherent(
    before: JobRecord,
    after: JobRecord,
    target: AssignmentTarget,
    target_validity: CentralResult<()>,
    now: UnixMillis,
)
    requires
        is_coherent(before),
        assign_fault(before, target, target_validity, now) is None,
        before.assignment is None,
        is_assigned_from(before, after, target),
    ensures
        is_coherent(after),
{
}

/// Every report that is applied keeps its job coherent.
pub proof fn lemma_report_is_coherent(
    before: JobRecord,
    after: JobRecord,
    request: ReceiveReportRequest,
    validity: CentralResult<()>,
)
    requires
        is_coherent(before),
        report_fault(before, request, validity) is None,
        !is_reported(before, request.report),
        is_reported_from(before, after, request.report),
    ensures
        is_coherent(after),
{
}

/// Freezing a publication keeps its job coherent: the candidate is what the Agent prepared.
pub proof fn lemma_freeze_is_coherent(
    before: JobRecord,
    after: JobRecord,
    metadata: ValidatedMetadata,
    now: UnixMillis,
)
    requires
        is_coherent(before),
        before.state is Prepared,
        freeze_fault(before, now) is None,
        is_frozen_from(before, after, metadata),
    ensures
        is_coherent(after),
{
}

/// Concluding a publication keeps its job coherent.
pub proof fn lemma_conclusion_is_coherent(
    before: JobRecord,
    after: JobRecord,
    outcome: IndexPublishOutcome,
    now: UnixMillis,
)
    requires
        is_coherent(before),
        before.state is Publishing,
        is_concluded_from(before, after, outcome, now),
    ensures
        is_coherent(after),
        is_terminal_state(after.state),
{
}

/// Ending a job at its deadline keeps it coherent.
pub proof fn lemma_timeout_is_coherent(
    before: JobRecord,
    after: JobRecord,
    validity: CentralResult<()>,
    now: UnixMillis,
)
    requires
        is_coherent(before),
        expire_fault(before, validity, now) is None,
        !(before.state is TimedOut),
        is_timed_out_from(before, after, now),
    ensures
        is_coherent(after),
        is_terminal_state(after.state),
{
}

/// A coherent job that was prepared can be finalized, and one whose publication was frozen can be
/// published, whatever the clock says.
pub proof fn lemma_prepared_job_can_be_finalized(job: JobRecord)
    requires
        is_coherent(job),
        job.state is Prepared || job.state is Publishing,
    ensures
        finalization_fault(job) is None,
        !is_finalized(job),
{
}

/// A coherent job that is not published in time can be ended at its deadline.
pub proof fn lemma_elapsed_job_can_be_ended(
    job: JobRecord,
    validity: CentralResult<()>,
    now: UnixMillis,
)
    requires
        is_coherent(job),
        may_expire(job.state),
        job.spec.deadline_unix_ms <= now,
    ensures
        expire_fault(job, validity, now) is None,
{
}

/// A terminal state is final: no assignment, report, finalization or deadline changes it or what
/// was decided. The most that a report can add is that the Agent has heard.
pub proof fn lemma_terminal_state_is_final(
    before: JobRecord,
    after: JobRecord,
    target: AssignmentTarget,
    target_validity: CentralResult<()>,
    request: ReceiveReportRequest,
    validity: CentralResult<()>,
    now: UnixMillis,
)
    requires
        is_coherent(before),
        is_terminal_state(before.state),
    ensures
        before.assignment is None ==> assign_fault(before, target, target_validity, now) is Some,
        report_fault(before, request, validity) is None && !is_reported(before, request.report)
            && is_reported_from(before, after, request.report) ==> after == (JobRecord {
            finalized_ack: after.finalized_ack,
            ..before
        }),
        finalization_fault(before) is None ==> is_finalized(before),
        expire_fault(before, validity, now) is None ==> before.state is TimedOut,
{
}

/// A frozen publication is settled: neither the Agent nor the deadline can end its job any more.
pub proof fn lemma_frozen_publication_is_settled(
    before: JobRecord,
    request: ReceiveReportRequest,
    validity: CentralResult<()>,
    now: UnixMillis,
)
    requires
        is_coherent(before),
        before.state is Publishing,
    ensures
        expire_fault(before, validity, now) is Some,
        report_fault(before, request, validity) is None ==> is_reported(before, request.report),
{
}

/// Assigning a job to the same target again is accepted, at any time; another target is refused.
pub proof fn lemma_assignment_replays(
    before: JobRecord,
    after: JobRecord,
    target: AssignmentTarget,
    other: AssignmentTarget,
    target_validity: CentralResult<()>,
    later: UnixMillis,
)
    requires
        is_assigned_from(before, after, target),
        other.assignment_id@ != target.assignment_id@ || other.agent_id@ != target.agent_id@,
    ensures
        assign_fault(after, target, target_validity, later) is None,
        assign_fault(after, other, target_validity, later) is Some,
{
}

/// A report that comes again is accepted and recognised.
pub proof fn lemma_report_replays(
    before: JobRecord,
    after: JobRecord,
    request: ReceiveReportRequest,
    validity: CentralResult<()>,
)
    requires
        report_fault(before, request, validity) is None,
        !is_reported(before, request.report),
        is_reported_from(before, after, request.report),
    ensures
        report_fault(after, request, validity) is None,
        is_reported(after, request.report),
{
}

/// Finalizing a job again finds what was decided.
pub proof fn lemma_finalization_replays(
    before: JobRecord,
    after: JobRecord,
    outcome: IndexPublishOutcome,
    now: UnixMillis,
)
    requires
        is_concluded_from(before, after, outcome, now),
    ensures
        finalization_fault(after) is None,
        is_finalized(after),
{
}

/// Ending a job at its deadline again is accepted and recognised.
pub proof fn lemma_timeout_replays(
    before: JobRecord,
    after: JobRecord,
    validity: CentralResult<()>,
    now: UnixMillis,
    later: UnixMillis,
)
    requires
        expire_fault(before, validity, now) is None,
        !(before.state is TimedOut),
        is_timed_out_from(before, after, now),
    ensures
        expire_fault(after, Ok(()), later) is None,
        after.state is TimedOut,
{
}

/// Of two writers that read the same version of a job, the second one is refused, and the version
/// has moved on by exactly one.
pub proof fn lemma_first_writer_wins(
    jobs: Map<(Seq<char>, Seq<char>), JobRecord>,
    expected: ResourceVersion,
    first: JobRecord,
    second: JobRecord,
)
    requires
        expected < u64::MAX,
        first.key_name() == second.key_name(),
        job_replace_fault(jobs, expected, first) is None,
    ensures
        first.resource_version == jobs[first.key_name()].resource_version + 1,
        job_replace_fault(jobs.insert(first.key_name(), first), expected, second) is Some,
{
}

} // verus!
