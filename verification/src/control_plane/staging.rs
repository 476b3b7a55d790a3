//! Taking in the metadata that a prepared job declared.
use vstd::prelude::*;

use crate::control_plane::create::{state_failure, state_fault};
use crate::equality::Same;
use crate::error::{
    failure, fault, fault_of, CentralError, CentralErrorCode, CentralResult, Fault,
};
use crate::identifier::AgentId;
use crate::model::{JobRecord, MetadataBatchSubmission};
use crate::protocol::{AddAssignment, JobPrepared, JobState, MetadataBatchDescriptor};
use crate::text::{decimal, decimal_text};

verus! {

/// A state in which metadata may still come in.
pub open spec fn may_stage(state: JobState) -> bool {
    ||| state is Prepared
    ||| state is Publishing
    ||| state is Succeeded
    ||| state is Conflicted
}

/// A batch belongs to the job and the workspace of an assignment. Which members of the scope count
/// is this library's own reading of the protocol.
pub open spec fn is_in_scope(assignment: AddAssignment, descriptor: MetadataBatchDescriptor) -> bool {
    &&& descriptor.scope.tenant_id@ == assignment.tenant_id@
    &&& descriptor.scope.artifact_id@ == assignment.artifact_id@
    &&& descriptor.scope.playground_id@ == assignment.playground_id@
    &&& descriptor.scope.job_id@ == assignment.job_id@
}

/// Checks that a batch belongs to an assignment.
///
/// The rule, the code and the words of the failure are this library's own reading of the protocol.
pub fn validate_descriptor_scope(
    assignment: &AddAssignment,
    descriptor: &MetadataBatchDescriptor,
) -> (result: CentralResult<()>)
    ensures
        fault_of(result) == if is_in_scope(*assignment, *descriptor) {
            None::<Fault>
        } else {
            Some(
                fault(
                    CentralErrorCode::AssignmentMismatch,
                    "metadata batch scope differs from the assignment"@,
                ),
            )
        },
{
    if descriptor.scope.tenant_id != assignment.tenant_id || descriptor.scope.artifact_id
        != assignment.artifact_id || descriptor.scope.playground_id != assignment.playground_id
        || descriptor.scope.job_id != assignment.job_id {
        return Err(
            failure(
                CentralErrorCode::AssignmentMismatch,
                "metadata batch scope differs from the assignment",
            ),
        );
    }
    Ok(())
}

/// `index` is the first declared batch of that name.
pub open spec fn is_declared_at(
    batches: Seq<MetadataBatchDescriptor>,
    batch_id: Seq<char>,
    index: int,
) -> bool {
    &&& 0 <= index < batches.len()
    &&& batches[index].batch_id@ == batch_id
    &&& forall|i: int| 0 <= i < index ==> (#[trigger] batches[i]).batch_id@ != batch_id
}

/// A batch of that name was declared.
pub open spec fn is_declared(batches: Seq<MetadataBatchDescriptor>, batch_id: Seq<char>) -> bool {
    exists|i: int| 0 <= i < batches.len() && (#[trigger] batches[i]).batch_id@ == batch_id
}

/// The first declared batch of that name.
pub open spec fn declared_batch(
    batches: Seq<MetadataBatchDescriptor>,
    batch_id: Seq<char>,
) -> MetadataBatchDescriptor {
    batches[choose|index: int| is_declared_at(batches, batch_id, index)]
}

/// The first declared batch that a submission names.
#[must_use]
pub fn find_declared<'a>(prepared: &'a JobPrepared, submission: &MetadataBatchSubmission) -> (found:
    Option<&'a MetadataBatchDescriptor>)
    ensures
        found is Some <==> is_declared(prepared.metadata_batches@, submission.batch_name()),
        found matches Some(declared) ==> *declared == declared_batch(
            prepared.metadata_batches@,
            submission.batch_name(),
        ),
{
    let ghost batches = prepared.metadata_batches@;
    let ghost name = submission.batch_name();
    let mut index: usize = 0;
    while index < prepared.metadata_batches.len()
        invariant
            index <= batches.len(),
            batches == prepared.metadata_batches@,
            name == submission.batch_name(),
            forall|i: int| 0 <= i < index ==> (#[trigger] batches[i]).batch_id@ != name,
        decreases batches.len() - index,
    {
        if prepared.metadata_batches[index].batch_id == *submission.batch_id() {
            proof {
                assert(is_declared_at(batches, name, index as int));
                let chosen = choose|i: int| is_declared_at(batches, name, i);
                assert(chosen == index);
            }
            return Some(&prepared.metadata_batches[index]);
        }
        index += 1;
    }
    None
}

/// Why a submission is refused.
pub open spec fn staging_fault(
    job: JobRecord,
    agent_id: Seq<char>,
    submission: MetadataBatchSubmission,
    page_validity: CentralResult<()>,
) -> Option<Fault> {
    if !may_stage(job.state) {
        Some(state_fault("cannot stage metadata in state "@, job.state))
    } else if job.assignment is None {
        Some(fault(CentralErrorCode::InvalidState, "job has no assignment"@))
    } else if job.assignment->0.agent_id@ != agent_id {
        Some(
            fault(
                CentralErrorCode::AssignmentMismatch,
                "metadata uploader does not own the assignment"@,
            ),
        )
    } else if job.prepared is None {
        Some(fault(CentralErrorCode::InvalidState, "job has no prepared report"@))
    } else {
        let batches = job.prepared->0.metadata_batches@;
        let declared = declared_batch(batches, submission.batch_name());
        if !is_declared(batches, submission.batch_name()) {
            Some(
                fault(
                    CentralErrorCode::BatchUndeclared,
                    "metadata batch "@ + submission.batch_name()
                        + " was not declared by JobPrepared"@,
                ),
            )
        } else if !is_in_scope(job.assignment->0, declared) {
            Some(
                fault(
                    CentralErrorCode::AssignmentMismatch,
                    "metadata batch scope differs from the assignment"@,
                ),
            )
        } else {
            match submission {
                MetadataBatchSubmission::Descriptor(descriptor) => if descriptor.same(declared) {
                    None
                } else {
                    Some(
                        fault(
                            CentralErrorCode::BatchTampered,
                            "staged descriptor differs from JobPrepared"@,
                        ),
                    )
                },
                MetadataBatchSubmission::Page(_) => fault_of(page_validity),
            }
        }
    }
}

/// Admits a prepared descriptor or a page of it, and gives the descriptor that declared it.
///
/// `page_validity` is the outcome of validating a submitted page against that descriptor; a
/// submitted descriptor does not need it.
pub fn stage_metadata_batch<'a>(
    job: &'a JobRecord,
    agent_id: &AgentId,
    submission: &MetadataBatchSubmission,
    page_validity: CentralResult<()>,
) -> (result: CentralResult<&'a MetadataBatchDescriptor>)
    ensures
        fault_of(result) == staging_fault(*job, agent_id@, *submission, page_validity),
        result matches Ok(declared) ==> {
            &&& job.prepared matches Some(prepared)
            &&& is_declared(prepared.metadata_batches@, submission.batch_name())
            &&& *declared == declared_batch(prepared.metadata_batches@, submission.batch_name())
        },
{
    match job.state {
        JobState::Prepared
        | JobState::Publishing
        | JobState::Succeeded
        | JobState::Conflicted => {},
        _ => return Err(state_failure("cannot stage metadata in state ", job.state)),
    }
    let assignment = match &job.assignment {
        Some(assignment) => assignment,
        None => return Err(failure(CentralErrorCode::InvalidState, "job has no assignment")),
    };
    if assignment.agent_id != *agent_id {
        return Err(
            failure(
                CentralErrorCode::AssignmentMismatch,
                "metadata uploader does not own the assignment",
            ),
        );
    }
    let prepared = match &job.prepared {
        Some(prepared) => prepared,
        None => return Err(failure(CentralErrorCode::InvalidState, "job has no prepared report")),
    };
    let declared = match find_declared(prepared, submission) {
        Some(declared) => declared,
        None => {
            let mut message = String::from_str("metadata batch ");
            message.append(submission.batch_id().as_str());
            message.append(" was not declared by JobPrepared");
            return Err(CentralError::new(CentralErrorCode::BatchUndeclared, message));
        },
    };
    validate_descriptor_scope(assignment, declared)?;
    match submission {
        MetadataBatchSubmission::Descriptor(descriptor) => {
            if *descriptor != *declared {
                return Err(
                    failure(
                        CentralErrorCode::BatchTampered,
                        "staged descriptor differs from JobPrepared",
                    ),
                );
            }
        },
        MetadataBatchSubmission::Page(_) => {
            page_validity?;
        },
    }
    Ok(declared)
}

/// How the audit names a submission.
pub open spec fn staging_name(submission: MetadataBatchSubmission) -> Seq<char> {
    match submission {
        MetadataBatchSubmission::Descriptor(descriptor) => "batch-"@ + descriptor.batch_id@
            + "-descriptor"@,
        MetadataBatchSubmission::Page(page) => "batch-"@ + page.batch_id@ + "-page-"@ + decimal(
            page.page_number as nat,
        ),
    }
}

/// How the audit names a submission.
#[must_use]
pub fn staging_suffix(submission: &MetadataBatchSubmission) -> (suffix: String)
    ensures
        suffix@ == staging_name(*submission),
{
    let mut suffix = String::from_str("batch-");
    match submission {
        MetadataBatchSubmission::Descriptor(descriptor) => {
            suffix.append(descriptor.batch_id.as_str());
            suffix.append("-descriptor");
        },
        MetadataBatchSubmission::Page(page) => {
            suffix.append(page.batch_id.as_str());
            suffix.append("-page-");
            suffix.append(decimal_text(page.page_number as u64).as_str());
        },
    }
    suffix
}

} // verus!
