//! Publishing what a prepared job staged, exactly once.
use vstd::prelude::*;

use crate::control_plane::create::{state_failure, state_fault};
use crate::control_plane::message::{bounded_control_error_message, bounded_message};
use crate::control_plane::report::{decides, finalizes, job_decision, job_finalized};
use crate::digest::{digest_text, hex_text};
use crate::equality::Same;
use crate::error::{failure, fault, fault_of, CentralErrorCode, CentralResult, Fault};
use crate::identifier::{no_extensions, Identifier, UnixMillis};
use crate::model::{
    FinalizeAddResult, IndexPublishOutcome, IndexPublishRejection, IndexPublishRequest, JobRecord,
    PublicationCandidate, ValidatedMetadata,
};
use crate::protocol::{ControlError, JobState, PublishDecision};

verus! {

/// Why a frozen publication is not what the job prepared.
pub open spec fn frozen_publication_fault(
    job: JobRecord,
    candidate: PublicationCandidate,
) -> Option<Fault> {
    match job.prepared {
        None => Some(
            fault(
                CentralErrorCode::Internal,
                "publishing job lost its prepared publication identity"@,
            ),
        ),
        Some(prepared) => if !candidate.expected_index_version.same(
            job.spec.expected_index_version,
        ) || candidate.result_index_digest != prepared.result_index_digest
            || candidate.publication_digest != prepared.publication_digest {
            Some(
                fault(
                    CentralErrorCode::Internal,
                    "frozen publication identity differs from the durable prepared report"@,
                ),
            )
        } else {
            None
        },
    }
}

/// Checks that a frozen publication is what the job prepared.
pub fn validate_frozen_publication(job: &JobRecord, candidate: &PublicationCandidate) -> (result:
    CentralResult<()>)
    ensures
        fault_of(result) == frozen_publication_fault(*job, *candidate),
{
    let prepared = match &job.prepared {
        Some(prepared) => prepared,
        None => return Err(
            failure(
                CentralErrorCode::Internal,
                "publishing job lost its prepared publication identity",
            ),
        ),
    };
    if candidate.expected_index_version != job.spec.expected_index_version
        || candidate.result_index_digest != prepared.result_index_digest
        || candidate.publication_digest != prepared.publication_digest {
        return Err(
            failure(
                CentralErrorCode::Internal,
                "frozen publication identity differs from the durable prepared report",
            ),
        );
    }
    Ok(())
}

/// The job was finalized before.
pub open spec fn is_finalized(job: JobRecord) -> bool {
    &&& job.decision is Some
    &&& job.finalized is Some
    &&& job.state is Succeeded || job.state is Conflicted || job.state is Failed
}

/// Why a job cannot be finalized.
pub open spec fn finalization_fault(job: JobRecord) -> Option<Fault> {
    if is_finalized(job) {
        None
    } else if !(job.state is Prepared) && !(job.state is Publishing) {
        Some(state_fault("cannot finalize managed Add in state "@, job.state))
    } else if job.assignment is None {
        Some(fault(CentralErrorCode::Internal, "publishing job lost its assignment"@))
    } else if job.state is Publishing {
        match job.publication_candidate {
            None => Some(
                fault(
                    CentralErrorCode::Internal,
                    "publishing job lost its frozen publication candidate"@,
                ),
            ),
            Some(candidate) => frozen_publication_fault(job, candidate),
        }
    } else if job.publication_candidate is Some {
        Some(
            fault(
                CentralErrorCode::Internal,
                "prepared job already contains a frozen publication candidate"@,
            ),
        )
    } else {
        None
    }
}

/// What a finalization starts from.
pub enum FinalizeStep {
    /// The job was finalized before; its decision stands.
    Replayed(JobRecord),
    /// The publication is frozen: publish its candidate, whatever else has changed since.
    Publish(JobRecord),
    /// Validate the staged metadata and freeze the publication.
    Freeze(JobRecord),
}

/// Finds out where the finalization of a job stands.
pub fn begin_finalization(job: JobRecord) -> (result: CentralResult<FinalizeStep>)
    ensures
        fault_of(result) == finalization_fault(job),
        result matches Ok(FinalizeStep::Replayed(found)) ==> is_finalized(job) && found == job,
        result matches Ok(FinalizeStep::Publish(found)) ==> job.state is Publishing && !is_finalized(
            job,
        ) && found == job,
        result matches Ok(FinalizeStep::Freeze(found)) ==> job.state is Prepared && !is_finalized(
            job,
        ) && found == job,
{
    if job.decision.is_some() && job.finalized.is_some() && (job.state == JobState::Succeeded
        || job.state == JobState::Conflicted || job.state == JobState::Failed) {
        return Ok(FinalizeStep::Replayed(job));
    }
    if job.state != JobState::Prepared && job.state != JobState::Publishing {
        return Err(state_failure("cannot finalize managed Add in state ", job.state));
    }
    if job.assignment.is_none() {
        return Err(failure(CentralErrorCode::Internal, "publishing job lost its assignment"));
    }
    if job.state == JobState::Publishing {
        match &job.publication_candidate {
            None => return Err(
                failure(
                    CentralErrorCode::Internal,
                    "publishing job lost its frozen publication candidate",
                ),
            ),
            Some(candidate) => validate_frozen_publication(&job, candidate)?,
        }
        return Ok(FinalizeStep::Publish(job));
    }
    if job.publication_candidate.is_some() {
        return Err(
            failure(
                CentralErrorCode::Internal,
                "prepared job already contains a frozen publication candidate",
            ),
        );
    }
    Ok(FinalizeStep::Freeze(job))
}

/// Admits the recovery of a job whose publication was frozen, without asking its user again.
pub fn resume_publication(job: JobRecord) -> (result: CentralResult<JobRecord>)
    ensures
        fault_of(result) == if !(job.state is Publishing) {
            Some(state_fault("cannot resume publication in state "@, job.state))
        } else {
            finalization_fault(job)
        },
        result matches Ok(found) ==> found == job,
{
    if job.state != JobState::Publishing {
        return Err(state_failure("cannot resume publication in state ", job.state));
    }
    match begin_finalization(job)? {
        FinalizeStep::Replayed(job) => Ok(job),
        FinalizeStep::Publish(job) => Ok(job),
        FinalizeStep::Freeze(job) => Ok(job),
    }
}

/// Why a publication is not frozen.
pub open spec fn freeze_fault(job: JobRecord, now: UnixMillis) -> Option<Fault> {
    match job.assignment {
        None => Some(fault(CentralErrorCode::Internal, "publishing job lost its assignment"@)),
        Some(assignment) => if job.spec.deadline_unix_ms <= now {
            Some(
                fault(
                    CentralErrorCode::DeadlineExceeded,
                    "managed Add deadline elapsed before publication"@,
                ),
            )
        } else if assignment.lease matches Some(lease) && lease.expires_at_unix_ms <= now {
            Some(
                fault(
                    CentralErrorCode::DeadlineExceeded,
                    "managed Add assignment lease elapsed before publication"@,
                ),
            )
        } else if job.prepared is None {
            Some(
                fault(
                    CentralErrorCode::Internal,
                    "prepared job lost its publication identity"@,
                ),
            )
        } else {
            None
        },
    }
}

/// `after` is `before` with its publication frozen; its version has not moved yet.
pub open spec fn is_frozen_from(
    before: JobRecord,
    after: JobRecord,
    metadata: ValidatedMetadata,
) -> bool {
    &&& before.prepared matches Some(prepared)
    &&& after == (JobRecord {
        state: JobState::Publishing,
        publication_candidate: Some(
            PublicationCandidate {
                expected_index_version: before.spec.expected_index_version,
                result_index_digest: prepared.result_index_digest,
                publication_digest: prepared.publication_digest,
                manifests: metadata.manifests,
                mutations: metadata.mutations,
            },
        ),
        ..before
    })
}

/// Freezes the publication of a prepared job. This is the last time that the clock has a say: once
/// the frozen candidate is stored, recovery must finish a publication that may have happened.
pub fn freeze_publication(job: JobRecord, metadata: ValidatedMetadata, now: UnixMillis) -> (result:
    CentralResult<JobRecord>)
    ensures
        fault_of(result) == freeze_fault(job, now),
        result matches Ok(frozen) ==> is_frozen_from(job, frozen, metadata),
{
    let mut job = job;
    let assignment = match &job.assignment {
        Some(assignment) => assignment,
        None => return Err(
            failure(CentralErrorCode::Internal, "publishing job lost its assignment"),
        ),
    };
    if job.spec.deadline_unix_ms <= now {
        return Err(
            failure(
                CentralErrorCode::DeadlineExceeded,
                "managed Add deadline elapsed before publication",
            ),
        );
    }
    if let Some(lease) = &assignment.lease {
        if lease.expires_at_unix_ms <= now {
            return Err(
                failure(
                    CentralErrorCode::DeadlineExceeded,
                    "managed Add assignment lease elapsed before publication",
                ),
            );
        }
    }
    let prepared = match &job.prepared {
        Some(prepared) => prepared,
        None => return Err(
            failure(CentralErrorCode::Internal, "prepared job lost its publication identity"),
        ),
    };
    let candidate = PublicationCandidate {
        expected_index_version: job.spec.expected_index_version.clone(),
        result_index_digest: prepared.result_index_digest,
        publication_digest: prepared.publication_digest,
        manifests: metadata.manifests,
        mutations: metadata.mutations,
    };
    job.state = JobState::Publishing;
    job.publication_candidate = Some(candidate);
    Ok(job)
}

/// The request to publish what a job froze.
#[must_use]
pub fn publication_request(job: &JobRecord, candidate: &PublicationCandidate) -> (request:
    IndexPublishRequest)
    ensures
        request.job_key.tenant_id == job.spec.tenant_id,
        request.job_key.job_id == job.spec.job_id,
        request.index_key.tenant_id == job.spec.tenant_id,
        request.index_key.artifact_id == job.spec.artifact_id,
        request.index_key.playground_id == job.spec.playground_id,
        request.expected_index_version == candidate.expected_index_version,
        request.expected_result_digest == candidate.result_index_digest,
        request.manifests@.same(candidate.manifests@),
        request.mutations@.same(candidate.mutations@),
{
    IndexPublishRequest {
        job_key: job.key(),
        index_key: job.index_key(),
        expected_index_version: candidate.expected_index_version.clone(),
        expected_result_digest: candidate.result_index_digest,
        manifests: candidate.manifests.clone(),
        mutations: candidate.mutations.clone(),
    }
}

/// The state that a publication ends in.
pub open spec fn published_state(outcome: IndexPublishOutcome) -> JobState {
    match outcome {
        IndexPublishOutcome::Published(_) => JobState::Succeeded,
        IndexPublishOutcome::Conflict(_) => JobState::Conflicted,
        IndexPublishOutcome::Rejected(_) => JobState::Failed,
    }
}

/// The code and the message that a rejected publication is told.
pub open spec fn rejection_text(rejection: IndexPublishRejection) -> (Seq<char>, Seq<char>) {
    match rejection {
        IndexPublishRejection::ResultDigestMismatch { expected_digest, observed_digest } => (
            "INDEX_RESULT_DIGEST_MISMATCH"@,
            "published Index digest "@ + digest_text(observed_digest@)
                + " differs from prepared result "@ + digest_text(expected_digest@),
        ),
        IndexPublishRejection::InvalidMetadata { message } => (
            "METADATA_INVALID"@,
            bounded_message(message@),
        ),
        IndexPublishRejection::RevisionExhausted => (
            "INDEX_REVISION_EXHAUSTED"@,
            "Index revision reached its maximum value"@,
        ),
    }
}

/// `decision` tells the outcome of a publication.
pub open spec fn tells(decision: PublishDecision, outcome: IndexPublishOutcome) -> bool {
    match outcome {
        IndexPublishOutcome::Published(version) => {
            &&& decision matches PublishDecision::Publish { published_index_version, extensions }
            &&& published_index_version == version
            &&& extensions@.len() == 0
        },
        IndexPublishOutcome::Conflict(version) => {
            &&& decision matches PublishDecision::Conflict { current_index_version, extensions }
            &&& current_index_version == version
            &&& extensions@.len() == 0
        },
        IndexPublishOutcome::Rejected(rejection) => {
            &&& decision matches PublishDecision::Reject { error, extensions }
            &&& (error.code@, error.message@) == rejection_text(rejection)
            &&& !error.retryable
            &&& error.retry_after_ms is None
            &&& error.extensions@.len() == 0
            &&& extensions@.len() == 0
        },
    }
}

fn rejection_error(code: &str, message: String) -> (error: ControlError)
    ensures
        error.code@ == code@,
        error.message@ == message@,
        !error.retryable,
        error.retry_after_ms is None,
        error.extensions@.len() == 0,
{
    ControlError {
        code: Identifier::new(String::from_str(code)),
        message,
        retryable: false,
        retry_after_ms: None,
        extensions: no_extensions(),
    }
}

fn publish_decision(outcome: IndexPublishOutcome) -> (decision: PublishDecision)
    ensures
        tells(decision, outcome),
{
    match outcome {
        IndexPublishOutcome::Published(version) => PublishDecision::Publish {
            published_index_version: version,
            extensions: no_extensions(),
        },
        IndexPublishOutcome::Conflict(version) => PublishDecision::Conflict {
            current_index_version: version,
            extensions: no_extensions(),
        },
        IndexPublishOutcome::Rejected(rejection) => {
            let error = match rejection {
                IndexPublishRejection::ResultDigestMismatch {
                    expected_digest,
                    observed_digest,
                } => {
                    let mut message = String::from_str("published Index digest ");
                    message.append(hex_text(&observed_digest).as_str());
                    message.append(" differs from prepared result ");
                    message.append(hex_text(&expected_digest).as_str());
                    rejection_error("INDEX_RESULT_DIGEST_MISMATCH", message)
                },
                IndexPublishRejection::InvalidMetadata { message } => rejection_error(
                    CentralErrorCode::MetadataInvalid.as_str(),
                    bounded_control_error_message(message),
                ),
                IndexPublishRejection::RevisionExhausted => rejection_error(
                    "INDEX_REVISION_EXHAUSTED",
                    String::from_str("Index revision reached its maximum value"),
                ),
            };
            PublishDecision::Reject { error, extensions: no_extensions() }
        },
    }
}

/// `after` is `before` with the outcome of its publication; its version has not moved yet.
pub open spec fn is_concluded_from(
    before: JobRecord,
    after: JobRecord,
    outcome: IndexPublishOutcome,
    now: UnixMillis,
) -> bool {
    &&& after == (JobRecord {
        state: published_state(outcome),
        decision: after.decision,
        finalized: after.finalized,
        ..before
    })
    &&& before.assignment matches Some(assignment)
    &&& after.decision matches Some(decision)
    &&& decides(decision, assignment, published_state(outcome))
    &&& tells(decision.decision, outcome)
    &&& after.finalized matches Some(finalized)
    &&& finalizes(finalized, assignment, published_state(outcome), now)
}

/// Writes the outcome of a publication into its job.
pub fn conclude_publication(job: JobRecord, outcome: IndexPublishOutcome, now: UnixMillis) -> (
    result: CentralResult<JobRecord>)
    ensures
        fault_of(result) == if job.assignment is None {
            Some(fault(CentralErrorCode::Internal, "publishing job lost its assignment"@))
        } else {
            None
        },
        result matches Ok(concluded) ==> is_concluded_from(job, concluded, outcome, now),
{
    let mut job = job;
    let assignment = match &job.assignment {
        Some(assignment) => assignment,
        None => return Err(
            failure(CentralErrorCode::Internal, "publishing job lost its assignment"),
        ),
    };
    let state = match &outcome {
        IndexPublishOutcome::Published(_) => JobState::Succeeded,
        IndexPublishOutcome::Conflict(_) => JobState::Conflicted,
        IndexPublishOutcome::Rejected(_) => JobState::Failed,
    };
    let decision = job_decision(assignment, publish_decision(outcome), state);
    let finalized = job_finalized(assignment, state, now);
    job.state = state;
    job.decision = Some(decision);
    job.finalized = Some(finalized);
    Ok(job)
}

/// The answer to a finalization, of a job that has its decision.
pub fn finalization_result(job: JobRecord, replayed: bool) -> (result: Option<FinalizeAddResult>)
    ensures
        result is Some <==> job.decision is Some && job.finalized is Some,
        result matches Some(answer) ==> {
            &&& answer.job == job
            &&& job.decision == Some(answer.decision)
            &&& job.finalized == Some(answer.finalized)
            &&& answer.replayed == replayed
        },
{
    let decision = match &job.decision {
        Some(decision) => decision.clone(),
        None => return None,
    };
    let finalized = match &job.finalized {
        Some(finalized) => finalized.clone(),
        None => return None,
    };
    Some(FinalizeAddResult { job, decision, finalized, replayed })
}

} // verus!
