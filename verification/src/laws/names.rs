//! What the columns of a durable store say: each value has a name of its own, and a name that can be
//! read gives back the value that it was written for.
use vstd::prelude::*;

use crate::agent_registry::records::{
    AgentEnrollmentAuditKind, StorageEnrollmentRegistrationKind, StorageEnrollmentState,
};
use crate::catalog::records::{
    PlaygroundState, StorageAccessMode, StorageBackendType, StorageVolumeState,
};
use crate::error::{CentralErrorCode, CentralResult};
use crate::laws::jobs::fails_with;
use crate::model::AuditKind;
use crate::protocol::JobState;
use crate::storage::names::{
    access_mode_name, audit_kind_name, backend_name, enrollment_audit_kind_name, job_state_name,
    lemma_access_mode_names_differ, lemma_audit_kind_names_differ, lemma_backend_names_differ,
    lemma_enrollment_audit_kind_names_differ, lemma_job_state_names_differ,
    lemma_playground_state_names_differ, lemma_registration_kind_names_differ,
    lemma_storage_enrollment_state_names_differ, lemma_volume_state_names_differ, parse_access_mode,
    parse_backend, parse_playground_state, parse_volume_state, playground_state_name,
    registration_kind_name, storage_enrollment_state_name, volume_state_name,
};

verus! {

/// A backend is stored under the name of its variant, and no two share a name.
pub proof fn lemma_backend_is_named(value: StorageBackendType, name: &'static str)
    requires
        call_ensures(backend_name, (value,), name),
    ensures
        name@ == "pvc"@ <==> value is Pvc,
        name@ == "nfs"@ <==> value is Nfs,
{
    lemma_backend_names_differ(value, StorageBackendType::Pvc);
    lemma_backend_names_differ(value, StorageBackendType::Nfs);
}

/// What is stored of a backend reads back as what was written, and a text that was not
/// written for any is found to be corrupt.
pub proof fn lemma_backend_reads_back(
    value: StorageBackendType,
    name: &'static str,
    text: &str,
    result: CentralResult<StorageBackendType>,
)
    requires
        call_ensures(backend_name, (value,), name),
        call_ensures(parse_backend, (text,), result),
    ensures
        text@ == name@ <==> result == CentralResult::<StorageBackendType>::Ok(value),
        result is Err ==> fails_with(result, CentralErrorCode::StorageFailure),
{
    lemma_backend_names_differ(value, StorageBackendType::Pvc);
    lemma_backend_names_differ(value, StorageBackendType::Nfs);
}

/// An access mode is stored under the name of its variant, and no two share a name.
pub proof fn lemma_access_mode_is_named(value: StorageAccessMode, name: &'static str)
    requires
        call_ensures(access_mode_name, (value,), name),
    ensures
        name@ == "read_write_once"@ <==> value is ReadWriteOnce,
        name@ == "read_write_many"@ <==> value is ReadWriteMany,
        name@ == "read_only_many"@ <==> value is ReadOnlyMany,
{
    lemma_access_mode_names_differ(value, StorageAccessMode::ReadWriteOnce);
    lemma_access_mode_names_differ(value, StorageAccessMode::ReadWriteMany);
    lemma_access_mode_names_differ(value, StorageAccessMode::ReadOnlyMany);
}

/// What is stored of an access mode reads back as what was written, and a text that was not
/// written for any is found to be corrupt.
pub proof fn lemma_access_mode_reads_back(
    value: StorageAccessMode,
    name: &'static str,
    text: &str,
    result: CentralResult<StorageAccessMode>,
)
    requires
        call_ensures(access_mode_name, (value,), name),
        call_ensures(parse_access_mode, (text,), result),
    ensures
        text@ == name@ <==> result == CentralResult::<StorageAccessMode>::Ok(value),
        result is Err ==> fails_with(result, CentralErrorCode::StorageFailure),
{
    lemma_access_mode_names_differ(value, StorageAccessMode::ReadWriteOnce);
    lemma_access_mode_names_differ(value, StorageAccessMode::ReadWriteMany);
    lemma_access_mode_names_differ(value, StorageAccessMode::ReadOnlyMany);
}

/// A volume state is stored under the name of its variant, and no two share a name.
pub proof fn lemma_volume_state_is_named(value: StorageVolumeState, name: &'static str)
    requires
        call_ensures(volume_state_name, (value,), name),
    ensures
        name@ == "ready"@ <==> value is Ready,
        name@ == "degraded"@ <==> value is Degraded,
        name@ == "unavailable"@ <==> value is Unavailable,
{
    lemma_volume_state_names_differ(value, StorageVolumeState::Ready);
    lemma_volume_state_names_differ(value, StorageVolumeState::Degraded);
    lemma_volume_state_names_differ(value, StorageVolumeState::Unavailable);
}

/// What is stored of a volume state reads back as what was written, and a text that was not
/// written for any is found to be corrupt.
pub proof fn lemma_volume_state_reads_back(
    value: StorageVolumeState,
    name: &'static str,
    text: &str,
    result: CentralResult<StorageVolumeState>,
)
    requires
        call_ensures(volume_state_name, (value,), name),
        call_ensures(parse_volume_state, (text,), result),
    ensures
        text@ == name@ <==> result == CentralResult::<StorageVolumeState>::Ok(value),
        result is Err ==> fails_with(result, CentralErrorCode::StorageFailure),
{
    lemma_volume_state_names_differ(value, StorageVolumeState::Ready);
    lemma_volume_state_names_differ(value, StorageVolumeState::Degraded);
    lemma_volume_state_names_differ(value, StorageVolumeState::Unavailable);
}

/// A playground state is stored under the name of its variant, and no two share a name.
pub proof fn lemma_playground_state_is_named(value: PlaygroundState, name: &'static str)
    requires
        call_ensures(playground_state_name, (value,), name),
    ensures
        name@ == "creating"@ <==> value is Creating,
        name@ == "ready"@ <==> value is Ready,
        name@ == "abnormal"@ <==> value is Abnormal,
{
    lemma_playground_state_names_differ(value, PlaygroundState::Creating);
    lemma_playground_state_names_differ(value, PlaygroundState::Ready);
    lemma_playground_state_names_differ(value, PlaygroundState::Abnormal);
}

/// What is stored of a playground state reads back as what was written, and a text that was not
/// written for any is found to be corrupt.
pub proof fn lemma_playground_state_reads_back(
    value: PlaygroundState,
    name: &'static str,
    text: &str,
    result: CentralResult<PlaygroundState>,
)
    requires
        call_ensures(playground_state_name, (value,), name),
        call_ensures(parse_playground_state, (text,), result),
    ensures
        text@ == name@ <==> result == CentralResult::<PlaygroundState>::Ok(value),
        result is Err ==> fails_with(result, CentralErrorCode::StorageFailure),
{
    lemma_playground_state_names_differ(value, PlaygroundState::Creating);
    lemma_playground_state_names_differ(value, PlaygroundState::Ready);
    lemma_playground_state_names_differ(value, PlaygroundState::Abnormal);
}

/// A job state is stored under the name of its variant, and no two share a name.
pub proof fn lemma_job_state_is_named(value: JobState, name: &'static str)
    requires
        call_ensures(job_state_name, (value,), name),
    ensures
        name@ == "queued"@ <==> value is Queued,
        name@ == "assigned"@ <==> value is Assigned,
        name@ == "accepted"@ <==> value is Accepted,
        name@ == "running"@ <==> value is Running,
        name@ == "prepared"@ <==> value is Prepared,
        name@ == "publishing"@ <==> value is Publishing,
        name@ == "cancel_requested"@ <==> value is CancelRequested,
        name@ == "succeeded"@ <==> value is Succeeded,
        name@ == "conflicted"@ <==> value is Conflicted,
        name@ == "rejected"@ <==> value is Rejected,
        name@ == "failed"@ <==> value is Failed,
        name@ == "cancelled"@ <==> value is Cancelled,
        name@ == "timed_out"@ <==> value is TimedOut,
        name@ == "recovery_required"@ <==> value is RecoveryRequired,
        name@ == "unknown"@ <==> value is Unknown,
{
    lemma_job_state_names_differ(value, JobState::Queued);
    lemma_job_state_names_differ(value, JobState::Assigned);
    lemma_job_state_names_differ(value, JobState::Accepted);
    lemma_job_state_names_differ(value, JobState::Running);
    lemma_job_state_names_differ(value, JobState::Prepared);
    lemma_job_state_names_differ(value, JobState::Publishing);
    lemma_job_state_names_differ(value, JobState::CancelRequested);
    lemma_job_state_names_differ(value, JobState::Succeeded);
    lemma_job_state_names_differ(value, JobState::Conflicted);
    lemma_job_state_names_differ(value, JobState::Rejected);
    lemma_job_state_names_differ(value, JobState::Failed);
    lemma_job_state_names_differ(value, JobState::Cancelled);
    lemma_job_state_names_differ(value, JobState::TimedOut);
    lemma_job_state_names_differ(value, JobState::RecoveryRequired);
    lemma_job_state_names_differ(value, JobState::Unknown);
}

/// An audit kind is stored under the name of its variant, and no two share a name.
pub proof fn lemma_audit_kind_is_named(value: AuditKind, name: &'static str)
    requires
        call_ensures(audit_kind_name, (value,), name),
    ensures
        name@ == "job_created"@ <==> value is JobCreated,
        name@ == "assignment_queued"@ <==> value is AssignmentQueued,
        name@ == "report_received"@ <==> value is ReportReceived,
        name@ == "metadata_staged"@ <==> value is MetadataStaged,
        name@ == "add_expired"@ <==> value is AddExpired,
        name@ == "add_finalized"@ <==> value is AddFinalized,
{
    lemma_audit_kind_names_differ(value, AuditKind::JobCreated);
    lemma_audit_kind_names_differ(value, AuditKind::AssignmentQueued);
    lemma_audit_kind_names_differ(value, AuditKind::ReportReceived);
    lemma_audit_kind_names_differ(value, AuditKind::MetadataStaged);
    lemma_audit_kind_names_differ(value, AuditKind::AddExpired);
    lemma_audit_kind_names_differ(value, AuditKind::AddFinalized);
}

/// An enrollment audit kind is stored under the name of its variant, and no two share a name.
pub proof fn lemma_enrollment_audit_kind_is_named(value: AgentEnrollmentAuditKind, name: &'static str)
    requires
        call_ensures(enrollment_audit_kind_name, (value,), name),
    ensures
        name@ == "approved"@ <==> value is Approved,
        name@ == "rejected"@ <==> value is Rejected,
        name@ == "replacement_approved"@ <==> value is ReplacementApproved,
{
    lemma_enrollment_audit_kind_names_differ(value, AgentEnrollmentAuditKind::Approved);
    lemma_enrollment_audit_kind_names_differ(value, AgentEnrollmentAuditKind::Rejected);
    lemma_enrollment_audit_kind_names_differ(value, AgentEnrollmentAuditKind::ReplacementApproved);
}

/// A storage enrollment state is stored under the name of its variant, and no two share a name.
pub proof fn lemma_storage_enrollment_state_is_named(value: StorageEnrollmentState, name: &'static str)
    requires
        call_ensures(storage_enrollment_state_name, (value,), name),
    ensures
        name@ == "pending_approval"@ <==> value is PendingApproval,
        name@ == "approved"@ <==> value is Approved,
        name@ == "enrolled"@ <==> value is Enrolled,
        name@ == "rejected"@ <==> value is Rejected,
        name@ == "expired"@ <==> value is Expired,
{
    lemma_storage_enrollment_state_names_differ(value, StorageEnrollmentState::PendingApproval);
    lemma_storage_enrollment_state_names_differ(value, StorageEnrollmentState::Approved);
    lemma_storage_enrollment_state_names_differ(value, StorageEnrollmentState::Enrolled);
    lemma_storage_enrollment_state_names_differ(value, StorageEnrollmentState::Rejected);
    lemma_storage_enrollment_state_names_differ(value, StorageEnrollmentState::Expired);
}

/// A registration kind is stored under the name of its variant, and no two share a name.
pub proof fn lemma_registration_kind_is_named(value: StorageEnrollmentRegistrationKind, name: &'static str)
    requires
        call_ensures(registration_kind_name, (value,), name),
    ensures
        name@ == "initial"@ <==> value is Initial,
        name@ == "replacement"@ <==> value is Replacement,
{
    lemma_registration_kind_names_differ(value, StorageEnrollmentRegistrationKind::Initial);
    lemma_registration_kind_names_differ(value, StorageEnrollmentRegistrationKind::Replacement);
}

} // verus!
