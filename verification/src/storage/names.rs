//! Names under which enumerations are stored.
use vstd::prelude::*;

use crate::agent_registry::records::{
    AgentEnrollmentAuditKind, StorageEnrollmentRegistrationKind, StorageEnrollmentState,
};
use crate::catalog::records::{
    PlaygroundState, StorageAccessMode, StorageBackendType, StorageVolumeState,
};
use crate::error::{corruption, corruption_fault, fault_of, CentralResult};
use crate::model::AuditKind;
use crate::protocol::JobState;
use crate::text::text_equals;

verus! {

/// A storage backend family, as it is stored.
pub open spec fn backend_text(value: StorageBackendType) -> Seq<char> {
    match value {
        StorageBackendType::Pvc => "pvc"@,
        StorageBackendType::Nfs => "nfs"@,
    }
}

/// Names a storage backend family for storage.
pub fn backend_name(value: StorageBackendType) -> (name: &'static str)
    ensures
        name@ == backend_text(value),
{
    match value {
        StorageBackendType::Pvc => "pvc",
        StorageBackendType::Nfs => "nfs",
    }
}

/// Different values are stored under different names.
pub proof fn lemma_backend_names_differ(left: StorageBackendType, right: StorageBackendType)
    ensures
        backend_text(left) == backend_text(right) ==> left == right,
{
    reveal_strlit("pvc");
    reveal_strlit("nfs");
    assert("pvc"@.len() == 3);
    assert("nfs"@.len() == 3);
    assert("pvc"@[0] != "nfs"@[0]);
}

/// The value stored under a name.
pub open spec fn backend_named(text: Seq<char>) -> Option<StorageBackendType> {
    if text == "pvc"@ {
        Some(StorageBackendType::Pvc)
    } else if text == "nfs"@ {
        Some(StorageBackendType::Nfs)
    } else {
        None
    }
}

/// Reads a storage backend family.
pub fn parse_backend(value: &str) -> (result: CentralResult<StorageBackendType>)
    ensures
        fault_of(result) == (if backend_named(value@) is Some {
            None
        } else {
            Some(corruption_fault("stored StorageVolume backend type is invalid"@))
        }),
        result matches Ok(parsed) ==> backend_named(value@) == Some(parsed),
{
    if text_equals(value, "pvc") {
        Ok(StorageBackendType::Pvc)
    } else if text_equals(value, "nfs") {
        Ok(StorageBackendType::Nfs)
    } else {
        Err(corruption("stored StorageVolume backend type is invalid"))
    }
}

/// What was stored under its name is read back, and a name that is read is the name of its value.
pub proof fn lemma_backend_reads_back(value: StorageBackendType, text: Seq<char>)
    ensures
        backend_named(backend_text(value)) == Some(value),
        backend_named(text) == Some(value) ==> text == backend_text(value),
{
    lemma_backend_names_differ(value, StorageBackendType::Pvc);
    lemma_backend_names_differ(value, StorageBackendType::Nfs);
}

/// An access mode, as it is stored.
pub open spec fn access_mode_text(value: StorageAccessMode) -> Seq<char> {
    match value {
        StorageAccessMode::ReadWriteOnce => "read_write_once"@,
        StorageAccessMode::ReadWriteMany => "read_write_many"@,
        StorageAccessMode::ReadOnlyMany => "read_only_many"@,
    }
}

/// Names an access mode for storage.
pub fn access_mode_name(value: StorageAccessMode) -> (name: &'static str)
    ensures
        name@ == access_mode_text(value),
{
    match value {
        StorageAccessMode::ReadWriteOnce => "read_write_once",
        StorageAccessMode::ReadWriteMany => "read_write_many",
        StorageAccessMode::ReadOnlyMany => "read_only_many",
    }
}

/// Different values are stored under different names.
pub proof fn lemma_access_mode_names_differ(left: StorageAccessMode, right: StorageAccessMode)
    ensures
        access_mode_text(left) == access_mode_text(right) ==> left == right,
{
    reveal_strlit("read_write_once");
    reveal_strlit("read_write_many");
    reveal_strlit("read_only_many");
    assert("read_write_once"@.len() == 15);
    assert("read_write_many"@.len() == 15);
    assert("read_only_many"@.len() == 14);
    assert("read_write_once"@[11] != "read_write_many"@[11]);
}

/// The value stored under a name.
pub open spec fn access_mode_named(text: Seq<char>) -> Option<StorageAccessMode> {
    if text == "read_write_once"@ {
        Some(StorageAccessMode::ReadWriteOnce)
    } else if text == "read_write_many"@ {
        Some(StorageAccessMode::ReadWriteMany)
    } else if text == "read_only_many"@ {
        Some(StorageAccessMode::ReadOnlyMany)
    } else {
        None
    }
}

/// Reads an access mode.
pub fn parse_access_mode(value: &str) -> (result: CentralResult<StorageAccessMode>)
    ensures
        fault_of(result) == (if access_mode_named(value@) is Some {
            None
        } else {
            Some(corruption_fault("stored StorageVolume access mode is invalid"@))
        }),
        result matches Ok(parsed) ==> access_mode_named(value@) == Some(parsed),
{
    if text_equals(value, "read_write_once") {
        Ok(StorageAccessMode::ReadWriteOnce)
    } else if text_equals(value, "read_write_many") {
        Ok(StorageAccessMode::ReadWriteMany)
    } else if text_equals(value, "read_only_many") {
        Ok(StorageAccessMode::ReadOnlyMany)
    } else {
        Err(corruption("stored StorageVolume access mode is invalid"))
    }
}

/// What was stored under its name is read back, and a name that is read is the name of its value.
pub proof fn lemma_access_mode_reads_back(value: StorageAccessMode, text: Seq<char>)
    ensures
        access_mode_named(access_mode_text(value)) == Some(value),
        access_mode_named(text) == Some(value) ==> text == access_mode_text(value),
{
    lemma_access_mode_names_differ(value, StorageAccessMode::ReadWriteOnce);
    lemma_access_mode_names_differ(value, StorageAccessMode::ReadWriteMany);
    lemma_access_mode_names_differ(value, StorageAccessMode::ReadOnlyMany);
}

/// A Volume state, as it is stored.
pub open spec fn volume_state_text(value: StorageVolumeState) -> Seq<char> {
    match value {
        StorageVolumeState::Ready => "ready"@,
        StorageVolumeState::Degraded => "degraded"@,
        StorageVolumeState::Unavailable => "unavailable"@,
    }
}

/// Names a Volume state for storage.
pub fn volume_state_name(value: StorageVolumeState) -> (name: &'static str)
    ensures
        name@ == volume_state_text(value),
{
    match value {
        StorageVolumeState::Ready => "ready",
        StorageVolumeState::Degraded => "degraded",
        StorageVolumeState::Unavailable => "unavailable",
    }
}

/// Different values are stored under different names.
pub proof fn lemma_volume_state_names_differ(left: StorageVolumeState, right: StorageVolumeState)
    ensures
        volume_state_text(left) == volume_state_text(right) ==> left == right,
{
    reveal_strlit("ready");
    reveal_strlit("degraded");
    reveal_strlit("unavailable");
    assert("ready"@.len() == 5);
    assert("degraded"@.len() == 8);
    assert("unavailable"@.len() == 11);
}

/// The value stored under a name.
pub open spec fn volume_state_named(text: Seq<char>) -> Option<StorageVolumeState> {
    if text == "ready"@ {
        Some(StorageVolumeState::Ready)
    } else if text == "degraded"@ {
        Some(StorageVolumeState::Degraded)
    } else if text == "unavailable"@ {
        Some(StorageVolumeState::Unavailable)
    } else {
        None
    }
}

/// Reads a Volume state.
pub fn parse_volume_state(value: &str) -> (result: CentralResult<StorageVolumeState>)
    ensures
        fault_of(result) == (if volume_state_named(value@) is Some {
            None
        } else {
            Some(corruption_fault("stored StorageVolume state is invalid"@))
        }),
        result matches Ok(parsed) ==> volume_state_named(value@) == Some(parsed),
{
    if text_equals(value, "ready") {
        Ok(StorageVolumeState::Ready)
    } else if text_equals(value, "degraded") {
        Ok(StorageVolumeState::Degraded)
    } else if text_equals(value, "unavailable") {
        Ok(StorageVolumeState::Unavailable)
    } else {
        Err(corruption("stored StorageVolume state is invalid"))
    }
}

/// What was stored under its name is read back, and a name that is read is the name of its value.
pub proof fn lemma_volume_state_reads_back(value: StorageVolumeState, text: Seq<char>)
    ensures
        volume_state_named(volume_state_text(value)) == Some(value),
        volume_state_named(text) == Some(value) ==> text == volume_state_text(value),
{
    lemma_volume_state_names_differ(value, StorageVolumeState::Ready);
    lemma_volume_state_names_differ(value, StorageVolumeState::Degraded);
    lemma_volume_state_names_differ(value, StorageVolumeState::Unavailable);
}

/// A Playground state, as it is stored.
pub open spec fn playground_state_text(value: PlaygroundState) -> Seq<char> {
    match value {
        PlaygroundState::Creating => "creating"@,
        PlaygroundState::Ready => "ready"@,
        PlaygroundState::Abnormal => "abnormal"@,
    }
}

/// Names a Playground state for storage.
pub fn playground_state_name(value: PlaygroundState) -> (name: &'static str)
    ensures
        name@ == playground_state_text(value),
{
    match value {
        PlaygroundState::Creating => "creating",
        PlaygroundState::Ready => "ready",
        PlaygroundState::Abnormal => "abnormal",
    }
}

/// Different values are stored under different names.
pub proof fn lemma_playground_state_names_differ(left: PlaygroundState, right: PlaygroundState)
    ensures
        playground_state_text(left) == playground_state_text(right) ==> left == right,
{
    reveal_strlit("creating");
    reveal_strlit("ready");
    reveal_strlit("abnormal");
    assert("creating"@.len() == 8);
    assert("ready"@.len() == 5);
    assert("abnormal"@.len() == 8);
    assert("creating"@[0] != "abnormal"@[0]);
}

/// The value stored under a name.
pub open spec fn playground_state_named(text: Seq<char>) -> Option<PlaygroundState> {
    if text == "creating"@ {
        Some(PlaygroundState::Creating)
    } else if text == "ready"@ {
        Some(PlaygroundState::Ready)
    } else if text == "abnormal"@ {
        Some(PlaygroundState::Abnormal)
    } else {
        None
    }
}

/// Reads a Playground state.
pub fn parse_playground_state(value: &str) -> (result: CentralResult<PlaygroundState>)
    ensures
        fault_of(result) == (if playground_state_named(value@) is Some {
            None
        } else {
            Some(corruption_fault("stored Playground state is invalid"@))
        }),
        result matches Ok(parsed) ==> playground_state_named(value@) == Some(parsed),
{
    if text_equals(value, "creating") {
        Ok(PlaygroundState::Creating)
    } else if text_equals(value, "ready") {
        Ok(PlaygroundState::Ready)
    } else if text_equals(value, "abnormal") {
        Ok(PlaygroundState::Abnormal)
    } else {
        Err(corruption("stored Playground state is invalid"))
    }
}

/// What was stored under its name is read back, and a name that is read is the name of its value.
pub proof fn lemma_playground_state_reads_back(value: PlaygroundState, text: Seq<char>)
    ensures
        playground_state_named(playground_state_text(value)) == Some(value),
        playground_state_named(text) == Some(value) ==> text == playground_state_text(value),
{
    lemma_playground_state_names_differ(value, PlaygroundState::Creating);
    lemma_playground_state_names_differ(value, PlaygroundState::Ready);
    lemma_playground_state_names_differ(value, PlaygroundState::Abnormal);
}

/// A job state, as it is stored.
pub open spec fn job_state_text(value: JobState) -> Seq<char> {
    match value {
        JobState::Queued => "queued"@,
        JobState::Assigned => "assigned"@,
        JobState::Accepted => "accepted"@,
        JobState::Running => "running"@,
        JobState::Prepared => "prepared"@,
        JobState::Publishing => "publishing"@,
        JobState::CancelRequested => "cancel_requested"@,
        JobState::Succeeded => "succeeded"@,
        JobState::Conflicted => "conflicted"@,
        JobState::Rejected => "rejected"@,
        JobState::Failed => "failed"@,
        JobState::Cancelled => "cancelled"@,
        JobState::TimedOut => "timed_out"@,
        JobState::RecoveryRequired => "recovery_required"@,
        JobState::Unknown => "unknown"@,
    }
}

/// Names a job state for storage.
pub fn job_state_name(value: JobState) -> (name: &'static str)
    ensures
        name@ == job_state_text(value),
{
    match value {
        JobState::Queued => "queued",
        JobState::Assigned => "assigned",
        JobState::Accepted => "accepted",
        JobState::Running => "running",
        JobState::Prepared => "prepared",
        JobState::Publishing => "publishing",
        JobState::CancelRequested => "cancel_requested",
        JobState::Succeeded => "succeeded",
        JobState::Conflicted => "conflicted",
        JobState::Rejected => "rejected",
        JobState::Failed => "failed",
        JobState::Cancelled => "cancelled",
        JobState::TimedOut => "timed_out",
        JobState::RecoveryRequired => "recovery_required",
        JobState::Unknown => "unknown",
    }
}

/// Different values are stored under different names.
pub proof fn lemma_job_state_names_differ(left: JobState, right: JobState)
    ensures
        job_state_text(left) == job_state_text(right) ==> left == right,
{
    reveal_strlit("queued");
    reveal_strlit("assigned");
    reveal_strlit("accepted");
    reveal_strlit("running");
    reveal_strlit("prepared");
    reveal_strlit("publishing");
    reveal_strlit("cancel_requested");
    reveal_strlit("succeeded");
    reveal_strlit("conflicted");
    reveal_strlit("rejected");
    reveal_strlit("failed");
    reveal_strlit("cancelled");
    reveal_strlit("timed_out");
    reveal_strlit("recovery_required");
    reveal_strlit("unknown");
    assert("queued"@.len() == 6);
    assert("assigned"@.len() == 8);
    assert("accepted"@.len() == 8);
    assert("running"@.len() == 7);
    assert("prepared"@.len() == 8);
    assert("publishing"@.len() == 10);
    assert("cancel_requested"@.len() == 16);
    assert("succeeded"@.len() == 9);
    assert("conflicted"@.len() == 10);
    assert("rejected"@.len() == 8);
    assert("failed"@.len() == 6);
    assert("cancelled"@.len() == 9);
    assert("timed_out"@.len() == 9);
    assert("recovery_required"@.len() == 17);
    assert("unknown"@.len() == 7);
    assert("queued"@[0] != "failed"@[0]);
    assert("assigned"@[1] != "accepted"@[1]);
    assert("assigned"@[0] != "prepared"@[0]);
    assert("assigned"@[0] != "rejected"@[0]);
    assert("accepted"@[0] != "prepared"@[0]);
    assert("accepted"@[0] != "rejected"@[0]);
    assert("running"@[0] != "unknown"@[0]);
    assert("prepared"@[0] != "rejected"@[0]);
    assert("publishing"@[0] != "conflicted"@[0]);
    assert("succeeded"@[0] != "cancelled"@[0]);
    assert("succeeded"@[0] != "timed_out"@[0]);
    assert("cancelled"@[0] != "timed_out"@[0]);
}

/// An audit kind, as it is stored.
pub open spec fn audit_kind_text(value: AuditKind) -> Seq<char> {
    match value {
        AuditKind::JobCreated => "job_created"@,
        AuditKind::AssignmentQueued => "assignment_queued"@,
        AuditKind::ReportReceived => "report_received"@,
        AuditKind::MetadataStaged => "metadata_staged"@,
        AuditKind::AddExpired => "add_expired"@,
        AuditKind::AddFinalized => "add_finalized"@,
    }
}

/// Names an audit kind for storage.
pub fn audit_kind_name(value: AuditKind) -> (name: &'static str)
    ensures
        name@ == audit_kind_text(value),
{
    match value {
        AuditKind::JobCreated => "job_created",
        AuditKind::AssignmentQueued => "assignment_queued",
        AuditKind::ReportReceived => "report_received",
        AuditKind::MetadataStaged => "metadata_staged",
        AuditKind::AddExpired => "add_expired",
        AuditKind::AddFinalized => "add_finalized",
    }
}

/// Different values are stored under different names.
pub proof fn lemma_audit_kind_names_differ(left: AuditKind, right: AuditKind)
    ensures
        audit_kind_text(left) == audit_kind_text(right) ==> left == right,
{
    reveal_strlit("job_created");
    reveal_strlit("assignment_queued");
    reveal_strlit("report_received");
    reveal_strlit("metadata_staged");
    reveal_strlit("add_expired");
    reveal_strlit("add_finalized");
    assert("job_created"@.len() == 11);
    assert("assignment_queued"@.len() == 17);
    assert("report_received"@.len() == 15);
    assert("metadata_staged"@.len() == 15);
    assert("add_expired"@.len() == 11);
    assert("add_finalized"@.len() == 13);
    assert("job_created"@[0] != "add_expired"@[0]);
    assert("report_received"@[0] != "metadata_staged"@[0]);
}

/// An enrollment audit kind, as it is stored.
pub open spec fn enrollment_audit_kind_text(value: AgentEnrollmentAuditKind) -> Seq<char> {
    match value {
        AgentEnrollmentAuditKind::Approved => "approved"@,
        AgentEnrollmentAuditKind::Rejected => "rejected"@,
        AgentEnrollmentAuditKind::ReplacementApproved => "replacement_approved"@,
    }
}

/// Names an enrollment audit kind for storage.
pub fn enrollment_audit_kind_name(value: AgentEnrollmentAuditKind) -> (name: &'static str)
    ensures
        name@ == enrollment_audit_kind_text(value),
{
    match value {
        AgentEnrollmentAuditKind::Approved => "approved",
        AgentEnrollmentAuditKind::Rejected => "rejected",
        AgentEnrollmentAuditKind::ReplacementApproved => "replacement_approved",
    }
}

/// Different values are stored under different names.
pub proof fn lemma_enrollment_audit_kind_names_differ(left: AgentEnrollmentAuditKind, right: AgentEnrollmentAuditKind)
    ensures
        enrollment_audit_kind_text(left) == enrollment_audit_kind_text(right) ==> left == right,
{
    reveal_strlit("approved");
    reveal_strlit("rejected");
    reveal_strlit("replacement_approved");
    assert("approved"@.len() == 8);
    assert("rejected"@.len() == 8);
    assert("replacement_approved"@.len() == 20);
    assert("approved"@[0] != "rejected"@[0]);
}

/// A public enrollment state, as it is stored.
pub open spec fn storage_enrollment_state_text(value: StorageEnrollmentState) -> Seq<char> {
    match value {
        StorageEnrollmentState::PendingApproval => "pending_approval"@,
        StorageEnrollmentState::Approved => "approved"@,
        StorageEnrollmentState::Enrolled => "enrolled"@,
        StorageEnrollmentState::Rejected => "rejected"@,
        StorageEnrollmentState::Expired => "expired"@,
    }
}

/// Names a public enrollment state for storage.
pub fn storage_enrollment_state_name(value: StorageEnrollmentState) -> (name: &'static str)
    ensures
        name@ == storage_enrollment_state_text(value),
{
    match value {
        StorageEnrollmentState::PendingApproval => "pending_approval",
        StorageEnrollmentState::Approved => "approved",
        StorageEnrollmentState::Enrolled => "enrolled",
        StorageEnrollmentState::Rejected => "rejected",
        StorageEnrollmentState::Expired => "expired",
    }
}

/// Different values are stored under different names.
pub proof fn lemma_storage_enrollment_state_names_differ(left: StorageEnrollmentState, right: StorageEnrollmentState)
    ensures
        storage_enrollment_state_text(left) == storage_enrollment_state_text(right) ==> left == right,
{
    reveal_strlit("pending_approval");
    reveal_strlit("approved");
    reveal_strlit("enrolled");
    reveal_strlit("rejected");
    reveal_strlit("expired");
    assert("pending_approval"@.len() == 16);
    assert("approved"@.len() == 8);
    assert("enrolled"@.len() == 8);
    assert("rejected"@.len() == 8);
    assert("expired"@.len() == 7);
    assert("approved"@[0] != "enrolled"@[0]);
    assert("approved"@[0] != "rejected"@[0]);
    assert("enrolled"@[0] != "rejected"@[0]);
}

/// A registration kind, as it is stored.
pub open spec fn registration_kind_text(value: StorageEnrollmentRegistrationKind) -> Seq<char> {
    match value {
        StorageEnrollmentRegistrationKind::Initial => "initial"@,
        StorageEnrollmentRegistrationKind::Replacement => "replacement"@,
    }
}

/// Names a registration kind for storage.
pub fn registration_kind_name(value: StorageEnrollmentRegistrationKind) -> (name: &'static str)
    ensures
        name@ == registration_kind_text(value),
{
    match value {
        StorageEnrollmentRegistrationKind::Initial => "initial",
        StorageEnrollmentRegistrationKind::Replacement => "replacement",
    }
}

/// Different values are stored under different names.
pub proof fn lemma_registration_kind_names_differ(left: StorageEnrollmentRegistrationKind, right: StorageEnrollmentRegistrationKind)
    ensures
        registration_kind_text(left) == registration_kind_text(right) ==> left == right,
{
    reveal_strlit("initial");
    reveal_strlit("replacement");
    assert("initial"@.len() == 7);
    assert("replacement"@.len() == 11);
}

} // verus!
