//! Control-plane failures: a stable code, an operator-facing message and a retry hint.
use vstd::prelude::*;

use crate::text::text_equals;

verus! {

/// Stable machine-readable central control-plane error class.
#[derive(Debug, Clone, Copy, PartialEq, Eq, Hash, Structural)]
pub enum CentralErrorCode {
    Unauthorized,
    EnrollmentNotFound,
    EnrollmentIdReused,
    EnrollmentExpired,
    EnrollmentDecisionConflict,
    EnrollmentProbeFailed,
    LegacyEnrollmentRequiresReissue,
    BootstrapDenied,
    ApprovalRequired,
    AgentIdentityMismatch,
    AgentSessionActive,
    VolumeOwnerConflict,
    ArtifactNotFound,
    ArtifactHeadMismatch,
    StorageVolumeNotFound,
    StorageVolumeNotReady,
    StorageVolumeRegionMismatch,
    GatewayPoolNotFound,
    GatewayReplicaNotFound,
    GatewayRouteUnavailable,
    GatewayIdentityConflict,
    JobNotFound,
    JobAlreadyExists,
    JobIdReused,
    InvalidState,
    AssignmentMismatch,
    GenerationMismatch,
    DeadlineExceeded,
    ProtocolInvalid,
    BatchUndeclared,
    BatchIncomplete,
    BatchTampered,
    ObjectNotDurable,
    MetadataInvalid,
    ConcurrentUpdate,
    StorageFailure,
    Internal,
}

/// The stable text of each error class.
pub open spec fn stable_text(code: CentralErrorCode) -> Seq<char> {
    match code {
        CentralErrorCode::Unauthorized => "AUTHORIZATION_DENIED"@,
        CentralErrorCode::EnrollmentNotFound => "AGENT_ENROLLMENT_NOT_FOUND"@,
        CentralErrorCode::EnrollmentIdReused => "AGENT_ENROLLMENT_ID_REUSED"@,
        CentralErrorCode::EnrollmentExpired => "AGENT_ENROLLMENT_EXPIRED"@,
        CentralErrorCode::EnrollmentDecisionConflict => "AGENT_ENROLLMENT_DECISION_CONFLICT"@,
        CentralErrorCode::EnrollmentProbeFailed => "AGENT_ENROLLMENT_PROBE_FAILED"@,
        CentralErrorCode::LegacyEnrollmentRequiresReissue =>
            "AGENT_ENROLLMENT_REQUIRES_REISSUE"@,
        CentralErrorCode::BootstrapDenied => "AGENT_BOOTSTRAP_DENIED"@,
        CentralErrorCode::ApprovalRequired => "AGENT_APPROVAL_REQUIRED"@,
        CentralErrorCode::AgentIdentityMismatch => "AGENT_IDENTITY_MISMATCH"@,
        CentralErrorCode::AgentSessionActive => "AGENT_SESSION_ACTIVE"@,
        CentralErrorCode::VolumeOwnerConflict => "VOLUME_OWNER_CONFLICT"@,
        CentralErrorCode::ArtifactNotFound => "ARTIFACT_NOT_FOUND"@,
        CentralErrorCode::ArtifactHeadMismatch => "ARTIFACT_HEAD_MISMATCH"@,
        CentralErrorCode::StorageVolumeNotFound => "STORAGE_VOLUME_NOT_FOUND"@,
        CentralErrorCode::StorageVolumeNotReady => "STORAGE_VOLUME_NOT_READY"@,
        CentralErrorCode::StorageVolumeRegionMismatch => "STORAGE_VOLUME_REGION_MISMATCH"@,
        CentralErrorCode::GatewayPoolNotFound => "GATEWAY_POOL_NOT_FOUND"@,
        CentralErrorCode::GatewayReplicaNotFound => "GATEWAY_REPLICA_NOT_FOUND"@,
        CentralErrorCode::GatewayRouteUnavailable => "GATEWAY_ROUTE_UNAVAILABLE"@,
        CentralErrorCode::GatewayIdentityConflict => "GATEWAY_IDENTITY_CONFLICT"@,
        CentralErrorCode::JobNotFound => "JOB_NOT_FOUND"@,
        CentralErrorCode::JobAlreadyExists => "JOB_ALREADY_EXISTS"@,
        CentralErrorCode::JobIdReused => "JOB_ID_REUSED"@,
        CentralErrorCode::InvalidState => "JOB_INVALID_STATE"@,
        CentralErrorCode::AssignmentMismatch => "ASSIGNMENT_MISMATCH"@,
        CentralErrorCode::GenerationMismatch => "GENERATION_MISMATCH"@,
        CentralErrorCode::DeadlineExceeded => "JOB_DEADLINE_EXCEEDED"@,
        CentralErrorCode::ProtocolInvalid => "PROTOCOL_INVALID"@,
        CentralErrorCode::BatchUndeclared => "METADATA_BATCH_UNDECLARED"@,
        CentralErrorCode::BatchIncomplete => "METADATA_BATCH_INCOMPLETE"@,
        CentralErrorCode::BatchTampered => "METADATA_BATCH_TAMPERED"@,
        CentralErrorCode::ObjectNotDurable => "OBJECT_NOT_DURABLE"@,
        CentralErrorCode::MetadataInvalid => "METADATA_INVALID"@,
        CentralErrorCode::ConcurrentUpdate => "CONCURRENT_UPDATE"@,
        CentralErrorCode::StorageFailure => "STORAGE_FAILURE"@,
        CentralErrorCode::Internal => "INTERNAL"@,
    }
}

/// A letter of a stable text.
pub open spec fn is_stable_letter(letter: char) -> bool {
    'A' <= letter <= 'Z' || letter == '_'
}

spec fn is_spelled(text: Seq<char>, count: nat) -> bool
    decreases count,
{
    count == 0 || (is_stable_letter(text[count - 1]) && is_spelled(text, (count - 1) as nat))
}

proof fn lemma_spelled_letter(text: Seq<char>, count: nat, index: int)
    requires
        is_spelled(text, count),
        0 <= index < count,
    ensures
        is_stable_letter(text[index]),
    decreases count,
{
    if index < count - 1 {
        lemma_spelled_letter(text, (count - 1) as nat, index);
    }
}

/// The length of a stable text, its first letter and the last but one: enough to tell them apart.
spec fn stable_mark(code: CentralErrorCode) -> (nat, char, char) {
    match code {
        CentralErrorCode::Unauthorized => (20, 'A', 'E'),
        CentralErrorCode::EnrollmentNotFound => (26, 'A', 'N'),
        CentralErrorCode::EnrollmentIdReused => (26, 'A', 'E'),
        CentralErrorCode::EnrollmentExpired => (24, 'A', 'E'),
        CentralErrorCode::EnrollmentDecisionConflict => (34, 'A', 'C'),
        CentralErrorCode::EnrollmentProbeFailed => (29, 'A', 'E'),
        CentralErrorCode::LegacyEnrollmentRequiresReissue => (33, 'A', 'U'),
        CentralErrorCode::BootstrapDenied => (22, 'A', 'E'),
        CentralErrorCode::ApprovalRequired => (23, 'A', 'E'),
        CentralErrorCode::AgentIdentityMismatch => (23, 'A', 'C'),
        CentralErrorCode::AgentSessionActive => (20, 'A', 'V'),
        CentralErrorCode::VolumeOwnerConflict => (21, 'V', 'C'),
        CentralErrorCode::ArtifactNotFound => (18, 'A', 'N'),
        CentralErrorCode::ArtifactHeadMismatch => (22, 'A', 'C'),
        CentralErrorCode::StorageVolumeNotFound => (24, 'S', 'N'),
        CentralErrorCode::StorageVolumeNotReady => (24, 'S', 'D'),
        CentralErrorCode::StorageVolumeRegionMismatch => (30, 'S', 'C'),
        CentralErrorCode::GatewayPoolNotFound => (22, 'G', 'N'),
        CentralErrorCode::GatewayReplicaNotFound => (25, 'G', 'N'),
        CentralErrorCode::GatewayRouteUnavailable => (25, 'G', 'L'),
        CentralErrorCode::GatewayIdentityConflict => (25, 'G', 'C'),
        CentralErrorCode::JobNotFound => (13, 'J', 'N'),
        CentralErrorCode::JobAlreadyExists => (18, 'J', 'T'),
        CentralErrorCode::JobIdReused => (13, 'J', 'E'),
        CentralErrorCode::InvalidState => (17, 'J', 'T'),
        CentralErrorCode::AssignmentMismatch => (19, 'A', 'C'),
        CentralErrorCode::GenerationMismatch => (19, 'G', 'C'),
        CentralErrorCode::DeadlineExceeded => (21, 'J', 'E'),
        CentralErrorCode::ProtocolInvalid => (16, 'P', 'I'),
        CentralErrorCode::BatchUndeclared => (25, 'M', 'E'),
        CentralErrorCode::BatchIncomplete => (25, 'M', 'T'),
        CentralErrorCode::BatchTampered => (23, 'M', 'E'),
        CentralErrorCode::ObjectNotDurable => (18, 'O', 'L'),
        CentralErrorCode::MetadataInvalid => (16, 'M', 'I'),
        CentralErrorCode::ConcurrentUpdate => (17, 'C', 'T'),
        CentralErrorCode::StorageFailure => (15, 'S', 'R'),
        CentralErrorCode::Internal => (8, 'I', 'A'),
    }
}

proof fn lemma_stable_mark(code: CentralErrorCode)
    ensures
        ({
            let text = stable_text(code);
            &&& stable_mark(code) == (text.len(), text[0], text[text.len() - 2])
            &&& text.len() > 0
            &&& is_spelled(text, text.len())
        }),
{
    reveal_with_fuel(is_spelled, 36);
    match code {
        CentralErrorCode::Unauthorized => {
            reveal_strlit("AUTHORIZATION_DENIED");
        },
        CentralErrorCode::EnrollmentNotFound => {
            reveal_strlit("AGENT_ENROLLMENT_NOT_FOUND");
        },
        CentralErrorCode::EnrollmentIdReused => {
            reveal_strlit("AGENT_ENROLLMENT_ID_REUSED");
        },
        CentralErrorCode::EnrollmentExpired => {
            reveal_strlit("AGENT_ENROLLMENT_EXPIRED");
        },
        CentralErrorCode::EnrollmentDecisionConflict => {
            reveal_strlit("AGENT_ENROLLMENT_DECISION_CONFLICT");
        },
        CentralErrorCode::EnrollmentProbeFailed => {
            reveal_strlit("AGENT_ENROLLMENT_PROBE_FAILED");
        },
        CentralErrorCode::LegacyEnrollmentRequiresReissue => {
            reveal_strlit("AGENT_ENROLLMENT_REQUIRES_REISSUE");
        },
        CentralErrorCode::BootstrapDenied => {
            reveal_strlit("AGENT_BOOTSTRAP_DENIED");
        },
        CentralErrorCode::ApprovalRequired => {
            reveal_strlit("AGENT_APPROVAL_REQUIRED");
        },
        CentralErrorCode::AgentIdentityMismatch => {
            reveal_strlit("AGENT_IDENTITY_MISMATCH");
        },
        CentralErrorCode::AgentSessionActive => {
            reveal_strlit("AGENT_SESSION_ACTIVE");
        },
        CentralErrorCode::VolumeOwnerConflict => {
            reveal_strlit("VOLUME_OWNER_CONFLICT");
        },
        CentralErrorCode::ArtifactNotFound => {
            reveal_strlit("ARTIFACT_NOT_FOUND");
        },
        CentralErrorCode::ArtifactHeadMismatch => {
            reveal_strlit("ARTIFACT_HEAD_MISMATCH");
        },
        CentralErrorCode::StorageVolumeNotFound => {
            reveal_strlit("STORAGE_VOLUME_NOT_FOUND");
        },
        CentralErrorCode::StorageVolumeNotReady => {
            reveal_strlit("STORAGE_VOLUME_NOT_READY");
        },
        CentralErrorCode::StorageVolumeRegionMismatch => {
            reveal_strlit("STORAGE_VOLUME_REGION_MISMATCH");
        },
        CentralErrorCode::GatewayPoolNotFound => {
            reveal_strlit("GATEWAY_POOL_NOT_FOUND");
        },
        CentralErrorCode::GatewayReplicaNotFound => {
            reveal_strlit("GATEWAY_REPLICA_NOT_FOUND");
        },
        CentralErrorCode::GatewayRouteUnavailable => {
            reveal_strlit("GATEWAY_ROUTE_UNAVAILABLE");
        },
        CentralErrorCode::GatewayIdentityConflict => {
            reveal_strlit("GATEWAY_IDENTITY_CONFLICT");
        },
        CentralErrorCode::JobNotFound => {
            reveal_strlit("JOB_NOT_FOUND");
        },
        CentralErrorCode::JobAlreadyExists => {
            reveal_strlit("JOB_ALREADY_EXISTS");
        },
        CentralErrorCode::JobIdReused => {
            reveal_strlit("JOB_ID_REUSED");
        },
        CentralErrorCode::InvalidState => {
            reveal_strlit("JOB_INVALID_STATE");
        },
        CentralErrorCode::AssignmentMismatch => {
            reveal_strlit("ASSIGNMENT_MISMATCH");
        },
        CentralErrorCode::GenerationMismatch => {
            reveal_strlit("GENERATION_MISMATCH");
        },
        CentralErrorCode::DeadlineExceeded => {
            reveal_strlit("JOB_DEADLINE_EXCEEDED");
        },
        CentralErrorCode::ProtocolInvalid => {
            reveal_strlit("PROTOCOL_INVALID");
        },
        CentralErrorCode::BatchUndeclared => {
            reveal_strlit("METADATA_BATCH_UNDECLARED");
        },
        CentralErrorCode::BatchIncomplete => {
            reveal_strlit("METADATA_BATCH_INCOMPLETE");
        },
        CentralErrorCode::BatchTampered => {
            reveal_strlit("METADATA_BATCH_TAMPERED");
        },
        CentralErrorCode::ObjectNotDurable => {
            reveal_strlit("OBJECT_NOT_DURABLE");
        },
        CentralErrorCode::MetadataInvalid => {
            reveal_strlit("METADATA_INVALID");
        },
        CentralErrorCode::ConcurrentUpdate => {
            reveal_strlit("CONCURRENT_UPDATE");
        },
        CentralErrorCode::StorageFailure => {
            reveal_strlit("STORAGE_FAILURE");
        },
        CentralErrorCode::Internal => {
            reveal_strlit("INTERNAL");
        },
    }
}

/// The stable texts are stable names: no two classes share one, and each is a word of capitals and
/// underscores.
pub proof fn lemma_stable_texts_are_names(left: CentralErrorCode, right: CentralErrorCode)
    ensures
        stable_text(left) == stable_text(right) <==> left == right,
        stable_text(left).len() > 0,
        forall|i: int|
            0 <= i < stable_text(left).len() ==> is_stable_letter(#[trigger] stable_text(left)[i]),
{
    lemma_stable_mark(left);
    lemma_stable_mark(right);
    assert(stable_mark(left) == stable_mark(right) ==> left == right);
    let text = stable_text(left);
    assert forall|i: int| 0 <= i < text.len() implies is_stable_letter(#[trigger] text[i]) by {
        lemma_spelled_letter(text, text.len(), i);
    }
}

impl CentralErrorCode {
    /// Stable code suitable for wire adapters, logs, and retry policies.
    #[must_use]
    pub fn as_str(self) -> (text: &'static str)
        ensures
            text@ == stable_text(self),
    {
        match self {
            Self::Unauthorized => "AUTHORIZATION_DENIED",
            Self::EnrollmentNotFound => "AGENT_ENROLLMENT_NOT_FOUND",
            Self::EnrollmentIdReused => "AGENT_ENROLLMENT_ID_REUSED",
            Self::EnrollmentExpired => "AGENT_ENROLLMENT_EXPIRED",
            Self::EnrollmentDecisionConflict => "AGENT_ENROLLMENT_DECISION_CONFLICT",
            Self::EnrollmentProbeFailed => "AGENT_ENROLLMENT_PROBE_FAILED",
            Self::LegacyEnrollmentRequiresReissue => "AGENT_ENROLLMENT_REQUIRES_REISSUE",
            Self::BootstrapDenied => "AGENT_BOOTSTRAP_DENIED",
            Self::ApprovalRequired => "AGENT_APPROVAL_REQUIRED",
            Self::AgentIdentityMismatch => "AGENT_IDENTITY_MISMATCH",
            Self::AgentSessionActive => "AGENT_SESSION_ACTIVE",
            Self::VolumeOwnerConflict => "VOLUME_OWNER_CONFLICT",
            Self::ArtifactNotFound => "ARTIFACT_NOT_FOUND",
            Self::ArtifactHeadMismatch => "ARTIFACT_HEAD_MISMATCH",
            Self::StorageVolumeNotFound => "STORAGE_VOLUME_NOT_FOUND",
            Self::StorageVolumeNotReady => "STORAGE_VOLUME_NOT_READY",
            Self::StorageVolumeRegionMismatch => "STORAGE_VOLUME_REGION_MISMATCH",
            Self::GatewayPoolNotFound => "GATEWAY_POOL_NOT_FOUND",
            Self::GatewayReplicaNotFound => "GATEWAY_REPLICA_NOT_FOUND",
            Self::GatewayRouteUnavailable => "GATEWAY_ROUTE_UNAVAILABLE",
            Self::GatewayIdentityConflict => "GATEWAY_IDENTITY_CONFLICT",
            Self::JobNotFound => "JOB_NOT_FOUND",
            Self::JobAlreadyExists => "JOB_ALREADY_EXISTS",
            Self::JobIdReused => "JOB_ID_REUSED",
            Self::InvalidState => "JOB_INVALID_STATE",
            Self::AssignmentMismatch => "ASSIGNMENT_MISMATCH",
            Self::GenerationMismatch => "GENERATION_MISMATCH",
            Self::DeadlineExceeded => "JOB_DEADLINE_EXCEEDED",
            Self::ProtocolInvalid => "PROTOCOL_INVALID",
            Self::BatchUndeclared => "METADATA_BATCH_UNDECLARED",
            Self::BatchIncomplete => "METADATA_BATCH_INCOMPLETE",
            Self::BatchTampered => "METADATA_BATCH_TAMPERED",
            Self::ObjectNotDurable => "OBJECT_NOT_DURABLE",
            Self::MetadataInvalid => "METADATA_INVALID",
            Self::ConcurrentUpdate => "CONCURRENT_UPDATE",
            Self::StorageFailure => "STORAGE_FAILURE",
            Self::Internal => "INTERNAL",
        }
    }
}

/// What a failure says: its class, its message and whether a retry can help.
#[verifier::ext_equal]
pub ghost struct Fault {
    pub code: CentralErrorCode,
    pub message: Seq<char>,
    pub retryable: bool,
}

/// Error classes that are worth retrying unless the failure says otherwise.
pub open spec fn retryable_by_default(code: CentralErrorCode) -> bool {
    code is ConcurrentUpdate || code is StorageFailure || code is Internal
}

/// A failure with the retry hint of its class.
pub open spec fn fault(code: CentralErrorCode, message: Seq<char>) -> Fault {
    Fault { code, message, retryable: retryable_by_default(code) }
}

/// A failure that must not be retried as it stands.
pub open spec fn final_fault(code: CentralErrorCode, message: Seq<char>) -> Fault {
    Fault { code, message, retryable: false }
}

/// Stored state that contradicts itself.
pub open spec fn corruption_fault(message: Seq<char>) -> Fault {
    final_fault(CentralErrorCode::StorageFailure, message)
}

/// The failure that a result carries, if any.
pub open spec fn fault_of<T>(result: Result<T, CentralError>) -> Option<Fault> {
    match result {
        Ok(_) => None,
        Err(failure) => Some(failure@),
    }
}

/// A control-plane failure with a stable code separated from its operator-facing message.
#[derive(Debug, PartialEq, Eq)]
pub struct CentralError {
    code: CentralErrorCode,
    message: String,
    retryable: bool,
}

pub type CentralResult<T> = Result<T, CentralError>;

impl View for CentralError {
    type V = Fault;

    closed spec fn view(&self) -> Fault {
        Fault { code: self.code, message: self.message@, retryable: self.retryable }
    }
}

impl Clone for CentralError {
    fn clone(&self) -> (copy: Self)
        ensures
            copy == *self,
    {
        Self { code: self.code, message: self.message.clone(), retryable: self.retryable }
    }
}

impl CentralError {
    #[must_use]
    pub fn new(code: CentralErrorCode, message: String) -> (failure: Self)
        ensures
            failure@ == fault(code, message@),
    {
        let retryable = matches!(
            code,
            CentralErrorCode::ConcurrentUpdate
                | CentralErrorCode::StorageFailure
                | CentralErrorCode::Internal
        );
        Self { code, message, retryable }
    }

    #[must_use]
    pub fn code(&self) -> (code: CentralErrorCode)
        ensures
            code == self@.code,
    {
        self.code
    }

    #[must_use]
    pub fn stable_code(&self) -> (text: &'static str)
        ensures
            text@ == stable_text(self@.code),
    {
        self.code.as_str()
    }

    #[must_use]
    pub fn message(&self) -> (message: &str)
        ensures
            message@ == self@.message,
    {
        self.message.as_str()
    }

    #[must_use]
    pub fn retryable(&self) -> (retryable: bool)
        ensures
            retryable == self@.retryable,
    {
        self.retryable
    }

    #[must_use]
    pub fn with_retryable(self, retryable: bool) -> (failure: Self)
        ensures
            failure@ == (Fault { retryable, ..self@ }),
    {
        Self { code: self.code, message: self.message, retryable }
    }

    /// The stable code and the message, as an operator reads them.
    #[must_use]
    pub fn display(&self) -> (text: String)
        ensures
            text@ == stable_text(self@.code) + ": "@ + self@.message,
    {
        let mut text = String::from_str(self.code.as_str());
        text.append(": ");
        text.append(self.message.as_str());
        text
    }

    /// Maps a failure of the wire protocol, given its stable code and its text.
    #[must_use]
    pub fn from_protocol(stable_code: &str, message: String) -> (failure: Self)
        ensures
            failure@ == fault(
                if stable_code@ == "PROTOCOL_DIGEST_MISMATCH"@ {
                    CentralErrorCode::BatchTampered
                } else {
                    CentralErrorCode::ProtocolInvalid
                },
                message@,
            ),
    {
        let code = if text_equals(stable_code, "PROTOCOL_DIGEST_MISMATCH") {
            CentralErrorCode::BatchTampered
        } else {
            CentralErrorCode::ProtocolInvalid
        };
        Self::new(code, message)
    }
}

/// A failure with the retry hint of its class.
pub(crate) fn failure(code: CentralErrorCode, message: &str) -> (failure: CentralError)
    ensures
        failure@ == fault(code, message@),
{
    CentralError::new(code, String::from_str(message))
}

/// A failure that must not be retried as it stands.
pub(crate) fn final_failure(code: CentralErrorCode, message: &str) -> (failure: CentralError)
    ensures
        failure@ == final_fault(code, message@),
{
    CentralError::new(code, String::from_str(message)).with_retryable(false)
}

/// Stored state that contradicts itself.
pub(crate) fn corruption(message: &str) -> (failure: CentralError)
    ensures
        failure@ == corruption_fault(message@),
{
    final_failure(CentralErrorCode::StorageFailure, message)
}

} // verus!
