//! What makes one enrollment aggregate, or a request about it, acceptable.
//!
//! A PVC identity is the digest of a claim's names. It is derived elsewhere and handed in; where a
//! record has no frozen descriptor it is not looked at.
use vstd::prelude::*;

use crate::agent_registry::lifecycle::{
    decision_audit_agrees, decision_audit_matches, lifecycle_event_id, lifecycle_event_text,
};
use crate::agent_registry::records::{
    AgentBootstrapProbe, AgentCandidateRecord, AgentCredentialEvidence, AgentEnrollmentDecision,
    AgentEnrollmentLifecycleAuditKind, AgentEnrollmentState, AgentInstanceRecord,
    AgentInstanceState, AgentProofOfPossessionStatus, AgentRegistryRecord,
    AgentRegistryRecordFormat, AgentSignatureAlgorithm, FrozenStorageDescriptor,
    MountAccessMode, ResourceHealth, StorageEnrollmentRegistrationKind, StorageEnrollmentState,
    VolumeOwnerState, AGENT_ENROLLMENT_MAX_PAGE_SIZE, AGENT_ENROLLMENT_MAX_QUERY_CHARS,
};
use crate::digest::{ContentDigest, PvcIdentityDigest};
use crate::equality::{numbers_equal, Same};
use crate::error::{
    corruption, corruption_fault, fault_of, final_failure, final_fault, CentralErrorCode,
    CentralResult, Fault,
};
use crate::identifier::{is_named, names, AgentEnrollmentId, OpaqueText, TenantId, UnixMillis};
use crate::text::{
    is_blank, is_resource_identifier, resource_identifier_is_valid, text_is_blank,
};

verus! {

/// The largest timestamp that the storage keyset holds.
pub const MAX_KEYSET_MILLIS: u64 = 0x7fff_ffff_ffff_ffff;

/// The longest rejection reason, in characters.
pub const MAX_REJECTION_REASON_CHARS: usize = 2048;

/// What is wrong with the public fields of a Volume, given the identity derived from its claim.
pub open spec fn frozen_descriptor_fault(
    descriptor: FrozenStorageDescriptor,
    expected_pvc_identity: PvcIdentityDigest,
    derived_pvc_identity: CentralResult<PvcIdentityDigest>,
) -> Option<Fault> {
    if is_blank(descriptor.display_name@) || descriptor.display_name@.len() > 256 {
        Some(
            final_fault(
                CentralErrorCode::ProtocolInvalid,
                "Storage enrollment display name must contain 1 to 256 characters"@,
            ),
        )
    } else if !is_resource_identifier(descriptor.region@) {
        Some(
            final_fault(
                CentralErrorCode::ProtocolInvalid,
                "Storage enrollment region is not a valid resource identifier"@,
            ),
        )
    } else {
        match derived_pvc_identity {
            Err(failure) => Some(failure@),
            Ok(derived) => if derived != expected_pvc_identity {
                Some(
                    final_fault(
                        CentralErrorCode::AgentIdentityMismatch,
                        "frozen PVC reference differs from its identity digest"@,
                    ),
                )
            } else {
                None
            },
        }
    }
}

pub fn validate_frozen_descriptor(
    descriptor: &FrozenStorageDescriptor,
    expected_pvc_identity: PvcIdentityDigest,
    derived_pvc_identity: CentralResult<PvcIdentityDigest>,
) -> (result: CentralResult<()>)
    ensures
        fault_of(result) == frozen_descriptor_fault(
            *descriptor,
            expected_pvc_identity,
            derived_pvc_identity,
        ),
{
    if text_is_blank(descriptor.display_name.as_str())
        || descriptor.display_name.as_str().unicode_len() > 256 {
        return Err(
            final_failure(
                CentralErrorCode::ProtocolInvalid,
                "Storage enrollment display name must contain 1 to 256 characters",
            ),
        );
    }
    if !resource_identifier_is_valid(descriptor.region.as_str()) {
        return Err(
            final_failure(
                CentralErrorCode::ProtocolInvalid,
                "Storage enrollment region is not a valid resource identifier",
            ),
        );
    }
    match derived_pvc_identity {
        Err(failure) => Err(failure),
        Ok(derived) => if derived != expected_pvc_identity {
            Err(
                final_failure(
                    CentralErrorCode::AgentIdentityMismatch,
                    "frozen PVC reference differs from its identity digest",
                ),
            )
        } else {
            Ok(())
        },
    }
}

pub fn validate_token_key_id(key_id: &str) -> (result: CentralResult<()>)
    ensures
        fault_of(result) == if is_resource_identifier(key_id@) {
            None::<Fault>
        } else {
            Some(
                final_fault(
                    CentralErrorCode::ProtocolInvalid,
                    "bootstrap token key ID is not a valid resource identifier"@,
                ),
            )
        },
{
    if !resource_identifier_is_valid(key_id) {
        return Err(
            final_failure(
                CentralErrorCode::ProtocolInvalid,
                "bootstrap token key ID is not a valid resource identifier",
            ),
        );
    }
    Ok(())
}

/// What is wrong with the credential that a candidate presented.
pub open spec fn credential_evidence_fault(
    evidence: AgentCredentialEvidence,
    expected_fingerprint: ContentDigest,
) -> Option<Fault> {
    if !(evidence.algorithm is Ed25519) {
        Some(
            final_fault(
                CentralErrorCode::BootstrapDenied,
                "Agent credential evidence is not a canonical Ed25519 SPKI proof"@,
            ),
        )
    } else if evidence.public_key_spki.fingerprint != expected_fingerprint {
        Some(
            final_fault(
                CentralErrorCode::AgentIdentityMismatch,
                "Agent public-key fingerprint differs from its SPKI identity"@,
            ),
        )
    } else {
        None
    }
}

pub fn validate_credential_evidence(
    evidence: &AgentCredentialEvidence,
    expected_fingerprint: ContentDigest,
) -> (result: CentralResult<()>)
    ensures
        fault_of(result) == credential_evidence_fault(*evidence, expected_fingerprint),
{
    if evidence.algorithm != AgentSignatureAlgorithm::Ed25519 {
        return Err(
            final_failure(
                CentralErrorCode::BootstrapDenied,
                "Agent credential evidence is not a canonical Ed25519 SPKI proof",
            ),
        );
    }
    if evidence.public_key_spki.fingerprint != expected_fingerprint {
        return Err(
            final_failure(
                CentralErrorCode::AgentIdentityMismatch,
                "Agent public-key fingerprint differs from its SPKI identity",
            ),
        );
    }
    Ok(())
}

/// A rejection reason of 1 to 2048 characters.
pub open spec fn is_rejection_reason(reason: Seq<char>) -> bool {
    1 <= reason.len() <= MAX_REJECTION_REASON_CHARS
}

/// What is wrong with the reason given for a decision.
pub open spec fn rejection_reason_fault(
    decision: AgentEnrollmentDecision,
    reason: Option<OpaqueText>,
) -> Option<Fault> {
    match reason {
        None => None,
        Some(reason) => if !(decision is Reject) {
            Some(
                final_fault(
                    CentralErrorCode::ProtocolInvalid,
                    "a rejection reason is only valid for a rejected enrollment"@,
                ),
            )
        } else if !is_rejection_reason(reason@) {
            Some(
                final_fault(
                    CentralErrorCode::ProtocolInvalid,
                    "Storage enrollment rejection reason must contain 1 to 2048 characters"@,
                ),
            )
        } else {
            None
        },
    }
}

fn rejection_reason_is_valid(reason: &OpaqueText) -> (valid: bool)
    ensures
        valid == is_rejection_reason(reason@),
{
    let length: usize = reason.as_str().unicode_len();
    1 <= length && length <= MAX_REJECTION_REASON_CHARS
}

pub fn validate_rejection_reason(
    decision: AgentEnrollmentDecision,
    reason: &Option<OpaqueText>,
) -> (result: CentralResult<()>)
    ensures
        fault_of(result) == rejection_reason_fault(decision, *reason),
{
    if let Some(reason) = reason {
        if decision != AgentEnrollmentDecision::Reject {
            return Err(
                final_failure(
                    CentralErrorCode::ProtocolInvalid,
                    "a rejection reason is only valid for a rejected enrollment",
                ),
            );
        }
        if !rejection_reason_is_valid(reason) {
            return Err(
                final_failure(
                    CentralErrorCode::ProtocolInvalid,
                    "Storage enrollment rejection reason must contain 1 to 2048 characters",
                ),
            );
        }
    }
    Ok(())
}

/// Where a page of enrollments continues.
#[derive(Debug)]
pub struct AgentEnrollmentListCursor {
    pub created_at_unix_ms: UnixMillis,
    pub enrollment_id: AgentEnrollmentId,
}

/// A page of one tenant's enrollments, optionally filtered.
#[derive(Debug)]
pub struct AgentEnrollmentListRequest {
    pub tenant_id: TenantId,
    pub state: Option<StorageEnrollmentState>,
    pub registration_kind: Option<StorageEnrollmentRegistrationKind>,
    pub query: Option<OpaqueText>,
    pub after: Option<AgentEnrollmentListCursor>,
    pub limit: usize,
}

/// What is wrong with a page request.
pub open spec fn enrollment_list_fault(request: AgentEnrollmentListRequest) -> Option<Fault> {
    if request.limit == 0 || request.limit > AGENT_ENROLLMENT_MAX_PAGE_SIZE {
        Some(
            final_fault(
                CentralErrorCode::ProtocolInvalid,
                "Agent enrollment page size is outside the supported range"@,
            ),
        )
    } else if request.query matches Some(query) && (query@.len() == 0 || query@.len()
        > AGENT_ENROLLMENT_MAX_QUERY_CHARS) {
        Some(
            final_fault(
                CentralErrorCode::ProtocolInvalid,
                "Agent enrollment query must contain 1 to 256 characters"@,
            ),
        )
    } else if request.after matches Some(cursor) && cursor.created_at_unix_ms
        > MAX_KEYSET_MILLIS {
        Some(
            final_fault(
                CentralErrorCode::ProtocolInvalid,
                "Agent enrollment cursor timestamp exceeds the SQLite keyset range"@,
            ),
        )
    } else {
        None
    }
}

pub fn validate_enrollment_list_request(request: &AgentEnrollmentListRequest) -> (result:
    CentralResult<()>)
    ensures
        fault_of(result) == enrollment_list_fault(*request),
{
    if request.limit == 0 || request.limit > AGENT_ENROLLMENT_MAX_PAGE_SIZE {
        return Err(
            final_failure(
                CentralErrorCode::ProtocolInvalid,
                "Agent enrollment page size is outside the supported range",
            ),
        );
    }
    if let Some(query) = &request.query {
        let length: usize = query.as_str().unicode_len();
        if length == 0 || length > AGENT_ENROLLMENT_MAX_QUERY_CHARS {
            return Err(
                final_failure(
                    CentralErrorCode::ProtocolInvalid,
                    "Agent enrollment query must contain 1 to 256 characters",
                ),
            );
        }
    }
    if let Some(cursor) = &request.after {
        if cursor.created_at_unix_ms > MAX_KEYSET_MILLIS {
            return Err(
                final_failure(
                    CentralErrorCode::ProtocolInvalid,
                    "Agent enrollment cursor timestamp exceeds the SQLite keyset range",
                ),
            );
        }
    }
    Ok(())
}

/// The answer to requests about records that predate public enrollments.
pub open spec fn reissue_fault() -> Fault {
    final_fault(
        CentralErrorCode::LegacyEnrollmentRequiresReissue,
        "legacy Agent enrollment must be reissued before it can be inspected or approved"@,
    )
}

pub(crate) fn legacy_enrollment_reissue() -> (failure: crate::error::CentralError)
    ensures
        failure@ == reissue_fault(),
{
    final_failure(
        CentralErrorCode::LegacyEnrollmentRequiresReissue,
        "legacy Agent enrollment must be reissued before it can be inspected or approved",
    )
}

pub fn require_current_registry_record(record: &AgentRegistryRecord) -> (result: CentralResult<
    (),
>)
    ensures
        fault_of(result) == if record.storage_enrollment.record_format is CurrentV3 {
            None::<Fault>
        } else {
            Some(reissue_fault())
        },
{
    if record.storage_enrollment.record_format == AgentRegistryRecordFormat::CurrentV3 {
        Ok(())
    } else {
        Err(legacy_enrollment_reissue())
    }
}

/// A candidate whose proof of possession the server verified and kept.
pub open spec fn evidence_is_verified(candidate: AgentCandidateRecord) -> bool {
    &&& candidate.credential_evidence is Some
    &&& candidate.proof_of_possession_status == Some(AgentProofOfPossessionStatus::Verified)
    &&& candidate.bootstrap_signed_payload_digest is Some
}

fn candidate_evidence_is_verified(candidate: &AgentCandidateRecord) -> (verified: bool)
    ensures
        verified == evidence_is_verified(*candidate),
{
    candidate.credential_evidence.is_some() && candidate.proof_of_possession_status == Some(
        AgentProofOfPossessionStatus::Verified,
    ) && candidate.bootstrap_signed_payload_digest.is_some()
}

/// A record that tenants may inspect and decide on.
pub open spec fn is_public_enrollment(record: AgentRegistryRecord) -> bool {
    let metadata = record.storage_enrollment;
    &&& metadata.record_format is CurrentV3
    &&& metadata.descriptor is Some
    &&& metadata.token_key_id is Some
    &&& metadata.registration_kind is Some
    &&& metadata.updated_at_unix_ms is Some
    &&& record.candidate matches Some(candidate) ==> evidence_is_verified(candidate)
}

pub fn require_public_enrollment_metadata(record: &AgentRegistryRecord) -> (result: CentralResult<
    (),
>)
    ensures
        fault_of(result) == if is_public_enrollment(*record) {
            None::<Fault>
        } else {
            Some(reissue_fault())
        },
{
    require_current_registry_record(record)?;
    let metadata = &record.storage_enrollment;
    let has_verified_candidate_evidence = match &record.candidate {
        Some(candidate) => candidate_evidence_is_verified(candidate),
        None => true,
    };
    if metadata.descriptor.is_some() && metadata.token_key_id.is_some()
        && metadata.registration_kind.is_some() && metadata.updated_at_unix_ms.is_some()
        && has_verified_candidate_evidence {
        Ok(())
    } else {
        Err(legacy_enrollment_reissue())
    }
}

/// The mount identity is the one that the accepted candidate probed.
pub open spec fn mount_identity_is_bound(record: AgentRegistryRecord) -> bool {
    match record.candidate {
        None => record.mount.mount_identity_digest is None,
        Some(candidate) => {
            &&& candidate.mount_identity_digest == candidate.probe.mount_identity_digest
            &&& record.mount.mount_identity_digest == Some(candidate.mount_identity_digest)
        },
    }
}

/// What is wrong with the marker or the mount identity of a record.
pub open spec fn registry_marker_fault(record: AgentRegistryRecord) -> Option<Fault> {
    if record.mount.expected_volume_marker@ != record.enrollment.storage_volume_id@ {
        Some(
            final_fault(
                CentralErrorCode::AgentIdentityMismatch,
                "Volume marker identity must equal the StorageVolume ID"@,
            ),
        )
    } else if !mount_identity_is_bound(record) {
        Some(
            final_fault(
                CentralErrorCode::AgentIdentityMismatch,
                "mount identity must remain bound to the accepted bootstrap probe"@,
            ),
        )
    } else {
        None
    }
}

pub fn ensure_registry_marker_invariant(record: &AgentRegistryRecord) -> (result: CentralResult<
    (),
>)
    ensures
        fault_of(result) == registry_marker_fault(*record),
{
    if record.mount.expected_volume_marker != record.enrollment.storage_volume_id {
        return Err(
            final_failure(
                CentralErrorCode::AgentIdentityMismatch,
                "Volume marker identity must equal the StorageVolume ID",
            ),
        );
    }
    let bound = match &record.candidate {
        None => record.mount.mount_identity_digest.is_none(),
        Some(candidate) => candidate.mount_identity_digest
            == candidate.probe.mount_identity_digest && record.mount.mount_identity_digest == Some(
            candidate.mount_identity_digest,
        ),
    };
    if !bound {
        return Err(
            final_failure(
                CentralErrorCode::AgentIdentityMismatch,
                "mount identity must remain bound to the accepted bootstrap probe",
            ),
        );
    }
    Ok(())
}

/// The registration kind that the replacement link determines.
pub open spec fn expected_registration_kind(
    record: AgentRegistryRecord,
) -> StorageEnrollmentRegistrationKind {
    if record.enrollment.replaces_enrollment_id is Some {
        StorageEnrollmentRegistrationKind::Replacement
    } else {
        StorageEnrollmentRegistrationKind::Initial
    }
}

/// A candidate's credential evidence is either absent altogether or verified and consistent; a
/// public enrollment always has it.
pub open spec fn candidate_evidence_is_acceptable(
    record: AgentRegistryRecord,
    candidate: AgentCandidateRecord,
) -> bool {
    let metadata = record.storage_enrollment;
    &&& candidate.credential_evidence matches Some(evidence) ==> credential_evidence_fault(
        evidence,
        candidate.public_key_fingerprint,
    ) is None
    &&& (candidate.credential_evidence is Some || candidate.proof_of_possession_status is Some
        || metadata.descriptor is Some || metadata.token_key_id is Some) ==> evidence_is_verified(
        candidate,
    )
}

/// The public state that the internal lifecycle determines.
pub open spec fn expected_public_state(record: AgentRegistryRecord) -> Option<
    StorageEnrollmentState,
> {
    match record.enrollment.state {
        AgentEnrollmentState::TokenIssued => None,
        AgentEnrollmentState::PendingApproval => Some(StorageEnrollmentState::PendingApproval),
        AgentEnrollmentState::Approved => match record.storage_enrollment.state {
            Some(StorageEnrollmentState::Enrolled) => Some(StorageEnrollmentState::Enrolled),
            Some(StorageEnrollmentState::Approved) => Some(StorageEnrollmentState::Approved),
            _ => None,
        },
        AgentEnrollmentState::Rejected => Some(StorageEnrollmentState::Rejected),
        AgentEnrollmentState::Expired => if record.candidate is Some {
            Some(StorageEnrollmentState::Expired)
        } else {
            None
        },
        AgentEnrollmentState::Revoked => None,
    }
}

/// One entry of the lifecycle audit fits the record and follows its predecessor.
pub open spec fn lifecycle_entry_is_valid(record: AgentRegistryRecord, index: int) -> bool {
    let events = record.storage_enrollment.lifecycle_audit_events@;
    let event = events[index];
    &&& event.event_id@ == lifecycle_event_text(
        record.enrollment.enrollment_id@,
        event.resource_version,
        event.kind,
    )
    &&& event.tenant_id@ == record.enrollment.tenant_id@
    &&& event.enrollment_id@ == record.enrollment.enrollment_id@
    &&& 0 < event.resource_version <= record.resource_version
    &&& index > 0 ==> events[index - 1].resource_version < event.resource_version
    &&& event.rejection_reason matches Some(reason) ==> event.kind is Rejected
        && is_rejection_reason(reason@)
}

/// Every entry of the lifecycle audit is valid.
pub open spec fn lifecycle_is_valid(record: AgentRegistryRecord) -> bool {
    forall|i: int|
        0 <= i < record.storage_enrollment.lifecycle_audit_events@.len()
            ==> #[trigger] lifecycle_entry_is_valid(record, i)
}

/// What is wrong with the public metadata of a record.
pub open spec fn storage_metadata_fault(
    record: AgentRegistryRecord,
    derived_pvc_identity: Option<PvcIdentityDigest>,
) -> Option<Fault> {
    let metadata = record.storage_enrollment;
    let events = metadata.lifecycle_audit_events@;
    if metadata.record_format is LegacyV2 {
        if metadata.is_legacy_default() {
            None
        } else {
            Some(
                corruption_fault(
                    "legacy Agent enrollment contains partially upgraded public metadata"@,
                ),
            )
        }
    } else if metadata.registration_kind != Some(expected_registration_kind(record))
        || metadata.updated_at_unix_ms is None || events.len() == 0 {
        Some(
            corruption_fault(
                "current Agent enrollment lacks registration, time, or lifecycle metadata"@,
            ),
        )
    } else if metadata.descriptor is Some && derived_pvc_identity is None {
        Some(corruption_fault("frozen PVC descriptor is invalid"@))
    } else if metadata.descriptor is Some && derived_pvc_identity != Some(
        record.enrollment.pvc_identity_digest,
    ) {
        Some(corruption_fault("frozen PVC descriptor differs from the enrollment identity"@))
    } else if metadata.token_key_id matches Some(key_id) && !is_resource_identifier(key_id@) {
        Some(corruption_fault("persisted bootstrap token key ID is invalid"@))
    } else if record.candidate matches Some(candidate) && !candidate_evidence_is_acceptable(
        record,
        candidate,
    ) {
        Some(corruption_fault("persisted Agent credential evidence is not server-verified"@))
    } else if metadata.state != expected_public_state(record) {
        Some(corruption_fault("Agent enrollment public state differs from its internal lifecycle"@))
    } else if metadata.state is Some && !(record.enrollment.bootstrapped_at_unix_ms matches Some(
        created_at,
    ) && created_at <= MAX_KEYSET_MILLIS) {
        Some(
            corruption_fault(
                "Agent enrollment public creation time exceeds the SQLite keyset range"@,
            ),
        )
    } else if !lifecycle_is_valid(record) {
        Some(corruption_fault("Agent enrollment lifecycle audit is malformed or out of order"@))
    } else if !(events[0].kind is TokenIssued) || events[0].resource_version != 1 {
        Some(corruption_fault("Agent enrollment lifecycle audit does not start at token issuance"@))
    } else {
        None
    }
}

fn lifecycle_entry_holds(record: &AgentRegistryRecord, index: usize) -> (valid: bool)
    requires
        index < record.storage_enrollment.lifecycle_audit_events@.len(),
    ensures
        valid == lifecycle_entry_is_valid(*record, index as int),
{
    let events = &record.storage_enrollment.lifecycle_audit_events;
    let event = &events[index];
    let expected_event_id = lifecycle_event_id(
        &record.enrollment.enrollment_id,
        event.resource_version,
        event.kind,
    );
    if event.event_id != expected_event_id || event.tenant_id != record.enrollment.tenant_id
        || event.enrollment_id != record.enrollment.enrollment_id || event.resource_version == 0
        || event.resource_version > record.resource_version {
        return false;
    }
    if index > 0 && events[index - 1].resource_version >= event.resource_version {
        return false;
    }
    match &event.rejection_reason {
        Some(reason) => event.kind == AgentEnrollmentLifecycleAuditKind::Rejected
            && rejection_reason_is_valid(reason),
        None => true,
    }
}

fn lifecycle_holds(record: &AgentRegistryRecord) -> (valid: bool)
    ensures
        valid == lifecycle_is_valid(*record),
{
    let mut index: usize = 0;
    while index < record.storage_enrollment.lifecycle_audit_events.len()
        invariant
            index <= record.storage_enrollment.lifecycle_audit_events@.len(),
            forall|i: int|
                0 <= i < index ==> #[trigger] lifecycle_entry_is_valid(*record, i),
        decreases record.storage_enrollment.lifecycle_audit_events.len() - index,
    {
        if !lifecycle_entry_holds(record, index) {
            assert(!lifecycle_entry_is_valid(*record, index as int));
            return false;
        }
        index += 1;
    }
    true
}

fn candidate_evidence_holds(
    record: &AgentRegistryRecord,
    candidate: &AgentCandidateRecord,
) -> (acceptable: bool)
    ensures
        acceptable == candidate_evidence_is_acceptable(*record, *candidate),
{
    let metadata = &record.storage_enrollment;
    let evidence_is_valid = match &candidate.credential_evidence {
        Some(evidence) => validate_credential_evidence(
            evidence,
            candidate.public_key_fingerprint,
        ).is_ok(),
        None => true,
    };
    let verified_evidence_is_complete = candidate_evidence_is_verified(candidate);
    let has_any_proof_state = candidate.credential_evidence.is_some()
        || candidate.proof_of_possession_status.is_some();
    let is_public = metadata.descriptor.is_some() || metadata.token_key_id.is_some();
    evidence_is_valid && (!has_any_proof_state || verified_evidence_is_complete) && (!is_public
        || verified_evidence_is_complete)
}

fn public_state_of(record: &AgentRegistryRecord) -> (state: Option<StorageEnrollmentState>)
    ensures
        state == expected_public_state(*record),
{
    match record.enrollment.state {
        AgentEnrollmentState::TokenIssued => None,
        AgentEnrollmentState::PendingApproval => Some(StorageEnrollmentState::PendingApproval),
        AgentEnrollmentState::Approved => match record.storage_enrollment.state {
            Some(StorageEnrollmentState::Approved) => Some(StorageEnrollmentState::Approved),
            Some(StorageEnrollmentState::Enrolled) => Some(StorageEnrollmentState::Enrolled),
            _ => None,
        },
        AgentEnrollmentState::Rejected => Some(StorageEnrollmentState::Rejected),
        AgentEnrollmentState::Expired => if record.candidate.is_some() {
            Some(StorageEnrollmentState::Expired)
        } else {
            None
        },
        AgentEnrollmentState::Revoked => None,
    }
}

pub fn validate_storage_enrollment_metadata(
    record: &AgentRegistryRecord,
    derived_pvc_identity: Option<PvcIdentityDigest>,
) -> (result: CentralResult<()>)
    ensures
        fault_of(result) == storage_metadata_fault(*record, derived_pvc_identity),
{
    let metadata = &record.storage_enrollment;
    if metadata.record_format == AgentRegistryRecordFormat::LegacyV2 {
        if metadata.descriptor.is_some() || metadata.token_key_id.is_some()
            || metadata.registration_kind.is_some() || metadata.state.is_some()
            || metadata.updated_at_unix_ms.is_some()
            || metadata.lifecycle_audit_events.len() != 0 {
            return Err(
                corruption("legacy Agent enrollment contains partially upgraded public metadata"),
            );
        }
        return Ok(());
    }
    let expected_kind = if record.enrollment.replaces_enrollment_id.is_some() {
        StorageEnrollmentRegistrationKind::Replacement
    } else {
        StorageEnrollmentRegistrationKind::Initial
    };
    if metadata.registration_kind != Some(expected_kind) || metadata.updated_at_unix_ms.is_none()
        || metadata.lifecycle_audit_events.len() == 0 {
        return Err(
            corruption("current Agent enrollment lacks registration, time, or lifecycle metadata"),
        );
    }
    if metadata.descriptor.is_some() {
        match derived_pvc_identity {
            None => return Err(corruption("frozen PVC descriptor is invalid")),
            Some(derived) => if derived != record.enrollment.pvc_identity_digest {
                return Err(
                    corruption("frozen PVC descriptor differs from the enrollment identity"),
                );
            },
        }
    }
    if let Some(key_id) = &metadata.token_key_id {
        if !resource_identifier_is_valid(key_id.as_str()) {
            return Err(corruption("persisted bootstrap token key ID is invalid"));
        }
    }
    if let Some(candidate) = &record.candidate {
        if !candidate_evidence_holds(record, candidate) {
            return Err(corruption("persisted Agent credential evidence is not server-verified"));
        }
    }
    if metadata.state != public_state_of(record) {
        return Err(
            corruption("Agent enrollment public state differs from its internal lifecycle"),
        );
    }
    let creation_time_fits = match record.enrollment.bootstrapped_at_unix_ms {
        Some(created_at) => created_at <= MAX_KEYSET_MILLIS,
        None => false,
    };
    if metadata.state.is_some() && !creation_time_fits {
        return Err(
            corruption("Agent enrollment public creation time exceeds the SQLite keyset range"),
        );
    }
    if !lifecycle_holds(record) {
        return Err(corruption("Agent enrollment lifecycle audit is malformed or out of order"));
    }
    let first = &metadata.lifecycle_audit_events[0];
    if first.kind != AgentEnrollmentLifecycleAuditKind::TokenIssued || first.resource_version
        != 1 {
        return Err(
            corruption("Agent enrollment lifecycle audit does not start at token issuance"),
        );
    }
    Ok(())
}

/// Enrollment, mount and owner speak of the same tenant, Volume and mount; nothing has generation
/// zero; no enrollment replaces itself.
pub open spec fn scope_is_consistent(record: AgentRegistryRecord) -> bool {
    let enrollment = record.enrollment;
    &&& record.resource_version != 0
    &&& record.mount.mount_generation != 0
    &&& record.owner.owner_generation != 0
    &&& enrollment.tenant_id@ == record.owner.tenant_id@
    &&& enrollment.storage_volume_id@ == record.mount.storage_volume_id@
    &&& enrollment.storage_volume_id@ == record.owner.storage_volume_id@
    &&& enrollment.reserved_agent_mount_id@ == record.mount.agent_mount_id@
    &&& !names(enrollment.replaces_enrollment_id, enrollment.enrollment_id@)
    &&& !names(enrollment.replaced_by_enrollment_id, enrollment.enrollment_id@)
}

/// The static identity of an instance is that of the candidate.
pub open spec fn instance_is_candidate(
    instance: AgentInstanceRecord,
    candidate: AgentCandidateRecord,
) -> bool {
    &&& instance.installation_id@ == candidate.installation_id@
    &&& instance.public_key_fingerprint == candidate.public_key_fingerprint
    &&& instance.agent_version@ == candidate.agent_version@
    &&& instance.supported_protocol_versions@ == candidate.supported_protocol_versions@
    &&& instance.capabilities.same(candidate.capabilities)
}

/// A connected instance has complete session metadata, a disconnected one has none.
pub open spec fn session_metadata_is_complete(instance: AgentInstanceRecord) -> bool {
    if instance.active_boot_id is Some {
        &&& instance.session_generation is Some
        &&& instance.active_session_id is Some
        &&& instance.session_open_expected_resource_version is Some
        &&& instance.session_opened_at_unix_ms is Some
        &&& (instance.last_heartbeat_at_unix_ms is Some) == (instance.last_sequence is Some)
    } else {
        &&& instance.active_session_id is None
        &&& instance.session_open_expected_resource_version is None
        &&& instance.session_opened_at_unix_ms is None
        &&& instance.last_heartbeat_at_unix_ms is None
        &&& instance.last_sequence is None
    }
}

/// The instance is the reserved Agent, made from the accepted candidate.
pub open spec fn instance_is_consistent(
    record: AgentRegistryRecord,
    instance: AgentInstanceRecord,
) -> bool {
    &&& instance.agent_id@ == record.enrollment.reserved_agent_id@
    &&& instance.session_generation != Some(0u64)
    &&& record.candidate matches Some(candidate) && instance_is_candidate(instance, candidate)
    &&& session_metadata_is_complete(instance)
}

/// The candidate carries the bootstrap request identity of the enrollment, and only a bootstrapped
/// enrollment has one.
pub open spec fn bootstrap_identity_agrees(record: AgentRegistryRecord) -> bool {
    match (record.candidate, record.enrollment.bootstrap_request_id) {
        (None, None) => true,
        (Some(candidate), Some(request_id)) => candidate.bootstrap_request_id@ == request_id@,
        _ => false,
    }
}

/// Decision request, time and actor stand together, exactly in the decided states.
pub open spec fn decision_is_complete(record: AgentRegistryRecord) -> bool {
    let enrollment = record.enrollment;
    if enrollment.state is Approved || enrollment.state is Rejected || enrollment.state is Revoked {
        &&& enrollment.decision_request is Some
        &&& enrollment.decided_at_unix_ms is Some
        &&& enrollment.decided_by is Some
    } else {
        &&& enrollment.decision_request is None
        &&& enrollment.decided_at_unix_ms is None
        &&& enrollment.decided_by is None
    }
}

/// The decided state is the one that the decision asked for.
pub open spec fn decision_value_agrees(record: AgentRegistryRecord) -> bool {
    let enrollment = record.enrollment;
    match enrollment.state {
        AgentEnrollmentState::Approved | AgentEnrollmentState::Revoked =>
            enrollment.decision_request matches Some(request) && request.decision is Approve
            && request.confirm_replacement == (enrollment.replaces_enrollment_id is Some),
        AgentEnrollmentState::Rejected => enrollment.decision_request matches Some(request)
            && request.decision is Reject && !request.confirm_replacement,
        _ => true,
    }
}

/// Decided enrollments hold the audit event that they determine, others hold none.
pub open spec fn audit_agrees(record: AgentRegistryRecord) -> bool {
    let state = record.enrollment.state;
    if state is Approved || state is Rejected || state is Revoked {
        decision_audit_agrees(record)
    } else {
        record.decision_audit_event is None
    }
}

/// The candidate has bootstrapped and its review has a deadline.
pub open spec fn review_is_dated(record: AgentRegistryRecord) -> bool {
    &&& record.enrollment.bootstrapped_at_unix_ms is Some
    &&& record.enrollment.review_expires_at_unix_ms is Some
}

/// Candidate, instance and owner are as the enrollment state requires.
pub open spec fn state_shape_is_valid(record: AgentRegistryRecord) -> bool {
    match record.enrollment.state {
        AgentEnrollmentState::TokenIssued => {
            &&& record.candidate is None
            &&& record.instance is None
            &&& record.enrollment.bootstrapped_at_unix_ms is None
            &&& record.enrollment.review_expires_at_unix_ms is None
            &&& record.owner.state is Inactive
        },
        AgentEnrollmentState::PendingApproval | AgentEnrollmentState::Rejected => {
            &&& record.candidate is Some
            &&& record.instance is None
            &&& review_is_dated(record)
            &&& record.owner.state is Inactive
        },
        AgentEnrollmentState::Approved => {
            &&& record.candidate is Some
            &&& record.instance matches Some(instance) && instance.state is Active
            &&& review_is_dated(record)
            &&& !(record.owner.state is Inactive)
        },
        AgentEnrollmentState::Expired => {
            &&& record.instance is None
            &&& record.owner.state is Inactive
            &&& if record.candidate is Some {
                record.enrollment.bootstrap_request_id is Some && review_is_dated(record)
            } else {
                &&& record.enrollment.bootstrap_request_id is None
                &&& record.enrollment.bootstrapped_at_unix_ms is None
                &&& record.enrollment.review_expires_at_unix_ms is None
            }
        },
        AgentEnrollmentState::Revoked => {
            &&& record.instance matches Some(instance) && instance.state is Revoked
            &&& review_is_dated(record)
            &&& record.owner.state is Inactive
        },
    }
}

/// What is wrong with the owner of a record.
pub open spec fn owner_fault(record: AgentRegistryRecord) -> Option<Fault> {
    if record.owner.state is Inactive {
        if record.owner.active_agent_id is Some || record.owner.active_agent_mount_id is Some {
            Some(corruption_fault("inactive Volume owner retains an active Agent identity"@))
        } else {
            None
        }
    } else {
        match record.instance {
            None => Some(corruption_fault("active Volume owner has no Agent instance"@)),
            Some(instance) => if !(instance.state is Active) || !names(
                record.owner.active_agent_id,
                instance.agent_id@,
            ) || !names(record.owner.active_agent_mount_id, record.mount.agent_mount_id@) {
                Some(corruption_fault("Volume owner identity differs from its Agent and mount"@))
            } else {
                None
            },
        }
    }
}

/// What is wrong with an enrollment aggregate: the first rule that it breaks.
pub open spec fn registry_record_fault(
    record: AgentRegistryRecord,
    derived_pvc_identity: Option<PvcIdentityDigest>,
) -> Option<Fault> {
    let enrollment = record.enrollment;
    if registry_marker_fault(record) is Some {
        registry_marker_fault(record)
    } else if storage_metadata_fault(record, derived_pvc_identity) is Some {
        storage_metadata_fault(record, derived_pvc_identity)
    } else if !scope_is_consistent(record) {
        Some(
            corruption_fault("Agent registry aggregate contains inconsistent scope or generation"@),
        )
    } else if record.instance matches Some(instance) && !instance_is_consistent(record, instance) {
        Some(
            corruption_fault(
                "Agent instance differs from its reserved candidate or session identity"@,
            ),
        )
    } else if !bootstrap_identity_agrees(record) {
        Some(corruption_fault("Agent candidate differs from its bootstrap request identity"@))
    } else if enrollment.decision_request matches Some(request) && request.enrollment_id@
        != enrollment.enrollment_id@ {
        Some(corruption_fault("persisted decision request targets another enrollment"@))
    } else if !decision_is_complete(record) {
        Some(
            corruption_fault(
                "Agent enrollment decision state lacks its stable request identity or actor"@,
            ),
        )
    } else if !decision_value_agrees(record) {
        Some(
            corruption_fault("Agent enrollment state disagrees with its persisted decision value"@),
        )
    } else if !audit_agrees(record) {
        Some(corruption_fault("Agent enrollment decision and immutable audit event disagree"@))
    } else if !state_shape_is_valid(record) {
        Some(
            corruption_fault(
                "Agent enrollment state disagrees with its candidate, instance, or owner"@,
            ),
        )
    } else if owner_fault(record) is Some {
        owner_fault(record)
    } else if enrollment.replaced_by_enrollment_id is Some && !(enrollment.state is Revoked) {
        Some(corruption_fault("only a revoked enrollment can point at its replacement"@))
    } else if enrollment.replaced_by_enrollment_id is None && enrollment.state is Revoked {
        Some(corruption_fault("a revoked enrollment must point at its replacement"@))
    } else {
        None
    }
}

fn scope_holds(record: &AgentRegistryRecord) -> (consistent: bool)
    ensures
        consistent == scope_is_consistent(*record),
{
    record.resource_version != 0 && record.mount.mount_generation != 0
        && record.owner.owner_generation != 0 && record.enrollment.tenant_id
        == record.owner.tenant_id && record.enrollment.storage_volume_id
        == record.mount.storage_volume_id && record.enrollment.storage_volume_id
        == record.owner.storage_volume_id && record.enrollment.reserved_agent_mount_id
        == record.mount.agent_mount_id && !is_named(
        &record.enrollment.replaces_enrollment_id,
        &record.enrollment.enrollment_id,
    ) && !is_named(
        &record.enrollment.replaced_by_enrollment_id,
        &record.enrollment.enrollment_id,
    )
}

fn instance_holds(record: &AgentRegistryRecord, instance: &AgentInstanceRecord) -> (consistent:
    bool)
    ensures
        consistent == instance_is_consistent(*record, *instance),
{
    let static_identity_matches = match &record.candidate {
        Some(candidate) => instance.installation_id == candidate.installation_id
            && instance.public_key_fingerprint == candidate.public_key_fingerprint
            && instance.agent_version == candidate.agent_version && numbers_equal(
            &instance.supported_protocol_versions,
            &candidate.supported_protocol_versions,
        ) && instance.capabilities == candidate.capabilities,
        None => false,
    };
    let session_metadata_complete = if instance.active_boot_id.is_some() {
        instance.session_generation.is_some() && instance.active_session_id.is_some()
            && instance.session_open_expected_resource_version.is_some()
            && instance.session_opened_at_unix_ms.is_some()
            && instance.last_heartbeat_at_unix_ms.is_some() == instance.last_sequence.is_some()
    } else {
        instance.active_session_id.is_none()
            && instance.session_open_expected_resource_version.is_none()
            && instance.session_opened_at_unix_ms.is_none()
            && instance.last_heartbeat_at_unix_ms.is_none() && instance.last_sequence.is_none()
    };
    instance.agent_id == record.enrollment.reserved_agent_id && instance.session_generation
        != Some(0u64) && static_identity_matches && session_metadata_complete
}

fn decision_holds(record: &AgentRegistryRecord) -> (complete: bool)
    ensures
        complete == decision_is_complete(*record),
{
    let enrollment = &record.enrollment;
    match enrollment.state {
        AgentEnrollmentState::Approved
        | AgentEnrollmentState::Rejected
        | AgentEnrollmentState::Revoked => enrollment.decision_request.is_some()
            && enrollment.decided_at_unix_ms.is_some() && enrollment.decided_by.is_some(),
        AgentEnrollmentState::TokenIssued
        | AgentEnrollmentState::PendingApproval
        | AgentEnrollmentState::Expired => enrollment.decision_request.is_none()
            && enrollment.decided_at_unix_ms.is_none() && enrollment.decided_by.is_none(),
    }
}

fn decision_value_holds(record: &AgentRegistryRecord) -> (agrees: bool)
    ensures
        agrees == decision_value_agrees(*record),
{
    match record.enrollment.state {
        AgentEnrollmentState::Approved | AgentEnrollmentState::Revoked => match &record.enrollment.decision_request {
            Some(request) => request.decision == AgentEnrollmentDecision::Approve
                && request.confirm_replacement
                == record.enrollment.replaces_enrollment_id.is_some(),
            None => false,
        },
        AgentEnrollmentState::Rejected => match &record.enrollment.decision_request {
            Some(request) => request.decision == AgentEnrollmentDecision::Reject
                && !request.confirm_replacement,
            None => false,
        },
        _ => true,
    }
}

fn state_shape_holds(record: &AgentRegistryRecord) -> (valid: bool)
    ensures
        valid == state_shape_is_valid(*record),
{
    let dated = record.enrollment.bootstrapped_at_unix_ms.is_some()
        && record.enrollment.review_expires_at_unix_ms.is_some();
    let undated = record.enrollment.bootstrapped_at_unix_ms.is_none()
        && record.enrollment.review_expires_at_unix_ms.is_none();
    let inactive = record.owner.state == VolumeOwnerState::Inactive;
    match record.enrollment.state {
        AgentEnrollmentState::TokenIssued => record.candidate.is_none()
            && record.instance.is_none() && undated && inactive,
        AgentEnrollmentState::PendingApproval | AgentEnrollmentState::Rejected =>
            record.candidate.is_some() && record.instance.is_none() && dated && inactive,
        AgentEnrollmentState::Approved => {
            let active = match &record.instance {
                Some(instance) => instance.state == AgentInstanceState::Active,
                None => false,
            };
            record.candidate.is_some() && active && dated && !inactive
        },
        AgentEnrollmentState::Expired => {
            let bootstrapped = record.candidate.is_some()
                && record.enrollment.bootstrap_request_id.is_some() && dated;
            let unused = record.candidate.is_none()
                && record.enrollment.bootstrap_request_id.is_none() && undated;
            record.instance.is_none() && inactive && (bootstrapped || unused)
        },
        AgentEnrollmentState::Revoked => {
            let revoked = match &record.instance {
                Some(instance) => instance.state == AgentInstanceState::Revoked,
                None => false,
            };
            revoked && dated && inactive
        },
    }
}

fn validate_owner(record: &AgentRegistryRecord) -> (result: CentralResult<()>)
    ensures
        fault_of(result) == owner_fault(*record),
{
    match record.owner.state {
        VolumeOwnerState::Inactive => {
            if record.owner.active_agent_id.is_some()
                || record.owner.active_agent_mount_id.is_some() {
                return Err(corruption("inactive Volume owner retains an active Agent identity"));
            }
        },
        VolumeOwnerState::Active | VolumeOwnerState::RecoveryRequired => {
            let instance = match &record.instance {
                Some(instance) => instance,
                None => return Err(corruption("active Volume owner has no Agent instance")),
            };
            if instance.state != AgentInstanceState::Active || !is_named(
                &record.owner.active_agent_id,
                &instance.agent_id,
            ) || !is_named(&record.owner.active_agent_mount_id, &record.mount.agent_mount_id) {
                return Err(corruption("Volume owner identity differs from its Agent and mount"));
            }
        },
    }
    Ok(())
}

/// Checks an enrollment aggregate against every rule, in order.
pub fn validate_registry_record(
    record: &AgentRegistryRecord,
    derived_pvc_identity: Option<PvcIdentityDigest>,
) -> (result: CentralResult<()>)
    ensures
        fault_of(result) == registry_record_fault(*record, derived_pvc_identity),
{
    ensure_registry_marker_invariant(record)?;
    validate_storage_enrollment_metadata(record, derived_pvc_identity)?;
    if !scope_holds(record) {
        return Err(
            corruption("Agent registry aggregate contains inconsistent scope or generation"),
        );
    }
    if let Some(instance) = &record.instance {
        if !instance_holds(record, instance) {
            return Err(
                corruption(
                    "Agent instance differs from its reserved candidate or session identity",
                ),
            );
        }
    }
    let bootstrap_identity_holds = match (
        &record.candidate,
        &record.enrollment.bootstrap_request_id,
    ) {
        (None, None) => true,
        (Some(candidate), Some(request_id)) => candidate.bootstrap_request_id == *request_id,
        _ => false,
    };
    if !bootstrap_identity_holds {
        return Err(corruption("Agent candidate differs from its bootstrap request identity"));
    }
    if let Some(request) = &record.enrollment.decision_request {
        if request.enrollment_id != record.enrollment.enrollment_id {
            return Err(corruption("persisted decision request targets another enrollment"));
        }
    }
    if !decision_holds(record) {
        return Err(
            corruption(
                "Agent enrollment decision state lacks its stable request identity or actor",
            ),
        );
    }
    if !decision_value_holds(record) {
        return Err(
            corruption("Agent enrollment state disagrees with its persisted decision value"),
        );
    }
    let audit_holds = match record.enrollment.state {
        AgentEnrollmentState::Approved
        | AgentEnrollmentState::Rejected
        | AgentEnrollmentState::Revoked => decision_audit_matches(record),
        AgentEnrollmentState::TokenIssued
        | AgentEnrollmentState::PendingApproval
        | AgentEnrollmentState::Expired => record.decision_audit_event.is_none(),
    };
    if !audit_holds {
        return Err(corruption("Agent enrollment decision and immutable audit event disagree"));
    }
    if !state_shape_holds(record) {
        return Err(
            corruption("Agent enrollment state disagrees with its candidate, instance, or owner"),
        );
    }
    validate_owner(record)?;
    if record.enrollment.replaced_by_enrollment_id.is_some() && record.enrollment.state
        != AgentEnrollmentState::Revoked {
        return Err(corruption("only a revoked enrollment can point at its replacement"));
    }
    if record.enrollment.state == AgentEnrollmentState::Revoked
        && record.enrollment.replaced_by_enrollment_id.is_none() {
        return Err(corruption("a revoked enrollment must point at its replacement"));
    }
    Ok(())
}

/// Only a fresh token intent may be inserted.
pub fn validate_registry_insert(
    record: &AgentRegistryRecord,
    derived_pvc_identity: Option<PvcIdentityDigest>,
) -> (result: CentralResult<()>)
    ensures
        fault_of(result) == registry_insert_fault(*record, derived_pvc_identity),
{
    validate_registry_record(record, derived_pvc_identity)?;
    if record.enrollment.state != AgentEnrollmentState::TokenIssued {
        return Err(corruption("Agent registry insertion requires a fresh token intent"));
    }
    Ok(())
}

/// What is wrong with a record that is to be inserted.
pub open spec fn registry_insert_fault(
    record: AgentRegistryRecord,
    derived_pvc_identity: Option<PvcIdentityDigest>,
) -> Option<Fault> {
    match registry_record_fault(record, derived_pvc_identity) {
        Some(fault) => Some(fault),
        None => if record.enrollment.state is TokenIssued {
            None
        } else {
            Some(corruption_fault("Agent registry insertion requires a fresh token intent"@))
        },
    }
}

/// The candidate saw the frozen Volume, mounted as required and healthy enough.
pub open spec fn probe_is_sufficient(
    record: AgentRegistryRecord,
    probe: AgentBootstrapProbe,
) -> bool {
    &&& probe.marker_matches
    &&& names(probe.observed_volume_marker, record.mount.expected_volume_marker@)
    &&& probe.mount_boundary_detected
    &&& probe.access_mode == Some(record.mount.desired_access_mode)
    &&& record.mount.desired_access_mode is ReadWrite ==> probe.rename_supported
        && probe.fsync_supported
    &&& probe.health is Ready || probe.health is Degraded
}

pub fn validate_bootstrap_probe(
    record: &AgentRegistryRecord,
    probe: &AgentBootstrapProbe,
) -> (result: CentralResult<()>)
    ensures
        fault_of(result) == if probe_is_sufficient(*record, *probe) {
            None::<Fault>
        } else {
            Some(
                final_fault(
                    CentralErrorCode::EnrollmentProbeFailed,
                    "bootstrap probe does not prove the frozen Volume marker, mount boundary, access mode, and required filesystem semantics"@,
                ),
            )
        },
{
    let marker_matches = is_named(
        &probe.observed_volume_marker,
        &record.mount.expected_volume_marker,
    );
    let access_mode_matches = probe.access_mode == Some(record.mount.desired_access_mode);
    let read_write_capabilities = record.mount.desired_access_mode != MountAccessMode::ReadWrite
        || (probe.rename_supported && probe.fsync_supported);
    let unhealthy = matches!(probe.health, ResourceHealth::Unavailable | ResourceHealth::Unknown);
    if !probe.marker_matches || !marker_matches || !probe.mount_boundary_detected
        || !access_mode_matches || !read_write_capabilities || unhealthy {
        return Err(
            final_failure(
                CentralErrorCode::EnrollmentProbeFailed,
                "bootstrap probe does not prove the frozen Volume marker, mount boundary, access mode, and required filesystem semantics",
            ),
        );
    }
    Ok(())
}

} // verus!
