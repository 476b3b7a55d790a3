//! What makes an enrollment, or what is said about it, valid.
use vstd::prelude::*;

use crate::agent_registry::lifecycle::{decision_audit_agrees, lifecycle_event_text};
use crate::agent_registry::records::{
    AgentBootstrapProbe, AgentCredentialEvidence, AgentEnrollmentDecision,
    AgentProofOfPossessionStatus, AgentRegistryRecord, FrozenStorageDescriptor,
    StorageEnrollmentRegistrationKind, StorageEnrollmentState,
};
use crate::agent_registry::validation::{
    ensure_registry_marker_invariant, lifecycle_entry_is_valid, require_current_registry_record,
    require_public_enrollment_metadata, validate_bootstrap_probe, validate_credential_evidence,
    validate_enrollment_list_request, validate_frozen_descriptor, validate_registry_insert,
    validate_registry_record, validate_rejection_reason, validate_storage_enrollment_metadata,
    validate_token_key_id, AgentEnrollmentListRequest,
};
use crate::digest::{ContentDigest, PvcIdentityDigest};
use crate::equality::Same;
use crate::error::{CentralErrorCode, CentralResult};
use crate::identifier::OpaqueText;
use crate::laws::jobs::fails_with;
use crate::text::{resource_identifier_is_valid, text_is_blank};

verus! {

/// A frozen description counts where it has a name of 1 to 256 characters that is not blank, a region
/// that is a resource identifier, and the claim that it was frozen for.
pub proof fn lemma_description_counts(
    descriptor: &FrozenStorageDescriptor,
    expected: PvcIdentityDigest,
    derived: CentralResult<PvcIdentityDigest>,
    name: &str,
    region: &str,
    blank: bool,
    named: bool,
    result: CentralResult<()>,
)
    requires
        call_ensures(validate_frozen_descriptor, (descriptor, expected, derived), result),
        call_ensures(text_is_blank, (name,), blank),
        call_ensures(resource_identifier_is_valid, (region,), named),
        name@ == descriptor.display_name@,
        region@ == descriptor.region@,
    ensures
        result is Ok <==> {
            &&& !blank
            &&& descriptor.display_name@.len() <= 256
            &&& named
            &&& derived == CentralResult::<PvcIdentityDigest>::Ok(expected)
        },
        blank || descriptor.display_name@.len() > 256 || !named ==> fails_with(
            result,
            CentralErrorCode::ProtocolInvalid,
        ),
        !blank && descriptor.display_name@.len() <= 256 && named && derived is Ok && result is Err
            ==> fails_with(result, CentralErrorCode::AgentIdentityMismatch),
{
}

/// A token key is named by a resource identifier.
pub proof fn lemma_token_key_is_named(key_id: &str, named: bool, result: CentralResult<()>)
    requires
        call_ensures(validate_token_key_id, (key_id,), result),
        call_ensures(resource_identifier_is_valid, (key_id,), named),
    ensures
        result is Ok <==> named,
        result is Err ==> fails_with(result, CentralErrorCode::ProtocolInvalid),
{
}

/// A credential counts where it is an Ed25519 key of the fingerprint that was declared.
pub proof fn lemma_credential_counts(
    evidence: &AgentCredentialEvidence,
    fingerprint: ContentDigest,
    result: CentralResult<()>,
)
    requires
        call_ensures(validate_credential_evidence, (evidence, fingerprint), result),
    ensures
        result is Ok <==> evidence.algorithm is Ed25519 && evidence.public_key_spki.fingerprint
            == fingerprint,
        !(evidence.algorithm is Ed25519) ==> fails_with(result, CentralErrorCode::BootstrapDenied),
        evidence.algorithm is Ed25519 && result is Err ==> fails_with(
            result,
            CentralErrorCode::AgentIdentityMismatch,
        ),
{
}

/// A reason may be given for a rejection only, in 1 to 2048 characters; none need be given.
pub proof fn lemma_reason_is_for_a_rejection(
    decision: AgentEnrollmentDecision,
    reason: &Option<OpaqueText>,
    result: CentralResult<()>,
)
    requires
        call_ensures(validate_rejection_reason, (decision, reason), result),
    ensures
        reason is None ==> result is Ok,
        reason matches Some(text) ==> (result is Ok <==> decision is Reject && 0 < text@.len()
            <= 2048),
        result is Err ==> fails_with(result, CentralErrorCode::ProtocolInvalid),
{
}

/// Enrollments are listed by 1 to 100 at a time, for a query of 1 to 256 characters if there is one,
/// after a time that a column can hold.
pub proof fn lemma_enrollment_list_has_limits(
    request: &AgentEnrollmentListRequest,
    result: CentralResult<()>,
)
    requires
        call_ensures(validate_enrollment_list_request, (request,), result),
    ensures
        result is Ok <==> {
            &&& 0 < request.limit <= 100
            &&& request.query matches Some(query) ==> 0 < query@.len() <= 256
            &&& request.after matches Some(cursor) ==> cursor.created_at_unix_ms <= i64::MAX
        },
        result is Err ==> fails_with(result, CentralErrorCode::ProtocolInvalid),
{
}

/// An enrollment is public where it has the current format, a description, a key, a kind, a time, and
/// proof of its candidate once there is one.
pub proof fn lemma_enrollment_is_public(
    record: &AgentRegistryRecord,
    current: CentralResult<()>,
    public: CentralResult<()>,
)
    requires
        call_ensures(require_current_registry_record, (record,), current),
        call_ensures(require_public_enrollment_metadata, (record,), public),
    ensures
        current is Ok <==> record.storage_enrollment.record_format is CurrentV3,
        current is Err ==> fails_with(current, CentralErrorCode::LegacyEnrollmentRequiresReissue),
        public is Ok <==> {
            &&& current is Ok
            &&& record.storage_enrollment.descriptor is Some
            &&& record.storage_enrollment.token_key_id is Some
            &&& record.storage_enrollment.registration_kind is Some
            &&& record.storage_enrollment.updated_at_unix_ms is Some
            &&& record.candidate is Some ==> is_proved(*record)
        },
        public is Err ==> fails_with(public, CentralErrorCode::LegacyEnrollmentRequiresReissue),
{
}

/// The candidate proved that it holds its key.
pub open spec fn is_proved(record: AgentRegistryRecord) -> bool {
    let candidate = record.candidate->0;
    &&& candidate.credential_evidence is Some
    &&& candidate.proof_of_possession_status == Some(AgentProofOfPossessionStatus::Verified)
    &&& candidate.bootstrap_signed_payload_digest is Some
}

/// The volume is marked by its own identity, and the mount is the one that the candidate showed.
pub proof fn lemma_marker_is_the_volume(record: &AgentRegistryRecord, result: CentralResult<()>)
    requires
        call_ensures(ensure_registry_marker_invariant, (record,), result),
    ensures
        result is Ok <==> {
            &&& record.mount.expected_volume_marker@ == record.enrollment.storage_volume_id@
            &&& record.candidate is None ==> record.mount.mount_identity_digest is None
            &&& record.candidate matches Some(candidate) ==> {
                &&& record.mount.mount_identity_digest == Some(
                    candidate.probe.mount_identity_digest,
                )
                &&& candidate.mount_identity_digest == candidate.probe.mount_identity_digest
            }
        },
        result is Err ==> fails_with(result, CentralErrorCode::AgentIdentityMismatch),
{
}

/// A probe is enough where the volume is the marked one, mounted by itself in the wanted mode, with
/// atomic renames and durable writes where it is to be written, and at least degraded.
pub proof fn lemma_probe_is_enough(
    record: &AgentRegistryRecord,
    probe: &AgentBootstrapProbe,
    result: CentralResult<()>,
)
    requires
        call_ensures(validate_bootstrap_probe, (record, probe), result),
    ensures
        result is Ok <==> {
            &&& probe.marker_matches
            &&& probe.observed_volume_marker is Some
            &&& probe.observed_volume_marker->0@ == record.mount.expected_volume_marker@
            &&& probe.mount_boundary_detected
            &&& probe.access_mode == Some(record.mount.desired_access_mode)
            &&& record.mount.desired_access_mode is ReadWrite ==> probe.rename_supported
            &&& record.mount.desired_access_mode is ReadWrite ==> probe.fsync_supported
            &&& !(probe.health is Unavailable) && !(probe.health is Unknown)
        },
        result is Err ==> fails_with(result, CentralErrorCode::EnrollmentProbeFailed),
{
}

/// An event of an enrollment tells of one of its versions, later than the event before; only a
/// rejection gives a reason, of 1 to 2048 characters.
pub open spec fn tells_rightly(record: AgentRegistryRecord, index: int) -> bool {
    let events = record.storage_enrollment.lifecycle_audit_events@;
    let event = events[index];
    &&& event.event_id@ == lifecycle_event_text(
        record.enrollment.enrollment_id@,
        event.resource_version,
        event.kind,
    )
    &&& event.tenant_id@ == record.enrollment.tenant_id@
    &&& event.enrollment_id@ == record.enrollment.enrollment_id@
    &&& event.resource_version >= 1
    &&& event.resource_version <= record.resource_version
    &&& index > 0 ==> event.resource_version > events[index - 1].resource_version
    &&& event.rejection_reason is Some ==> {
        &&& event.kind is Rejected
        &&& 0 < event.rejection_reason->0@.len() <= 2048
    }
}

/// The public state that goes with each internal one.
pub open spec fn shows_its_state(record: AgentRegistryRecord) -> bool {
    let shown = record.storage_enrollment.state;
    let state = record.enrollment.state;
    &&& state is TokenIssued || state is Revoked ==> shown is None
    &&& state is PendingApproval ==> shown == Some(StorageEnrollmentState::PendingApproval)
    &&& state is Rejected ==> shown == Some(StorageEnrollmentState::Rejected)
    &&& state is Approved ==> shown == Some(StorageEnrollmentState::Approved) || shown == Some(
        StorageEnrollmentState::Enrolled,
    ) || shown is None
    &&& state is Expired && record.candidate is Some ==> shown == Some(
        StorageEnrollmentState::Expired,
    )
    &&& state is Expired && record.candidate is None ==> shown is None
}

/// The candidate's credential, where there is one, is its own and proved; a public enrollment and a
/// claimed proof both need one.
pub open spec fn has_a_sound_credential(record: AgentRegistryRecord) -> bool {
    record.candidate matches Some(candidate) ==> {
        &&& candidate.credential_evidence is Some ==> {
            &&& candidate.credential_evidence->0.algorithm is Ed25519
            &&& candidate.credential_evidence->0.public_key_spki.fingerprint
                == candidate.public_key_fingerprint
        }
        &&& {
            ||| candidate.credential_evidence is Some
            ||| candidate.proof_of_possession_status is Some
            ||| record.storage_enrollment.descriptor is Some
            ||| record.storage_enrollment.token_key_id is Some
        } ==> is_proved(record)
    }
}

/// The public side of a current record is sound: its kind says whether it replaces another, it has a
/// time, its description is of its claim, its key is named, its credential counts, it shows its
/// state, and its events begin with the token and follow each other.
pub proof fn lemma_public_side_is_sound(
    record: &AgentRegistryRecord,
    derived: Option<PvcIdentityDigest>,
    key_id: &str,
    named: bool,
    result: CentralResult<()>,
)
    requires
        call_ensures(validate_storage_enrollment_metadata, (record, derived), result),
        call_ensures(resource_identifier_is_valid, (key_id,), named),
        record.storage_enrollment.token_key_id is Some ==> key_id@
            == record.storage_enrollment.token_key_id->0@,
        record.storage_enrollment.record_format is CurrentV3,
    ensures
        ({
            let metadata = record.storage_enrollment;
            let events = metadata.lifecycle_audit_events@;
            result is Ok <==> {
                &&& metadata.registration_kind == Some(
                    if record.enrollment.replaces_enrollment_id is Some {
                        StorageEnrollmentRegistrationKind::Replacement
                    } else {
                        StorageEnrollmentRegistrationKind::Initial
                    },
                )
                &&& metadata.updated_at_unix_ms is Some
                &&& metadata.descriptor is Some ==> derived == Some(
                    record.enrollment.pvc_identity_digest,
                )
                &&& metadata.token_key_id is Some ==> named
                &&& has_a_sound_credential(*record)
                &&& shows_its_state(*record)
                &&& metadata.state is Some ==> {
                    &&& record.enrollment.bootstrapped_at_unix_ms is Some
                    &&& record.enrollment.bootstrapped_at_unix_ms->0 <= i64::MAX
                }
                &&& events.len() > 0
                &&& events[0].kind is TokenIssued
                &&& events[0].resource_version == 1
                &&& forall|i: int| 0 <= i < events.len() ==> #[trigger] tells_rightly(*record, i)
            }
        }),
        result is Err ==> fails_with(result, CentralErrorCode::StorageFailure),
{
    assert(forall|i: int|
        #![trigger tells_rightly(*record, i)]
        #![trigger lifecycle_entry_is_valid(*record, i)]
        tells_rightly(*record, i) == lifecycle_entry_is_valid(*record, i));
}

/// A record of the earlier format has an empty public side.
pub proof fn lemma_earlier_format_is_empty(
    record: &AgentRegistryRecord,
    derived: Option<PvcIdentityDigest>,
    result: CentralResult<()>,
)
    requires
        call_ensures(validate_storage_enrollment_metadata, (record, derived), result),
        record.storage_enrollment.record_format is LegacyV2,
    ensures
        result is Ok <==> {
            &&& record.storage_enrollment.descriptor is None
            &&& record.storage_enrollment.token_key_id is None
            &&& record.storage_enrollment.registration_kind is None
            &&& record.storage_enrollment.state is None
            &&& record.storage_enrollment.updated_at_unix_ms is None
            &&& record.storage_enrollment.lifecycle_audit_events@.len() == 0
        },
        result is Err ==> fails_with(result, CentralErrorCode::StorageFailure),
{
}

/// All parts of a record are of one volume, and nothing has generation zero or replaces itself.
pub open spec fn is_of_one_volume(record: AgentRegistryRecord) -> bool {
    let enrollment = record.enrollment;
    &&& record.resource_version > 0
    &&& record.mount.mount_generation > 0
    &&& record.owner.owner_generation > 0
    &&& record.owner.tenant_id@ == enrollment.tenant_id@
    &&& record.mount.storage_volume_id@ == enrollment.storage_volume_id@
    &&& record.owner.storage_volume_id@ == enrollment.storage_volume_id@
    &&& record.mount.agent_mount_id@ == enrollment.reserved_agent_mount_id@
    &&& enrollment.replaces_enrollment_id is Some ==> enrollment.replaces_enrollment_id->0@
        != enrollment.enrollment_id@
    &&& enrollment.replaced_by_enrollment_id is Some ==> enrollment.replaced_by_enrollment_id->0@
        != enrollment.enrollment_id@
}

/// An Agent is the reserved one, made of the accepted candidate, with a whole session or none.
pub open spec fn is_the_reserved_agent(record: AgentRegistryRecord) -> bool {
    record.instance matches Some(instance) ==> {
        &&& record.candidate is Some
        &&& instance.agent_id@ == record.enrollment.reserved_agent_id@
        &&& instance.session_generation != Some(0u64)
        &&& instance.installation_id@ == record.candidate->0.installation_id@
        &&& instance.public_key_fingerprint == record.candidate->0.public_key_fingerprint
        &&& instance.agent_version@ == record.candidate->0.agent_version@
        &&& instance.supported_protocol_versions@
            == record.candidate->0.supported_protocol_versions@
        &&& instance.capabilities.same(record.candidate->0.capabilities)
        &&& instance.active_boot_id is Some ==> {
            &&& instance.session_generation is Some
            &&& instance.active_session_id is Some
            &&& instance.session_open_expected_resource_version is Some
            &&& instance.session_opened_at_unix_ms is Some
            &&& instance.last_heartbeat_at_unix_ms is Some <==> instance.last_sequence is Some
        }
        &&& instance.active_boot_id is None ==> {
            &&& instance.active_session_id is None
            &&& instance.session_open_expected_resource_version is None
            &&& instance.session_opened_at_unix_ms is None
            &&& instance.last_heartbeat_at_unix_ms is None
            &&& instance.last_sequence is None
        }
    }
}

/// An enrollment was decided on: approved, rejected, or approved and revoked since.
pub open spec fn is_decided(record: AgentRegistryRecord) -> bool {
    ||| record.enrollment.state is Approved
    ||| record.enrollment.state is Rejected
    ||| record.enrollment.state is Revoked
}

/// A decided enrollment, and no other, has a request, a time and a decider, for this enrollment and
/// for the state that it is in.
pub open spec fn has_its_decision(record: AgentRegistryRecord) -> bool {
    let enrollment = record.enrollment;
    &&& enrollment.decision_request is Some <==> is_decided(record)
    &&& enrollment.decided_at_unix_ms is Some <==> is_decided(record)
    &&& enrollment.decided_by is Some <==> is_decided(record)
    &&& enrollment.decision_request matches Some(request) ==> {
        &&& request.enrollment_id@ == enrollment.enrollment_id@
        &&& request.decision is Reject <==> enrollment.state is Rejected
        &&& enrollment.state is Rejected ==> !request.confirm_replacement
        &&& !(enrollment.state is Rejected) ==> (request.confirm_replacement
            <==> enrollment.replaces_enrollment_id is Some)
    }
    &&& is_decided(record) ==> decision_audit_agrees(record)
    &&& !is_decided(record) ==> record.decision_audit_event is None
}

/// What an enrollment holds in each of its states.
pub open spec fn holds_what_its_state_needs(record: AgentRegistryRecord) -> bool {
    let enrollment = record.enrollment;
    let state = enrollment.state;
    &&& record.candidate is Some <==> enrollment.bootstrap_request_id is Some
    &&& record.candidate is Some ==> record.candidate->0.bootstrap_request_id@
        == enrollment.bootstrap_request_id->0@
    &&& state is TokenIssued ==> record.candidate is None
    &&& state is PendingApproval || state is Rejected || state is Approved
        ==> record.candidate is Some
    &&& record.instance is Some <==> state is Approved || state is Revoked
    &&& state is Approved ==> record.instance->0.state is Active
    &&& state is Revoked ==> record.instance->0.state is Revoked
    &&& record.owner.state is Inactive <==> !(state is Approved)
    &&& record.candidate is Some || state is Revoked ==> {
        &&& enrollment.bootstrapped_at_unix_ms is Some
        &&& enrollment.review_expires_at_unix_ms is Some
    }
    &&& state is TokenIssued || (state is Expired && record.candidate is None) ==> {
        &&& enrollment.bootstrapped_at_unix_ms is None
        &&& enrollment.review_expires_at_unix_ms is None
    }
    &&& enrollment.replaced_by_enrollment_id is Some <==> state is Revoked
}

/// An active owner is the Agent of the record on its mount, and an inactive one is nobody.
pub open spec fn has_its_owner(record: AgentRegistryRecord) -> bool {
    let owner = record.owner;
    &&& owner.state is Inactive ==> owner.active_agent_id is None && owner.active_agent_mount_id
        is None
    &&& !(owner.state is Inactive) ==> {
        &&& record.instance is Some
        &&& record.instance->0.state is Active
        &&& owner.active_agent_id is Some
        &&& owner.active_agent_id->0@ == record.instance->0.agent_id@
        &&& owner.active_agent_mount_id is Some
        &&& owner.active_agent_mount_id->0@ == record.mount.agent_mount_id@
    }
}

/// A record is valid exactly where its marker, its public side, its scope, its Agent, its decision,
/// its state and its owner all are; only an issued token may be inserted.
pub proof fn lemma_record_is_valid(
    record: &AgentRegistryRecord,
    derived: Option<PvcIdentityDigest>,
    marked: CentralResult<()>,
    public: CentralResult<()>,
    result: CentralResult<()>,
    inserted: CentralResult<()>,
)
    requires
        call_ensures(validate_registry_record, (record, derived), result),
        call_ensures(validate_registry_insert, (record, derived), inserted),
        call_ensures(ensure_registry_marker_invariant, (record,), marked),
        call_ensures(validate_storage_enrollment_metadata, (record, derived), public),
    ensures
        result is Ok <==> {
            &&& marked is Ok
            &&& public is Ok
            &&& is_of_one_volume(*record)
            &&& is_the_reserved_agent(*record)
            &&& has_its_decision(*record)
            &&& holds_what_its_state_needs(*record)
            &&& has_its_owner(*record)
        },
        inserted is Ok <==> result is Ok && record.enrollment.state is TokenIssued,
        marked is Ok && result is Err ==> fails_with(result, CentralErrorCode::StorageFailure),
{
}

} // verus!
