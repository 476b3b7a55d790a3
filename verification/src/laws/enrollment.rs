//! What enrolling an Agent promises: from the token to the decision.
use vstd::prelude::*;

use crate::agent_registry::bootstrap::{
    admit_bootstrap, admit_bootstrap_status, apply_bootstrap, bootstrap_candidate,
    bootstrap_status_response, conclude_bootstrap, conclude_status_watermark, conclude_token_expiry,
    expire_record, identify_bootstrap_status, verify_bootstrap_credential, AgentBootstrapAccepted,
    AgentBootstrapRequest, AgentBootstrapStatusRequest, AgentBootstrapStatusResponse,
    BootstrapAdmission, BootstrapAgentResult, BootstrapIdentityOwners, BootstrapStep,
};
use crate::agent_registry::intent::{
    plan_token_intent, replay_token_intent, resolve_token_insert, AgentEnrollmentTokenCreateRequest,
    AgentRegistryInsertOutcome, CreateAgentEnrollmentTokenResult, PvcVolumeBinding,
    StorageIntentMetadata,
};
use crate::agent_registry::records::{
    AgentCandidateRecord, AgentCredentialEvidence, AgentEnrollmentLifecycleAuditKind,
    AgentEnrollmentRecord, AgentEnrollmentState, AgentMountRecord, AgentProofOfPossessionStatus,
    AgentRegistryRecord, FrozenStorageDescriptor, StorageEnrollmentMetadata,
    StorageEnrollmentRegistrationKind, StorageEnrollmentState,
};
use crate::digest::ContentDigest;
use crate::equality::Same;
use crate::error::{CentralError, CentralErrorCode, CentralResult};
use crate::identifier::{AgentEnrollmentId, OpaqueText, UnixMillis};
use crate::laws::jobs::fails_with;
use crate::laws::values::is_listed;
use crate::text_set::texts_of;

verus! {

/// The public side of an enrollment moved on: it is in a state since a time, and one event more
/// tells of it, after all that were there. A record of the earlier format has no public side.
pub open spec fn tells_of(
    before: StorageEnrollmentMetadata,
    after: StorageEnrollmentMetadata,
    enrollment: AgentEnrollmentRecord,
    version: int,
    state: Option<StorageEnrollmentState>,
    kind: AgentEnrollmentLifecycleAuditKind,
    at: UnixMillis,
    reason: Option<OpaqueText>,
) -> bool {
    if before.record_format is LegacyV2 {
        after == before
    } else {
        let told = before.lifecycle_audit_events@;
        let tells = after.lifecycle_audit_events@;
        &&& after.record_format == before.record_format
        &&& after.descriptor == before.descriptor
        &&& after.token_key_id == before.token_key_id
        &&& after.registration_kind == before.registration_kind
        &&& after.state == state
        &&& after.updated_at_unix_ms == Some(at)
        &&& tells.len() == told.len() + 1
        &&& forall|i: int| 0 <= i < told.len() ==> #[trigger] tells[i] == told[i]
        &&& tells[told.len() as int].kind == kind
        &&& tells[told.len() as int].tenant_id@ == enrollment.tenant_id@
        &&& tells[told.len() as int].enrollment_id@ == enrollment.enrollment_id@
        &&& tells[told.len() as int].resource_version == version
        &&& tells[told.len() as int].occurred_at_unix_ms == at
        &&& tells[told.len() as int].rejection_reason == reason
    }
}

pub(crate) proof fn lemma_events(before: StorageEnrollmentMetadata, after: StorageEnrollmentMetadata)
    requires
        after.lifecycle_audit_events@.len() == before.lifecycle_audit_events@.len() + 1,
        after.lifecycle_audit_events@.drop_last() == before.lifecycle_audit_events@,
    ensures
        forall|i: int|
            0 <= i < before.lifecycle_audit_events@.len()
                ==> #[trigger] after.lifecycle_audit_events@[i]
                == before.lifecycle_audit_events@[i],
        after.lifecycle_audit_events@[before.lifecycle_audit_events@.len() as int]
            == after.lifecycle_audit_events@.last(),
{
    assert forall|i: int| 0 <= i < before.lifecycle_audit_events@.len() implies
        #[trigger] after.lifecycle_audit_events@[i] == before.lifecycle_audit_events@[i] by {
        assert(after.lifecycle_audit_events@.drop_last()[i] == after.lifecycle_audit_events@[i]);
    }
}

/// Two descriptors describe the same volume.
pub open spec fn describes_the_same(
    left: FrozenStorageDescriptor,
    right: FrozenStorageDescriptor,
) -> bool {
    &&& left.display_name@ == right.display_name@
    &&& left.region@ == right.region@
    &&& left.access_mode == right.access_mode
    &&& left.pvc_reference.namespace@ == right.pvc_reference.namespace@
    &&& left.pvc_reference.claim_name@ == right.pvc_reference.claim_name@
}

/// A record was frozen with a descriptor.
pub open spec fn is_described_by(
    record: AgentRegistryRecord,
    descriptor: FrozenStorageDescriptor,
) -> bool {
    record.storage_enrollment.descriptor is Some && describes_the_same(
        record.storage_enrollment.descriptor->0,
        descriptor,
    )
}

/// A claim is free for a volume, or bound to that very volume.
pub open spec fn claim_is_free(
    binding: Option<PvcVolumeBinding>,
    request: AgentEnrollmentTokenCreateRequest,
) -> bool {
    binding matches Some(bound) ==> {
        &&& bound.tenant_id@ == request.tenant_id@
        &&& bound.edge_cluster_id@ == request.edge_cluster_id@
        &&& bound.storage_volume_id@ == request.storage_volume_id@
    }
}

/// A request is about the volume that a record serves.
pub open spec fn is_about_its_volume(
    current: AgentRegistryRecord,
    request: AgentEnrollmentTokenCreateRequest,
    metadata: Option<StorageIntentMetadata>,
) -> bool {
    &&& current.enrollment.edge_cluster_id@ == request.edge_cluster_id@
    &&& current.enrollment.volume_descriptor_digest == request.volume_descriptor_digest
    &&& current.enrollment.pvc_identity_digest == request.pvc_identity_digest
    &&& current.mount.expected_volume_marker@ == request.expected_volume_marker@
    &&& current.mount.desired_access_mode == request.desired_access_mode
    &&& metadata is Some ==> current.storage_enrollment.record_format is LegacyV2
        || is_described_by(current, metadata->0.descriptor)
}

/// A token is issued where its claim is free and, for a volume that is served, where the request is
/// about that volume and reserves a new Agent and a new mount. What is issued is the first version
/// of an enrollment that carries what the request says and nothing else, starts from the generations
/// of the Agent that it replaces or from one, and tells of its issue.
pub proof fn lemma_token_is_issued(
    request: AgentEnrollmentTokenCreateRequest,
    metadata: &Option<StorageIntentMetadata>,
    binding: &Option<PvcVolumeBinding>,
    current: &Option<AgentRegistryRecord>,
    result: CentralResult<AgentRegistryRecord>,
)
    requires
        call_ensures(plan_token_intent, (request, metadata, binding, current), result),
    ensures
        result is Ok <==> claim_is_free(*binding, request) && (*current is Some ==> {
            &&& is_about_its_volume(current->0, request, *metadata)
            &&& current->0.enrollment.reserved_agent_id@ != request.agent_id@
            &&& current->0.enrollment.reserved_agent_mount_id@ != request.agent_mount_id@
        }),
        !claim_is_free(*binding, request) ==> fails_with(
            result,
            CentralErrorCode::VolumeOwnerConflict,
        ),
        result is Err && claim_is_free(*binding, request) ==> fails_with(
            result,
            CentralErrorCode::AgentIdentityMismatch,
        ),
        result matches Ok(record) ==> {
            &&& record.resource_version == 1
            &&& record.enrollment.state is TokenIssued
            &&& record.enrollment.token_id@ == request.token_id@
            &&& record.enrollment.token_request_id@ == request.token_request_id@
            &&& record.enrollment.enrollment_id@ == request.enrollment_id@
            &&& record.enrollment.tenant_id@ == request.tenant_id@
            &&& record.enrollment.edge_cluster_id@ == request.edge_cluster_id@
            &&& record.enrollment.storage_volume_id@ == request.storage_volume_id@
            &&& record.enrollment.volume_descriptor_digest == request.volume_descriptor_digest
            &&& record.enrollment.pvc_identity_digest == request.pvc_identity_digest
            &&& record.enrollment.reserved_agent_id@ == request.agent_id@
            &&& record.enrollment.reserved_agent_mount_id@ == request.agent_mount_id@
            &&& record.enrollment.bootstrap_token_digest == request.bootstrap_token_digest
            &&& record.enrollment.created_at_unix_ms == request.created_at_unix_ms
            &&& record.enrollment.expires_at_unix_ms == request.expires_at_unix_ms
            &&& record.enrollment.extensions@ == request.extensions@
            &&& record.enrollment.bootstrapped_at_unix_ms is None
            &&& record.enrollment.bootstrap_request_id is None
            &&& record.enrollment.review_expires_at_unix_ms is None
            &&& record.enrollment.decided_at_unix_ms is None
            &&& record.enrollment.decided_by is None
            &&& record.enrollment.decision_request is None
            &&& record.enrollment.replaced_by_enrollment_id is None
            &&& record.candidate is None
            &&& record.instance is None
            &&& record.decision_audit_event is None
            &&& record.mount.agent_mount_id@ == request.agent_mount_id@
            &&& record.mount.storage_volume_id@ == request.storage_volume_id@
            &&& record.mount.expected_volume_marker@ == request.expected_volume_marker@
            &&& record.mount.desired_access_mode == request.desired_access_mode
            &&& record.mount.mount_identity_digest is None
            &&& record.mount.observed_volume_marker is None
            &&& record.mount.observed_access_mode is None
            &&& record.mount.reported_health is None
            &&& record.mount.health is Unknown
            &&& record.mount.observed_at_unix_ms is None
            &&& record.owner.tenant_id@ == request.tenant_id@
            &&& record.owner.storage_volume_id@ == request.storage_volume_id@
            &&& record.owner.active_agent_id is None
            &&& record.owner.active_agent_mount_id is None
            &&& record.owner.state is Inactive
            &&& record.storage_enrollment.record_format is CurrentV3
            &&& record.storage_enrollment.state is None
            &&& record.storage_enrollment.updated_at_unix_ms == Some(request.created_at_unix_ms)
            &&& record.storage_enrollment.lifecycle_audit_events@.len() == 1
            &&& record.storage_enrollment.lifecycle_audit_events@[0].kind is TokenIssued
            &&& record.storage_enrollment.lifecycle_audit_events@[0].resource_version == 1
            &&& match *metadata {
                None => record.storage_enrollment.descriptor is None
                    && record.storage_enrollment.token_key_id is None,
                Some(frozen) => {
                    &&& record.storage_enrollment.descriptor == Some(frozen.descriptor)
                    &&& record.storage_enrollment.token_key_id is Some
                    &&& record.storage_enrollment.token_key_id->0@ == frozen.token.key_id@
                },
            }
            &&& match *current {
                None => {
                    &&& record.enrollment.replaces_enrollment_id is None
                    &&& record.mount.mount_generation == 1
                    &&& record.owner.owner_generation == 1
                    &&& record.storage_enrollment.registration_kind == Some(
                        StorageEnrollmentRegistrationKind::Initial,
                    )
                },
                Some(served) => {
                    &&& record.enrollment.replaces_enrollment_id == Some(
                        served.enrollment.enrollment_id,
                    )
                    &&& record.mount.mount_generation == served.mount.mount_generation
                    &&& record.owner.owner_generation == served.owner.owner_generation
                    &&& record.storage_enrollment.registration_kind == Some(
                        StorageEnrollmentRegistrationKind::Replacement,
                    )
                },
            }
        },
{
}

/// A token request asks for the volume that a record was issued for.
pub open spec fn asks_for_its_volume(
    record: AgentRegistryRecord,
    request: AgentEnrollmentTokenCreateRequest,
) -> bool {
    &&& record.enrollment.token_request_id@ == request.token_request_id@
    &&& record.enrollment.tenant_id@ == request.tenant_id@
    &&& record.enrollment.edge_cluster_id@ == request.edge_cluster_id@
    &&& record.enrollment.storage_volume_id@ == request.storage_volume_id@
    &&& record.enrollment.volume_descriptor_digest == request.volume_descriptor_digest
    &&& record.enrollment.pvc_identity_digest == request.pvc_identity_digest
    &&& record.mount.expected_volume_marker@ == request.expected_volume_marker@
    &&& record.mount.desired_access_mode == request.desired_access_mode
}

/// A token request that comes again gives the stored enrollment back where it asks for the same: for
/// a described volume the same volume and description, and otherwise the same token in every
/// respect. Anything else is refused as a reused identity.
pub proof fn lemma_token_request_is_made_once(
    existing: AgentRegistryRecord,
    request: &AgentEnrollmentTokenCreateRequest,
    metadata: &Option<StorageIntentMetadata>,
    result: CentralResult<CreateAgentEnrollmentTokenResult>,
)
    requires
        call_ensures(replay_token_intent, (existing, request, metadata), result),
    ensures
        result is Err ==> fails_with(result, CentralErrorCode::EnrollmentIdReused),
        result matches Ok(answer) ==> answer.record == existing && answer.replayed,
        result is Ok <==> asks_for_its_volume(existing, *request) && match *metadata {
            Some(frozen) => is_described_by(existing, frozen.descriptor),
            None => {
                &&& existing.enrollment.token_id@ == request.token_id@
                &&& existing.enrollment.enrollment_id@ == request.enrollment_id@
                &&& existing.enrollment.reserved_agent_id@ == request.agent_id@
                &&& existing.enrollment.reserved_agent_mount_id@ == request.agent_mount_id@
                &&& existing.enrollment.bootstrap_token_digest == request.bootstrap_token_digest
                &&& existing.enrollment.created_at_unix_ms == request.created_at_unix_ms
                &&& existing.enrollment.expires_at_unix_ms == request.expires_at_unix_ms
                &&& existing.enrollment.extensions@ == request.extensions@
            },
        },
{
}

/// An insert that stored the enrollment is answered with it; one that found another is answered with
/// that as a replay where it is the same, or describes the same volume, and refused otherwise.
pub proof fn lemma_token_insert_is_answered(
    stored: AgentRegistryRecord,
    record: &AgentRegistryRecord,
    metadata: &Option<StorageIntentMetadata>,
    inserted: CentralResult<CreateAgentEnrollmentTokenResult>,
    existing: CentralResult<CreateAgentEnrollmentTokenResult>,
)
    requires
        call_ensures(
            resolve_token_insert,
            (AgentRegistryInsertOutcome::Inserted(stored), record, metadata),
            inserted,
        ),
        call_ensures(
            resolve_token_insert,
            (AgentRegistryInsertOutcome::Existing(stored), record, metadata),
            existing,
        ),
    ensures
        inserted matches Ok(answer) && answer.record == stored && !answer.replayed,
        existing matches Ok(answer) ==> answer.record == stored && answer.replayed,
        existing is Err ==> fails_with(existing, CentralErrorCode::EnrollmentIdReused),
        existing is Ok <==> match *metadata {
            None => stored.same(*record),
            Some(frozen) => {
                &&& is_described_by(stored, frozen.descriptor)
                &&& stored.enrollment.token_request_id@ == record.enrollment.token_request_id@
                &&& stored.enrollment.tenant_id@ == record.enrollment.tenant_id@
                &&& stored.enrollment.edge_cluster_id@ == record.enrollment.edge_cluster_id@
                &&& stored.enrollment.storage_volume_id@ == record.enrollment.storage_volume_id@
                &&& stored.enrollment.volume_descriptor_digest
                    == record.enrollment.volume_descriptor_digest
                &&& stored.enrollment.pvc_identity_digest == record.enrollment.pvc_identity_digest
                &&& stored.mount.expected_volume_marker@ == record.mount.expected_volume_marker@
                &&& stored.mount.desired_access_mode == record.mount.desired_access_mode
            },
        },
{
}

/// An enrollment has its whole public side: the current format, description, key, kind and time, and
/// a verified credential once there is a candidate.
pub open spec fn is_public(record: AgentRegistryRecord) -> bool {
    let metadata = record.storage_enrollment;
    &&& metadata.record_format is CurrentV3
    &&& metadata.descriptor is Some
    &&& metadata.token_key_id is Some
    &&& metadata.registration_kind is Some
    &&& metadata.updated_at_unix_ms is Some
    &&& record.candidate is Some ==> {
        &&& record.candidate->0.credential_evidence is Some
        &&& record.candidate->0.proof_of_possession_status == Some(
            AgentProofOfPossessionStatus::Verified,
        )
        &&& record.candidate->0.bootstrap_signed_payload_digest is Some
    }
}

/// A candidate is let in where it declares the tenant, the cluster, the volume and the descriptor of
/// its token, and where a verified credential meets a public enrollment. A token that was never
/// redeemed is closed from its expiry on.
pub proof fn lemma_candidate_is_let_in_by_its_token(
    record: &AgentRegistryRecord,
    request: &AgentBootstrapRequest,
    verified: bool,
    now: UnixMillis,
    result: CentralResult<BootstrapAdmission>,
)
    requires
        call_ensures(admit_bootstrap, (record, request, verified, now), result),
    ensures
        result is Ok ==> {
            &&& request.tenant_id@ == record.enrollment.tenant_id@
            &&& request.edge_cluster_id@ == record.enrollment.edge_cluster_id@
            &&& request.storage_volume_id@ == record.enrollment.storage_volume_id@
            &&& request.volume_descriptor_digest == record.enrollment.volume_descriptor_digest
            &&& verified ==> is_public(*record)
        },
        (verified ==> is_public(*record)) && request.tenant_id@ == record.enrollment.tenant_id@
            && request.edge_cluster_id@ == record.enrollment.edge_cluster_id@
            && request.storage_volume_id@ == record.enrollment.storage_volume_id@
            && request.volume_descriptor_digest == record.enrollment.volume_descriptor_digest
            ==> result is Ok,
        !verified && result is Err ==> fails_with(result, CentralErrorCode::AgentIdentityMismatch),
        verified && !is_public(*record) ==> fails_with(
            result,
            CentralErrorCode::LegacyEnrollmentRequiresReissue,
        ),
        result matches Ok(admission) ==> (admission is Expire <==> record.enrollment.state is
            TokenIssued && record.enrollment.expires_at_unix_ms <= now),
{
}

/// A bootstrap credential counts where its proof is valid, it is an Ed25519 key and the key is the
/// one that the request declares; it is kept as it is.
pub proof fn lemma_credential_counts_with_its_proof(
    proof_is_valid: bool,
    evidence: AgentCredentialEvidence,
    fingerprint: ContentDigest,
    result: CentralResult<AgentCredentialEvidence>,
)
    requires
        call_ensures(verify_bootstrap_credential, (proof_is_valid, evidence, fingerprint), result),
    ensures
        result is Ok <==> proof_is_valid && evidence.algorithm is Ed25519
            && evidence.public_key_spki.fingerprint == fingerprint,
        result matches Ok(kept) ==> kept == evidence,
        !proof_is_valid ==> fails_with(result, CentralErrorCode::BootstrapDenied),
{
}

/// A candidate carries what its bootstrap request says, and is marked as proved exactly where it
/// comes with a credential.
pub proof fn lemma_candidate_is_what_it_says(
    request: AgentBootstrapRequest,
    evidence: Option<AgentCredentialEvidence>,
    capability: Seq<char>,
    candidate: AgentCandidateRecord,
)
    requires
        call_ensures(bootstrap_candidate, (request, evidence), candidate),
    ensures
        candidate.bootstrap_request_id@ == request.bootstrap_request_id@,
        candidate.installation_id@ == request.installation_id@,
        candidate.public_key_fingerprint == request.public_key_fingerprint,
        candidate.bootstrap_signed_payload_digest == Some(request.signed_payload_digest),
        candidate.mount_identity_digest == request.probe.mount_identity_digest,
        candidate.agent_version@ == request.agent_version@,
        candidate.supported_protocol_versions@ == request.supported_protocol_versions@,
        candidate.probe == request.probe,
        candidate.credential_evidence == evidence,
        candidate.proof_of_possession_status is Some <==> evidence is Some,
        is_listed(candidate.capabilities@, capability) <==> is_listed(
            request.capabilities@,
            capability,
        ),
{
    assert(texts_of(candidate.capabilities@).contains(capability) == is_listed(
        candidate.capabilities@,
        capability,
    ));
    assert(texts_of(request.capabilities@).contains(capability) == is_listed(
        request.capabilities@,
        capability,
    ));
}

/// An identity is free, or held by this very enrollment.
pub open spec fn is_free_for(holder: Option<AgentEnrollmentId>, enrollment_id: Seq<char>) -> bool {
    holder is None || holder->0@ == enrollment_id
}

/// A candidate redeems a token that was issued and has not expired, where its request, its
/// installation and its key are free, and where a replacement brings an installation and a key that
/// the Agent it replaces does not have. The enrollment waits for approval then, for the review
/// window from now on, holds the candidate and the mount that it showed, and moves on by one version.
pub proof fn lemma_candidate_redeems_its_token(
    record: AgentRegistryRecord,
    candidate: AgentCandidateRecord,
    token_digest: ContentDigest,
    owners: &BootstrapIdentityOwners,
    previous: &Option<AgentRegistryRecord>,
    now: UnixMillis,
    result: CentralResult<BootstrapStep>,
)
    requires
        call_ensures(
            apply_bootstrap,
            (record, candidate, token_digest, owners, previous, now),
            result,
        ),
        record.candidate is None,
        record.enrollment.state is TokenIssued,
        now < record.enrollment.expires_at_unix_ms,
        now + 86_400_000 <= u64::MAX,
        record.resource_version < u64::MAX,
        is_free_for(owners.request, record.enrollment.enrollment_id@),
        is_free_for(owners.installation, record.enrollment.enrollment_id@),
        is_free_for(owners.public_key, record.enrollment.enrollment_id@),
        record.enrollment.replaces_enrollment_id is Some ==> {
            &&& *previous is Some
            &&& previous->0.instance is Some
            &&& previous->0.instance->0.installation_id@ != candidate.installation_id@
            &&& previous->0.instance->0.public_key_fingerprint != candidate.public_key_fingerprint
        },
    ensures
        result matches Ok(BootstrapStep::Store { expected, record: after }) && {
            &&& expected == record.resource_version
            &&& after.resource_version == record.resource_version + 1
            &&& after.enrollment.state is PendingApproval
            &&& after.enrollment.bootstrap_request_id == Some(candidate.bootstrap_request_id)
            &&& after.enrollment.bootstrapped_at_unix_ms == Some(now)
            &&& after.enrollment.review_expires_at_unix_ms is Some
            &&& after.enrollment.review_expires_at_unix_ms->0 == now + 86_400_000
            &&& after.enrollment == AgentEnrollmentRecord {
                state: after.enrollment.state,
                bootstrap_request_id: after.enrollment.bootstrap_request_id,
                bootstrapped_at_unix_ms: after.enrollment.bootstrapped_at_unix_ms,
                review_expires_at_unix_ms: after.enrollment.review_expires_at_unix_ms,
                ..record.enrollment
            }
            &&& after.candidate == Some(candidate)
            &&& after.mount.mount_identity_digest == Some(candidate.mount_identity_digest)
            &&& after.mount == AgentMountRecord {
                mount_identity_digest: after.mount.mount_identity_digest,
                ..record.mount
            }
            &&& after.instance == record.instance
            &&& after.owner == record.owner
            &&& after.decision_audit_event == record.decision_audit_event
            &&& tells_of(
                record.storage_enrollment,
                after.storage_enrollment,
                record.enrollment,
                record.resource_version + 1,
                Some(StorageEnrollmentState::PendingApproval),
                AgentEnrollmentLifecycleAuditKind::PendingApproval,
                now,
                None,
            )
        },
{
    if let Ok(BootstrapStep::Store { record: after, .. }) = result {
        if !(record.storage_enrollment.record_format is LegacyV2) {
            lemma_events(record.storage_enrollment, after.storage_enrollment);
        }
    }
}

/// No token is redeemed with an identity that another enrollment holds; an expired or used up token
/// is refused; a replacement of an Agent that is not there, or by its own installation or key, is
/// refused.
pub proof fn lemma_token_is_not_redeemed_otherwise(
    record: AgentRegistryRecord,
    candidate: AgentCandidateRecord,
    token_digest: ContentDigest,
    owners: &BootstrapIdentityOwners,
    previous: &Option<AgentRegistryRecord>,
    now: UnixMillis,
    result: CentralResult<BootstrapStep>,
)
    requires
        call_ensures(
            apply_bootstrap,
            (record, candidate, token_digest, owners, previous, now),
            result,
        ),
    ensures
        !is_free_for(owners.request, record.enrollment.enrollment_id@) ==> fails_with(
            result,
            CentralErrorCode::EnrollmentIdReused,
        ),
        is_free_for(owners.request, record.enrollment.enrollment_id@) && (!is_free_for(
            owners.installation,
            record.enrollment.enrollment_id@,
        ) || !is_free_for(owners.public_key, record.enrollment.enrollment_id@)) ==> fails_with(
            result,
            CentralErrorCode::AgentIdentityMismatch,
        ),
        record.candidate is None && (!(record.enrollment.state is TokenIssued)
            || record.enrollment.expires_at_unix_ms <= now) ==> result is Err,
        record.candidate is None && record.enrollment.replaces_enrollment_id is Some && (
        *previous is None || previous->0.instance is None
            || previous->0.instance->0.installation_id@ == candidate.installation_id@
            || previous->0.instance->0.public_key_fingerprint
            == candidate.public_key_fingerprint) ==> result is Err,
        record.candidate is Some && result is Ok ==> result->Ok_0 is Replayed,
{
}

/// A candidate is the one that redeemed a token: with the token, the request, the installation and
/// the key of the stored one, and the same signed payload.
pub open spec fn is_the_same_candidate(
    record: AgentRegistryRecord,
    candidate: AgentCandidateRecord,
    token_digest: ContentDigest,
) -> bool {
    &&& record.enrollment.bootstrap_token_digest == token_digest
    &&& record.enrollment.bootstrap_request_id is Some
    &&& record.enrollment.bootstrap_request_id->0@ == candidate.bootstrap_request_id@
    &&& record.candidate is Some
    &&& record.candidate->0.bootstrap_request_id@ == candidate.bootstrap_request_id@
    &&& record.candidate->0.installation_id@ == candidate.installation_id@
    &&& record.candidate->0.public_key_fingerprint == candidate.public_key_fingerprint
    &&& record.candidate->0.bootstrap_signed_payload_digest is Some
        ==> record.candidate->0.bootstrap_signed_payload_digest
        == candidate.bootstrap_signed_payload_digest
}

/// An answer to a bootstrap tells where the enrollment stands.
pub open spec fn answers_bootstrap(
    accepted: AgentBootstrapAccepted,
    record: AgentRegistryRecord,
    replayed: bool,
) -> bool {
    &&& record.enrollment.bootstrap_request_id is Some
    &&& accepted.bootstrap_request_id@ == record.enrollment.bootstrap_request_id->0@
    &&& accepted.enrollment_id@ == record.enrollment.enrollment_id@
    &&& accepted.agent_id@ == record.enrollment.reserved_agent_id@
    &&& accepted.agent_mount_id@ == record.enrollment.reserved_agent_mount_id@
    &&& accepted.state == record.enrollment.state
    &&& accepted.mount_generation == record.mount.mount_generation
    &&& accepted.resource_version == record.resource_version
    &&& record.enrollment.review_expires_at_unix_ms is Some
    &&& accepted.review_expires_at_unix_ms == record.enrollment.review_expires_at_unix_ms->0
    &&& accepted.replayed == replayed
}

/// A token that was redeemed answers its own candidate again, as a replay, as long as the enrollment
/// waits for approval or has it; afterwards it denies it. Another candidate is refused.
pub proof fn lemma_token_is_redeemed_once(
    record: AgentRegistryRecord,
    candidate: AgentCandidateRecord,
    token_digest: ContentDigest,
    owners: &BootstrapIdentityOwners,
    previous: &Option<AgentRegistryRecord>,
    now: UnixMillis,
    result: CentralResult<BootstrapStep>,
)
    requires
        call_ensures(
            apply_bootstrap,
            (record, candidate, token_digest, owners, previous, now),
            result,
        ),
        record.candidate is Some,
        record.candidate->0.bootstrap_signed_payload_digest is Some,
        is_free_for(owners.request, record.enrollment.enrollment_id@),
        is_free_for(owners.installation, record.enrollment.enrollment_id@),
        is_free_for(owners.public_key, record.enrollment.enrollment_id@),
    ensures
        !is_the_same_candidate(record, candidate, token_digest) ==> fails_with(
            result,
            CentralErrorCode::AgentIdentityMismatch,
        ),
        is_the_same_candidate(record, candidate, token_digest) ==> if record.enrollment.state is
            PendingApproval || record.enrollment.state is Approved {
            result matches Ok(BootstrapStep::Replayed(answer)) && answer.record == record
                && answers_bootstrap(answer.accepted, record, true)
        } else {
            fails_with(result, CentralErrorCode::BootstrapDenied)
        },
{
}

/// A bootstrap that was stored is answered with what was stored. One that lost its write is answered
/// by the enrollment that stands, as a replay, where that holds the same candidate and is still
/// eligible; every other failure of the write is given as it is.
pub proof fn lemma_bootstrap_is_answered(
    stored: CentralResult<AgentRegistryRecord>,
    reloaded: Option<AgentRegistryRecord>,
    candidate: &AgentCandidateRecord,
    token_digest: ContentDigest,
    result: CentralResult<BootstrapAgentResult>,
)
    requires
        call_ensures(conclude_bootstrap, (stored, reloaded, candidate, token_digest), result),
    ensures
        stored matches Ok(record) ==> (result matches Ok(answer) && answer.record == record
            && answers_bootstrap(answer.accepted, record, false)),
        stored matches Err(error) ==> {
            &&& !(error@.code is ConcurrentUpdate) ==> (result matches Err(given) && given@
                == error@)
            &&& error@.code is ConcurrentUpdate && reloaded is None ==> fails_with(
                result,
                CentralErrorCode::BootstrapDenied,
            )
            &&& error@.code is ConcurrentUpdate && reloaded is Some && !is_the_same_candidate(
                reloaded->0,
                *candidate,
                token_digest,
            ) ==> fails_with(result, CentralErrorCode::AgentIdentityMismatch)
            &&& error@.code is ConcurrentUpdate && reloaded is Some && result is Ok ==> {
                &&& result->Ok_0.record == reloaded->0
                &&& answers_bootstrap(result->Ok_0.accepted, reloaded->0, true)
                &&& reloaded->0.enrollment.state is PendingApproval
                    || reloaded->0.enrollment.state is Approved
            }
        },
{
}

/// Expiring an enrollment ends it and moves it on by one version; its public side tells so, and
/// nothing else changes.
pub proof fn lemma_expired_enrollment_is_closed(
    record: AgentRegistryRecord,
    public_state: Option<StorageEnrollmentState>,
    now: UnixMillis,
    result: CentralResult<AgentRegistryRecord>,
)
    requires
        call_ensures(expire_record, (record, public_state, now), result),
    ensures
        record.resource_version == u64::MAX ==> fails_with(result, CentralErrorCode::Internal),
        record.resource_version < u64::MAX ==> (result matches Ok(after) && is_closed(
            record,
            after,
            public_state,
            now,
        )),
{
    if let Ok(after) = result {
        if !(record.storage_enrollment.record_format is LegacyV2) {
            lemma_events(record.storage_enrollment, after.storage_enrollment);
        }
    }
}

/// An enrollment was ended by its expiry.
pub open spec fn is_closed(
    record: AgentRegistryRecord,
    after: AgentRegistryRecord,
    public_state: Option<StorageEnrollmentState>,
    now: UnixMillis,
) -> bool {
    &&& after.resource_version == record.resource_version + 1
    &&& after.enrollment.state is Expired
    &&& after.enrollment == AgentEnrollmentRecord {
        state: after.enrollment.state,
        ..record.enrollment
    }
    &&& after.candidate == record.candidate
    &&& after.instance == record.instance
    &&& after.mount == record.mount
    &&& after.owner == record.owner
    &&& after.decision_audit_event == record.decision_audit_event
    &&& tells_of(
        record.storage_enrollment,
        after.storage_enrollment,
        record.enrollment,
        record.resource_version + 1,
        public_state,
        AgentEnrollmentLifecycleAuditKind::Expired,
        now,
        None,
    )
}

/// Whoever comes with an expired token is denied, once the expiry is stored by this or another write;
/// a write that failed otherwise gives its failure.
pub proof fn lemma_expired_token_is_denied(
    stored: CentralResult<()>,
    reloaded: &Option<AgentRegistryRecord>,
    failure: CentralError,
)
    requires
        call_ensures(conclude_token_expiry, (stored, reloaded), failure),
    ensures
        stored is Ok ==> failure@.code is BootstrapDenied,
        stored matches Err(error) ==> if error@.code is ConcurrentUpdate && (*reloaded is None
            || reloaded->0.enrollment.state is Expired) {
            failure@.code is BootstrapDenied
        } else {
            failure@ == error@
        },
{
}

/// A status question counts where it is signed within the clock window, on either side of now, with
/// a valid proof.
pub proof fn lemma_status_question_counts_in_its_window(
    now: UnixMillis,
    signed_at: UnixMillis,
    skew: u64,
    proof_is_valid: bool,
    result: CentralResult<()>,
)
    requires
        call_ensures(admit_bootstrap_status, (now, signed_at, skew, proof_is_valid), result),
    ensures
        result is Ok <==> proof_is_valid && signed_at <= now + skew && now <= signed_at + skew,
        result is Err ==> fails_with(result, CentralErrorCode::BootstrapDenied),
{
}

/// A status question is answered to the candidate itself: the installation and the key, by algorithm
/// and content, of a public enrollment.
pub proof fn lemma_status_is_for_the_candidate(
    record: &Option<AgentRegistryRecord>,
    request: &AgentBootstrapStatusRequest,
    result: CentralResult<()>,
)
    requires
        call_ensures(identify_bootstrap_status, (record, request), result),
    ensures
        result is Ok <==> {
            &&& *record is Some
            &&& is_public(record->0)
            &&& record->0.candidate is Some
            &&& record->0.candidate->0.credential_evidence is Some
            &&& record->0.candidate->0.installation_id@ == request.installation_id@
            &&& record->0.candidate->0.credential_evidence->0.algorithm == request.algorithm
            &&& record->0.candidate->0.credential_evidence->0.public_key_spki.encoded@
                == request.public_key_spki.encoded@
            &&& record->0.candidate->0.credential_evidence->0.public_key_spki.fingerprint
                == request.public_key_spki.fingerprint
        },
        *record is None ==> fails_with(result, CentralErrorCode::BootstrapDenied),
        *record is Some && record->0.storage_enrollment.record_format is LegacyV2 ==> fails_with(
            result,
            CentralErrorCode::LegacyEnrollmentRequiresReissue,
        ),
{
}

/// A question that was asked before is denied; another failure of the watermark is given as it is.
pub proof fn lemma_status_question_is_asked_once(
    consumed: CentralResult<()>,
    result: CentralResult<()>,
)
    requires
        call_ensures(conclude_status_watermark, (consumed,), result),
    ensures
        consumed is Ok ==> result is Ok,
        consumed matches Err(error) ==> if error@.code is ConcurrentUpdate {
            fails_with(result, CentralErrorCode::BootstrapDenied)
        } else {
            result matches Err(given) && given@ == error@
        },
{
}

/// The candidate of a public enrollment learns that it waits, was approved, rejected or expired, and
/// its Agent only once it was approved; before it bootstrapped and after it was revoked it learns
/// nothing.
pub proof fn lemma_candidate_learns_its_state(
    record: AgentRegistryRecord,
    request: &AgentBootstrapStatusRequest,
    result: CentralResult<AgentBootstrapStatusResponse>,
)
    requires
        call_ensures(bootstrap_status_response, (Some(record), request), result),
    ensures
        result matches Ok(answer) ==> {
            &&& answer.bootstrap_request_id@ == request.bootstrap_request_id@
            &&& answer.installation_id@ == request.installation_id@
            &&& answer.enrollment_id@ == record.enrollment.enrollment_id@
            &&& answer.resource_version == record.resource_version
            &&& record.storage_enrollment.updated_at_unix_ms == Some(answer.updated_at_unix_ms)
            &&& match record.enrollment.state {
                AgentEnrollmentState::PendingApproval => answer.state is Pending
                    && answer.agent_id is None,
                AgentEnrollmentState::Approved => answer.state is Approved && answer.agent_id
                    == Some(record.enrollment.reserved_agent_id),
                AgentEnrollmentState::Rejected => answer.state is Rejected
                    && answer.agent_id is None,
                AgentEnrollmentState::Expired => answer.state is Expired
                    && answer.agent_id is None,
                AgentEnrollmentState::TokenIssued | AgentEnrollmentState::Revoked => false,
            }
        },
        record.enrollment.state is TokenIssued || record.enrollment.state is Revoked
            ==> result is Err,
        record.storage_enrollment.record_format is LegacyV2 ==> fails_with(
            result,
            CentralErrorCode::LegacyEnrollmentRequiresReissue,
        ),
        is_public(record) && (record.enrollment.state is PendingApproval
            || record.enrollment.state is Approved || record.enrollment.state is Rejected
            || record.enrollment.state is Expired) ==> result is Ok,
{
}

} // verus!
