//! Bootstrap: an Agent redeems its token, becomes the candidate, and asks for its status.
use vstd::prelude::*;

use crate::agent_registry::lifecycle::{storage_transitioned, transition_storage_enrollment};
use crate::agent_registry::records::{
    AgentBootstrapProbe, AgentCandidateRecord, AgentCredentialEvidence,
    AgentEnrollmentLifecycleAuditKind, AgentEnrollmentRecord, AgentEnrollmentState,
    AgentMountRecord, AgentProofOfPossessionStatus, AgentRegistryRecord, AgentSignatureAlgorithm,
    Ed25519PublicKeySpki, StorageEnrollmentState, AGENT_ENROLLMENT_REVIEW_WINDOW_MS,
};
use crate::agent_registry::validation::{
    credential_evidence_fault, is_public_enrollment, legacy_enrollment_reissue, reissue_fault,
    require_public_enrollment_metadata, validate_credential_evidence,
};
use crate::digest::ContentDigest;
use crate::equality::{numbers_equal, Same};
use crate::error::{
    fault_of, final_failure, final_fault, CentralError, CentralErrorCode, CentralResult, Fault,
};
use crate::identifier::{
    is_named, names, AgentEnrollmentId, AgentId, AgentInstallationId, AgentMountId, EdgeClusterId,
    MountGeneration, OpaqueText, ProtocolVersion, RequestId, ResourceVersion, StorageVolumeId,
    TenantId, UnixMillis,
};
use crate::text_set::{is_text_set, text_set, texts_of};

verus! {

/// A validated bootstrap request. The token and the signed bytes stay outside; their digests are
/// here.
pub struct AgentBootstrapRequest {
    pub tenant_id: TenantId,
    pub edge_cluster_id: EdgeClusterId,
    pub storage_volume_id: StorageVolumeId,
    pub volume_descriptor_digest: ContentDigest,
    pub bootstrap_request_id: RequestId,
    pub installation_id: AgentInstallationId,
    pub public_key_fingerprint: ContentDigest,
    pub bootstrap_token_digest: ContentDigest,
    pub signed_payload_digest: ContentDigest,
    pub agent_version: OpaqueText,
    pub supported_protocol_versions: Vec<ProtocolVersion>,
    pub capabilities: Vec<OpaqueText>,
    pub probe: AgentBootstrapProbe,
}

/// What an accepted Agent is told.
#[derive(Debug)]
pub struct AgentBootstrapAccepted {
    pub bootstrap_request_id: RequestId,
    pub enrollment_id: AgentEnrollmentId,
    pub agent_id: AgentId,
    pub agent_mount_id: AgentMountId,
    pub state: AgentEnrollmentState,
    pub mount_generation: MountGeneration,
    pub resource_version: ResourceVersion,
    pub review_expires_at_unix_ms: UnixMillis,
    pub replayed: bool,
}

pub struct BootstrapAgentResult {
    pub accepted: AgentBootstrapAccepted,
    pub record: AgentRegistryRecord,
}

/// The presented credential is kept once its proof was verified against the canonical request.
pub fn verify_bootstrap_credential(
    proof_is_valid: bool,
    evidence: AgentCredentialEvidence,
    public_key_fingerprint: ContentDigest,
) -> (result: CentralResult<AgentCredentialEvidence>)
    ensures
        fault_of(result) == if !proof_is_valid {
            Some(
                final_fault(
                    CentralErrorCode::BootstrapDenied,
                    "Agent bootstrap proof of possession is invalid"@,
                ),
            )
        } else {
            credential_evidence_fault(evidence, public_key_fingerprint)
        },
        result matches Ok(kept) ==> kept == evidence,
{
    if !proof_is_valid {
        return Err(
            final_failure(
                CentralErrorCode::BootstrapDenied,
                "Agent bootstrap proof of possession is invalid",
            ),
        );
    }
    validate_credential_evidence(&evidence, public_key_fingerprint)?;
    Ok(evidence)
}

/// The answer to a token that does not exist or is no longer good.
pub open spec fn token_denied() -> Fault {
    final_fault(CentralErrorCode::BootstrapDenied, "bootstrap token is invalid or expired"@)
}

/// The answer to a token that does not exist or is no longer good.
pub fn bootstrap_token_denied() -> (failure: CentralError)
    ensures
        failure@ == token_denied(),
{
    final_failure(CentralErrorCode::BootstrapDenied, "bootstrap token is invalid or expired")
}

/// What becomes of a bootstrap request once its token was found.
#[derive(Debug, Clone, Copy, PartialEq, Eq, Structural)]
pub enum BootstrapAdmission {
    /// The token has expired unused: the intent is to be closed.
    Expire,
    /// The candidate may be looked at.
    Proceed,
}

/// The request declares the Volume that the token was issued for.
pub open spec fn bootstrap_scope_agrees(
    record: AgentRegistryRecord,
    request: AgentBootstrapRequest,
) -> bool {
    &&& request.tenant_id@ == record.enrollment.tenant_id@
    &&& request.edge_cluster_id@ == record.enrollment.edge_cluster_id@
    &&& request.storage_volume_id@ == record.enrollment.storage_volume_id@
    &&& request.volume_descriptor_digest == record.enrollment.volume_descriptor_digest
}

/// Checks a bootstrap request against the token intent it redeems.
pub fn admit_bootstrap(
    record: &AgentRegistryRecord,
    request: &AgentBootstrapRequest,
    has_verified_credential: bool,
    now: UnixMillis,
) -> (result: CentralResult<BootstrapAdmission>)
    ensures
        fault_of(result) == if has_verified_credential && !is_public_enrollment(*record) {
            Some(reissue_fault())
        } else if !bootstrap_scope_agrees(*record, *request) {
            Some(
                final_fault(
                    CentralErrorCode::AgentIdentityMismatch,
                    "declared bootstrap scope differs from the token intent"@,
                ),
            )
        } else {
            None::<Fault>
        },
        result matches Ok(admission) ==> (admission is Expire <==> record.enrollment.state is
            TokenIssued && now >= record.enrollment.expires_at_unix_ms),
{
    if has_verified_credential {
        require_public_enrollment_metadata(record)?;
    }
    if request.tenant_id != record.enrollment.tenant_id || request.edge_cluster_id
        != record.enrollment.edge_cluster_id || request.storage_volume_id
        != record.enrollment.storage_volume_id || request.volume_descriptor_digest
        != record.enrollment.volume_descriptor_digest {
        return Err(
            final_failure(
                CentralErrorCode::AgentIdentityMismatch,
                "declared bootstrap scope differs from the token intent",
            ),
        );
    }
    if record.enrollment.state == AgentEnrollmentState::TokenIssued && now
        >= record.enrollment.expires_at_unix_ms {
        Ok(BootstrapAdmission::Expire)
    } else {
        Ok(BootstrapAdmission::Proceed)
    }
}

/// The answer to a record whose version can grow no further.
pub open spec fn version_exhausted() -> Fault {
    final_fault(CentralErrorCode::Internal, "ResourceVersion exhausted"@)
}

/// Moves the version of a record on by one.
pub(crate) fn advance_resource_version(record: &mut AgentRegistryRecord) -> (result: CentralResult<
    (),
>)
    ensures
        match result {
            Ok(()) => {
                &&& old(record).resource_version < u64::MAX
                &&& *final(record) == (AgentRegistryRecord {
                    resource_version: (old(record).resource_version + 1) as u64,
                    ..*old(record)
                })
            },
            Err(failure) => {
                &&& old(record).resource_version == u64::MAX
                &&& *final(record) == *old(record)
                &&& failure@ == version_exhausted()
            },
        },
{
    match record.resource_version.checked_add(1) {
        Some(next) => {
            record.resource_version = next;
            Ok(())
        },
        None => Err(final_failure(CentralErrorCode::Internal, "ResourceVersion exhausted")),
    }
}

/// `after` is `before`, expired by a write at `now`.
pub open spec fn is_expired_from(
    before: AgentRegistryRecord,
    after: AgentRegistryRecord,
    public_state: Option<StorageEnrollmentState>,
    now: UnixMillis,
) -> bool {
    storage_transitioned(
        AgentRegistryRecord {
            resource_version: (before.resource_version + 1) as u64,
            enrollment: AgentEnrollmentRecord {
                state: AgentEnrollmentState::Expired,
                ..before.enrollment
            },
            ..before
        },
        after,
        public_state,
        AgentEnrollmentLifecycleAuditKind::Expired,
        now,
        None,
    )
}

/// Closes an enrollment that nobody may use any more.
pub fn expire_record(
    record: AgentRegistryRecord,
    public_state: Option<StorageEnrollmentState>,
    now: UnixMillis,
) -> (result: CentralResult<AgentRegistryRecord>)
    ensures
        fault_of(result) == if record.resource_version == u64::MAX {
            Some(version_exhausted())
        } else {
            None::<Fault>
        },
        result matches Ok(expired) ==> is_expired_from(record, expired, public_state, now),
{
    let mut record = record;
    record.enrollment.state = AgentEnrollmentState::Expired;
    advance_resource_version(&mut record)?;
    transition_storage_enrollment(
        &mut record,
        public_state,
        AgentEnrollmentLifecycleAuditKind::Expired,
        now,
        None,
    );
    Ok(record)
}

/// What the holder of an expired token is told once the intent was to be closed. `stored` is the
/// outcome of that write and `reloaded` the record found after a concurrent one.
pub fn conclude_token_expiry(
    stored: CentralResult<()>,
    reloaded: &Option<AgentRegistryRecord>,
) -> (failure: CentralError)
    ensures
        failure@ == match stored {
            Ok(_) => token_denied(),
            Err(error) => if error@.code is ConcurrentUpdate {
                match *reloaded {
                    None => token_denied(),
                    Some(current) => if current.enrollment.state is Expired {
                        token_denied()
                    } else {
                        error@
                    },
                }
            } else {
                error@
            },
        },
{
    match stored {
        Ok(_) => bootstrap_token_denied(),
        Err(error) => {
            if error.code() == CentralErrorCode::ConcurrentUpdate {
                match reloaded {
                    None => bootstrap_token_denied(),
                    Some(current) => {
                        if current.enrollment.state != AgentEnrollmentState::Expired {
                            error
                        } else {
                            bootstrap_token_denied()
                        }
                    },
                }
            } else {
                error
            }
        },
    }
}

/// The candidate that a bootstrap request presents.
pub open spec fn is_bootstrap_candidate(
    candidate: AgentCandidateRecord,
    request: AgentBootstrapRequest,
    evidence: Option<AgentCredentialEvidence>,
) -> bool {
    &&& candidate.bootstrap_request_id == request.bootstrap_request_id
    &&& candidate.installation_id == request.installation_id
    &&& candidate.public_key_fingerprint == request.public_key_fingerprint
    &&& candidate.bootstrap_signed_payload_digest == Some(request.signed_payload_digest)
    &&& candidate.mount_identity_digest == request.probe.mount_identity_digest
    &&& candidate.agent_version == request.agent_version
    &&& candidate.supported_protocol_versions@ == request.supported_protocol_versions@
    &&& is_text_set(candidate.capabilities@)
    &&& texts_of(candidate.capabilities@) == texts_of(request.capabilities@)
    &&& candidate.probe == request.probe
    &&& candidate.credential_evidence == evidence
    &&& candidate.proof_of_possession_status == if evidence is Some {
        Some(AgentProofOfPossessionStatus::Verified)
    } else {
        None
    }
}

/// Builds the candidate of a bootstrap request.
pub fn bootstrap_candidate(
    request: AgentBootstrapRequest,
    evidence: Option<AgentCredentialEvidence>,
) -> (candidate: AgentCandidateRecord)
    ensures
        is_bootstrap_candidate(candidate, request, evidence),
{
    let proof_of_possession_status = if evidence.is_some() {
        Some(AgentProofOfPossessionStatus::Verified)
    } else {
        None
    };
    AgentCandidateRecord {
        bootstrap_request_id: request.bootstrap_request_id,
        installation_id: request.installation_id,
        public_key_fingerprint: request.public_key_fingerprint,
        bootstrap_signed_payload_digest: Some(request.signed_payload_digest),
        mount_identity_digest: request.probe.mount_identity_digest,
        agent_version: request.agent_version,
        supported_protocol_versions: request.supported_protocol_versions,
        capabilities: text_set(request.capabilities),
        probe: request.probe,
        credential_evidence: evidence,
        proof_of_possession_status,
    }
}

/// Candidates that predate signed payload digests are told apart by everything they declared.
pub open spec fn legacy_candidates_agree(
    stored: AgentCandidateRecord,
    candidate: AgentCandidateRecord,
) -> bool {
    &&& stored.credential_evidence is None
    &&& stored.proof_of_possession_status is None
    &&& candidate.credential_evidence is None
    &&& candidate.proof_of_possession_status is None
    &&& stored.mount_identity_digest == candidate.mount_identity_digest
    &&& stored.agent_version@ == candidate.agent_version@
    &&& stored.supported_protocol_versions@ == candidate.supported_protocol_versions@
    &&& stored.capabilities.same(candidate.capabilities)
    &&& stored.probe.same(candidate.probe)
}

pub(crate) fn legacy_candidate_replay_matches(
    stored: &AgentCandidateRecord,
    candidate: &AgentCandidateRecord,
) -> (matches: bool)
    ensures
        matches == legacy_candidates_agree(*stored, *candidate),
{
    stored.credential_evidence.is_none() && stored.proof_of_possession_status.is_none()
        && candidate.credential_evidence.is_none() && candidate.proof_of_possession_status.is_none()
        && stored.mount_identity_digest == candidate.mount_identity_digest && stored.agent_version
        == candidate.agent_version && numbers_equal(
        &stored.supported_protocol_versions,
        &candidate.supported_protocol_versions,
    ) && stored.capabilities == candidate.capabilities && stored.probe == candidate.probe
}

/// The same Agent redeems the same token with the same request again. The signed payload digest is
/// the identity of the request; the signature bytes are not.
pub open spec fn is_bootstrap_replay(
    record: AgentRegistryRecord,
    candidate: AgentCandidateRecord,
    token_digest: ContentDigest,
) -> bool {
    &&& record.enrollment.bootstrap_token_digest == token_digest
    &&& names(record.enrollment.bootstrap_request_id, candidate.bootstrap_request_id@)
    &&& record.candidate matches Some(stored)
    &&& stored.bootstrap_request_id@ == candidate.bootstrap_request_id@
    &&& stored.installation_id@ == candidate.installation_id@
    &&& stored.public_key_fingerprint == candidate.public_key_fingerprint
    &&& match stored.bootstrap_signed_payload_digest {
        Some(digest) => candidate.bootstrap_signed_payload_digest == Some(digest),
        None => legacy_candidates_agree(stored, candidate),
    }
}

pub(crate) fn bootstrap_replay_matches(
    record: &AgentRegistryRecord,
    candidate: &AgentCandidateRecord,
    token_digest: ContentDigest,
) -> (matches: bool)
    ensures
        matches == is_bootstrap_replay(*record, *candidate, token_digest),
{
    if record.enrollment.bootstrap_token_digest != token_digest || !is_named(
        &record.enrollment.bootstrap_request_id,
        &candidate.bootstrap_request_id,
    ) {
        return false;
    }
    let stored = match &record.candidate {
        Some(stored) => stored,
        None => return false,
    };
    if stored.bootstrap_request_id != candidate.bootstrap_request_id || stored.installation_id
        != candidate.installation_id || stored.public_key_fingerprint
        != candidate.public_key_fingerprint {
        return false;
    }
    match stored.bootstrap_signed_payload_digest {
        Some(digest) => candidate.bootstrap_signed_payload_digest == Some(digest),
        None => legacy_candidate_replay_matches(stored, candidate),
    }
}

/// The acceptance that a bootstrapped record determines.
pub open spec fn is_acceptance_of(
    accepted: AgentBootstrapAccepted,
    record: AgentRegistryRecord,
    replayed: bool,
) -> bool {
    &&& record.enrollment.bootstrap_request_id == Some(accepted.bootstrap_request_id)
    &&& accepted.enrollment_id == record.enrollment.enrollment_id
    &&& accepted.agent_id == record.enrollment.reserved_agent_id
    &&& accepted.agent_mount_id == record.enrollment.reserved_agent_mount_id
    &&& accepted.state == record.enrollment.state
    &&& accepted.mount_generation == record.mount.mount_generation
    &&& accepted.resource_version == record.resource_version
    &&& record.enrollment.review_expires_at_unix_ms == Some(accepted.review_expires_at_unix_ms)
    &&& accepted.replayed == replayed
}

/// A bootstrapped record carries its request identity and its review deadline.
pub open spec fn is_bootstrapped(record: AgentRegistryRecord) -> bool {
    &&& record.enrollment.bootstrap_request_id is Some
    &&& record.enrollment.review_expires_at_unix_ms is Some
}

/// Tells an Agent what was accepted.
pub fn bootstrap_accepted(record: &AgentRegistryRecord, replayed: bool) -> (accepted:
    AgentBootstrapAccepted)
    requires
        is_bootstrapped(*record),
    ensures
        is_acceptance_of(accepted, *record, replayed),
{
    AgentBootstrapAccepted {
        bootstrap_request_id: record.enrollment.bootstrap_request_id.clone().unwrap(),
        enrollment_id: record.enrollment.enrollment_id.clone(),
        agent_id: record.enrollment.reserved_agent_id.clone(),
        agent_mount_id: record.enrollment.reserved_agent_mount_id.clone(),
        state: record.enrollment.state,
        mount_generation: record.mount.mount_generation,
        resource_version: record.resource_version,
        review_expires_at_unix_ms: record.enrollment.review_expires_at_unix_ms.unwrap(),
        replayed,
    }
}

/// Why a bootstrap that comes again is refused.
pub open spec fn bootstrap_replay_fault(
    record: AgentRegistryRecord,
    candidate: AgentCandidateRecord,
    token_digest: ContentDigest,
) -> Option<Fault> {
    if !is_bootstrap_replay(record, candidate, token_digest) {
        Some(
            final_fault(
                CentralErrorCode::AgentIdentityMismatch,
                "bootstrap request identity was reused by another Agent candidate"@,
            ),
        )
    } else if record.enrollment.state is PendingApproval || record.enrollment.state is Approved {
        None
    } else {
        Some(
            final_fault(
                CentralErrorCode::BootstrapDenied,
                "bootstrap identity is no longer eligible for approval"@,
            ),
        )
    }
}

/// Answers a bootstrap whose token was already redeemed.
pub fn resolve_bootstrap_replay(
    record: AgentRegistryRecord,
    candidate: &AgentCandidateRecord,
    token_digest: ContentDigest,
) -> (result: CentralResult<BootstrapAgentResult>)
    requires
        record.enrollment.state is PendingApproval || record.enrollment.state is Approved
            ==> record.enrollment.review_expires_at_unix_ms is Some,
    ensures
        fault_of(result) == bootstrap_replay_fault(record, *candidate, token_digest),
        result matches Ok(answer) ==> answer.record == record && is_acceptance_of(
            answer.accepted,
            record,
            true,
        ),
{
    if !bootstrap_replay_matches(&record, candidate, token_digest) {
        return Err(
            final_failure(
                CentralErrorCode::AgentIdentityMismatch,
                "bootstrap request identity was reused by another Agent candidate",
            ),
        );
    }
    match record.enrollment.state {
        AgentEnrollmentState::PendingApproval | AgentEnrollmentState::Approved => Ok(
            BootstrapAgentResult { accepted: bootstrap_accepted(&record, true), record },
        ),
        _ => Err(
            final_failure(
                CentralErrorCode::BootstrapDenied,
                "bootstrap identity is no longer eligible for approval",
            ),
        ),
    }
}

/// Enrollments that already hold an identity which the candidate presents.
pub struct BootstrapIdentityOwners {
    /// Holder of the bootstrap request identity in the token's tenant.
    pub request: Option<AgentEnrollmentId>,
    /// Holder of the installation identity.
    pub installation: Option<AgentEnrollmentId>,
    /// Holder of the public key.
    pub public_key: Option<AgentEnrollmentId>,
}

/// An identity that another enrollment holds.
pub open spec fn held_elsewhere(holder: Option<AgentEnrollmentId>, enrollment_id: Seq<char>) -> bool {
    holder is Some && !names(holder, enrollment_id)
}

fn is_held_elsewhere(holder: &Option<AgentEnrollmentId>, enrollment_id: &AgentEnrollmentId) -> (held:
    bool)
    ensures
        held == held_elsewhere(*holder, enrollment_id@),
{
    holder.is_some() && !is_named(holder, enrollment_id)
}

/// What a bootstrap comes to.
pub enum BootstrapStep {
    /// The token was redeemed before, by the same candidate.
    Replayed(BootstrapAgentResult),
    /// `record` is to replace the stored version `expected`.
    Store { expected: ResourceVersion, record: AgentRegistryRecord },
}

/// Why the candidate may not take the place of the previous owner's Agent.
pub open spec fn replacement_candidate_fault(
    candidate: AgentCandidateRecord,
    previous: Option<AgentRegistryRecord>,
) -> Option<Fault> {
    match previous {
        None => Some(enrollment_missing()),
        Some(previous) => match previous.instance {
            None => Some(
                final_fault(
                    CentralErrorCode::InvalidState,
                    "replacement target has no approved Agent identity"@,
                ),
            ),
            Some(instance) => if candidate.installation_id@ == instance.installation_id@
                || candidate.public_key_fingerprint == instance.public_key_fingerprint {
                Some(
                    final_fault(
                        CentralErrorCode::AgentIdentityMismatch,
                        "replacement must use a new installation and credential identity"@,
                    ),
                )
            } else {
                None
            },
        },
    }
}

/// The answer to an enrollment identity that is not stored.
pub open spec fn enrollment_missing() -> Fault {
    final_fault(CentralErrorCode::EnrollmentNotFound, "enrollment was not found"@)
}

pub(crate) fn enrollment_was_not_found() -> (failure: CentralError)
    ensures
        failure@ == enrollment_missing(),
{
    final_failure(CentralErrorCode::EnrollmentNotFound, "enrollment was not found")
}

/// Why a bootstrap is refused.
pub open spec fn bootstrap_fault(
    record: AgentRegistryRecord,
    candidate: AgentCandidateRecord,
    token_digest: ContentDigest,
    owners: BootstrapIdentityOwners,
    previous: Option<AgentRegistryRecord>,
    now: UnixMillis,
) -> Option<Fault> {
    let enrollment_id = record.enrollment.enrollment_id@;
    if held_elsewhere(owners.request, enrollment_id) {
        Some(
            final_fault(
                CentralErrorCode::EnrollmentIdReused,
                "bootstrap request identity is already bound to another enrollment"@,
            ),
        )
    } else if held_elsewhere(owners.installation, enrollment_id) {
        Some(
            final_fault(
                CentralErrorCode::AgentIdentityMismatch,
                "Agent installation identity is already bound to another enrollment"@,
            ),
        )
    } else if held_elsewhere(owners.public_key, enrollment_id) {
        Some(
            final_fault(
                CentralErrorCode::AgentIdentityMismatch,
                "Agent credential identity is already bound to another enrollment"@,
            ),
        )
    } else if record.candidate is Some {
        bootstrap_replay_fault(record, candidate, token_digest)
    } else if !(record.enrollment.state is TokenIssued) || now
        >= record.enrollment.expires_at_unix_ms {
        Some(token_denied())
    } else if record.enrollment.replaces_enrollment_id is Some && replacement_candidate_fault(
        candidate,
        previous,
    ) is Some {
        replacement_candidate_fault(candidate, previous)
    } else if now + AGENT_ENROLLMENT_REVIEW_WINDOW_MS > u64::MAX {
        Some(
            final_fault(
                CentralErrorCode::Internal,
                "Agent enrollment review expiry exceeds the wire clock range"@,
            ),
        )
    } else if record.resource_version == u64::MAX {
        Some(version_exhausted())
    } else {
        None
    }
}

/// `after` is the token intent `before` with its candidate, waiting for review.
pub open spec fn is_bootstrapped_from(
    before: AgentRegistryRecord,
    after: AgentRegistryRecord,
    candidate: AgentCandidateRecord,
    now: UnixMillis,
) -> bool {
    storage_transitioned(
        AgentRegistryRecord {
            resource_version: (before.resource_version + 1) as u64,
            enrollment: AgentEnrollmentRecord {
                state: AgentEnrollmentState::PendingApproval,
                bootstrap_request_id: Some(candidate.bootstrap_request_id),
                bootstrapped_at_unix_ms: Some(now),
                review_expires_at_unix_ms: Some((now + AGENT_ENROLLMENT_REVIEW_WINDOW_MS) as u64),
                ..before.enrollment
            },
            mount: AgentMountRecord {
                mount_identity_digest: Some(candidate.mount_identity_digest),
                ..before.mount
            },
            candidate: Some(candidate),
            ..before
        },
        after,
        Some(StorageEnrollmentState::PendingApproval),
        AgentEnrollmentLifecycleAuditKind::PendingApproval,
        now,
        None,
    )
}

/// Redeems a token: records the candidate, or recognises that it was recorded before.
///
/// `record` holds the token, `owners` say who holds the presented identities, and `previous` is
/// the record that the enrollment replaces, where it replaces one.
pub fn apply_bootstrap(
    record: AgentRegistryRecord,
    candidate: AgentCandidateRecord,
    token_digest: ContentDigest,
    owners: &BootstrapIdentityOwners,
    previous: &Option<AgentRegistryRecord>,
    now: UnixMillis,
) -> (result: CentralResult<BootstrapStep>)
    requires
        record.enrollment.state is PendingApproval || record.enrollment.state is Approved
            ==> record.enrollment.review_expires_at_unix_ms is Some,
    ensures
        fault_of(result) == bootstrap_fault(
            record,
            candidate,
            token_digest,
            *owners,
            *previous,
            now,
        ),
        result matches Ok(BootstrapStep::Replayed(answer)) ==> record.candidate is Some
            && answer.record == record && is_acceptance_of(answer.accepted, record, true),
        result matches Ok(BootstrapStep::Store { expected, record: stored }) ==> record.candidate is
            None && expected == record.resource_version && is_bootstrapped_from(
            record,
            stored,
            candidate,
            now,
        ),
{
    let enrollment_id = &record.enrollment.enrollment_id;
    if is_held_elsewhere(&owners.request, enrollment_id) {
        return Err(
            final_failure(
                CentralErrorCode::EnrollmentIdReused,
                "bootstrap request identity is already bound to another enrollment",
            ),
        );
    }
    if is_held_elsewhere(&owners.installation, enrollment_id) {
        return Err(
            final_failure(
                CentralErrorCode::AgentIdentityMismatch,
                "Agent installation identity is already bound to another enrollment",
            ),
        );
    }
    if is_held_elsewhere(&owners.public_key, enrollment_id) {
        return Err(
            final_failure(
                CentralErrorCode::AgentIdentityMismatch,
                "Agent credential identity is already bound to another enrollment",
            ),
        );
    }
    if record.candidate.is_some() {
        return match resolve_bootstrap_replay(record, &candidate, token_digest) {
            Ok(answer) => Ok(BootstrapStep::Replayed(answer)),
            Err(failure) => Err(failure),
        };
    }
    if record.enrollment.state != AgentEnrollmentState::TokenIssued || now
        >= record.enrollment.expires_at_unix_ms {
        return Err(bootstrap_token_denied());
    }
    if record.enrollment.replaces_enrollment_id.is_some() {
        let previous = match previous {
            Some(previous) => previous,
            None => return Err(enrollment_was_not_found()),
        };
        match &previous.instance {
            Some(instance) => {
                if candidate.installation_id == instance.installation_id
                    || candidate.public_key_fingerprint == instance.public_key_fingerprint {
                    return Err(
                        final_failure(
                            CentralErrorCode::AgentIdentityMismatch,
                            "replacement must use a new installation and credential identity",
                        ),
                    );
                }
            },
            None => return Err(
                final_failure(
                    CentralErrorCode::InvalidState,
                    "replacement target has no approved Agent identity",
                ),
            ),
        }
    }
    let expected: ResourceVersion = record.resource_version;
    let review_expires_at: UnixMillis = match now.checked_add(AGENT_ENROLLMENT_REVIEW_WINDOW_MS) {
        Some(at) => at,
        None => return Err(
            final_failure(
                CentralErrorCode::Internal,
                "Agent enrollment review expiry exceeds the wire clock range",
            ),
        ),
    };
    let mut record = record;
    record.enrollment.state = AgentEnrollmentState::PendingApproval;
    record.enrollment.bootstrap_request_id = Some(candidate.bootstrap_request_id.clone());
    record.enrollment.bootstrapped_at_unix_ms = Some(now);
    record.enrollment.review_expires_at_unix_ms = Some(review_expires_at);
    record.mount.mount_identity_digest = Some(candidate.mount_identity_digest);
    record.candidate = Some(candidate);
    advance_resource_version(&mut record)?;
    transition_storage_enrollment(
        &mut record,
        Some(StorageEnrollmentState::PendingApproval),
        AgentEnrollmentLifecycleAuditKind::PendingApproval,
        now,
        None,
    );
    Ok(BootstrapStep::Store { expected, record })
}

/// Answers a bootstrap once its write came back. `reloaded` is the record found after a concurrent
/// write.
pub fn conclude_bootstrap(
    stored: CentralResult<AgentRegistryRecord>,
    reloaded: Option<AgentRegistryRecord>,
    candidate: &AgentCandidateRecord,
    token_digest: ContentDigest,
) -> (result: CentralResult<BootstrapAgentResult>)
    requires
        stored matches Ok(record) ==> is_bootstrapped(record),
        reloaded matches Some(record) ==> (record.enrollment.state is PendingApproval
            || record.enrollment.state is Approved
            ==> record.enrollment.review_expires_at_unix_ms is Some),
    ensures
        match stored {
            Ok(record) => {
                &&& result matches Ok(answer)
                &&& answer.record == record
                &&& is_acceptance_of(answer.accepted, record, false)
            },
            Err(error) => if error@.code is ConcurrentUpdate {
                match reloaded {
                    None => fault_of(result) == Some(token_denied()),
                    Some(record) => {
                        &&& fault_of(result) == bootstrap_replay_fault(
                            record,
                            *candidate,
                            token_digest,
                        )
                        &&& result matches Ok(answer) ==> answer.record == record
                            && is_acceptance_of(answer.accepted, record, true)
                    },
                }
            } else {
                fault_of(result) == Some(error@)
            },
        },
{
    match stored {
        Ok(record) => Ok(
            BootstrapAgentResult { accepted: bootstrap_accepted(&record, false), record },
        ),
        Err(error) => {
            if error.code() == CentralErrorCode::ConcurrentUpdate {
                match reloaded {
                    None => Err(bootstrap_token_denied()),
                    Some(record) => resolve_bootstrap_replay(record, candidate, token_digest),
                }
            } else {
                Err(error)
            }
        },
    }
}

/// A validated, signed request of a candidate for its own status.
pub struct AgentBootstrapStatusRequest {
    pub tenant_id: TenantId,
    pub bootstrap_request_id: RequestId,
    pub installation_id: AgentInstallationId,
    pub signed_at_unix_ms: UnixMillis,
    pub algorithm: AgentSignatureAlgorithm,
    pub public_key_spki: Ed25519PublicKeySpki,
}

/// Enrollment state as a candidate is told.
#[derive(Debug, Clone, Copy, PartialEq, Eq, Structural)]
pub enum AgentBootstrapStatusState {
    Pending,
    Approved,
    Rejected,
    Expired,
}

#[derive(Debug)]
pub struct AgentBootstrapStatusResponse {
    pub bootstrap_request_id: RequestId,
    pub installation_id: AgentInstallationId,
    pub state: AgentBootstrapStatusState,
    pub enrollment_id: AgentEnrollmentId,
    pub agent_id: Option<AgentId>,
    pub resource_version: ResourceVersion,
    pub updated_at_unix_ms: UnixMillis,
}

/// The one answer to every status request that is not entitled to one.
pub open spec fn status_denied() -> Fault {
    final_fault(
        CentralErrorCode::BootstrapDenied,
        "Agent bootstrap status identity is invalid or unavailable"@,
    )
}

/// The one answer to every status request that is not entitled to one.
pub fn bootstrap_status_denied() -> (failure: CentralError)
    ensures
        failure@ == status_denied(),
{
    final_failure(
        CentralErrorCode::BootstrapDenied,
        "Agent bootstrap status identity is invalid or unavailable",
    )
}

/// How far apart two moments are.
pub open spec fn distance(left: UnixMillis, right: UnixMillis) -> int {
    if left >= right {
        left - right
    } else {
        right - left
    }
}

pub(crate) fn is_within(left: UnixMillis, right: UnixMillis, limit: u64) -> (within: bool)
    ensures
        within == (distance(left, right) <= limit),
{
    if left >= right {
        left - right <= limit
    } else {
        right - left <= limit
    }
}

/// Checks the signature time and the proof of a status request.
pub fn admit_bootstrap_status(
    now: UnixMillis,
    signed_at_unix_ms: UnixMillis,
    max_clock_skew_ms: u64,
    proof_is_valid: bool,
) -> (result: CentralResult<()>)
    ensures
        fault_of(result) == if distance(now, signed_at_unix_ms) > max_clock_skew_ms {
            Some(
                final_fault(
                    CentralErrorCode::BootstrapDenied,
                    "Agent bootstrap status proof is outside the accepted clock window"@,
                ),
            )
        } else if !proof_is_valid {
            Some(
                final_fault(
                    CentralErrorCode::BootstrapDenied,
                    "Agent bootstrap status proof of possession is invalid"@,
                ),
            )
        } else {
            None::<Fault>
        },
{
    if !is_within(now, signed_at_unix_ms, max_clock_skew_ms) {
        return Err(
            final_failure(
                CentralErrorCode::BootstrapDenied,
                "Agent bootstrap status proof is outside the accepted clock window",
            ),
        );
    }
    if !proof_is_valid {
        return Err(
            final_failure(
                CentralErrorCode::BootstrapDenied,
                "Agent bootstrap status proof of possession is invalid",
            ),
        );
    }
    Ok(())
}

/// Why the record found for a status request does not answer it.
pub open spec fn status_identity_fault(
    record: Option<AgentRegistryRecord>,
    request: AgentBootstrapStatusRequest,
) -> Option<Fault> {
    match record {
        None => Some(status_denied()),
        Some(record) => if !is_public_enrollment(record) {
            Some(reissue_fault())
        } else {
            match record.candidate {
                None => Some(status_denied()),
                Some(candidate) => match candidate.credential_evidence {
                    None => Some(reissue_fault()),
                    Some(evidence) => if candidate.installation_id@ != request.installation_id@
                        || evidence.algorithm != request.algorithm
                        || !evidence.public_key_spki.same(request.public_key_spki) {
                        Some(status_denied())
                    } else {
                        None
                    },
                },
            }
        },
    }
}

/// Checks that a status request comes from the candidate of the record it names.
pub fn identify_bootstrap_status(
    record: &Option<AgentRegistryRecord>,
    request: &AgentBootstrapStatusRequest,
) -> (result: CentralResult<()>)
    ensures
        fault_of(result) == status_identity_fault(*record, *request),
{
    let record = match record {
        Some(record) => record,
        None => return Err(bootstrap_status_denied()),
    };
    require_public_enrollment_metadata(record)?;
    let candidate = match &record.candidate {
        Some(candidate) => candidate,
        None => return Err(bootstrap_status_denied()),
    };
    let evidence = match &candidate.credential_evidence {
        Some(evidence) => evidence,
        None => return Err(legacy_enrollment_reissue()),
    };
    if candidate.installation_id != request.installation_id || evidence.algorithm
        != request.algorithm || evidence.public_key_spki != request.public_key_spki {
        return Err(bootstrap_status_denied());
    }
    Ok(())
}

/// A signature time that was used before is denied like any other bad request.
pub fn conclude_status_watermark(consumed: CentralResult<()>) -> (result: CentralResult<()>)
    ensures
        fault_of(result) == match consumed {
            Ok(_) => None::<Fault>,
            Err(error) => if error@.code is ConcurrentUpdate {
                Some(status_denied())
            } else {
                Some(error@)
            },
        },
{
    match consumed {
        Ok(()) => Ok(()),
        Err(error) => if error.code() == CentralErrorCode::ConcurrentUpdate {
            Err(bootstrap_status_denied())
        } else {
            Err(error)
        },
    }
}

/// The status that a candidate may be told.
pub open spec fn candidate_status(state: AgentEnrollmentState) -> Option<AgentBootstrapStatusState> {
    match state {
        AgentEnrollmentState::PendingApproval => Some(AgentBootstrapStatusState::Pending),
        AgentEnrollmentState::Approved => Some(AgentBootstrapStatusState::Approved),
        AgentEnrollmentState::Rejected => Some(AgentBootstrapStatusState::Rejected),
        AgentEnrollmentState::Expired => Some(AgentBootstrapStatusState::Expired),
        AgentEnrollmentState::TokenIssued | AgentEnrollmentState::Revoked => None,
    }
}

/// Answers a status request from the record read after its signature time was consumed.
pub fn bootstrap_status_response(
    record: Option<AgentRegistryRecord>,
    request: &AgentBootstrapStatusRequest,
) -> (result: CentralResult<AgentBootstrapStatusResponse>)
    ensures
        fault_of(result) == match record {
            None => Some(status_denied()),
            Some(record) => if !is_public_enrollment(record) {
                Some(reissue_fault())
            } else if candidate_status(record.enrollment.state) is None {
                Some(status_denied())
            } else {
                None::<Fault>
            },
        },
        result matches Ok(response) ==> record matches Some(record) && {
            &&& response.bootstrap_request_id == request.bootstrap_request_id
            &&& response.installation_id == request.installation_id
            &&& candidate_status(record.enrollment.state) == Some(response.state)
            &&& response.enrollment_id == record.enrollment.enrollment_id
            &&& response.agent_id == if record.enrollment.state is Approved {
                Some(record.enrollment.reserved_agent_id)
            } else {
                None
            }
            &&& response.resource_version == record.resource_version
            &&& record.storage_enrollment.updated_at_unix_ms == Some(response.updated_at_unix_ms)
        },
{
    let record = match record {
        Some(record) => record,
        None => return Err(bootstrap_status_denied()),
    };
    require_public_enrollment_metadata(&record)?;
    let mut agent_id: Option<AgentId> = None;
    let state = match record.enrollment.state {
        AgentEnrollmentState::PendingApproval => AgentBootstrapStatusState::Pending,
        AgentEnrollmentState::Approved => {
            agent_id = Some(record.enrollment.reserved_agent_id.clone());
            AgentBootstrapStatusState::Approved
        },
        AgentEnrollmentState::Rejected => AgentBootstrapStatusState::Rejected,
        AgentEnrollmentState::Expired => AgentBootstrapStatusState::Expired,
        AgentEnrollmentState::TokenIssued | AgentEnrollmentState::Revoked => return Err(
            bootstrap_status_denied(),
        ),
    };
    let updated_at_unix_ms: UnixMillis = match record.storage_enrollment.updated_at_unix_ms {
        Some(at) => at,
        None => return Err(legacy_enrollment_reissue()),
    };
    Ok(
        AgentBootstrapStatusResponse {
            bootstrap_request_id: request.bootstrap_request_id.clone(),
            installation_id: request.installation_id.clone(),
            state,
            enrollment_id: record.enrollment.enrollment_id,
            agent_id,
            resource_version: record.resource_version,
            updated_at_unix_ms,
        },
    )
}

} // verus!
