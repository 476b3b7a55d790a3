//! The tenant's decision on a candidate: rejection, first approval, or replacement of an owner.
use vstd::prelude::*;

use crate::agent_registry::bootstrap::{
    advance_resource_version, enrollment_missing, enrollment_was_not_found, expire_record,
    held_elsewhere, is_expired_from, version_exhausted,
};
use crate::agent_registry::lifecycle::{
    decision_audit_event, decision_audit_requirement, is_decision_audit_event,
    last_rejection_reason, lifecycle_rejection_reason, require_decision_audit,
    storage_transitioned, transition_storage_enrollment,
};
use crate::agent_registry::records::{
    AgentCandidateRecord, AgentEnrollmentApprovalRequest, AgentEnrollmentDecision,
    AgentEnrollmentLifecycleAuditKind, AgentEnrollmentRecord, AgentEnrollmentState,
    AgentInstanceRecord, AgentInstanceState, AgentMountRecord, AgentRegistryRecord,
    AgentRegistryRecordFormat, ResourceHealth, StorageEnrollmentState, VolumeOwnerRecord,
    VolumeOwnerState,
};
use crate::agent_registry::transition::{
    identities_are_distinct, volume_scope_agrees, volume_scope_holds,
};
use crate::agent_registry::validation::{
    probe_is_sufficient, reissue_fault, require_current_registry_record, validate_bootstrap_probe,
};
use crate::equality::Same;
use crate::error::{
    fault_of, final_failure, final_fault, CentralError, CentralErrorCode, CentralResult, Fault,
};
use crate::identifier::{
    is_named, AgentEnrollmentId, AgentId, MountGeneration, OpaqueText, OwnerGeneration,
    PrincipalRef, ResourceVersion, UnixMillis,
};

verus! {

/// A decided enrollment, the owner it revoked, and whether the decision was made before.
pub struct DecideAgentEnrollmentResult {
    pub record: AgentRegistryRecord,
    pub revoked_record: Option<AgentRegistryRecord>,
    pub replayed: bool,
}

/// What a decision comes to.
pub enum EnrollmentDecisionStep {
    /// The same decision was made before.
    Replayed(DecideAgentEnrollmentResult),
    /// The review window has passed: `record` is to replace the stored version `expected`, and
    /// the request is answered with [`enrollment_review_expired`].
    Expire { expected: ResourceVersion, record: AgentRegistryRecord },
    /// `record` is to replace the stored version `expected`.
    Store { expected: ResourceVersion, record: AgentRegistryRecord },
    /// Both records are to be replaced in one write.
    Activate {
        expected_previous: ResourceVersion,
        revoked: AgentRegistryRecord,
        expected_replacement: ResourceVersion,
        replacement: AgentRegistryRecord,
    },
}

/// The answer to a decision that came after the review window.
pub fn enrollment_review_expired() -> (failure: CentralError)
    ensures
        failure@ == final_fault(
            CentralErrorCode::EnrollmentExpired,
            "Agent enrollment review window expired"@,
        ),
{
    final_failure(CentralErrorCode::EnrollmentExpired, "Agent enrollment review window expired")
}

/// The answer to a write that expected another version.
pub open spec fn version_changed() -> Fault {
    final_fault(CentralErrorCode::ConcurrentUpdate, "Agent registry ResourceVersion changed"@)
}

pub(crate) fn require_resource_version(
    record: &AgentRegistryRecord,
    expected: ResourceVersion,
) -> (result: CentralResult<()>)
    ensures
        fault_of(result) == if record.resource_version == expected {
            None::<Fault>
        } else {
            Some(version_changed())
        },
{
    if record.resource_version != expected {
        Err(
            final_failure(
                CentralErrorCode::ConcurrentUpdate,
                "Agent registry ResourceVersion changed",
            ),
        )
    } else {
        Ok(())
    }
}

/// An approved enrollment whose Agent was not revoked.
pub open spec fn is_approved(record: AgentRegistryRecord) -> bool {
    &&& record.enrollment.state is Approved
    &&& record.instance matches Some(instance) && instance.state is Active
}

/// The answer to an Agent that is not approved.
pub open spec fn not_approved() -> Fault {
    final_fault(CentralErrorCode::ApprovalRequired, "Agent enrollment is not approved"@)
}

pub(crate) fn require_approved(record: &AgentRegistryRecord) -> (result: CentralResult<()>)
    ensures
        fault_of(result) == if is_approved(*record) {
            None::<Fault>
        } else {
            Some(not_approved())
        },
{
    let active = match &record.instance {
        Some(instance) => instance.state == AgentInstanceState::Active,
        None => false,
    };
    if record.enrollment.state == AgentEnrollmentState::Approved && active {
        Ok(())
    } else {
        Err(final_failure(CentralErrorCode::ApprovalRequired, "Agent enrollment is not approved"))
    }
}

/// The answer about a pending enrollment that has no review deadline.
pub open spec fn review_undated() -> Fault {
    final_fault(CentralErrorCode::Internal, "pending Agent enrollment has no review expiry"@)
}

pub(crate) fn review_window_elapsed(record: &AgentRegistryRecord, now: UnixMillis) -> (result:
    CentralResult<bool>)
    ensures
        match record.enrollment.review_expires_at_unix_ms {
            Some(expires_at) => result == Ok::<bool, CentralError>(now >= expires_at),
            None => fault_of(result) == Some(review_undated()),
        },
{
    match record.enrollment.review_expires_at_unix_ms {
        Some(expires_at) => Ok(now >= expires_at),
        None => Err(
            final_failure(
                CentralErrorCode::Internal,
                "pending Agent enrollment has no review expiry",
            ),
        ),
    }
}

/// The freshly approved Agent of a candidate: no session yet.
pub open spec fn is_active_instance(
    instance: AgentInstanceRecord,
    agent_id: AgentId,
    candidate: AgentCandidateRecord,
) -> bool {
    &&& instance.agent_id == agent_id
    &&& instance.installation_id == candidate.installation_id
    &&& instance.public_key_fingerprint == candidate.public_key_fingerprint
    &&& instance.agent_version == candidate.agent_version
    &&& instance.supported_protocol_versions@ == candidate.supported_protocol_versions@
    &&& instance.capabilities@ == candidate.capabilities@
    &&& instance.state is Active
    &&& instance.session_generation is None
    &&& instance.active_boot_id is None
    &&& instance.active_session_id is None
    &&& instance.session_open_expected_resource_version is None
    &&& instance.session_opened_at_unix_ms is None
    &&& instance.last_heartbeat_at_unix_ms is None
    &&& instance.last_sequence is None
}

pub(crate) fn active_instance(agent_id: &AgentId, candidate: &AgentCandidateRecord) -> (instance:
    AgentInstanceRecord)
    ensures
        is_active_instance(instance, *agent_id, *candidate),
{
    let supported_protocol_versions = candidate.supported_protocol_versions.clone();
    let capabilities = candidate.capabilities.clone();
    assert(supported_protocol_versions@ =~= candidate.supported_protocol_versions@);
    assert(capabilities@ =~= candidate.capabilities@);
    AgentInstanceRecord {
        agent_id: agent_id.clone(),
        installation_id: candidate.installation_id.clone(),
        public_key_fingerprint: candidate.public_key_fingerprint,
        agent_version: candidate.agent_version.clone(),
        supported_protocol_versions,
        capabilities,
        state: AgentInstanceState::Active,
        session_generation: None,
        active_boot_id: None,
        active_session_id: None,
        session_open_expected_resource_version: None,
        session_opened_at_unix_ms: None,
        last_heartbeat_at_unix_ms: None,
        last_sequence: None,
    }
}

/// The replacement was frozen to the Volume of the owner it replaces.
pub open spec fn replacement_has_scope(
    previous: AgentRegistryRecord,
    replacement: AgentRegistryRecord,
) -> bool {
    &&& volume_scope_agrees(previous, replacement)
    &&& previous.storage_enrollment.record_format is LegacyV2
        || previous.storage_enrollment.descriptor.same(replacement.storage_enrollment.descriptor)
}

/// Why a replacement may not take over from the previous owner.
pub open spec fn replacement_scope_fault(
    previous: AgentRegistryRecord,
    replacement: AgentRegistryRecord,
    replacement_instance: AgentInstanceRecord,
) -> Option<Fault> {
    match previous.instance {
        None => Some(
            final_fault(
                CentralErrorCode::AgentIdentityMismatch,
                "replacement target has no approved Agent identity"@,
            ),
        ),
        Some(previous_instance) => if !replacement_has_scope(previous, replacement) {
            Some(
                final_fault(
                    CentralErrorCode::AgentIdentityMismatch,
                    "replacement scope differs from the active Volume binding"@,
                ),
            )
        } else if !identities_are_distinct(
            previous_instance,
            previous.mount.agent_mount_id@,
            replacement_instance,
            replacement.mount.agent_mount_id@,
        ) {
            Some(
                final_fault(
                    CentralErrorCode::AgentIdentityMismatch,
                    "replacement must use new Agent, installation, credential, and mount identities"@,
                ),
            )
        } else {
            None
        },
    }
}

pub fn validate_replacement_scope(
    previous: &AgentRegistryRecord,
    replacement: &AgentRegistryRecord,
    replacement_instance: &AgentInstanceRecord,
) -> (result: CentralResult<()>)
    ensures
        fault_of(result) == replacement_scope_fault(
            *previous,
            *replacement,
            *replacement_instance,
        ),
{
    let previous_instance = match &previous.instance {
        Some(instance) => instance,
        None => return Err(
            final_failure(
                CentralErrorCode::AgentIdentityMismatch,
                "replacement target has no approved Agent identity",
            ),
        ),
    };
    let descriptor_matches = previous.storage_enrollment.record_format
        == AgentRegistryRecordFormat::LegacyV2 || previous.storage_enrollment.descriptor
        == replacement.storage_enrollment.descriptor;
    if !volume_scope_holds(previous, replacement) || !descriptor_matches {
        return Err(
            final_failure(
                CentralErrorCode::AgentIdentityMismatch,
                "replacement scope differs from the active Volume binding",
            ),
        );
    }
    if previous_instance.agent_id == replacement_instance.agent_id
        || previous_instance.installation_id == replacement_instance.installation_id
        || previous_instance.public_key_fingerprint == replacement_instance.public_key_fingerprint
        || previous.mount.agent_mount_id == replacement.mount.agent_mount_id {
        return Err(
            final_failure(
                CentralErrorCode::AgentIdentityMismatch,
                "replacement must use new Agent, installation, credential, and mount identities",
            ),
        );
    }
    Ok(())
}

/// The answer to a generation that can grow no further.
pub open spec fn generation_exhausted(name: Seq<char>) -> Fault {
    final_fault(CentralErrorCode::Internal, name + " exhausted during Agent replacement"@)
}

pub(crate) fn checked_next_generation(current: u64, name: &str) -> (result: CentralResult<u64>)
    ensures
        result matches Ok(next) ==> next == current + 1,
        fault_of(result) == if current == u64::MAX {
            Some(generation_exhausted(name@))
        } else {
            None::<Fault>
        },
{
    match current.checked_add(1) {
        Some(next) => Ok(next),
        None => {
            let mut message = String::from_str(name);
            message.append(" exhausted during Agent replacement");
            Err(final_failure(CentralErrorCode::Internal, message.as_str()))
        },
    }
}

/// An instance with its session closed and its identity revoked.
pub open spec fn revoked_instance(instance: AgentInstanceRecord) -> AgentInstanceRecord {
    AgentInstanceRecord {
        state: AgentInstanceState::Revoked,
        active_boot_id: None,
        active_session_id: None,
        session_open_expected_resource_version: None,
        session_opened_at_unix_ms: None,
        last_heartbeat_at_unix_ms: None,
        last_sequence: None,
        ..instance
    }
}

/// An owner record that gave way to its replacement: its Agent is revoked, its mount unknown, and
/// both generations fence it off.
pub open spec fn revoked_record(
    record: AgentRegistryRecord,
    instance: AgentInstanceRecord,
    replaced_by_enrollment_id: AgentEnrollmentId,
    mount_generation: MountGeneration,
    owner_generation: OwnerGeneration,
) -> AgentRegistryRecord {
    AgentRegistryRecord {
        resource_version: (record.resource_version + 1) as u64,
        enrollment: AgentEnrollmentRecord {
            state: AgentEnrollmentState::Revoked,
            replaced_by_enrollment_id: Some(replaced_by_enrollment_id),
            ..record.enrollment
        },
        instance: Some(revoked_instance(instance)),
        mount: AgentMountRecord {
            mount_generation,
            health: ResourceHealth::Unknown,
            observed_volume_marker: None,
            observed_access_mode: None,
            reported_health: None,
            observed_at_unix_ms: None,
            ..record.mount
        },
        owner: VolumeOwnerRecord {
            owner_generation,
            active_agent_id: None,
            active_agent_mount_id: None,
            state: VolumeOwnerState::Inactive,
            ..record.owner
        },
        ..record
    }
}

pub(crate) fn revoke_for_replacement(
    record: AgentRegistryRecord,
    replaced_by_enrollment_id: &AgentEnrollmentId,
    mount_generation: MountGeneration,
    owner_generation: OwnerGeneration,
) -> (result: CentralResult<AgentRegistryRecord>)
    ensures
        match record.instance {
            None => fault_of(result) == Some(
                final_fault(
                    CentralErrorCode::AgentIdentityMismatch,
                    "replacement target has no approved Agent identity"@,
                ),
            ),
            Some(instance) => if record.resource_version == u64::MAX {
                fault_of(result) == Some(version_exhausted())
            } else {
                result == Ok::<AgentRegistryRecord, CentralError>(
                    revoked_record(
                        record,
                        instance,
                        *replaced_by_enrollment_id,
                        mount_generation,
                        owner_generation,
                    ),
                )
            },
        },
{
    let mut record = record;
    record.enrollment.state = AgentEnrollmentState::Revoked;
    record.enrollment.replaced_by_enrollment_id = Some(replaced_by_enrollment_id.clone());
    match record.instance.take() {
        None => return Err(
            final_failure(
                CentralErrorCode::AgentIdentityMismatch,
                "replacement target has no approved Agent identity",
            ),
        ),
        Some(instance) => {
            let mut instance = instance;
            instance.state = AgentInstanceState::Revoked;
            instance.active_boot_id = None;
            instance.active_session_id = None;
            instance.session_open_expected_resource_version = None;
            instance.session_opened_at_unix_ms = None;
            instance.last_heartbeat_at_unix_ms = None;
            instance.last_sequence = None;
            record.instance = Some(instance);
        },
    }
    record.mount.mount_generation = mount_generation;
    record.mount.health = ResourceHealth::Unknown;
    record.mount.observed_volume_marker = None;
    record.mount.observed_access_mode = None;
    record.mount.reported_health = None;
    record.mount.observed_at_unix_ms = None;
    record.owner.owner_generation = owner_generation;
    record.owner.active_agent_id = None;
    record.owner.active_agent_mount_id = None;
    record.owner.state = VolumeOwnerState::Inactive;
    advance_resource_version(&mut record)?;
    Ok(record)
}

/// Why a decision that comes again is refused.
pub open spec fn decision_replay_fault(
    record: AgentRegistryRecord,
    stored: AgentEnrollmentApprovalRequest,
    request: AgentEnrollmentApprovalRequest,
    rejection_reason: Option<OpaqueText>,
    previous: Option<AgentRegistryRecord>,
) -> Option<Fault> {
    if !stored.same(request) {
        Some(
            final_fault(
                CentralErrorCode::EnrollmentDecisionConflict,
                "decision request identity or payload differs from the persisted decision"@,
            ),
        )
    } else if !last_rejection_reason(record.storage_enrollment.lifecycle_audit_events@).same(
        rejection_reason,
    ) {
        Some(
            final_fault(
                CentralErrorCode::EnrollmentDecisionConflict,
                "decision request identity was replayed with another rejection reason"@,
            ),
        )
    } else if request.decision is Approve && record.enrollment.replaces_enrollment_id is Some
        && previous is None {
        Some(enrollment_missing())
    } else {
        decision_audit_requirement(record)
    }
}

/// Why a replacement is not approved.
pub open spec fn replacement_approval_fault(
    record: AgentRegistryRecord,
    candidate: AgentCandidateRecord,
    request: AgentEnrollmentApprovalRequest,
    previous: Option<AgentRegistryRecord>,
) -> Option<Fault> {
    if !request.confirm_replacement {
        Some(
            final_fault(
                CentralErrorCode::VolumeOwnerConflict,
                "replacement approval requires explicit confirmation"@,
            ),
        )
    } else {
        match previous {
            None => Some(enrollment_missing()),
            Some(previous) => if !is_approved(previous) {
                Some(not_approved())
            } else if !replacement_has_scope(previous, record) {
                Some(
                    final_fault(
                        CentralErrorCode::AgentIdentityMismatch,
                        "replacement scope differs from the active Volume binding"@,
                    ),
                )
            } else if !candidate_is_new(previous, record, candidate) {
                Some(
                    final_fault(
                        CentralErrorCode::AgentIdentityMismatch,
                        "replacement must use new Agent, installation, credential, and mount identities"@,
                    ),
                )
            } else if previous.mount.mount_generation == u64::MAX {
                Some(generation_exhausted("mount generation"@))
            } else if previous.owner.owner_generation == u64::MAX {
                Some(generation_exhausted("owner generation"@))
            } else if previous.resource_version == u64::MAX || record.resource_version
                == u64::MAX {
                Some(version_exhausted())
            } else {
                None
            },
        }
    }
}

/// The candidate shares no identity with the previous owner's Agent.
pub open spec fn candidate_is_new(
    previous: AgentRegistryRecord,
    record: AgentRegistryRecord,
    candidate: AgentCandidateRecord,
) -> bool {
    &&& previous.instance matches Some(instance)
    &&& instance.agent_id@ != record.enrollment.reserved_agent_id@
    &&& instance.installation_id@ != candidate.installation_id@
    &&& instance.public_key_fingerprint != candidate.public_key_fingerprint
    &&& previous.mount.agent_mount_id@ != record.mount.agent_mount_id@
}

/// Why a decision on a pending enrollment is refused, before anything was decided about it.
pub open spec fn pending_decision_fault(
    record: AgentRegistryRecord,
    request: AgentEnrollmentApprovalRequest,
    previous: Option<AgentRegistryRecord>,
) -> Option<Fault> {
    if request.confirm_replacement && !(request.decision is Approve
        && record.enrollment.replaces_enrollment_id is Some) {
        Some(
            final_fault(
                CentralErrorCode::ProtocolInvalid,
                "replacement confirmation is only valid when approving a replacement enrollment"@,
            ),
        )
    } else {
        match record.candidate {
            None => Some(
                final_fault(
                    CentralErrorCode::ApprovalRequired,
                    "an Agent candidate must bootstrap before tenant approval"@,
                ),
            ),
            Some(candidate) => if request.decision is Reject {
                if record.resource_version == u64::MAX {
                    Some(version_exhausted())
                } else {
                    None
                }
            } else if !probe_is_sufficient(record, candidate.probe) {
                Some(
                    final_fault(
                        CentralErrorCode::EnrollmentProbeFailed,
                        "bootstrap probe does not prove the frozen Volume marker, mount boundary, access mode, and required filesystem semantics"@,
                    ),
                )
            } else if record.enrollment.replaces_enrollment_id is Some {
                replacement_approval_fault(record, candidate, request, previous)
            } else if record.resource_version == u64::MAX {
                Some(version_exhausted())
            } else {
                None
            },
        }
    }
}

/// A pending enrollment whose review window has passed.
pub open spec fn review_has_passed(record: AgentRegistryRecord, now: UnixMillis) -> bool {
    &&& record.enrollment.state is PendingApproval
    &&& record.enrollment.review_expires_at_unix_ms matches Some(expires_at)
    &&& now >= expires_at
}

/// Why a decision is refused.
pub open spec fn decision_fault(
    record: AgentRegistryRecord,
    request: AgentEnrollmentApprovalRequest,
    rejection_reason: Option<OpaqueText>,
    decision_owner: Option<AgentEnrollmentId>,
    previous: Option<AgentRegistryRecord>,
    now: UnixMillis,
) -> Option<Fault> {
    if !(record.storage_enrollment.record_format is CurrentV3) {
        Some(reissue_fault())
    } else if held_elsewhere(decision_owner, record.enrollment.enrollment_id@) {
        Some(
            final_fault(
                CentralErrorCode::EnrollmentDecisionConflict,
                "decision request identity is already bound to another enrollment"@,
            ),
        )
    } else if record.enrollment.decision_request is Some {
        decision_replay_fault(
            record,
            record.enrollment.decision_request->0,
            request,
            rejection_reason,
            previous,
        )
    } else if record.resource_version != request.expected_resource_version {
        Some(version_changed())
    } else if record.enrollment.state is PendingApproval
        && record.enrollment.review_expires_at_unix_ms is None {
        Some(review_undated())
    } else if review_has_passed(record, now) {
        if record.resource_version == u64::MAX {
            Some(version_exhausted())
        } else {
            None
        }
    } else if !(record.enrollment.state is PendingApproval) {
        Some(
            final_fault(
                CentralErrorCode::InvalidState,
                "enrollment decision requires pending approval"@,
            ),
        )
    } else {
        pending_decision_fault(record, request, previous)
    }
}

/// `enrollment` with the decision written down.
pub open spec fn decided_enrollment(
    enrollment: AgentEnrollmentRecord,
    state: AgentEnrollmentState,
    request: AgentEnrollmentApprovalRequest,
    actor: PrincipalRef,
    now: UnixMillis,
) -> AgentEnrollmentRecord {
    AgentEnrollmentRecord {
        state,
        decided_at_unix_ms: Some(now),
        decided_by: Some(actor),
        decision_request: Some(request),
        ..enrollment
    }
}

/// `after` is `before` with its candidate rejected.
pub open spec fn is_rejected_from(
    before: AgentRegistryRecord,
    after: AgentRegistryRecord,
    request: AgentEnrollmentApprovalRequest,
    actor: PrincipalRef,
    rejection_reason: Option<OpaqueText>,
    now: UnixMillis,
) -> bool {
    &&& after.decision_audit_event matches Some(event) && is_decision_audit_event(
        event,
        after.enrollment,
    )
    &&& storage_transitioned(
        AgentRegistryRecord {
            resource_version: (before.resource_version + 1) as u64,
            enrollment: decided_enrollment(
                before.enrollment,
                AgentEnrollmentState::Rejected,
                request,
                actor,
                now,
            ),
            decision_audit_event: after.decision_audit_event,
            ..before
        },
        after,
        Some(StorageEnrollmentState::Rejected),
        AgentEnrollmentLifecycleAuditKind::Rejected,
        now,
        rejection_reason,
    )
}

/// `after` is `before` with its candidate approved as the owner of the Volume.
pub open spec fn is_approved_from(
    before: AgentRegistryRecord,
    after: AgentRegistryRecord,
    candidate: AgentCandidateRecord,
    request: AgentEnrollmentApprovalRequest,
    actor: PrincipalRef,
    owner_state: VolumeOwnerState,
    mount_generation: MountGeneration,
    owner_generation: OwnerGeneration,
    now: UnixMillis,
) -> bool {
    &&& after.decision_audit_event matches Some(event) && is_decision_audit_event(
        event,
        after.enrollment,
    )
    &&& after.instance matches Some(instance) && is_active_instance(
        instance,
        before.enrollment.reserved_agent_id,
        candidate,
    )
    &&& storage_transitioned(
        AgentRegistryRecord {
            resource_version: (before.resource_version + 1) as u64,
            enrollment: decided_enrollment(
                before.enrollment,
                AgentEnrollmentState::Approved,
                request,
                actor,
                now,
            ),
            instance: after.instance,
            mount: AgentMountRecord { mount_generation, ..before.mount },
            owner: VolumeOwnerRecord {
                owner_generation,
                active_agent_id: Some(before.enrollment.reserved_agent_id),
                active_agent_mount_id: Some(before.mount.agent_mount_id),
                state: owner_state,
                ..before.owner
            },
            decision_audit_event: after.decision_audit_event,
            ..before
        },
        after,
        Some(StorageEnrollmentState::Approved),
        AgentEnrollmentLifecycleAuditKind::Approved,
        now,
        None,
    )
}

/// `after` is the previous owner `before`, revoked in favour of `replacement_id`.
pub open spec fn is_revoked_from(
    before: AgentRegistryRecord,
    after: AgentRegistryRecord,
    replacement_id: AgentEnrollmentId,
    now: UnixMillis,
) -> bool {
    &&& before.instance matches Some(instance)
    &&& storage_transitioned(
        revoked_record(
            before,
            instance,
            replacement_id,
            (before.mount.mount_generation + 1) as u64,
            (before.owner.owner_generation + 1) as u64,
        ),
        after,
        None,
        AgentEnrollmentLifecycleAuditKind::Revoked,
        now,
        None,
    )
}

/// The two records that one write stores when a replacement is approved.
pub struct ReplacementPlan {
    pub revoked: AgentRegistryRecord,
    pub replacement: AgentRegistryRecord,
}

fn decided_audit(record: &mut AgentRegistryRecord) -> (result: CentralResult<()>)
    requires
        old(record).enrollment.decision_request matches Some(request)
            && request.expected_resource_version < u64::MAX,
        old(record).enrollment.decided_by is Some,
        old(record).enrollment.decided_at_unix_ms is Some,
    ensures
        result is Ok,
        final(record).decision_audit_event matches Some(event) && is_decision_audit_event(
            event,
            old(record).enrollment,
        ),
        *final(record) == (AgentRegistryRecord {
            decision_audit_event: final(record).decision_audit_event,
            ..*old(record)
        }),
{
    let event = decision_audit_event(&record.enrollment)?;
    record.decision_audit_event = Some(event);
    Ok(())
}

fn reject(
    record: AgentRegistryRecord,
    request: AgentEnrollmentApprovalRequest,
    actor: PrincipalRef,
    rejection_reason: Option<OpaqueText>,
    now: UnixMillis,
) -> (result: CentralResult<AgentRegistryRecord>)
    requires
        record.resource_version == request.expected_resource_version,
    ensures
        fault_of(result) == if record.resource_version == u64::MAX {
            Some(version_exhausted())
        } else {
            None::<Fault>
        },
        result matches Ok(rejected) ==> is_rejected_from(
            record,
            rejected,
            request,
            actor,
            rejection_reason,
            now,
        ),
{
    let mut record = record;
    record.enrollment.state = AgentEnrollmentState::Rejected;
    record.enrollment.decided_at_unix_ms = Some(now);
    record.enrollment.decided_by = Some(actor);
    record.enrollment.decision_request = Some(request);
    advance_resource_version(&mut record)?;
    transition_storage_enrollment(
        &mut record,
        Some(StorageEnrollmentState::Rejected),
        AgentEnrollmentLifecycleAuditKind::Rejected,
        now,
        rejection_reason,
    );
    decided_audit(&mut record)?;
    Ok(record)
}

fn approve(
    record: AgentRegistryRecord,
    instance: AgentInstanceRecord,
    request: AgentEnrollmentApprovalRequest,
    actor: PrincipalRef,
    owner_state: VolumeOwnerState,
    mount_generation: MountGeneration,
    owner_generation: OwnerGeneration,
    now: UnixMillis,
) -> (result: CentralResult<AgentRegistryRecord>)
    requires
        record.resource_version == request.expected_resource_version,
        record.candidate matches Some(candidate) && is_active_instance(
            instance,
            record.enrollment.reserved_agent_id,
            candidate,
        ),
    ensures
        fault_of(result) == if record.resource_version == u64::MAX {
            Some(version_exhausted())
        } else {
            None::<Fault>
        },
        result matches Ok(approved) ==> is_approved_from(
            record,
            approved,
            record.candidate->0,
            request,
            actor,
            owner_state,
            mount_generation,
            owner_generation,
            now,
        ),
{
    let mut record = record;
    record.enrollment.state = AgentEnrollmentState::Approved;
    record.enrollment.decided_at_unix_ms = Some(now);
    record.enrollment.decided_by = Some(actor);
    record.enrollment.decision_request = Some(request);
    record.mount.mount_generation = mount_generation;
    record.owner.owner_generation = owner_generation;
    record.owner.active_agent_id = Some(instance.agent_id.clone());
    record.owner.active_agent_mount_id = Some(record.mount.agent_mount_id.clone());
    record.owner.state = owner_state;
    record.instance = Some(instance);
    advance_resource_version(&mut record)?;
    transition_storage_enrollment(
        &mut record,
        Some(StorageEnrollmentState::Approved),
        AgentEnrollmentLifecycleAuditKind::Approved,
        now,
        None,
    );
    decided_audit(&mut record)?;
    Ok(record)
}

fn approve_replacement(
    record: AgentRegistryRecord,
    instance: AgentInstanceRecord,
    request: AgentEnrollmentApprovalRequest,
    actor: PrincipalRef,
    previous: Option<AgentRegistryRecord>,
    now: UnixMillis,
) -> (result: CentralResult<ReplacementPlan>)
    requires
        record.resource_version == request.expected_resource_version,
        record.candidate matches Some(candidate) && is_active_instance(
            instance,
            record.enrollment.reserved_agent_id,
            candidate,
        ),
    ensures
        fault_of(result) == replacement_approval_fault(
            record,
            record.candidate->0,
            request,
            previous,
        ),
        result matches Ok(plan) ==> {
            &&& previous matches Some(previous)
            &&& is_revoked_from(previous, plan.revoked, record.enrollment.enrollment_id, now)
            &&& is_approved_from(
                record,
                plan.replacement,
                record.candidate->0,
                request,
                actor,
                VolumeOwnerState::RecoveryRequired,
                (previous.mount.mount_generation + 1) as u64,
                (previous.owner.owner_generation + 1) as u64,
                now,
            )
        },
{
    if !request.confirm_replacement {
        return Err(
            final_failure(
                CentralErrorCode::VolumeOwnerConflict,
                "replacement approval requires explicit confirmation",
            ),
        );
    }
    let previous = match previous {
        Some(previous) => previous,
        None => return Err(enrollment_was_not_found()),
    };
    require_approved(&previous)?;
    validate_replacement_scope(&previous, &record, &instance)?;
    let next_mount_generation: u64 = checked_next_generation(
        previous.mount.mount_generation,
        "mount generation",
    )?;
    let next_owner_generation: u64 = checked_next_generation(
        previous.owner.owner_generation,
        "owner generation",
    )?;
    let mut revoked = revoke_for_replacement(
        previous,
        &record.enrollment.enrollment_id,
        next_mount_generation,
        next_owner_generation,
    )?;
    transition_storage_enrollment(
        &mut revoked,
        None,
        AgentEnrollmentLifecycleAuditKind::Revoked,
        now,
        None,
    );
    let replacement = approve(
        record,
        instance,
        request,
        actor,
        VolumeOwnerState::RecoveryRequired,
        next_mount_generation,
        next_owner_generation,
        now,
    )?;
    Ok(ReplacementPlan { revoked, replacement })
}

/// What the step of an accepted decision is.
pub open spec fn is_decision_step(
    step: EnrollmentDecisionStep,
    record: AgentRegistryRecord,
    request: AgentEnrollmentApprovalRequest,
    actor: PrincipalRef,
    rejection_reason: Option<OpaqueText>,
    previous: Option<AgentRegistryRecord>,
    now: UnixMillis,
) -> bool {
    match step {
        EnrollmentDecisionStep::Replayed(answer) => {
            &&& record.enrollment.decision_request is Some
            &&& answer.record == record
            &&& answer.revoked_record == if request.decision is Approve
                && record.enrollment.replaces_enrollment_id is Some {
                previous
            } else {
                None
            }
            &&& answer.replayed
        },
        EnrollmentDecisionStep::Expire { expected, record: expired } => {
            &&& record.enrollment.decision_request is None
            &&& review_has_passed(record, now)
            &&& expected == record.resource_version
            &&& is_expired_from(record, expired, Some(StorageEnrollmentState::Expired), now)
        },
        EnrollmentDecisionStep::Store { expected, record: decided } => {
            &&& record.enrollment.decision_request is None
            &&& !review_has_passed(record, now)
            &&& expected == record.resource_version
            &&& record.candidate matches Some(candidate)
            &&& if request.decision is Reject {
                is_rejected_from(record, decided, request, actor, rejection_reason, now)
            } else {
                &&& record.enrollment.replaces_enrollment_id is None
                &&& is_approved_from(
                    record,
                    decided,
                    candidate,
                    request,
                    actor,
                    VolumeOwnerState::Active,
                    record.mount.mount_generation,
                    record.owner.owner_generation,
                    now,
                )
            }
        },
        EnrollmentDecisionStep::Activate {
            expected_previous,
            revoked,
            expected_replacement,
            replacement,
        } => {
            &&& record.enrollment.decision_request is None
            &&& !review_has_passed(record, now)
            &&& request.decision is Approve
            &&& record.enrollment.replaces_enrollment_id is Some
            &&& record.candidate matches Some(candidate)
            &&& previous matches Some(previous)
            &&& expected_previous == previous.resource_version
            &&& expected_replacement == record.resource_version
            &&& is_revoked_from(previous, revoked, record.enrollment.enrollment_id, now)
            &&& is_approved_from(
                record,
                replacement,
                candidate,
                request,
                actor,
                VolumeOwnerState::RecoveryRequired,
                (previous.mount.mount_generation + 1) as u64,
                (previous.owner.owner_generation + 1) as u64,
                now,
            )
        },
    }
}

/// Decides on an enrollment.
///
/// `decision_owner` is the enrollment that holds the decision request identity, if any, and
/// `previous` the record that this enrollment replaces, where it replaces one.
pub fn decide_enrollment(
    record: AgentRegistryRecord,
    request: AgentEnrollmentApprovalRequest,
    actor: PrincipalRef,
    rejection_reason: Option<OpaqueText>,
    decision_owner: &Option<AgentEnrollmentId>,
    previous: Option<AgentRegistryRecord>,
    now: UnixMillis,
) -> (result: CentralResult<EnrollmentDecisionStep>)
    ensures
        fault_of(result) == decision_fault(
            record,
            request,
            rejection_reason,
            *decision_owner,
            previous,
            now,
        ),
        result matches Ok(step) ==> is_decision_step(
            step,
            record,
            request,
            actor,
            rejection_reason,
            previous,
            now,
        ),
{
    require_current_registry_record(&record)?;
    if decision_owner.is_some() && !is_named(decision_owner, &record.enrollment.enrollment_id) {
        return Err(
            final_failure(
                CentralErrorCode::EnrollmentDecisionConflict,
                "decision request identity is already bound to another enrollment",
            ),
        );
    }
    if let Some(stored_request) = &record.enrollment.decision_request {
        if *stored_request != request {
            return Err(
                final_failure(
                    CentralErrorCode::EnrollmentDecisionConflict,
                    "decision request identity or payload differs from the persisted decision",
                ),
            );
        }
        if lifecycle_rejection_reason(&record) != rejection_reason {
            return Err(
                final_failure(
                    CentralErrorCode::EnrollmentDecisionConflict,
                    "decision request identity was replayed with another rejection reason",
                ),
            );
        }
        let mut revoked_record: Option<AgentRegistryRecord> = None;
        if request.decision == AgentEnrollmentDecision::Approve
            && record.enrollment.replaces_enrollment_id.is_some() {
            if previous.is_none() {
                return Err(enrollment_was_not_found());
            }
            revoked_record = previous;
        }
        require_decision_audit(&record)?;
        return Ok(
            EnrollmentDecisionStep::Replayed(
                DecideAgentEnrollmentResult { record, revoked_record, replayed: true },
            ),
        );
    }
    require_resource_version(&record, request.expected_resource_version)?;
    let expected: ResourceVersion = record.resource_version;
    if record.enrollment.state == AgentEnrollmentState::PendingApproval {
        if review_window_elapsed(&record, now)? {
            let record = expire_record(record, Some(StorageEnrollmentState::Expired), now)?;
            return Ok(EnrollmentDecisionStep::Expire { expected, record });
        }
    } else {
        return Err(
            final_failure(
                CentralErrorCode::InvalidState,
                "enrollment decision requires pending approval",
            ),
        );
    }
    if request.confirm_replacement {
        let confirms_replacement = request.decision == AgentEnrollmentDecision::Approve
            && record.enrollment.replaces_enrollment_id.is_some();
        if !confirms_replacement {
            return Err(
                final_failure(
                    CentralErrorCode::ProtocolInvalid,
                    "replacement confirmation is only valid when approving a replacement enrollment",
                ),
            );
        }
    }
    let candidate = match &record.candidate {
        Some(candidate) => candidate,
        None => return Err(
            final_failure(
                CentralErrorCode::ApprovalRequired,
                "an Agent candidate must bootstrap before tenant approval",
            ),
        ),
    };
    if request.decision == AgentEnrollmentDecision::Reject {
        let record = reject(record, request, actor, rejection_reason, now)?;
        return Ok(EnrollmentDecisionStep::Store { expected, record });
    }
    validate_bootstrap_probe(&record, &candidate.probe)?;
    let instance = active_instance(&record.enrollment.reserved_agent_id, candidate);
    if record.enrollment.replaces_enrollment_id.is_some() {
        let expected_previous: ResourceVersion = match &previous {
            Some(previous) => previous.resource_version,
            None => 0,
        };
        let plan = approve_replacement(record, instance, request, actor, previous, now)?;
        return Ok(
            EnrollmentDecisionStep::Activate {
                expected_previous,
                revoked: plan.revoked,
                expected_replacement: expected,
                replacement: plan.replacement,
            },
        );
    }
    let mount_generation: MountGeneration = record.mount.mount_generation;
    let owner_generation: OwnerGeneration = record.owner.owner_generation;
    let record = approve(
        record,
        instance,
        request,
        actor,
        VolumeOwnerState::Active,
        mount_generation,
        owner_generation,
        now,
    )?;
    Ok(EnrollmentDecisionStep::Store { expected, record })
}

} // verus!
