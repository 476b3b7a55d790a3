//! Which successor records a stored enrollment aggregate accepts.
use vstd::prelude::*;

use crate::agent_registry::records::{
    AgentCandidateRecord, AgentEnrollmentDecision, AgentEnrollmentLifecycleAuditEvent,
    AgentEnrollmentLifecycleAuditKind, AgentEnrollmentRecord, AgentEnrollmentState,
    AgentInstanceRecord, AgentRegistryRecord, AgentRegistryRecordFormat, StorageEnrollmentState,
    VolumeOwnerState,
};
use crate::equality::{numbers_equal, Same};
use crate::error::{
    corruption, corruption_fault, failure, fault, fault_of, final_failure, final_fault,
    CentralErrorCode, CentralResult, Fault,
};
use crate::identifier::{is_named, names};

verus! {

/// A value that, once present, never changes again.
pub open spec fn settled<T: Same>(before: Option<T>, after: Option<T>) -> bool {
    before is Some ==> before.same(after)
}

/// A scalar that, once present, never changes again.
pub open spec fn settled_at(before: Option<u64>, after: Option<u64>) -> bool {
    before is Some ==> before == after
}

fn is_settled_at(before: Option<u64>, after: Option<u64>) -> (holds: bool)
    ensures
        holds == settled_at(before, after),
{
    before.is_none() || before == after
}

/// What the bootstrap token reserved stays as it is.
pub open spec fn enrollment_scope_is_kept(
    stored: AgentEnrollmentRecord,
    updated: AgentEnrollmentRecord,
) -> bool {
    &&& stored.token_id@ == updated.token_id@
    &&& stored.token_request_id@ == updated.token_request_id@
    &&& stored.enrollment_id@ == updated.enrollment_id@
    &&& stored.tenant_id@ == updated.tenant_id@
    &&& stored.edge_cluster_id@ == updated.edge_cluster_id@
    &&& stored.storage_volume_id@ == updated.storage_volume_id@
    &&& stored.volume_descriptor_digest == updated.volume_descriptor_digest
    &&& stored.pvc_identity_digest == updated.pvc_identity_digest
    &&& stored.reserved_agent_id@ == updated.reserved_agent_id@
    &&& stored.reserved_agent_mount_id@ == updated.reserved_agent_mount_id@
    &&& stored.bootstrap_token_digest == updated.bootstrap_token_digest
    &&& stored.created_at_unix_ms == updated.created_at_unix_ms
    &&& stored.expires_at_unix_ms == updated.expires_at_unix_ms
    &&& stored.replaces_enrollment_id.same(updated.replaces_enrollment_id)
    &&& stored.extensions@ == updated.extensions@
}

fn enrollment_scope_holds(
    stored: &AgentEnrollmentRecord,
    updated: &AgentEnrollmentRecord,
) -> (kept: bool)
    ensures
        kept == enrollment_scope_is_kept(*stored, *updated),
{
    stored.token_id == updated.token_id && stored.token_request_id == updated.token_request_id
        && stored.enrollment_id == updated.enrollment_id && stored.tenant_id == updated.tenant_id
        && stored.edge_cluster_id == updated.edge_cluster_id && stored.storage_volume_id
        == updated.storage_volume_id && stored.volume_descriptor_digest
        == updated.volume_descriptor_digest && stored.pvc_identity_digest
        == updated.pvc_identity_digest && stored.reserved_agent_id == updated.reserved_agent_id
        && stored.reserved_agent_mount_id == updated.reserved_agent_mount_id
        && stored.bootstrap_token_digest == updated.bootstrap_token_digest
        && stored.created_at_unix_ms == updated.created_at_unix_ms && stored.expires_at_unix_ms
        == updated.expires_at_unix_ms && stored.replaces_enrollment_id
        == updated.replaces_enrollment_id && stored.extensions == updated.extensions
}

/// What was decided about an enrollment, and when it was bootstrapped, is settled once set.
pub open spec fn enrollment_history_is_kept(
    stored: AgentEnrollmentRecord,
    updated: AgentEnrollmentRecord,
) -> bool {
    &&& settled(stored.decision_request, updated.decision_request)
    &&& settled(stored.decided_by, updated.decided_by)
    &&& settled_at(stored.decided_at_unix_ms, updated.decided_at_unix_ms)
    &&& settled_at(stored.bootstrapped_at_unix_ms, updated.bootstrapped_at_unix_ms)
    &&& settled_at(stored.review_expires_at_unix_ms, updated.review_expires_at_unix_ms)
    &&& settled(stored.replaced_by_enrollment_id, updated.replaced_by_enrollment_id)
}

fn enrollment_history_holds(
    stored: &AgentEnrollmentRecord,
    updated: &AgentEnrollmentRecord,
) -> (kept: bool)
    ensures
        kept == enrollment_history_is_kept(*stored, *updated),
{
    (stored.decision_request.is_none() || stored.decision_request == updated.decision_request) && (
    stored.decided_by.is_none() || stored.decided_by == updated.decided_by) && is_settled_at(
        stored.decided_at_unix_ms,
        updated.decided_at_unix_ms,
    ) && is_settled_at(stored.bootstrapped_at_unix_ms, updated.bootstrapped_at_unix_ms)
        && is_settled_at(stored.review_expires_at_unix_ms, updated.review_expires_at_unix_ms) && (
    stored.replaced_by_enrollment_id.is_none() || stored.replaced_by_enrollment_id
        == updated.replaced_by_enrollment_id)
}

/// A candidate appears once, bound to the mount it probed, and never changes afterwards.
pub open spec fn candidate_transition_is_valid(
    stored: AgentRegistryRecord,
    updated: AgentRegistryRecord,
) -> bool {
    match (stored.candidate, updated.candidate) {
        (None, None) => updated.mount.mount_identity_digest is None,
        (None, Some(candidate)) => {
            &&& candidate.mount_identity_digest == candidate.probe.mount_identity_digest
            &&& updated.mount.mount_identity_digest == Some(candidate.mount_identity_digest)
        },
        (Some(before), Some(after)) => before.same(after),
        (Some(_), None) => false,
    }
}

fn candidate_transition_holds(
    stored: &AgentRegistryRecord,
    updated: &AgentRegistryRecord,
) -> (valid: bool)
    ensures
        valid == candidate_transition_is_valid(*stored, *updated),
{
    match (&stored.candidate, &updated.candidate) {
        (None, None) => updated.mount.mount_identity_digest.is_none(),
        (None, Some(candidate)) => candidate.mount_identity_digest
            == candidate.probe.mount_identity_digest && updated.mount.mount_identity_digest == Some(
            candidate.mount_identity_digest,
        ),
        (Some(before), Some(after)) => candidate_status_transition_matches(before, after),
        (Some(_), None) => false,
    }
}

/// Nothing about an accepted candidate may change.
pub fn candidate_status_transition_matches(
    stored: &AgentCandidateRecord,
    updated: &AgentCandidateRecord,
) -> (matches: bool)
    ensures
        matches == stored.same(*updated),
{
    *stored == *updated
}

/// The lifecycle audit only grows.
pub open spec fn lifecycle_extends(
    stored: Seq<AgentEnrollmentLifecycleAuditEvent>,
    updated: Seq<AgentEnrollmentLifecycleAuditEvent>,
) -> bool {
    &&& stored.len() <= updated.len()
    &&& forall|i: int| 0 <= i < stored.len() ==> (#[trigger] stored[i]).same(updated[i])
}

fn lifecycle_extension_holds(
    stored: &Vec<AgentEnrollmentLifecycleAuditEvent>,
    updated: &Vec<AgentEnrollmentLifecycleAuditEvent>,
) -> (extends: bool)
    ensures
        extends == lifecycle_extends(stored@, updated@),
{
    if stored.len() > updated.len() {
        return false;
    }
    let mut index: usize = 0;
    while index < stored.len()
        invariant
            index <= stored.len() <= updated.len(),
            forall|i: int| 0 <= i < index ==> (#[trigger] stored@[i]).same(updated@[i]),
        decreases stored.len() - index,
    {
        if stored[index] != updated[index] {
            assert(!stored@[index as int].same(updated@[index as int]));
            return false;
        }
        index += 1;
    }
    true
}

/// The public metadata keeps its frozen part, its audit only grows and its time never goes back.
pub open spec fn storage_metadata_is_kept(
    stored: AgentRegistryRecord,
    updated: AgentRegistryRecord,
) -> bool {
    let before = stored.storage_enrollment;
    let after = updated.storage_enrollment;
    &&& before.record_format == after.record_format
    &&& before.descriptor.same(after.descriptor)
    &&& before.token_key_id.same(after.token_key_id)
    &&& before.registration_kind == after.registration_kind
    &&& lifecycle_extends(before.lifecycle_audit_events@, after.lifecycle_audit_events@)
    &&& before.updated_at_unix_ms matches Some(earlier) ==> (after.updated_at_unix_ms matches Some(
        later,
    ) ==> earlier <= later)
}

fn storage_metadata_holds(
    stored: &AgentRegistryRecord,
    updated: &AgentRegistryRecord,
) -> (kept: bool)
    ensures
        kept == storage_metadata_is_kept(*stored, *updated),
{
    let before = &stored.storage_enrollment;
    let after = &updated.storage_enrollment;
    let time_is_monotonic = match (before.updated_at_unix_ms, after.updated_at_unix_ms) {
        (Some(earlier), Some(later)) => later >= earlier,
        _ => true,
    };
    before.record_format == after.record_format && before.descriptor == after.descriptor
        && before.token_key_id == after.token_key_id && before.registration_kind
        == after.registration_kind && lifecycle_extension_holds(
        &before.lifecycle_audit_events,
        &after.lifecycle_audit_events,
    ) && time_is_monotonic
}

/// An update keeps every identity, scope and settled fact of the stored record.
pub open spec fn registry_scope_is_kept(
    stored: AgentRegistryRecord,
    updated: AgentRegistryRecord,
) -> bool {
    &&& enrollment_scope_is_kept(stored.enrollment, updated.enrollment)
    &&& enrollment_history_is_kept(stored.enrollment, updated.enrollment)
    &&& candidate_transition_is_valid(stored, updated)
    &&& stored.mount.agent_mount_id@ == updated.mount.agent_mount_id@
    &&& stored.mount.storage_volume_id@ == updated.mount.storage_volume_id@
    &&& stored.mount.expected_volume_marker@ == updated.mount.expected_volume_marker@
    &&& stored.mount.desired_access_mode == updated.mount.desired_access_mode
    &&& stored.owner.tenant_id@ == updated.owner.tenant_id@
    &&& stored.owner.storage_volume_id@ == updated.owner.storage_volume_id@
    &&& settled(stored.decision_audit_event, updated.decision_audit_event)
    &&& storage_metadata_is_kept(stored, updated)
}

pub fn ensure_immutable_registry_scope(
    stored: &AgentRegistryRecord,
    updated: &AgentRegistryRecord,
) -> (result: CentralResult<()>)
    ensures
        fault_of(result) == if registry_scope_is_kept(*stored, *updated) {
            None::<Fault>
        } else {
            Some(
                final_fault(
                    CentralErrorCode::AgentIdentityMismatch,
                    "Agent registry update attempted to change immutable identity or Volume scope"@,
                ),
            )
        },
{
    let mount_scope_matches = stored.mount.agent_mount_id == updated.mount.agent_mount_id
        && stored.mount.storage_volume_id == updated.mount.storage_volume_id
        && stored.mount.expected_volume_marker == updated.mount.expected_volume_marker
        && stored.mount.desired_access_mode == updated.mount.desired_access_mode
        && candidate_transition_holds(stored, updated);
    let owner_scope_matches = stored.owner.tenant_id == updated.owner.tenant_id
        && stored.owner.storage_volume_id == updated.owner.storage_volume_id;
    let decision_audit_transition_valid = stored.decision_audit_event.is_none()
        || stored.decision_audit_event == updated.decision_audit_event;
    if !enrollment_scope_holds(&stored.enrollment, &updated.enrollment) || !mount_scope_matches
        || !owner_scope_matches || !decision_audit_transition_valid || !enrollment_history_holds(
        &stored.enrollment,
        &updated.enrollment,
    ) || !storage_metadata_holds(stored, updated) {
        return Err(
            final_failure(
                CentralErrorCode::AgentIdentityMismatch,
                "Agent registry update attempted to change immutable identity or Volume scope",
            ),
        );
    }
    Ok(())
}

/// One event of the given kind was appended by the same write.
pub open spec fn lifecycle_kind_is_appended(
    stored: AgentRegistryRecord,
    updated: AgentRegistryRecord,
    kind: AgentEnrollmentLifecycleAuditKind,
) -> bool {
    let events = updated.storage_enrollment.lifecycle_audit_events@;
    &&& events.len() == stored.storage_enrollment.lifecycle_audit_events@.len() + 1
    &&& events.last().kind == kind
    &&& events.last().resource_version == updated.resource_version
}

pub(crate) fn lifecycle_kind_appended(
    stored: &AgentRegistryRecord,
    updated: &AgentRegistryRecord,
    kind: AgentEnrollmentLifecycleAuditKind,
) -> (appended: bool)
    ensures
        appended == lifecycle_kind_is_appended(*stored, *updated, kind),
{
    let events = &updated.storage_enrollment.lifecycle_audit_events;
    if events.len() == 0 || events.len() - 1
        != stored.storage_enrollment.lifecycle_audit_events.len() {
        return false;
    }
    let last = &events[events.len() - 1];
    last.kind == kind && last.resource_version == updated.resource_version
}

/// The public state and the audit event that belong to an internal transition; `None` where the
/// transition has no public counterpart.
pub open spec fn public_transition(
    stored: AgentRegistryRecord,
    updated: AgentRegistryRecord,
) -> Option<(Option<StorageEnrollmentState>, Option<AgentEnrollmentLifecycleAuditKind>)> {
    match (stored.enrollment.state, updated.enrollment.state) {
        (AgentEnrollmentState::TokenIssued, AgentEnrollmentState::PendingApproval) => Some(
            (
                Some(StorageEnrollmentState::PendingApproval),
                Some(AgentEnrollmentLifecycleAuditKind::PendingApproval),
            ),
        ),
        (AgentEnrollmentState::TokenIssued, AgentEnrollmentState::Expired) => Some(
            (None, Some(AgentEnrollmentLifecycleAuditKind::Expired)),
        ),
        (AgentEnrollmentState::PendingApproval, AgentEnrollmentState::Approved) => Some(
            (
                Some(StorageEnrollmentState::Approved),
                Some(AgentEnrollmentLifecycleAuditKind::Approved),
            ),
        ),
        (AgentEnrollmentState::PendingApproval, AgentEnrollmentState::Rejected) => Some(
            (
                Some(StorageEnrollmentState::Rejected),
                Some(AgentEnrollmentLifecycleAuditKind::Rejected),
            ),
        ),
        (AgentEnrollmentState::PendingApproval, AgentEnrollmentState::Expired) => Some(
            (
                Some(StorageEnrollmentState::Expired),
                Some(AgentEnrollmentLifecycleAuditKind::Expired),
            ),
        ),
        (AgentEnrollmentState::PendingApproval, AgentEnrollmentState::PendingApproval) => Some(
            (Some(StorageEnrollmentState::PendingApproval), None),
        ),
        (AgentEnrollmentState::Rejected, AgentEnrollmentState::Rejected) => Some(
            (Some(StorageEnrollmentState::Rejected), None),
        ),
        (AgentEnrollmentState::Expired, AgentEnrollmentState::Expired) =>
            if stored.candidate is Some {
            Some((Some(StorageEnrollmentState::Expired), None))
        } else {
            None
        },
        (AgentEnrollmentState::Approved, AgentEnrollmentState::Approved) => match (
            stored.storage_enrollment.state,
            updated.storage_enrollment.state,
        ) {
            (
                Some(StorageEnrollmentState::Approved),
                Some(StorageEnrollmentState::Approved),
            ) => Some((Some(StorageEnrollmentState::Approved), None)),
            (
                Some(StorageEnrollmentState::Approved),
                Some(StorageEnrollmentState::Enrolled),
            ) => Some(
                (
                    Some(StorageEnrollmentState::Enrolled),
                    Some(AgentEnrollmentLifecycleAuditKind::Enrolled),
                ),
            ),
            (
                Some(StorageEnrollmentState::Enrolled),
                Some(StorageEnrollmentState::Enrolled),
            ) => Some((Some(StorageEnrollmentState::Enrolled), None)),
            _ => None,
        },
        _ => None,
    }
}

/// The public state and the lifecycle audit follow the internal transition in the same write.
pub open spec fn storage_transition_agrees(
    stored: AgentRegistryRecord,
    updated: AgentRegistryRecord,
) -> bool {
    if stored.storage_enrollment.record_format is LegacyV2 {
        updated.storage_enrollment.same(stored.storage_enrollment)
    } else {
        match public_transition(stored, updated) {
            None => false,
            Some((state, event)) => {
                &&& updated.storage_enrollment.state == state
                &&& match event {
                    Some(kind) => lifecycle_kind_is_appended(stored, updated, kind),
                    None => updated.storage_enrollment.lifecycle_audit_events.same(
                        stored.storage_enrollment.lifecycle_audit_events,
                    ),
                }
            },
        }
    }
}

fn public_transition_of(
    stored: &AgentRegistryRecord,
    updated: &AgentRegistryRecord,
) -> (transition: Option<
    (Option<StorageEnrollmentState>, Option<AgentEnrollmentLifecycleAuditKind>),
>)
    ensures
        transition == public_transition(*stored, *updated),
{
    match (stored.enrollment.state, updated.enrollment.state) {
        (AgentEnrollmentState::TokenIssued, AgentEnrollmentState::PendingApproval) => Some(
            (
                Some(StorageEnrollmentState::PendingApproval),
                Some(AgentEnrollmentLifecycleAuditKind::PendingApproval),
            ),
        ),
        (AgentEnrollmentState::TokenIssued, AgentEnrollmentState::Expired) => Some(
            (None, Some(AgentEnrollmentLifecycleAuditKind::Expired)),
        ),
        (AgentEnrollmentState::PendingApproval, AgentEnrollmentState::Approved) => Some(
            (
                Some(StorageEnrollmentState::Approved),
                Some(AgentEnrollmentLifecycleAuditKind::Approved),
            ),
        ),
        (AgentEnrollmentState::PendingApproval, AgentEnrollmentState::Rejected) => Some(
            (
                Some(StorageEnrollmentState::Rejected),
                Some(AgentEnrollmentLifecycleAuditKind::Rejected),
            ),
        ),
        (AgentEnrollmentState::PendingApproval, AgentEnrollmentState::Expired) => Some(
            (
                Some(StorageEnrollmentState::Expired),
                Some(AgentEnrollmentLifecycleAuditKind::Expired),
            ),
        ),
        (AgentEnrollmentState::PendingApproval, AgentEnrollmentState::PendingApproval) => Some(
            (Some(StorageEnrollmentState::PendingApproval), None),
        ),
        (AgentEnrollmentState::Rejected, AgentEnrollmentState::Rejected) => Some(
            (Some(StorageEnrollmentState::Rejected), None),
        ),
        (AgentEnrollmentState::Expired, AgentEnrollmentState::Expired) => {
            if stored.candidate.is_some() {
                Some((Some(StorageEnrollmentState::Expired), None))
            } else {
                None
            }
        },
        (AgentEnrollmentState::Approved, AgentEnrollmentState::Approved) => match (
            stored.storage_enrollment.state,
            updated.storage_enrollment.state,
        ) {
            (
                Some(StorageEnrollmentState::Approved),
                Some(StorageEnrollmentState::Approved),
            ) => Some((Some(StorageEnrollmentState::Approved), None)),
            (
                Some(StorageEnrollmentState::Approved),
                Some(StorageEnrollmentState::Enrolled),
            ) => Some(
                (
                    Some(StorageEnrollmentState::Enrolled),
                    Some(AgentEnrollmentLifecycleAuditKind::Enrolled),
                ),
            ),
            (
                Some(StorageEnrollmentState::Enrolled),
                Some(StorageEnrollmentState::Enrolled),
            ) => Some((Some(StorageEnrollmentState::Enrolled), None)),
            _ => None,
        },
        _ => None,
    }
}

pub fn storage_enrollment_transition_matches(
    stored: &AgentRegistryRecord,
    updated: &AgentRegistryRecord,
) -> (matches: bool)
    ensures
        matches == storage_transition_agrees(*stored, *updated),
{
    if stored.storage_enrollment.record_format == AgentRegistryRecordFormat::LegacyV2 {
        return updated.storage_enrollment == stored.storage_enrollment;
    }
    match public_transition_of(stored, updated) {
        None => false,
        Some((state, event)) => {
            if updated.storage_enrollment.state != state {
                return false;
            }
            match event {
                Some(kind) => lifecycle_kind_appended(stored, updated, kind),
                None => updated.storage_enrollment.lifecycle_audit_events
                    == stored.storage_enrollment.lifecycle_audit_events,
            }
        },
    }
}

/// Enrollment states that an ordinary write may connect. Approving a replacement is not ordinary:
/// it revokes another record in the same write.
pub open spec fn enrollment_step_is_valid(
    stored: AgentEnrollmentRecord,
    updated: AgentEnrollmentRecord,
) -> bool {
    match (stored.state, updated.state) {
        (AgentEnrollmentState::TokenIssued, AgentEnrollmentState::PendingApproval) => true,
        (AgentEnrollmentState::TokenIssued, AgentEnrollmentState::Expired) => true,
        (AgentEnrollmentState::PendingApproval, AgentEnrollmentState::PendingApproval) => true,
        (AgentEnrollmentState::PendingApproval, AgentEnrollmentState::Rejected) => true,
        (AgentEnrollmentState::PendingApproval, AgentEnrollmentState::Expired) => true,
        (AgentEnrollmentState::PendingApproval, AgentEnrollmentState::Approved) =>
            stored.replaces_enrollment_id is None,
        (AgentEnrollmentState::Approved, AgentEnrollmentState::Approved) => true,
        (AgentEnrollmentState::Rejected, AgentEnrollmentState::Rejected) => true,
        (AgentEnrollmentState::Expired, AgentEnrollmentState::Expired) => true,
        _ => false,
    }
}

fn enrollment_step_holds(
    stored: &AgentEnrollmentRecord,
    updated: &AgentEnrollmentRecord,
) -> (valid: bool)
    ensures
        valid == enrollment_step_is_valid(*stored, *updated),
{
    match (stored.state, updated.state) {
        (AgentEnrollmentState::TokenIssued, AgentEnrollmentState::PendingApproval) => true,
        (AgentEnrollmentState::TokenIssued, AgentEnrollmentState::Expired) => true,
        (AgentEnrollmentState::PendingApproval, AgentEnrollmentState::PendingApproval) => true,
        (AgentEnrollmentState::PendingApproval, AgentEnrollmentState::Rejected) => true,
        (AgentEnrollmentState::PendingApproval, AgentEnrollmentState::Expired) => true,
        (AgentEnrollmentState::PendingApproval, AgentEnrollmentState::Approved) =>
            stored.replaces_enrollment_id.is_none(),
        (AgentEnrollmentState::Approved, AgentEnrollmentState::Approved) => true,
        (AgentEnrollmentState::Rejected, AgentEnrollmentState::Rejected) => true,
        (AgentEnrollmentState::Expired, AgentEnrollmentState::Expired) => true,
        _ => false,
    }
}

/// A decision names the version it was made on and confirms no replacement.
pub open spec fn decision_is_bound(
    stored: AgentRegistryRecord,
    updated: AgentRegistryRecord,
) -> bool {
    updated.enrollment.decision_request matches Some(request) && request.expected_resource_version
        == stored.resource_version && !request.confirm_replacement
}

/// The part of an instance that no session changes.
pub open spec fn static_identity_is_kept(
    stored: AgentInstanceRecord,
    updated: AgentInstanceRecord,
) -> bool {
    &&& stored.agent_id@ == updated.agent_id@
    &&& stored.installation_id@ == updated.installation_id@
    &&& stored.public_key_fingerprint == updated.public_key_fingerprint
    &&& stored.agent_version@ == updated.agent_version@
    &&& stored.supported_protocol_versions@ == updated.supported_protocol_versions@
    &&& stored.capabilities.same(updated.capabilities)
    &&& stored.state == updated.state
}

fn static_identity_holds(stored: &AgentInstanceRecord, updated: &AgentInstanceRecord) -> (kept:
    bool)
    ensures
        kept == static_identity_is_kept(*stored, *updated),
{
    stored.agent_id == updated.agent_id && stored.installation_id == updated.installation_id
        && stored.public_key_fingerprint == updated.public_key_fingerprint && stored.agent_version
        == updated.agent_version && numbers_equal(
        &stored.supported_protocol_versions,
        &updated.supported_protocol_versions,
    ) && stored.capabilities == updated.capabilities && stored.state == updated.state
}

/// An approved record keeps its owner and static identity; only a recovery may complete.
pub open spec fn runtime_step_is_valid(
    stored: AgentRegistryRecord,
    updated: AgentRegistryRecord,
) -> bool {
    &&& stored.owner.state == updated.owner.state || (stored.owner.state is RecoveryRequired
        && updated.owner.state is Active)
    &&& stored.owner.active_agent_id.same(updated.owner.active_agent_id)
    &&& stored.owner.active_agent_mount_id.same(updated.owner.active_agent_mount_id)
    &&& stored.instance matches Some(before) && updated.instance matches Some(after)
        && static_identity_is_kept(before, after)
}

fn runtime_step_holds(stored: &AgentRegistryRecord, updated: &AgentRegistryRecord) -> (valid: bool)
    ensures
        valid == runtime_step_is_valid(*stored, *updated),
{
    let owner_state_valid = stored.owner.state == updated.owner.state || (stored.owner.state
        == VolumeOwnerState::RecoveryRequired && updated.owner.state == VolumeOwnerState::Active);
    let static_identity_kept = match (&stored.instance, &updated.instance) {
        (Some(before), Some(after)) => static_identity_holds(before, after),
        _ => false,
    };
    owner_state_valid && stored.owner.active_agent_id == updated.owner.active_agent_id
        && stored.owner.active_agent_mount_id == updated.owner.active_agent_mount_id
        && static_identity_kept
}

/// Why an ordinary write may not replace `stored` by `updated`.
pub open spec fn replace_transition_fault(
    stored: AgentRegistryRecord,
    updated: AgentRegistryRecord,
) -> Option<Fault> {
    if stored.mount.mount_generation != updated.mount.mount_generation
        || stored.owner.owner_generation != updated.owner.owner_generation {
        Some(corruption_fault("Agent registry replace attempted to change a fenced generation"@))
    } else if !enrollment_step_is_valid(stored.enrollment, updated.enrollment) {
        Some(
            corruption_fault(
                "Agent registry replace attempted an invalid enrollment state transition"@,
            ),
        )
    } else if !storage_transition_agrees(stored, updated) {
        Some(
            corruption_fault(
                "Agent enrollment public state and lifecycle audit were not changed atomically"@,
            ),
        )
    } else if stored.enrollment.state is PendingApproval && (updated.enrollment.state is Approved
        || updated.enrollment.state is Rejected) && !decision_is_bound(stored, updated) {
        Some(corruption_fault("Agent enrollment decision is not bound to its repository CAS"@))
    } else if stored.enrollment.state is Approved && updated.enrollment.state is Approved
        && !runtime_step_is_valid(stored, updated) {
        Some(
            corruption_fault(
                "approved Agent runtime update changed fenced owner or static identity state"@,
            ),
        )
    } else {
        None
    }
}

pub fn validate_registry_replace_transition(
    stored: &AgentRegistryRecord,
    updated: &AgentRegistryRecord,
) -> (result: CentralResult<()>)
    ensures
        fault_of(result) == replace_transition_fault(*stored, *updated),
{
    if stored.mount.mount_generation != updated.mount.mount_generation
        || stored.owner.owner_generation != updated.owner.owner_generation {
        return Err(corruption("Agent registry replace attempted to change a fenced generation"));
    }
    if !enrollment_step_holds(&stored.enrollment, &updated.enrollment) {
        return Err(
            corruption("Agent registry replace attempted an invalid enrollment state transition"),
        );
    }
    if !storage_enrollment_transition_matches(stored, updated) {
        return Err(
            corruption(
                "Agent enrollment public state and lifecycle audit were not changed atomically",
            ),
        );
    }
    if stored.enrollment.state == AgentEnrollmentState::PendingApproval && matches!(
        updated.enrollment.state,
        AgentEnrollmentState::Approved | AgentEnrollmentState::Rejected
    ) {
        let decision_matches_cas = match &updated.enrollment.decision_request {
            Some(request) => request.expected_resource_version == stored.resource_version
                && !request.confirm_replacement,
            None => false,
        };
        if !decision_matches_cas {
            return Err(corruption("Agent enrollment decision is not bound to its repository CAS"));
        }
    }
    if stored.enrollment.state == AgentEnrollmentState::Approved && updated.enrollment.state
        == AgentEnrollmentState::Approved && !runtime_step_holds(stored, updated) {
        return Err(
            corruption(
                "approved Agent runtime update changed fenced owner or static identity state",
            ),
        );
    }
    Ok(())
}

pub fn checked_next_registry_resource_version(current: u64) -> (result: CentralResult<u64>)
    ensures
        result matches Ok(next) ==> next == current + 1,
        fault_of(result) == if current == u64::MAX {
            Some(corruption_fault("Agent registry ResourceVersion is exhausted"@))
        } else {
            None::<Fault>
        },
{
    match current.checked_add(1) {
        Some(next) => Ok(next),
        None => Err(corruption("Agent registry ResourceVersion is exhausted")),
    }
}

/// The two records point at each other and change state together, as the decision asked for.
pub open spec fn replacement_is_linked(
    stored_previous: AgentRegistryRecord,
    revoked: AgentRegistryRecord,
    stored_replacement: AgentRegistryRecord,
    replacement: AgentRegistryRecord,
) -> bool {
    let previous_id = stored_previous.enrollment.enrollment_id@;
    let replacement_id = stored_replacement.enrollment.enrollment_id@;
    &&& previous_id != replacement_id
    &&& stored_previous.enrollment.state is Approved
    &&& revoked.enrollment.state is Revoked
    &&& stored_replacement.enrollment.state is PendingApproval
    &&& replacement.enrollment.state is Approved
    &&& names(stored_replacement.enrollment.replaces_enrollment_id, previous_id)
    &&& names(replacement.enrollment.replaces_enrollment_id, previous_id)
    &&& names(revoked.enrollment.replaced_by_enrollment_id, replacement_id)
    &&& replacement.enrollment.replaced_by_enrollment_id is None
    &&& replacement.enrollment.decision_request matches Some(request)
    &&& request.decision is Approve
    &&& request.confirm_replacement
    &&& request.expected_resource_version == stored_replacement.resource_version
}

fn replacement_link_holds(
    stored_previous: &AgentRegistryRecord,
    revoked: &AgentRegistryRecord,
    stored_replacement: &AgentRegistryRecord,
    replacement: &AgentRegistryRecord,
) -> (linked: bool)
    ensures
        linked == replacement_is_linked(
            *stored_previous,
            *revoked,
            *stored_replacement,
            *replacement,
        ),
{
    let previous_id = &stored_previous.enrollment.enrollment_id;
    let replacement_id = &stored_replacement.enrollment.enrollment_id;
    let decision_confirms = match &replacement.enrollment.decision_request {
        Some(request) => request.decision == AgentEnrollmentDecision::Approve
            && request.confirm_replacement && request.expected_resource_version
            == stored_replacement.resource_version,
        None => false,
    };
    *previous_id != *replacement_id && stored_previous.enrollment.state
        == AgentEnrollmentState::Approved && revoked.enrollment.state
        == AgentEnrollmentState::Revoked && stored_replacement.enrollment.state
        == AgentEnrollmentState::PendingApproval && replacement.enrollment.state
        == AgentEnrollmentState::Approved && is_named(
        &stored_replacement.enrollment.replaces_enrollment_id,
        previous_id,
    ) && is_named(&replacement.enrollment.replaces_enrollment_id, previous_id) && is_named(
        &revoked.enrollment.replaced_by_enrollment_id,
        replacement_id,
    ) && replacement.enrollment.replaced_by_enrollment_id.is_none() && decision_confirms
}

/// Both public states and both lifecycle audits follow the replacement in the same write.
pub open spec fn replacement_lifecycle_is_atomic(
    stored_previous: AgentRegistryRecord,
    revoked: AgentRegistryRecord,
    stored_replacement: AgentRegistryRecord,
    replacement: AgentRegistryRecord,
) -> bool {
    &&& stored_replacement.storage_enrollment.record_format is CurrentV3
    &&& replacement.storage_enrollment.state == Some(StorageEnrollmentState::Approved)
    &&& lifecycle_kind_is_appended(
        stored_replacement,
        replacement,
        AgentEnrollmentLifecycleAuditKind::Approved,
    )
    &&& if stored_previous.storage_enrollment.record_format is LegacyV2 {
        revoked.storage_enrollment.same(stored_previous.storage_enrollment)
    } else {
        &&& revoked.storage_enrollment.state is None
        &&& lifecycle_kind_is_appended(
            stored_previous,
            revoked,
            AgentEnrollmentLifecycleAuditKind::Revoked,
        )
    }
}

fn replacement_lifecycle_holds(
    stored_previous: &AgentRegistryRecord,
    revoked: &AgentRegistryRecord,
    stored_replacement: &AgentRegistryRecord,
    replacement: &AgentRegistryRecord,
) -> (atomic: bool)
    ensures
        atomic == replacement_lifecycle_is_atomic(
            *stored_previous,
            *revoked,
            *stored_replacement,
            *replacement,
        ),
{
    let replacement_approved = replacement.storage_enrollment.state == Some(
        StorageEnrollmentState::Approved,
    ) && lifecycle_kind_appended(
        stored_replacement,
        replacement,
        AgentEnrollmentLifecycleAuditKind::Approved,
    );
    match (
        stored_previous.storage_enrollment.record_format,
        stored_replacement.storage_enrollment.record_format,
    ) {
        (AgentRegistryRecordFormat::LegacyV2, AgentRegistryRecordFormat::CurrentV3) =>
            revoked.storage_enrollment == stored_previous.storage_enrollment
            && replacement_approved,
        (AgentRegistryRecordFormat::CurrentV3, AgentRegistryRecordFormat::CurrentV3) =>
            revoked.storage_enrollment.state.is_none() && lifecycle_kind_appended(
            stored_previous,
            revoked,
            AgentEnrollmentLifecycleAuditKind::Revoked,
        ) && replacement_approved,
        _ => false,
    }
}

/// Both records are frozen to the same Volume and mount identity.
pub open spec fn volume_scope_agrees(
    previous: AgentRegistryRecord,
    replacement: AgentRegistryRecord,
) -> bool {
    &&& previous.enrollment.tenant_id@ == replacement.enrollment.tenant_id@
    &&& previous.enrollment.edge_cluster_id@ == replacement.enrollment.edge_cluster_id@
    &&& previous.enrollment.storage_volume_id@ == replacement.enrollment.storage_volume_id@
    &&& previous.enrollment.volume_descriptor_digest
        == replacement.enrollment.volume_descriptor_digest
    &&& previous.enrollment.pvc_identity_digest == replacement.enrollment.pvc_identity_digest
    &&& previous.mount.expected_volume_marker@ == replacement.mount.expected_volume_marker@
    &&& previous.mount.desired_access_mode == replacement.mount.desired_access_mode
    &&& previous.mount.mount_identity_digest == replacement.mount.mount_identity_digest
}

pub(crate) fn volume_scope_holds(
    previous: &AgentRegistryRecord,
    replacement: &AgentRegistryRecord,
) -> (agrees: bool)
    ensures
        agrees == volume_scope_agrees(*previous, *replacement),
{
    previous.enrollment.tenant_id == replacement.enrollment.tenant_id
        && previous.enrollment.edge_cluster_id == replacement.enrollment.edge_cluster_id
        && previous.enrollment.storage_volume_id == replacement.enrollment.storage_volume_id
        && previous.enrollment.volume_descriptor_digest
        == replacement.enrollment.volume_descriptor_digest
        && previous.enrollment.pvc_identity_digest == replacement.enrollment.pvc_identity_digest
        && previous.mount.expected_volume_marker == replacement.mount.expected_volume_marker
        && previous.mount.desired_access_mode == replacement.mount.desired_access_mode
        && previous.mount.mount_identity_digest == replacement.mount.mount_identity_digest
}

/// Two Agents that share no identity.
pub open spec fn identities_are_distinct(
    previous: AgentInstanceRecord,
    previous_mount_id: Seq<char>,
    next: AgentInstanceRecord,
    next_mount_id: Seq<char>,
) -> bool {
    &&& previous.agent_id@ != next.agent_id@
    &&& previous.installation_id@ != next.installation_id@
    &&& previous.public_key_fingerprint != next.public_key_fingerprint
    &&& previous_mount_id != next_mount_id
}

/// Why one write may not revoke the previous owner and activate its replacement.
pub open spec fn replacement_transition_fault(
    stored_previous: AgentRegistryRecord,
    expected_previous: u64,
    revoked: AgentRegistryRecord,
    stored_replacement: AgentRegistryRecord,
    expected_replacement: u64,
    replacement: AgentRegistryRecord,
) -> Option<Fault> {
    if stored_previous.resource_version != expected_previous || stored_replacement.resource_version
        != expected_replacement || stored_previous.enrollment.enrollment_id@
        != revoked.enrollment.enrollment_id@ || stored_replacement.enrollment.enrollment_id@
        != replacement.enrollment.enrollment_id@ {
        Some(
            fault(
                CentralErrorCode::ConcurrentUpdate,
                "Agent replacement records changed before atomic approval"@,
            ),
        )
    } else if expected_previous == u64::MAX || expected_replacement == u64::MAX {
        Some(corruption_fault("Agent registry ResourceVersion is exhausted"@))
    } else if revoked.resource_version != expected_previous + 1 || replacement.resource_version
        != expected_replacement + 1 {
        Some(
            fault(
                CentralErrorCode::ConcurrentUpdate,
                "Agent replacement records did not advance ResourceVersion by one"@,
            ),
        )
    } else if !replacement_is_linked(stored_previous, revoked, stored_replacement, replacement) {
        Some(
            corruption_fault(
                "Agent replacement records do not form one bidirectional state transition"@,
            ),
        )
    } else if !replacement_lifecycle_is_atomic(
        stored_previous,
        revoked,
        stored_replacement,
        replacement,
    ) {
        Some(
            corruption_fault(
                "Agent replacement status and lifecycle audit were not committed atomically"@,
            ),
        )
    } else if !volume_scope_agrees(stored_previous, stored_replacement) {
        Some(corruption_fault("Agent replacement records disagree on their frozen Volume scope"@))
    } else if stored_previous.mount.mount_generation == u64::MAX {
        Some(corruption_fault("Agent replacement mount generation is exhausted"@))
    } else if stored_previous.owner.owner_generation == u64::MAX {
        Some(corruption_fault("Agent replacement owner generation is exhausted"@))
    } else if revoked.mount.mount_generation != stored_previous.mount.mount_generation + 1
        || replacement.mount.mount_generation != stored_previous.mount.mount_generation + 1
        || revoked.owner.owner_generation != stored_previous.owner.owner_generation + 1
        || replacement.owner.owner_generation != stored_previous.owner.owner_generation + 1 || !(
    replacement.owner.state is RecoveryRequired) {
        Some(
            corruption_fault(
                "Agent replacement records do not advance matching mount and owner generations"@,
            ),
        )
    } else if !(stored_previous.instance matches Some(previous) && replacement.instance matches Some(
        next,
    ) && identities_are_distinct(
        previous,
        stored_previous.mount.agent_mount_id@,
        next,
        replacement.mount.agent_mount_id@,
    )) {
        Some(corruption_fault("Agent replacement must activate a distinct Agent identity"@))
    } else {
        None
    }
}

pub fn validate_registry_replacement_transition(
    stored_previous: &AgentRegistryRecord,
    expected_previous: u64,
    revoked: &AgentRegistryRecord,
    stored_replacement: &AgentRegistryRecord,
    expected_replacement: u64,
    replacement: &AgentRegistryRecord,
) -> (result: CentralResult<()>)
    ensures
        fault_of(result) == replacement_transition_fault(
            *stored_previous,
            expected_previous,
            *revoked,
            *stored_replacement,
            expected_replacement,
            *replacement,
        ),
{
    if stored_previous.resource_version != expected_previous || stored_replacement.resource_version
        != expected_replacement || stored_previous.enrollment.enrollment_id
        != revoked.enrollment.enrollment_id || stored_replacement.enrollment.enrollment_id
        != replacement.enrollment.enrollment_id {
        return Err(
            failure(
                CentralErrorCode::ConcurrentUpdate,
                "Agent replacement records changed before atomic approval",
            ),
        );
    }
    let next_previous: u64 = checked_next_registry_resource_version(expected_previous)?;
    let next_replacement: u64 = checked_next_registry_resource_version(expected_replacement)?;
    if revoked.resource_version != next_previous || replacement.resource_version
        != next_replacement {
        return Err(
            failure(
                CentralErrorCode::ConcurrentUpdate,
                "Agent replacement records did not advance ResourceVersion by one",
            ),
        );
    }
    if !replacement_link_holds(stored_previous, revoked, stored_replacement, replacement) {
        return Err(
            corruption("Agent replacement records do not form one bidirectional state transition"),
        );
    }
    if !replacement_lifecycle_holds(stored_previous, revoked, stored_replacement, replacement) {
        return Err(
            corruption(
                "Agent replacement status and lifecycle audit were not committed atomically",
            ),
        );
    }
    if !volume_scope_holds(stored_previous, stored_replacement) {
        return Err(corruption("Agent replacement records disagree on their frozen Volume scope"));
    }
    let next_mount_generation: u64 = match stored_previous.mount.mount_generation.checked_add(1) {
        Some(next) => next,
        None => return Err(corruption("Agent replacement mount generation is exhausted")),
    };
    let next_owner_generation: u64 = match stored_previous.owner.owner_generation.checked_add(1) {
        Some(next) => next,
        None => return Err(corruption("Agent replacement owner generation is exhausted")),
    };
    if revoked.mount.mount_generation != next_mount_generation || replacement.mount.mount_generation
        != next_mount_generation || revoked.owner.owner_generation != next_owner_generation
        || replacement.owner.owner_generation != next_owner_generation || replacement.owner.state
        != VolumeOwnerState::RecoveryRequired {
        return Err(
            corruption(
                "Agent replacement records do not advance matching mount and owner generations",
            ),
        );
    }
    let distinct = match (&stored_previous.instance, &replacement.instance) {
        (Some(previous), Some(next)) => previous.agent_id != next.agent_id
            && previous.installation_id != next.installation_id && previous.public_key_fingerprint
            != next.public_key_fingerprint && stored_previous.mount.agent_mount_id
            != replacement.mount.agent_mount_id,
        _ => false,
    };
    if !distinct {
        return Err(corruption("Agent replacement must activate a distinct Agent identity"));
    }
    Ok(())
}

} // verus!
