//! What deciding on an enrollment promises.
use vstd::prelude::*;

use crate::agent_registry::decision::{decide_enrollment, EnrollmentDecisionStep};
use crate::agent_registry::records::{
    AgentBootstrapProbe, AgentCandidateRecord, AgentEnrollmentApprovalRequest,
    AgentEnrollmentLifecycleAuditKind, AgentEnrollmentRecord, AgentInstanceRecord, AgentMountRecord,
    AgentRegistryRecord, StorageEnrollmentState, VolumeOwnerRecord,
};
use crate::equality::Same;
use crate::error::{CentralErrorCode, CentralResult};
use crate::identifier::{AgentEnrollmentId, OpaqueText, PrincipalRef, UnixMillis};
use crate::laws::enrollment::{describes_the_same, is_closed, is_free_for, lemma_events, tells_of};
use crate::laws::jobs::fails_with;

verus! {

/// An enrollment of the current format waits for a decision that nobody made, at the version that a
/// request expects and within its review window; the identity of the request is free.
pub open spec fn awaits(
    record: AgentRegistryRecord,
    request: AgentEnrollmentApprovalRequest,
    owner: Option<AgentEnrollmentId>,
    now: UnixMillis,
) -> bool {
    &&& record.storage_enrollment.record_format is CurrentV3
    &&& is_free_for(owner, record.enrollment.enrollment_id@)
    &&& record.enrollment.decision_request is None
    &&& record.resource_version == request.expected_resource_version
    &&& record.resource_version < u64::MAX
    &&& record.enrollment.state is PendingApproval
    &&& record.enrollment.review_expires_at_unix_ms is Some
    &&& now < record.enrollment.review_expires_at_unix_ms->0
    &&& record.candidate is Some
}

/// A decision is written down: by whom, when and on which request, with one event that tells so, and
/// the enrollment moves on by one version.
pub open spec fn is_written_down(
    record: AgentRegistryRecord,
    after: AgentRegistryRecord,
    request: AgentEnrollmentApprovalRequest,
    actor: PrincipalRef,
    now: UnixMillis,
) -> bool {
    &&& after.resource_version == record.resource_version + 1
    &&& after.enrollment.decided_at_unix_ms == Some(now)
    &&& after.enrollment.decided_by == Some(actor)
    &&& after.enrollment.decision_request == Some(request)
    &&& after.enrollment == AgentEnrollmentRecord {
        state: after.enrollment.state,
        decided_at_unix_ms: after.enrollment.decided_at_unix_ms,
        decided_by: after.enrollment.decided_by,
        decision_request: after.enrollment.decision_request,
        ..record.enrollment
    }
    &&& after.candidate == record.candidate
    &&& after.decision_audit_event matches Some(event)
    &&& event.tenant_id@ == record.enrollment.tenant_id@
    &&& event.enrollment_id@ == record.enrollment.enrollment_id@
    &&& event.storage_volume_id@ == record.enrollment.storage_volume_id@
    &&& event.decision_request_id@ == request.decision_request_id@
    &&& event.resource_version == record.resource_version + 1
    &&& event.actor@ == actor@
    &&& event.occurred_at_unix_ms == now
}

/// Rejecting an enrollment that awaits its decision ends it: it is rejected, with the reason that was
/// given, whatever its probe showed; the Agent gets no instance, and mount and owner stay.
pub proof fn lemma_waiting_enrollment_is_rejected(
    record: AgentRegistryRecord,
    request: AgentEnrollmentApprovalRequest,
    actor: PrincipalRef,
    reason: Option<OpaqueText>,
    owner: &Option<AgentEnrollmentId>,
    previous: Option<AgentRegistryRecord>,
    now: UnixMillis,
    result: CentralResult<EnrollmentDecisionStep>,
)
    requires
        call_ensures(
            decide_enrollment,
            (record, request, actor, reason, owner, previous, now),
            result,
        ),
        awaits(record, request, *owner, now),
        request.decision is Reject,
        !request.confirm_replacement,
    ensures
        result matches Ok(EnrollmentDecisionStep::Store { expected, record: after }) && {
            &&& expected == record.resource_version
            &&& after.enrollment.state is Rejected
            &&& is_written_down(record, after, request, actor, now)
            &&& after.decision_audit_event->0.kind is Rejected
            &&& after.instance == record.instance
            &&& after.mount == record.mount
            &&& after.owner == record.owner
            &&& tells_of(
                record.storage_enrollment,
                after.storage_enrollment,
                record.enrollment,
                record.resource_version + 1,
                Some(StorageEnrollmentState::Rejected),
                AgentEnrollmentLifecycleAuditKind::Rejected,
                now,
                reason,
            )
        },
{
    if let Ok(EnrollmentDecisionStep::Store { record: after, .. }) = result {
        lemma_events(record.storage_enrollment, after.storage_enrollment);
    }
}

/// A probe proves a volume: its marker was read and is the expected one, at a mount boundary, with
/// the desired access, which for writing includes rename and fsync, and it is ready or degraded.
pub open spec fn proves_the_volume(probe: AgentBootstrapProbe, mount: AgentMountRecord) -> bool {
    &&& probe.marker_matches
    &&& probe.observed_volume_marker is Some
    &&& probe.observed_volume_marker->0@ == mount.expected_volume_marker@
    &&& probe.mount_boundary_detected
    &&& probe.access_mode == Some(mount.desired_access_mode)
    &&& mount.desired_access_mode is ReadWrite ==> probe.rename_supported && probe.fsync_supported
    &&& probe.health is Ready || probe.health is Degraded
}

/// An Agent starts from its candidate, active and without a session.
pub open spec fn starts_from(
    instance: AgentInstanceRecord,
    record: AgentRegistryRecord,
    candidate: AgentCandidateRecord,
) -> bool {
    &&& instance.agent_id@ == record.enrollment.reserved_agent_id@
    &&& instance.installation_id@ == candidate.installation_id@
    &&& instance.public_key_fingerprint == candidate.public_key_fingerprint
    &&& instance.agent_version@ == candidate.agent_version@
    &&& instance.supported_protocol_versions@ == candidate.supported_protocol_versions@
    &&& instance.capabilities@ == candidate.capabilities@
    &&& instance.state is Active
    &&& instance.session_generation is None
    &&& instance.active_boot_id is None
    &&& instance.active_session_id is None
    &&& instance.session_open_expected_resource_version is None
    &&& instance.session_opened_at_unix_ms is None
    &&& instance.last_heartbeat_at_unix_ms is None
    &&& instance.last_sequence is None
}

/// Approving a first enrollment whose probe proves the volume gives its Agent an instance and makes it
/// the active owner of the volume, in the generations that the token reserved.
pub proof fn lemma_waiting_enrollment_is_approved(
    record: AgentRegistryRecord,
    request: AgentEnrollmentApprovalRequest,
    actor: PrincipalRef,
    reason: Option<OpaqueText>,
    owner: &Option<AgentEnrollmentId>,
    previous: Option<AgentRegistryRecord>,
    now: UnixMillis,
    result: CentralResult<EnrollmentDecisionStep>,
)
    requires
        call_ensures(
            decide_enrollment,
            (record, request, actor, reason, owner, previous, now),
            result,
        ),
        awaits(record, request, *owner, now),
        request.decision is Approve,
        !request.confirm_replacement,
        record.enrollment.replaces_enrollment_id is None,
        proves_the_volume(record.candidate->0.probe, record.mount),
    ensures
        result matches Ok(EnrollmentDecisionStep::Store { expected, record: after }) && {
            &&& expected == record.resource_version
            &&& after.enrollment.state is Approved
            &&& is_written_down(record, after, request, actor, now)
            &&& after.decision_audit_event->0.kind is Approved
            &&& after.instance matches Some(instance)
            &&& starts_from(instance, record, record.candidate->0)
            &&& after.mount == record.mount
            &&& after.owner.state is Active
            &&& after.owner.active_agent_id == Some(record.enrollment.reserved_agent_id)
            &&& after.owner.active_agent_mount_id == Some(record.mount.agent_mount_id)
            &&& after.owner == VolumeOwnerRecord {
                state: after.owner.state,
                active_agent_id: after.owner.active_agent_id,
                active_agent_mount_id: after.owner.active_agent_mount_id,
                ..record.owner
            }
            &&& tells_of(
                record.storage_enrollment,
                after.storage_enrollment,
                record.enrollment,
                record.resource_version + 1,
                Some(StorageEnrollmentState::Approved),
                AgentEnrollmentLifecycleAuditKind::Approved,
                now,
                None,
            )
        },
{
    if let Ok(EnrollmentDecisionStep::Store { record: after, .. }) = result {
        lemma_events(record.storage_enrollment, after.storage_enrollment);
    }
}

/// A replacement serves the very volume of the Agent that it replaces.
pub open spec fn serves_the_same_volume(
    previous: AgentRegistryRecord,
    record: AgentRegistryRecord,
) -> bool {
    &&& previous.enrollment.tenant_id@ == record.enrollment.tenant_id@
    &&& previous.enrollment.edge_cluster_id@ == record.enrollment.edge_cluster_id@
    &&& previous.enrollment.storage_volume_id@ == record.enrollment.storage_volume_id@
    &&& previous.enrollment.volume_descriptor_digest == record.enrollment.volume_descriptor_digest
    &&& previous.enrollment.pvc_identity_digest == record.enrollment.pvc_identity_digest
    &&& previous.mount.expected_volume_marker@ == record.mount.expected_volume_marker@
    &&& previous.mount.desired_access_mode == record.mount.desired_access_mode
    &&& previous.mount.mount_identity_digest == record.mount.mount_identity_digest
    &&& previous.storage_enrollment.record_format is LegacyV2 || match (
        previous.storage_enrollment.descriptor,
        record.storage_enrollment.descriptor,
    ) {
        (None, None) => true,
        (Some(left), Some(right)) => describes_the_same(left, right),
        _ => false,
    }
}

/// A replacement brings an Agent, an installation, a key and a mount of its own.
pub open spec fn brings_its_own(
    previous: AgentRegistryRecord,
    record: AgentRegistryRecord,
    candidate: AgentCandidateRecord,
) -> bool {
    &&& previous.instance is Some
    &&& previous.instance->0.agent_id@ != record.enrollment.reserved_agent_id@
    &&& previous.instance->0.installation_id@ != candidate.installation_id@
    &&& previous.instance->0.public_key_fingerprint != candidate.public_key_fingerprint
    &&& previous.mount.agent_mount_id@ != record.mount.agent_mount_id@
}

/// What a confirmed replacement asks of the Agent that it replaces: it is approved and active, serves
/// the same volume, and shares no identity with the replacement.
pub open spec fn may_be_replaced(
    previous: Option<AgentRegistryRecord>,
    record: AgentRegistryRecord,
) -> bool {
    &&& previous is Some
    &&& previous->0.enrollment.state is Approved
    &&& previous->0.instance is Some
    &&& previous->0.instance->0.state is Active
    &&& serves_the_same_volume(previous->0, record)
    &&& brings_its_own(previous->0, record, record.candidate->0)
}

/// Approving a confirmed replacement revokes the Agent that it replaces and activates the new one in
/// one step, both in the next generations of mount and owner. The revoked Agent has no session and no
/// volume any more and names its successor; the volume of the new one is in recovery.
pub proof fn lemma_replacement_takes_over(
    record: AgentRegistryRecord,
    request: AgentEnrollmentApprovalRequest,
    actor: PrincipalRef,
    reason: Option<OpaqueText>,
    owner: &Option<AgentEnrollmentId>,
    previous: Option<AgentRegistryRecord>,
    now: UnixMillis,
    result: CentralResult<EnrollmentDecisionStep>,
)
    requires
        call_ensures(
            decide_enrollment,
            (record, request, actor, reason, owner, previous, now),
            result,
        ),
        awaits(record, request, *owner, now),
        request.decision is Approve,
        request.confirm_replacement,
        record.enrollment.replaces_enrollment_id is Some,
        proves_the_volume(record.candidate->0.probe, record.mount),
        may_be_replaced(previous, record),
        previous->0.mount.mount_generation < u64::MAX,
        previous->0.owner.owner_generation < u64::MAX,
        previous->0.resource_version < u64::MAX,
    ensures
        result matches Ok(
            EnrollmentDecisionStep::Activate {
                expected_previous,
                revoked,
                expected_replacement,
                replacement,
            },
        ) && {
            &&& expected_previous == previous->0.resource_version
            &&& expected_replacement == record.resource_version
            &&& replacement.enrollment.state is Approved
            &&& is_written_down(record, replacement, request, actor, now)
            &&& replacement.decision_audit_event->0.kind is ReplacementApproved
            &&& replacement.instance is Some
            &&& starts_from(replacement.instance->0, record, record.candidate->0)
            &&& replacement.mount.mount_generation == previous->0.mount.mount_generation + 1
            &&& replacement.mount == AgentMountRecord {
                mount_generation: replacement.mount.mount_generation,
                ..record.mount
            }
            &&& replacement.owner.state is RecoveryRequired
            &&& replacement.owner.owner_generation == previous->0.owner.owner_generation + 1
            &&& replacement.owner.active_agent_id == Some(record.enrollment.reserved_agent_id)
            &&& replacement.owner.active_agent_mount_id == Some(record.mount.agent_mount_id)
            &&& revoked.resource_version == previous->0.resource_version + 1
            &&& revoked.enrollment.state is Revoked
            &&& revoked.enrollment.replaced_by_enrollment_id == Some(
                record.enrollment.enrollment_id,
            )
            &&& revoked.enrollment == AgentEnrollmentRecord {
                state: revoked.enrollment.state,
                replaced_by_enrollment_id: revoked.enrollment.replaced_by_enrollment_id,
                ..previous->0.enrollment
            }
            &&& revoked.instance is Some
            &&& revoked.instance->0.state is Revoked
            &&& revoked.instance->0.agent_id == previous->0.instance->0.agent_id
            &&& revoked.instance->0.session_generation
                == previous->0.instance->0.session_generation
            &&& revoked.instance->0.active_boot_id is None
            &&& revoked.instance->0.active_session_id is None
            &&& revoked.instance->0.session_open_expected_resource_version is None
            &&& revoked.instance->0.session_opened_at_unix_ms is None
            &&& revoked.instance->0.last_heartbeat_at_unix_ms is None
            &&& revoked.instance->0.last_sequence is None
            &&& revoked.mount.mount_generation == previous->0.mount.mount_generation + 1
            &&& revoked.mount.health is Unknown
            &&& revoked.mount.observed_volume_marker is None
            &&& revoked.mount.observed_access_mode is None
            &&& revoked.mount.reported_health is None
            &&& revoked.mount.observed_at_unix_ms is None
            &&& revoked.owner.owner_generation == previous->0.owner.owner_generation + 1
            &&& revoked.owner.active_agent_id is None
            &&& revoked.owner.active_agent_mount_id is None
            &&& revoked.owner.state is Inactive
            &&& tells_of(
                previous->0.storage_enrollment,
                revoked.storage_enrollment,
                previous->0.enrollment,
                previous->0.resource_version + 1,
                None,
                AgentEnrollmentLifecycleAuditKind::Revoked,
                now,
                None,
            )
            &&& tells_of(
                record.storage_enrollment,
                replacement.storage_enrollment,
                record.enrollment,
                record.resource_version + 1,
                Some(StorageEnrollmentState::Approved),
                AgentEnrollmentLifecycleAuditKind::Approved,
                now,
                None,
            )
        },
{
    if let Ok(EnrollmentDecisionStep::Activate { revoked, replacement, .. }) = result {
        lemma_events(record.storage_enrollment, replacement.storage_enrollment);
        if !(previous->0.storage_enrollment.record_format is LegacyV2) {
            lemma_events(previous->0.storage_enrollment, revoked.storage_enrollment);
        }
    }
}

/// Nothing is approved without a proof of the volume, nor a replacement without its confirmation or
/// of an Agent that may not be replaced; a confirmation that confirms nothing is refused.
pub proof fn lemma_approval_has_its_limits(
    record: AgentRegistryRecord,
    request: AgentEnrollmentApprovalRequest,
    actor: PrincipalRef,
    reason: Option<OpaqueText>,
    owner: &Option<AgentEnrollmentId>,
    previous: Option<AgentRegistryRecord>,
    now: UnixMillis,
    result: CentralResult<EnrollmentDecisionStep>,
)
    requires
        call_ensures(
            decide_enrollment,
            (record, request, actor, reason, owner, previous, now),
            result,
        ),
        awaits(record, request, *owner, now),
    ensures
        request.confirm_replacement && !(request.decision is Approve
            && record.enrollment.replaces_enrollment_id is Some) ==> fails_with(
            result,
            CentralErrorCode::ProtocolInvalid,
        ),
        request.decision is Approve && (request.confirm_replacement
            ==> record.enrollment.replaces_enrollment_id is Some) && !proves_the_volume(
            record.candidate->0.probe,
            record.mount,
        ) ==> fails_with(result, CentralErrorCode::EnrollmentProbeFailed),
        request.decision is Approve && record.enrollment.replaces_enrollment_id is Some
            && proves_the_volume(record.candidate->0.probe, record.mount)
            && !request.confirm_replacement ==> fails_with(
            result,
            CentralErrorCode::VolumeOwnerConflict,
        ),
        request.decision is Approve && record.enrollment.replaces_enrollment_id is Some
            && !may_be_replaced(previous, record) ==> result is Err,
{
}

/// A decision is refused for an enrollment of the earlier format, under an identity that another
/// enrollment holds, at another version than the expected one, and on an enrollment that does not
/// wait for one. After the review window the enrollment expires instead.
pub proof fn lemma_decision_comes_in_time(
    record: AgentRegistryRecord,
    request: AgentEnrollmentApprovalRequest,
    actor: PrincipalRef,
    reason: Option<OpaqueText>,
    owner: &Option<AgentEnrollmentId>,
    previous: Option<AgentRegistryRecord>,
    now: UnixMillis,
    result: CentralResult<EnrollmentDecisionStep>,
)
    requires
        call_ensures(
            decide_enrollment,
            (record, request, actor, reason, owner, previous, now),
            result,
        ),
    ensures
        record.storage_enrollment.record_format is LegacyV2 ==> fails_with(
            result,
            CentralErrorCode::LegacyEnrollmentRequiresReissue,
        ),
        record.storage_enrollment.record_format is CurrentV3 && !is_free_for(
            *owner,
            record.enrollment.enrollment_id@,
        ) ==> fails_with(result, CentralErrorCode::EnrollmentDecisionConflict),
        record.storage_enrollment.record_format is CurrentV3 && is_free_for(
            *owner,
            record.enrollment.enrollment_id@,
        ) && record.enrollment.decision_request is None && record.resource_version
            != request.expected_resource_version ==> fails_with(
            result,
            CentralErrorCode::ConcurrentUpdate,
        ),
        record.enrollment.decision_request is None && !(record.enrollment.state is PendingApproval)
            ==> result is Err,
        record.enrollment.decision_request is None && record.candidate is None && (
        record.enrollment.review_expires_at_unix_ms is None || now
            < record.enrollment.review_expires_at_unix_ms->0) ==> result is Err,
        record.storage_enrollment.record_format is CurrentV3 && is_free_for(
            *owner,
            record.enrollment.enrollment_id@,
        ) && record.enrollment.decision_request is None && record.resource_version
            == request.expected_resource_version && record.resource_version < u64::MAX
            && record.enrollment.state is PendingApproval
            && record.enrollment.review_expires_at_unix_ms is Some
            && record.enrollment.review_expires_at_unix_ms->0 <= now ==> (result matches Ok(
            EnrollmentDecisionStep::Expire { expected, record: after },
        ) && expected == record.resource_version && is_closed(
            record,
            after,
            Some(StorageEnrollmentState::Expired),
            now,
        )),
{
    if let Ok(EnrollmentDecisionStep::Expire { record: after, .. }) = result {
        if !(record.storage_enrollment.record_format is LegacyV2) {
            lemma_events(record.storage_enrollment, after.storage_enrollment);
        }
    }
}

/// A decision is made once: the same request again gives the decided enrollment back, with the Agent
/// that it replaced, and another request is refused as a conflict.
pub proof fn lemma_decision_is_made_once(
    record: AgentRegistryRecord,
    request: AgentEnrollmentApprovalRequest,
    actor: PrincipalRef,
    reason: Option<OpaqueText>,
    owner: &Option<AgentEnrollmentId>,
    previous: Option<AgentRegistryRecord>,
    now: UnixMillis,
    result: CentralResult<EnrollmentDecisionStep>,
)
    requires
        call_ensures(
            decide_enrollment,
            (record, request, actor, reason, owner, previous, now),
            result,
        ),
        record.storage_enrollment.record_format is CurrentV3,
        is_free_for(*owner, record.enrollment.enrollment_id@),
        record.enrollment.decision_request is Some,
    ensures
        !record.enrollment.decision_request->0.same(request) ==> fails_with(
            result,
            CentralErrorCode::EnrollmentDecisionConflict,
        ),
        result is Ok ==> record.enrollment.decision_request->0.same(request),
        result matches Ok(step) ==> {
            &&& step matches EnrollmentDecisionStep::Replayed(answer)
            &&& answer.record == record
            &&& answer.replayed
            &&& answer.revoked_record == if request.decision is Approve
                && record.enrollment.replaces_enrollment_id is Some {
                previous
            } else {
                None
            }
        },
{
}

} // verus!
