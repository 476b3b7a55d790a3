//! How a stored enrollment may change: what it never loses, which states follow each other, and what
//! one write does to both sides of a replacement.
use vstd::prelude::*;

use crate::agent_registry::records::{
    AgentCandidateRecord, AgentEnrollmentLifecycleAuditKind, AgentRegistryRecord,
    StorageEnrollmentState,
};
use crate::agent_registry::transition::{
    candidate_status_transition_matches, checked_next_registry_resource_version,
    ensure_immutable_registry_scope, storage_enrollment_transition_matches,
    validate_registry_replace_transition, validate_registry_replacement_transition,
};
use crate::equality::Same;
use crate::error::{CentralErrorCode, CentralResult};
use crate::laws::jobs::fails_with;

verus! {

/// What was there once is there unchanged.
pub open spec fn stays<T: Same>(before: Option<T>, after: Option<T>) -> bool {
    before matches Some(value) ==> after is Some && value.same(after->0)
}

/// What an enrollment was issued for is the same in both records.
pub open spec fn keeps_its_token(stored: AgentRegistryRecord, updated: AgentRegistryRecord) -> bool {
    let before = stored.enrollment;
    let after = updated.enrollment;
    &&& after.token_id@ == before.token_id@
    &&& after.token_request_id@ == before.token_request_id@
    &&& after.enrollment_id@ == before.enrollment_id@
    &&& after.tenant_id@ == before.tenant_id@
    &&& after.edge_cluster_id@ == before.edge_cluster_id@
    &&& after.storage_volume_id@ == before.storage_volume_id@
    &&& after.volume_descriptor_digest == before.volume_descriptor_digest
    &&& after.pvc_identity_digest == before.pvc_identity_digest
    &&& after.reserved_agent_id@ == before.reserved_agent_id@
    &&& after.reserved_agent_mount_id@ == before.reserved_agent_mount_id@
    &&& after.bootstrap_token_digest == before.bootstrap_token_digest
    &&& after.created_at_unix_ms == before.created_at_unix_ms
    &&& after.expires_at_unix_ms == before.expires_at_unix_ms
    &&& after.replaces_enrollment_id is Some <==> before.replaces_enrollment_id is Some
    &&& before.replaces_enrollment_id matches Some(replaced) ==> after.replaces_enrollment_id->0@
        == replaced@
    &&& after.extensions@ == before.extensions@
}

/// What was decided on an enrollment, and when, is still so.
pub open spec fn keeps_its_history(
    stored: AgentRegistryRecord,
    updated: AgentRegistryRecord,
) -> bool {
    let before = stored.enrollment;
    let after = updated.enrollment;
    &&& stays(before.decision_request, after.decision_request)
    &&& stays(before.decided_by, after.decided_by)
    &&& before.decided_at_unix_ms is Some ==> after.decided_at_unix_ms == before.decided_at_unix_ms
    &&& before.bootstrapped_at_unix_ms is Some ==> after.bootstrapped_at_unix_ms
        == before.bootstrapped_at_unix_ms
    &&& before.review_expires_at_unix_ms is Some ==> after.review_expires_at_unix_ms
        == before.review_expires_at_unix_ms
    &&& stays(before.replaced_by_enrollment_id, after.replaced_by_enrollment_id)
    &&& stays(stored.decision_audit_event, updated.decision_audit_event)
}

/// The mount and the owner are of the same volume, wanted in the same way.
pub open spec fn keeps_its_mount(stored: AgentRegistryRecord, updated: AgentRegistryRecord) -> bool {
    &&& updated.mount.agent_mount_id@ == stored.mount.agent_mount_id@
    &&& updated.mount.storage_volume_id@ == stored.mount.storage_volume_id@
    &&& updated.mount.expected_volume_marker@ == stored.mount.expected_volume_marker@
    &&& updated.mount.desired_access_mode == stored.mount.desired_access_mode
    &&& updated.owner.tenant_id@ == stored.owner.tenant_id@
    &&& updated.owner.storage_volume_id@ == stored.owner.storage_volume_id@
}

/// A candidate comes with the mount that it showed, and then stays as it is.
pub open spec fn keeps_its_candidate(
    stored: AgentRegistryRecord,
    updated: AgentRegistryRecord,
) -> bool {
    &&& stays(stored.candidate, updated.candidate)
    &&& stored.candidate is None && updated.candidate is None
        ==> updated.mount.mount_identity_digest is None
    &&& stored.candidate is None && updated.candidate is Some ==> {
        &&& updated.candidate->0.mount_identity_digest
            == updated.candidate->0.probe.mount_identity_digest
        &&& updated.mount.mount_identity_digest == Some(
            updated.candidate->0.mount_identity_digest,
        )
    }
}

/// The public side keeps what it was frozen with, every event that it told, and its time.
pub open spec fn keeps_its_public_side(
    stored: AgentRegistryRecord,
    updated: AgentRegistryRecord,
) -> bool {
    let before = stored.storage_enrollment;
    let after = updated.storage_enrollment;
    &&& after.record_format == before.record_format
    &&& after.descriptor is Some <==> before.descriptor is Some
    &&& stays(before.descriptor, after.descriptor)
    &&& after.token_key_id is Some <==> before.token_key_id is Some
    &&& stays(before.token_key_id, after.token_key_id)
    &&& after.registration_kind == before.registration_kind
    &&& after.lifecycle_audit_events@.len() >= before.lifecycle_audit_events@.len()
    &&& forall|i: int|
        0 <= i < before.lifecycle_audit_events@.len() ==> (
        #[trigger] before.lifecycle_audit_events@[i]).same(after.lifecycle_audit_events@[i])
    &&& before.updated_at_unix_ms is Some && after.updated_at_unix_ms is Some
        ==> before.updated_at_unix_ms->0 <= after.updated_at_unix_ms->0
}

/// An update is let through exactly where it keeps the token, the history, the mount, the candidate
/// and the public side of what it updates.
pub proof fn lemma_update_keeps_what_is_settled(
    stored: &AgentRegistryRecord,
    updated: &AgentRegistryRecord,
    result: CentralResult<()>,
)
    requires
        call_ensures(ensure_immutable_registry_scope, (stored, updated), result),
    ensures
        result is Ok <==> {
            &&& keeps_its_token(*stored, *updated)
            &&& keeps_its_history(*stored, *updated)
            &&& keeps_its_mount(*stored, *updated)
            &&& keeps_its_candidate(*stored, *updated)
            &&& keeps_its_public_side(*stored, *updated)
        },
        result is Err ==> fails_with(result, CentralErrorCode::AgentIdentityMismatch),
{
}

/// An accepted candidate is never exchanged for another.
pub proof fn lemma_candidate_stays(
    stored: &AgentCandidateRecord,
    updated: &AgentCandidateRecord,
    matches: bool,
)
    requires
        call_ensures(candidate_status_transition_matches, (stored, updated), matches),
    ensures
        stored.same(*updated) <==> matches,
{
}

/// Versions count up by one and end at the largest.
pub proof fn lemma_version_counts_up(current: u64, result: CentralResult<u64>)
    requires
        call_ensures(checked_next_registry_resource_version, (current,), result),
    ensures
        current < u64::MAX ==> result is Ok && result->Ok_0 == current + 1,
        current == u64::MAX ==> fails_with(result, CentralErrorCode::StorageFailure),
{
}

/// One event more tells of a change that this version made.
pub open spec fn tells_of(
    stored: AgentRegistryRecord,
    updated: AgentRegistryRecord,
    kind: AgentEnrollmentLifecycleAuditKind,
) -> bool {
    let before = stored.storage_enrollment.lifecycle_audit_events@;
    let after = updated.storage_enrollment.lifecycle_audit_events@;
    &&& after.len() == before.len() + 1
    &&& after[before.len() as int].kind == kind
    &&& after[before.len() as int].resource_version == updated.resource_version
}

/// The public side tells nothing new.
pub open spec fn tells_nothing(stored: AgentRegistryRecord, updated: AgentRegistryRecord) -> bool {
    let before = stored.storage_enrollment.lifecycle_audit_events@;
    let after = updated.storage_enrollment.lifecycle_audit_events@;
    &&& after.len() == before.len()
    &&& forall|i: int| 0 <= i < after.len() ==> (#[trigger] after[i]).same(before[i])
}

/// The public side of a current record follows each change of its state in the same write: it shows
/// the new state, and one event tells of it.
pub proof fn lemma_public_side_follows(
    stored: &AgentRegistryRecord,
    updated: &AgentRegistryRecord,
    matches: bool,
)
    requires
        call_ensures(storage_enrollment_transition_matches, (stored, updated), matches),
        stored.storage_enrollment.record_format is CurrentV3,
    ensures
        ({
            let from = stored.enrollment.state;
            let to = updated.enrollment.state;
            let shown = updated.storage_enrollment.state;
            &&& from is TokenIssued && to is PendingApproval ==> (matches <==> shown == Some(
                StorageEnrollmentState::PendingApproval,
            ) && tells_of(
                *stored,
                *updated,
                AgentEnrollmentLifecycleAuditKind::PendingApproval,
            ))
            &&& from is TokenIssued && to is Expired ==> (matches <==> shown is None && tells_of(
                *stored,
                *updated,
                AgentEnrollmentLifecycleAuditKind::Expired,
            ))
            &&& from is PendingApproval && to is Approved ==> (matches <==> shown == Some(
                StorageEnrollmentState::Approved,
            ) && tells_of(*stored, *updated, AgentEnrollmentLifecycleAuditKind::Approved))
            &&& from is PendingApproval && to is Rejected ==> (matches <==> shown == Some(
                StorageEnrollmentState::Rejected,
            ) && tells_of(*stored, *updated, AgentEnrollmentLifecycleAuditKind::Rejected))
            &&& from is PendingApproval && to is Expired ==> (matches <==> shown == Some(
                StorageEnrollmentState::Expired,
            ) && tells_of(*stored, *updated, AgentEnrollmentLifecycleAuditKind::Expired))
            &&& from is PendingApproval && to is PendingApproval ==> (matches <==> shown == Some(
                StorageEnrollmentState::PendingApproval,
            ) && tells_nothing(*stored, *updated))
            &&& from is Rejected && to is Rejected ==> (matches <==> shown == Some(
                StorageEnrollmentState::Rejected,
            ) && tells_nothing(*stored, *updated))
            &&& from is Expired && to is Expired && stored.candidate is Some ==> (matches
                <==> shown == Some(StorageEnrollmentState::Expired) && tells_nothing(
                *stored,
                *updated,
            ))
            &&& from is TokenIssued && !(to is PendingApproval || to is Expired) ==> !matches
            &&& from is Revoked ==> !matches
            &&& from is Approved && !(to is Approved) ==> !matches
        }),
{
}

/// An approved Agent shows as approved until it first came up, and from then on as enrolled.
pub proof fn lemma_approved_agent_enrolls_once(
    stored: &AgentRegistryRecord,
    updated: &AgentRegistryRecord,
    matches: bool,
)
    requires
        call_ensures(storage_enrollment_transition_matches, (stored, updated), matches),
        stored.storage_enrollment.record_format is CurrentV3,
        stored.enrollment.state is Approved,
        updated.enrollment.state is Approved,
    ensures
        ({
            let from = stored.storage_enrollment.state;
            let to = updated.storage_enrollment.state;
            matches <==> {
                ||| {
                    &&& from == Some(StorageEnrollmentState::Approved)
                    &&& to == Some(StorageEnrollmentState::Enrolled)
                    &&& tells_of(*stored, *updated, AgentEnrollmentLifecycleAuditKind::Enrolled)
                }
                ||| {
                    &&& from == Some(StorageEnrollmentState::Approved) || from == Some(
                        StorageEnrollmentState::Enrolled,
                    )
                    &&& to == from
                    &&& tells_nothing(*stored, *updated)
                }
            }
        }),
{
}

/// A record of the earlier format has no public side that could change.
pub proof fn lemma_earlier_format_is_untouched(
    stored: &AgentRegistryRecord,
    updated: &AgentRegistryRecord,
    matches: bool,
)
    requires
        call_ensures(storage_enrollment_transition_matches, (stored, updated), matches),
        stored.storage_enrollment.record_format is LegacyV2,
    ensures
        matches <==> updated.storage_enrollment.same(stored.storage_enrollment),
{
}

/// The states that one ordinary write may join: a token is redeemed or expires, a candidate is
/// approved (where it replaces nobody), rejected or expires, and what stands may stay.
pub open spec fn may_follow(stored: AgentRegistryRecord, updated: AgentRegistryRecord) -> bool {
    let from = stored.enrollment.state;
    let to = updated.enrollment.state;
    ||| from is TokenIssued && (to is PendingApproval || to is Expired)
    ||| from is PendingApproval && (to is PendingApproval || to is Rejected || to is Expired)
    ||| from is PendingApproval && to is Approved && stored.enrollment.replaces_enrollment_id is None
    ||| from is Approved && to is Approved
    ||| from is Rejected && to is Rejected
    ||| from is Expired && to is Expired
}

/// The decision was made on the version that is stored, and revokes nobody.
pub open spec fn is_decided_on(stored: AgentRegistryRecord, updated: AgentRegistryRecord) -> bool {
    &&& updated.enrollment.decision_request is Some
    &&& updated.enrollment.decision_request->0.expected_resource_version == stored.resource_version
    &&& !updated.enrollment.decision_request->0.confirm_replacement
}

/// An approved Agent stays the owner of its volume, and who it is.
pub open spec fn stays_the_owner(stored: AgentRegistryRecord, updated: AgentRegistryRecord) -> bool {
    &&& updated.owner.state == stored.owner.state || (stored.owner.state is RecoveryRequired
        && updated.owner.state is Active)
    &&& updated.owner.active_agent_id is Some <==> stored.owner.active_agent_id is Some
    &&& stored.owner.active_agent_id matches Some(agent) ==> updated.owner.active_agent_id->0@
        == agent@
    &&& updated.owner.active_agent_mount_id is Some <==> stored.owner.active_agent_mount_id is Some
    &&& stored.owner.active_agent_mount_id matches Some(mount)
        ==> updated.owner.active_agent_mount_id->0@ == mount@
    &&& stored.instance is Some && updated.instance is Some
    &&& updated.instance->0.agent_id@ == stored.instance->0.agent_id@
    &&& updated.instance->0.installation_id@ == stored.instance->0.installation_id@
    &&& updated.instance->0.public_key_fingerprint == stored.instance->0.public_key_fingerprint
    &&& updated.instance->0.agent_version@ == stored.instance->0.agent_version@
    &&& updated.instance->0.supported_protocol_versions@
        == stored.instance->0.supported_protocol_versions@
    &&& stored.instance->0.capabilities.same(updated.instance->0.capabilities)
    &&& updated.instance->0.state == stored.instance->0.state
}

/// An ordinary write replaces a record exactly where it keeps both generations, joins states that may
/// follow each other, takes the public side along, binds a decision to its version, and leaves an
/// approved Agent the owner that it is.
pub proof fn lemma_ordinary_write(
    stored: &AgentRegistryRecord,
    updated: &AgentRegistryRecord,
    followed: bool,
    result: CentralResult<()>,
)
    requires
        call_ensures(validate_registry_replace_transition, (stored, updated), result),
        call_ensures(storage_enrollment_transition_matches, (stored, updated), followed),
    ensures
        result is Ok <==> {
            &&& updated.mount.mount_generation == stored.mount.mount_generation
            &&& updated.owner.owner_generation == stored.owner.owner_generation
            &&& may_follow(*stored, *updated)
            &&& followed
            &&& stored.enrollment.state is PendingApproval && (updated.enrollment.state is Approved
                || updated.enrollment.state is Rejected) ==> is_decided_on(*stored, *updated)
            &&& stored.enrollment.state is Approved ==> stays_the_owner(*stored, *updated)
        },
        result is Err ==> fails_with(result, CentralErrorCode::StorageFailure),
{
}

/// The two records are the two sides of one replacement: an approved enrollment that is revoked, and
/// the waiting one that was made to replace it and is approved with that confirmed.
pub open spec fn change_places(
    stored_previous: AgentRegistryRecord,
    revoked: AgentRegistryRecord,
    stored_replacement: AgentRegistryRecord,
    replacement: AgentRegistryRecord,
) -> bool {
    let old_id = stored_previous.enrollment.enrollment_id@;
    let new_id = stored_replacement.enrollment.enrollment_id@;
    &&& old_id != new_id
    &&& stored_previous.enrollment.state is Approved
    &&& revoked.enrollment.state is Revoked
    &&& stored_replacement.enrollment.state is PendingApproval
    &&& replacement.enrollment.state is Approved
    &&& stored_replacement.enrollment.replaces_enrollment_id is Some
    &&& stored_replacement.enrollment.replaces_enrollment_id->0@ == old_id
    &&& replacement.enrollment.replaces_enrollment_id is Some
    &&& replacement.enrollment.replaces_enrollment_id->0@ == old_id
    &&& revoked.enrollment.replaced_by_enrollment_id is Some
    &&& revoked.enrollment.replaced_by_enrollment_id->0@ == new_id
    &&& replacement.enrollment.replaced_by_enrollment_id is None
    &&& replacement.enrollment.decision_request is Some
    &&& replacement.enrollment.decision_request->0.decision is Approve
    &&& replacement.enrollment.decision_request->0.confirm_replacement
    &&& replacement.enrollment.decision_request->0.expected_resource_version
        == stored_replacement.resource_version
}

/// The public sides of both records tell of the replacement.
pub open spec fn both_sides_tell(
    stored_previous: AgentRegistryRecord,
    revoked: AgentRegistryRecord,
    stored_replacement: AgentRegistryRecord,
    replacement: AgentRegistryRecord,
) -> bool {
    &&& stored_replacement.storage_enrollment.record_format is CurrentV3
    &&& replacement.storage_enrollment.state == Some(StorageEnrollmentState::Approved)
    &&& tells_of(
        stored_replacement,
        replacement,
        AgentEnrollmentLifecycleAuditKind::Approved,
    )
    &&& stored_previous.storage_enrollment.record_format is CurrentV3 ==> {
        &&& revoked.storage_enrollment.state is None
        &&& tells_of(stored_previous, revoked, AgentEnrollmentLifecycleAuditKind::Revoked)
    }
    &&& stored_previous.storage_enrollment.record_format is LegacyV2
        ==> revoked.storage_enrollment.same(stored_previous.storage_enrollment)
}

/// Both records are about one volume, mounted and marked alike.
pub open spec fn share_a_volume(left: AgentRegistryRecord, right: AgentRegistryRecord) -> bool {
    &&& left.enrollment.tenant_id@ == right.enrollment.tenant_id@
    &&& left.enrollment.edge_cluster_id@ == right.enrollment.edge_cluster_id@
    &&& left.enrollment.storage_volume_id@ == right.enrollment.storage_volume_id@
    &&& left.enrollment.volume_descriptor_digest == right.enrollment.volume_descriptor_digest
    &&& left.enrollment.pvc_identity_digest == right.enrollment.pvc_identity_digest
    &&& left.mount.expected_volume_marker@ == right.mount.expected_volume_marker@
    &&& left.mount.desired_access_mode == right.mount.desired_access_mode
    &&& left.mount.mount_identity_digest == right.mount.mount_identity_digest
}

/// A replacement goes through exactly where both stored records are at the versions that were read
/// and each moves on by one, they change places, their public sides tell so, they share a volume, the
/// generations of mount and owner both rise by one above the old Agent's, the new owner has to
/// recover, and the two Agents share no identity.
pub proof fn lemma_replacement_goes_through(
    stored_previous: &AgentRegistryRecord,
    expected_previous: u64,
    revoked: &AgentRegistryRecord,
    stored_replacement: &AgentRegistryRecord,
    expected_replacement: u64,
    replacement: &AgentRegistryRecord,
    result: CentralResult<()>,
)
    requires
        call_ensures(
            validate_registry_replacement_transition,
            (
                stored_previous,
                expected_previous,
                revoked,
                stored_replacement,
                expected_replacement,
                replacement,
            ),
            result,
        ),
    ensures
        result is Ok <==> {
            &&& stored_previous.resource_version == expected_previous
            &&& stored_replacement.resource_version == expected_replacement
            &&& revoked.enrollment.enrollment_id@ == stored_previous.enrollment.enrollment_id@
            &&& replacement.enrollment.enrollment_id@ == stored_replacement.enrollment.enrollment_id@
            &&& revoked.resource_version == expected_previous + 1
            &&& replacement.resource_version == expected_replacement + 1
            &&& change_places(*stored_previous, *revoked, *stored_replacement, *replacement)
            &&& both_sides_tell(*stored_previous, *revoked, *stored_replacement, *replacement)
            &&& share_a_volume(*stored_previous, *stored_replacement)
            &&& revoked.mount.mount_generation == stored_previous.mount.mount_generation + 1
            &&& replacement.mount.mount_generation == stored_previous.mount.mount_generation + 1
            &&& revoked.owner.owner_generation == stored_previous.owner.owner_generation + 1
            &&& replacement.owner.owner_generation == stored_previous.owner.owner_generation + 1
            &&& replacement.owner.state is RecoveryRequired
            &&& stored_previous.instance is Some && replacement.instance is Some
            &&& stored_previous.instance->0.agent_id@ != replacement.instance->0.agent_id@
            &&& stored_previous.instance->0.installation_id@
                != replacement.instance->0.installation_id@
            &&& stored_previous.instance->0.public_key_fingerprint
                != replacement.instance->0.public_key_fingerprint
            &&& stored_previous.mount.agent_mount_id@ != replacement.mount.agent_mount_id@
        },
        stored_previous.resource_version != expected_previous
            || stored_replacement.resource_version != expected_replacement ==> fails_with(
            result,
            CentralErrorCode::ConcurrentUpdate,
        ),
{
}

} // verus!
