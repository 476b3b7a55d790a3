//! What holds across the steps of an enrollment: every step that is taken can be stored, requests
//! that come again change nothing, and newer sessions fence off older ones.
use vstd::prelude::*;

use crate::agent_registry::bootstrap::{
    bootstrap_fault, is_bootstrap_candidate, is_bootstrapped_from, is_expired_from, held_elsewhere,
    AgentBootstrapRequest, BootstrapIdentityOwners,
};
use crate::agent_registry::decision::{
    decision_fault, is_approved, is_approved_from, is_decision_step, is_rejected_from,
    is_revoked_from, replacement_approval_fault, EnrollmentDecisionStep,
};
use crate::agent_registry::intent::{
    intent_metadata_is, is_token_intent, AgentEnrollmentTokenCreateRequest, StorageIntentMetadata,
};
use crate::agent_registry::lifecycle::{is_lifecycle_event, last_rejection_reason};
use crate::agent_registry::records::{
    AgentCandidateRecord, AgentCredentialEvidence, AgentEnrollmentApprovalRequest,
    AgentEnrollmentLifecycleAuditKind, AgentRegistryRecord, StorageEnrollmentState, VolumeOwnerState,
};
use crate::agent_registry::conflict::is_closed;
use crate::agent_registry::repository::{
    activation_fault, are_apart, replace_fault, RegistryEntry, RegistryView,
};
use crate::agent_registry::session::{
    is_recovered_from, is_reported_from, next_generation, open_session_fault, recovery_fault,
    report_enrolls, report_fault, session_closed, session_fault, session_opened,
    AgentMountStatusReport, CompleteVolumeRecoveryRequest, OpenAgentSessionRequest,
};
use crate::agent_registry::transition::lifecycle_extends;
use crate::agent_registry::validation::{
    credential_evidence_fault, is_rejection_reason, lifecycle_entry_is_valid, lifecycle_is_valid,
    registry_insert_fault, registry_record_fault, rejection_reason_fault, MAX_KEYSET_MILLIS,
};
use crate::digest::{ContentDigest, PvcIdentityDigest};
use crate::equality::Same;
use crate::identifier::{
    names, AgentEnrollmentId, MountGeneration, OpaqueText, OwnerGeneration, PrincipalRef,
    SessionId, UnixMillis,
};
use crate::text::is_resource_identifier;

verus! {

/// The clock has not gone back since a record was written.
pub open spec fn clock_has_advanced(record: AgentRegistryRecord, now: UnixMillis) -> bool {
    record.storage_enrollment.updated_at_unix_ms matches Some(updated_at) ==> updated_at <= now
}

/// An approved enrollment shows that it is, where it shows anything, and a Volume that awaits
/// recovery is not enrolled yet.
pub open spec fn approval_is_shown(record: AgentRegistryRecord) -> bool {
    record.storage_enrollment.record_format is CurrentV3 ==> {
        &&& record.enrollment.state is Approved ==> record.storage_enrollment.state is Some
        &&& record.owner.state is RecoveryRequired ==> record.storage_enrollment.state != Some(
            StorageEnrollmentState::Enrolled,
        )
    }
}

/// A stored record that obeys its rules, at a time that is not before its last write.
pub open spec fn is_sound(
    record: AgentRegistryRecord,
    derived_pvc_identity: Option<PvcIdentityDigest>,
    now: UnixMillis,
) -> bool {
    &&& registry_record_fault(record, derived_pvc_identity) is None
    &&& approval_is_shown(record)
    &&& clock_has_advanced(record, now)
}

/// `after` is accepted in place of the stored `before`, and is sound in turn.
pub open spec fn can_be_stored(
    before: AgentRegistryRecord,
    after: AgentRegistryRecord,
    derived_pvc_identity: Option<PvcIdentityDigest>,
    now: UnixMillis,
) -> bool {
    &&& replace_fault(Some(before), before.resource_version, after, derived_pvc_identity) is None
    &&& is_sound(after, derived_pvc_identity, now)
}

/// Appending the event of a write keeps the lifecycle audit valid.
proof fn lemma_append_keeps_audit(
    before: AgentRegistryRecord,
    after: AgentRegistryRecord,
    kind: AgentEnrollmentLifecycleAuditKind,
    now: UnixMillis,
    rejection_reason: Option<OpaqueText>,
)
    requires
        lifecycle_is_valid(before),
        before.storage_enrollment.lifecycle_audit_events@.len() > 0,
        before.resource_version < after.resource_version,
        after.enrollment.enrollment_id@ == before.enrollment.enrollment_id@,
        after.enrollment.tenant_id@ == before.enrollment.tenant_id@,
        rejection_reason matches Some(reason) ==> kind is Rejected && is_rejection_reason(reason@),
        after.storage_enrollment.lifecycle_audit_events@.len()
            == before.storage_enrollment.lifecycle_audit_events@.len() + 1,
        after.storage_enrollment.lifecycle_audit_events@.drop_last()
            == before.storage_enrollment.lifecycle_audit_events@,
        is_lifecycle_event(
            after.storage_enrollment.lifecycle_audit_events@.last(),
            after.enrollment,
            after.resource_version,
            kind,
            now,
            rejection_reason,
        ),
    ensures
        lifecycle_is_valid(after),
        lifecycle_extends(
            before.storage_enrollment.lifecycle_audit_events@,
            after.storage_enrollment.lifecycle_audit_events@,
        ),
        after.storage_enrollment.lifecycle_audit_events@[0]
            == before.storage_enrollment.lifecycle_audit_events@[0],
{
    let old_events = before.storage_enrollment.lifecycle_audit_events@;
    let events = after.storage_enrollment.lifecycle_audit_events@;
    assert forall|i: int| 0 <= i < old_events.len() implies #[trigger] old_events[i]
        == events[i] by {
        assert(events.drop_last()[i] == events[i]);
    }
    assert forall|i: int| 0 <= i < events.len() implies #[trigger] lifecycle_entry_is_valid(
        after,
        i,
    ) by {
        if i < old_events.len() {
            assert(lifecycle_entry_is_valid(before, i));
            assert(events[i] == old_events[i]);
            if i > 0 {
                assert(events[i - 1] == old_events[i - 1]);
            }
        } else {
            assert(lifecycle_entry_is_valid(before, old_events.len() - 1));
            assert(events[i - 1] == old_events[i - 1]);
        }
    }
    assert(old_events[0] == events[0]);
}

/// A write that appends no event keeps the lifecycle audit valid.
proof fn lemma_touch_keeps_audit(before: AgentRegistryRecord, after: AgentRegistryRecord)
    requires
        lifecycle_is_valid(before),
        before.resource_version <= after.resource_version,
        after.storage_enrollment.lifecycle_audit_events
            == before.storage_enrollment.lifecycle_audit_events,
        after.enrollment.enrollment_id@ == before.enrollment.enrollment_id@,
        after.enrollment.tenant_id@ == before.enrollment.tenant_id@,
    ensures
        lifecycle_is_valid(after),
{
    let events = after.storage_enrollment.lifecycle_audit_events@;
    assert forall|i: int| 0 <= i < events.len() implies #[trigger] lifecycle_entry_is_valid(
        after,
        i,
    ) by {
        assert(lifecycle_entry_is_valid(before, i));
    }
}

/// Every enrollment that expires can be stored as expired.
pub proof fn lemma_expiry_can_be_stored(
    before: AgentRegistryRecord,
    after: AgentRegistryRecord,
    derived_pvc_identity: Option<PvcIdentityDigest>,
    now: UnixMillis,
)
    requires
        is_sound(before, derived_pvc_identity, now),
        before.resource_version < u64::MAX,
        before.enrollment.state is TokenIssued || before.enrollment.state is PendingApproval,
        is_expired_from(
            before,
            after,
            if before.candidate is Some {
                Some(StorageEnrollmentState::Expired)
            } else {
                None
            },
            now,
        ),
    ensures
        can_be_stored(before, after, derived_pvc_identity, now),
{
    if before.storage_enrollment.record_format is CurrentV3 {
        lemma_append_keeps_audit(
            before,
            after,
            AgentEnrollmentLifecycleAuditKind::Expired,
            now,
            None,
        );
    }
}

/// Every candidate that redeems its token can be stored for review. A candidate of a public
/// enrollment has proved that it holds its key, and the storage keyset can hold the time.
pub proof fn lemma_bootstrap_can_be_stored(
    before: AgentRegistryRecord,
    after: AgentRegistryRecord,
    candidate: AgentCandidateRecord,
    request: AgentBootstrapRequest,
    evidence: Option<AgentCredentialEvidence>,
    derived_pvc_identity: Option<PvcIdentityDigest>,
    now: UnixMillis,
)
    requires
        is_sound(before, derived_pvc_identity, now),
        before.resource_version < u64::MAX,
        before.enrollment.state is TokenIssued,
        is_bootstrap_candidate(candidate, request, evidence),
        evidence matches Some(evidence) ==> credential_evidence_fault(
            evidence,
            request.public_key_fingerprint,
        ) is None,
        before.storage_enrollment.descriptor is Some || before.storage_enrollment.token_key_id is
            Some ==> evidence is Some,
        now <= MAX_KEYSET_MILLIS,
        is_bootstrapped_from(before, after, candidate, now),
    ensures
        can_be_stored(before, after, derived_pvc_identity, now),
{
    if before.storage_enrollment.record_format is CurrentV3 {
        lemma_append_keeps_audit(
            before,
            after,
            AgentEnrollmentLifecycleAuditKind::PendingApproval,
            now,
            None,
        );
    }
}

/// Every rejection can be stored.
pub proof fn lemma_rejection_can_be_stored(
    before: AgentRegistryRecord,
    after: AgentRegistryRecord,
    request: AgentEnrollmentApprovalRequest,
    actor: PrincipalRef,
    rejection_reason: Option<OpaqueText>,
    derived_pvc_identity: Option<PvcIdentityDigest>,
    now: UnixMillis,
)
    requires
        is_sound(before, derived_pvc_identity, now),
        before.storage_enrollment.record_format is CurrentV3,
        before.resource_version < u64::MAX,
        before.enrollment.state is PendingApproval,
        request.enrollment_id@ == before.enrollment.enrollment_id@,
        request.expected_resource_version == before.resource_version,
        request.decision is Reject,
        !request.confirm_replacement,
        rejection_reason_fault(request.decision, rejection_reason) is None,
        is_rejected_from(before, after, request, actor, rejection_reason, now),
    ensures
        can_be_stored(before, after, derived_pvc_identity, now),
{
    lemma_append_keeps_audit(
        before,
        after,
        AgentEnrollmentLifecycleAuditKind::Rejected,
        now,
        rejection_reason,
    );
}

/// Every approval of a first owner can be stored.
pub proof fn lemma_approval_can_be_stored(
    before: AgentRegistryRecord,
    after: AgentRegistryRecord,
    candidate: AgentCandidateRecord,
    request: AgentEnrollmentApprovalRequest,
    actor: PrincipalRef,
    derived_pvc_identity: Option<PvcIdentityDigest>,
    now: UnixMillis,
)
    requires
        is_sound(before, derived_pvc_identity, now),
        before.storage_enrollment.record_format is CurrentV3,
        before.resource_version < u64::MAX,
        before.enrollment.state is PendingApproval,
        before.enrollment.replaces_enrollment_id is None,
        before.candidate == Some(candidate),
        request.enrollment_id@ == before.enrollment.enrollment_id@,
        request.expected_resource_version == before.resource_version,
        request.decision is Approve,
        !request.confirm_replacement,
        is_approved_from(
            before,
            after,
            candidate,
            request,
            actor,
            VolumeOwnerState::Active,
            before.mount.mount_generation,
            before.owner.owner_generation,
            now,
        ),
    ensures
        can_be_stored(before, after, derived_pvc_identity, now),
{
    lemma_append_keeps_audit(
        before,
        after,
        AgentEnrollmentLifecycleAuditKind::Approved,
        now,
        None,
    );
}

/// Every approval of a replacement can be stored together with the revocation of the owner that it
/// replaces, and both generations of the Volume grow by exactly one.
pub proof fn lemma_replacement_can_be_stored(
    previous: RegistryEntry,
    revoked: RegistryEntry,
    before: RegistryEntry,
    replacement: RegistryEntry,
    candidate: AgentCandidateRecord,
    request: AgentEnrollmentApprovalRequest,
    actor: PrincipalRef,
    now: UnixMillis,
)
    requires
        is_sound(previous.record, previous.derived_pvc_identity, now),
        is_sound(before.record, before.derived_pvc_identity, now),
        revoked.derived_pvc_identity == previous.derived_pvc_identity,
        replacement.derived_pvc_identity == before.derived_pvc_identity,
        before.record.storage_enrollment.record_format is CurrentV3,
        before.record.enrollment.state is PendingApproval,
        before.record.candidate == Some(candidate),
        names(
            before.record.enrollment.replaces_enrollment_id,
            previous.record.enrollment.enrollment_id@,
        ),
        request.enrollment_id@ == before.record.enrollment.enrollment_id@,
        request.expected_resource_version == before.record.resource_version,
        request.decision is Approve,
        replacement_approval_fault(before.record, candidate, request, Some(previous.record)) is
            None,
        is_revoked_from(
            previous.record,
            revoked.record,
            before.record.enrollment.enrollment_id,
            now,
        ),
        is_approved_from(
            before.record,
            replacement.record,
            candidate,
            request,
            actor,
            VolumeOwnerState::RecoveryRequired,
            (previous.record.mount.mount_generation + 1) as u64,
            (previous.record.owner.owner_generation + 1) as u64,
            now,
        ),
    ensures
        activation_fault(
            Some(previous.record),
            previous.record.resource_version,
            revoked,
            Some(before.record),
            before.record.resource_version,
            replacement,
        ) is None,
        is_sound(revoked.record, revoked.derived_pvc_identity, now),
        is_sound(replacement.record, replacement.derived_pvc_identity, now),
        revoked.record.mount.mount_generation == previous.record.mount.mount_generation + 1,
        revoked.record.owner.owner_generation == previous.record.owner.owner_generation + 1,
{
    lemma_append_keeps_audit(
        before.record,
        replacement.record,
        AgentEnrollmentLifecycleAuditKind::Approved,
        now,
        None,
    );
    if previous.record.storage_enrollment.record_format is CurrentV3 {
        lemma_append_keeps_audit(
            previous.record,
            revoked.record,
            AgentEnrollmentLifecycleAuditKind::Revoked,
            now,
            None,
        );
    }
}

/// Every session that is opened can be stored.
pub proof fn lemma_opened_session_can_be_stored(
    before: AgentRegistryRecord,
    request: OpenAgentSessionRequest,
    session_id: SessionId,
    derived_pvc_identity: Option<PvcIdentityDigest>,
    now: UnixMillis,
    heartbeat_timeout_ms: u64,
)
    requires
        is_sound(before, derived_pvc_identity, now),
        open_session_fault(before, request, now, heartbeat_timeout_ms) is None,
        !names(before.instance->0.active_boot_id, request.boot_id@),
    ensures
        can_be_stored(
            before,
            session_opened(before, request, session_id, now),
            derived_pvc_identity,
            now,
        ),
{
    let after = session_opened(before, request, session_id, now);
    if before.storage_enrollment.record_format is CurrentV3 {
        lemma_touch_keeps_audit(before, after);
    }
}

/// Every session of an approved Agent that is closed can be stored.
pub proof fn lemma_closed_session_can_be_stored(
    before: AgentRegistryRecord,
    derived_pvc_identity: Option<PvcIdentityDigest>,
    now: UnixMillis,
)
    requires
        is_sound(before, derived_pvc_identity, now),
        before.resource_version < u64::MAX,
        is_approved(before),
    ensures
        can_be_stored(before, session_closed(before, now), derived_pvc_identity, now),
{
    let after = session_closed(before, now);
    if before.storage_enrollment.record_format is CurrentV3 {
        lemma_touch_keeps_audit(before, after);
    }
}

/// Every observation of an open session can be stored.
pub proof fn lemma_report_can_be_stored(
    before: AgentRegistryRecord,
    after: AgentRegistryRecord,
    report: AgentMountStatusReport,
    derived_pvc_identity: Option<PvcIdentityDigest>,
    now: UnixMillis,
    heartbeat_timeout_ms: u64,
)
    requires
        is_sound(before, derived_pvc_identity, now),
        report_fault(before, report) is None,
        before.instance->0.last_sequence != Some(report.sequence),
        is_reported_from(before, after, report, now, heartbeat_timeout_ms),
    ensures
        can_be_stored(before, after, derived_pvc_identity, now),
{
    if before.storage_enrollment.record_format is CurrentV3 {
        if report_enrolls(before, report, now, heartbeat_timeout_ms) {
            lemma_append_keeps_audit(
                before,
                after,
                AgentEnrollmentLifecycleAuditKind::Enrolled,
                now,
                None,
            );
        } else {
            lemma_touch_keeps_audit(before, after);
        }
    }
}

/// Every recovery that completes can be stored.
pub proof fn lemma_recovery_can_be_stored(
    before: AgentRegistryRecord,
    after: AgentRegistryRecord,
    request: CompleteVolumeRecoveryRequest,
    derived_pvc_identity: Option<PvcIdentityDigest>,
    now: UnixMillis,
    heartbeat_timeout_ms: u64,
)
    requires
        is_sound(before, derived_pvc_identity, now),
        recovery_fault(before, request, now, heartbeat_timeout_ms) is None,
        is_recovered_from(before, after, now),
    ensures
        can_be_stored(before, after, derived_pvc_identity, now),
{
    if before.storage_enrollment.record_format is CurrentV3 {
        lemma_append_keeps_audit(
            before,
            after,
            AgentEnrollmentLifecycleAuditKind::Enrolled,
            now,
            None,
        );
    }
}

/// A token intent for a Volume of its own, or for one whose owner obeys its rules, can be inserted.
pub proof fn lemma_token_intent_can_be_inserted(
    record: AgentRegistryRecord,
    request: AgentEnrollmentTokenCreateRequest,
    metadata: Option<StorageIntentMetadata>,
    replaces_enrollment_id: Option<AgentEnrollmentId>,
    mount_generation: MountGeneration,
    owner_generation: OwnerGeneration,
    derived_pvc_identity: Option<PvcIdentityDigest>,
    now: UnixMillis,
)
    requires
        is_token_intent(
            record,
            request,
            replaces_enrollment_id,
            mount_generation,
            owner_generation,
        ),
        intent_metadata_is(record, metadata),
        request.expected_volume_marker@ == request.storage_volume_id@,
        mount_generation != 0,
        owner_generation != 0,
        !names(replaces_enrollment_id, request.enrollment_id@),
        metadata matches Some(metadata) ==> is_resource_identifier(metadata.token.key_id@)
            && derived_pvc_identity == Some(request.pvc_identity_digest),
        request.created_at_unix_ms <= now,
    ensures
        registry_insert_fault(record, derived_pvc_identity) is None,
        is_sound(record, derived_pvc_identity, now),
{
    let events = record.storage_enrollment.lifecycle_audit_events@;
    assert forall|i: int| 0 <= i < events.len() implies #[trigger] lifecycle_entry_is_valid(
        record,
        i,
    ) by {}
}

/// A newer session fences off the older one: no request of the older session is current any more,
/// and its generation is the greatest so far.
pub proof fn lemma_newer_session_fences_older(
    before: AgentRegistryRecord,
    request: OpenAgentSessionRequest,
    session_id: SessionId,
    now: UnixMillis,
    heartbeat_timeout_ms: u64,
    boot_id: Seq<char>,
    generation: u64,
)
    requires
        open_session_fault(before, request, now, heartbeat_timeout_ms) is None,
        !names(before.instance->0.active_boot_id, request.boot_id@),
        session_fault(before, boot_id, generation) is None,
    ensures
        session_fault(
            session_opened(before, request, session_id, now),
            boot_id,
            generation,
        ) is Some,
        session_opened(before, request, session_id, now).instance->0.session_generation matches Some(
            newer,
        ) && newer > generation,
{
}

/// Once a session is closed, no request of any session is current, and the next session is newer
/// than every one before.
pub proof fn lemma_closed_session_is_over(
    before: AgentRegistryRecord,
    now: UnixMillis,
    boot_id: Seq<char>,
    generation: u64,
)
    requires
        before.instance is Some,
    ensures
        session_fault(session_closed(before, now), boot_id, generation) is Some,
        next_generation(session_closed(before, now).instance->0) == next_generation(
            before.instance->0,
        ),
{
}

/// Opening a session again with the same request, at any later time, finds the session that was
/// opened.
pub proof fn lemma_open_session_replays(
    before: AgentRegistryRecord,
    request: OpenAgentSessionRequest,
    session_id: SessionId,
    now: UnixMillis,
    later: UnixMillis,
    heartbeat_timeout_ms: u64,
)
    requires
        open_session_fault(before, request, now, heartbeat_timeout_ms) is None,
        !names(before.instance->0.active_boot_id, request.boot_id@),
    ensures
        open_session_fault(
            session_opened(before, request, session_id, now),
            request,
            later,
            heartbeat_timeout_ms,
        ) is None,
        session_opened(before, request, session_id, now).instance matches Some(instance) && names(
            instance.active_boot_id,
            request.boot_id@,
        ) && instance.active_session_id == Some(session_id),
{
}

/// Reporting the same observation again is accepted and recognised; an earlier one is refused.
pub proof fn lemma_report_replays(
    before: AgentRegistryRecord,
    after: AgentRegistryRecord,
    report: AgentMountStatusReport,
    older: AgentMountStatusReport,
    now: UnixMillis,
    heartbeat_timeout_ms: u64,
)
    requires
        report_fault(before, report) is None,
        before.instance->0.last_sequence != Some(report.sequence),
        is_reported_from(before, after, report, now, heartbeat_timeout_ms),
        older.sequence < report.sequence,
    ensures
        report_fault(after, report) is None,
        after.instance->0.last_sequence == Some(report.sequence),
        report_fault(after, older) is Some,
{
}

/// Redeeming the token again with the same request is accepted and recognised, at any time.
pub proof fn lemma_bootstrap_replays(
    before: AgentRegistryRecord,
    after: AgentRegistryRecord,
    candidate: AgentCandidateRecord,
    again: AgentCandidateRecord,
    token_digest: ContentDigest,
    owners: BootstrapIdentityOwners,
    previous: Option<AgentRegistryRecord>,
    now: UnixMillis,
    later: UnixMillis,
)
    requires
        is_bootstrapped_from(before, after, candidate, now),
        before.enrollment.bootstrap_token_digest == token_digest,
        again.bootstrap_request_id@ == candidate.bootstrap_request_id@,
        again.installation_id@ == candidate.installation_id@,
        again.public_key_fingerprint == candidate.public_key_fingerprint,
        candidate.bootstrap_signed_payload_digest is Some,
        again.bootstrap_signed_payload_digest == candidate.bootstrap_signed_payload_digest,
        !held_elsewhere(owners.request, before.enrollment.enrollment_id@),
        !held_elsewhere(owners.installation, before.enrollment.enrollment_id@),
        !held_elsewhere(owners.public_key, before.enrollment.enrollment_id@),
    ensures
        after.candidate is Some,
        bootstrap_fault(after, again, token_digest, owners, previous, later) is None,
{
}

/// Another candidate can never redeem a token that was redeemed.
pub proof fn lemma_token_is_redeemed_once(
    before: AgentRegistryRecord,
    after: AgentRegistryRecord,
    candidate: AgentCandidateRecord,
    other: AgentCandidateRecord,
    token_digest: ContentDigest,
    owners: BootstrapIdentityOwners,
    previous: Option<AgentRegistryRecord>,
    now: UnixMillis,
    later: UnixMillis,
)
    requires
        is_bootstrapped_from(before, after, candidate, now),
        other.installation_id@ != candidate.installation_id@ || other.public_key_fingerprint
            != candidate.public_key_fingerprint,
    ensures
        bootstrap_fault(after, other, token_digest, owners, previous, later) is Some,
{
}

/// Making the same decision again is accepted and changes nothing, whenever it comes; a decision
/// with another payload is refused.
pub proof fn lemma_decision_replays(
    before: AgentRegistryRecord,
    after: AgentRegistryRecord,
    request: AgentEnrollmentApprovalRequest,
    other: AgentEnrollmentApprovalRequest,
    actor: PrincipalRef,
    rejection_reason: Option<OpaqueText>,
    decision_owner: Option<AgentEnrollmentId>,
    previous: Option<AgentRegistryRecord>,
    now: UnixMillis,
    later: UnixMillis,
)
    requires
        decision_fault(before, request, rejection_reason, decision_owner, previous, now) is None,
        is_decision_step(
            EnrollmentDecisionStep::Store { expected: before.resource_version, record: after },
            before,
            request,
            actor,
            rejection_reason,
            previous,
            now,
        ),
        rejection_reason_fault(request.decision, rejection_reason) is None,
        last_rejection_reason(before.storage_enrollment.lifecycle_audit_events@) is None,
        !other.same(request),
    ensures
        decision_fault(after, request, rejection_reason, decision_owner, previous, later) is None,
        decision_fault(after, other, rejection_reason, decision_owner, previous, later) is Some,
{
    let events = after.storage_enrollment.lifecycle_audit_events@;
    assert(events.drop_last() == before.storage_enrollment.lifecycle_audit_events@);
}

/// An enrollment that was rejected, has expired or was revoked stays so: no write reopens it.
pub proof fn lemma_closed_enrollment_stays_closed(
    before: AgentRegistryRecord,
    after: AgentRegistryRecord,
    derived_pvc_identity: Option<PvcIdentityDigest>,
)
    requires
        is_closed(before.enrollment.state),
        replace_fault(Some(before), before.resource_version, after, derived_pvc_identity) is None,
    ensures
        after.enrollment.state == before.enrollment.state,
{
}

/// A write never lowers a generation and moves the version on by exactly one.
pub proof fn lemma_write_moves_version(
    before: AgentRegistryRecord,
    after: AgentRegistryRecord,
    expected_resource_version: u64,
    derived_pvc_identity: Option<PvcIdentityDigest>,
)
    requires
        replace_fault(
            Some(before),
            expected_resource_version,
            after,
            derived_pvc_identity,
        ) is None,
    ensures
        expected_resource_version == before.resource_version,
        after.resource_version == before.resource_version + 1,
        after.mount.mount_generation == before.mount.mount_generation,
        after.owner.owner_generation == before.owner.owner_generation,
{
}

/// A Volume has at most one owner.
pub proof fn lemma_volume_has_one_owner(view: RegistryView, left: Seq<char>, right: Seq<char>)
    requires
        view.is_consistent(),
        view.records.contains_key(left),
        view.records.contains_key(right),
        view.records[left].record.enrollment.state is Approved,
        view.records[right].record.enrollment.state is Approved,
        view.records[left].record.enrollment.tenant_id@
            == view.records[right].record.enrollment.tenant_id@,
        view.records[left].record.enrollment.storage_volume_id@
            == view.records[right].record.enrollment.storage_volume_id@,
    ensures
        left == right,
{
    if left != right {
        assert(are_apart(view.records[left].record, view.records[right].record));
    }
}

} // verus!
