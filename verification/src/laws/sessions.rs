//! What the sessions of an enrolled Agent promise.
use vstd::prelude::*;

use crate::agent_registry::records::{
    AgentEnrollmentLifecycleAuditKind, AgentEnrollmentState, AgentInstanceRecord, AgentMountRecord,
    AgentRegistryRecord, DerivedVolumeState, MountAccessMode, ResourceHealth,
    StorageEnrollmentMetadata, StorageEnrollmentState, VolumeOwnerRecord,
};
use crate::agent_registry::session::{
    admit_agent_action, are_public, authenticate_agent_action, close_session, complete_recovery,
    expire_enrollment, list_enrollments, next_session_generation, open_session, query_enrollment,
    report_mount, require_agent, require_enrollment, session_is_stale, volume_state,
    AgentActionFence, AgentMountStatusReport, CloseAgentSessionRequest,
    CompleteVolumeRecoveryRequest, ExpireAgentEnrollmentRequest, MountReportStep,
    OpenAgentSessionRequest, OpenSessionStep,
};
use crate::agent_registry::validation::is_public_enrollment;
use crate::error::{CentralError, CentralErrorCode, CentralResult};
use crate::identifier::{SessionGeneration, SessionId, UnixMillis};
use crate::laws::enrollment::{is_closed, is_public, lemma_events, tells_of};
use crate::laws::jobs::fails_with;

verus! {

/// An enrollment is approved and its Agent is active.
pub open spec fn is_in_service(record: AgentRegistryRecord) -> bool {
    &&& record.enrollment.state is Approved
    &&& record.instance is Some
    &&& record.instance->0.state is Active
}

/// A record of the current format carries the time of its last change.
pub open spec fn is_touched(
    before: StorageEnrollmentMetadata,
    after: StorageEnrollmentMetadata,
    at: UnixMillis,
) -> bool {
    if before.record_format is LegacyV2 {
        after == before
    } else {
        after == StorageEnrollmentMetadata { updated_at_unix_ms: Some(at), ..before }
    }
}

/// A session was last heard of at a time: at its last heartbeat, or when it was opened.
pub open spec fn was_heard_at(instance: AgentInstanceRecord) -> Option<UnixMillis> {
    if instance.last_heartbeat_at_unix_ms is Some {
        instance.last_heartbeat_at_unix_ms
    } else {
        instance.session_opened_at_unix_ms
    }
}

/// A session is stale once more than the timeout has passed since it was last heard of.
pub proof fn lemma_silent_session_is_stale(
    instance: &AgentInstanceRecord,
    now: UnixMillis,
    timeout: u64,
    stale: bool,
)
    requires
        call_ensures(session_is_stale, (instance, now, timeout), stale),
    ensures
        stale <==> was_heard_at(*instance) is Some && now > was_heard_at(*instance)->0 + timeout,
{
}

/// Sessions are counted from one, each by one more than the last.
pub proof fn lemma_sessions_are_counted(
    instance: &AgentInstanceRecord,
    generation: Option<SessionGeneration>,
)
    requires
        call_ensures(next_session_generation, (instance,), generation),
    ensures
        instance.session_generation is None ==> generation == Some(1u64),
        instance.session_generation matches Some(last) ==> if last < u64::MAX {
            generation is Some && generation->0 == last + 1
        } else {
            generation is None
        },
{
}

/// An Agent in service opens a session with its own installation and mount, at the version that it
/// expects, where no boot holds one that is still heard of. The session is the next one in count,
/// belongs to that boot and starts now; what an earlier boot observed is forgotten.
pub proof fn lemma_agent_opens_a_session(
    record: AgentRegistryRecord,
    request: &OpenAgentSessionRequest,
    session_id: SessionId,
    now: UnixMillis,
    timeout: u64,
    result: CentralResult<OpenSessionStep>,
)
    requires
        call_ensures(open_session, (record, request, session_id, now, timeout), result),
        is_in_service(record),
        record.instance->0.installation_id@ == request.installation_id@,
        record.mount.mount_identity_digest == Some(request.mount_identity_digest),
        record.resource_version == request.expected_resource_version,
        record.resource_version < u64::MAX,
        record.instance->0.session_generation is Some
            ==> record.instance->0.session_generation->0 < u64::MAX,
        record.instance->0.active_boot_id is Some ==> {
            &&& record.instance->0.active_boot_id->0@ != request.boot_id@
            &&& was_heard_at(record.instance->0) is Some
            &&& now > was_heard_at(record.instance->0)->0 + timeout
        },
    ensures
        result matches Ok(OpenSessionStep::Store { expected, record: after, session_generation })
            && {
            &&& expected == record.resource_version
            &&& session_generation == if record.instance->0.session_generation is Some {
                record.instance->0.session_generation->0 + 1
            } else {
                1
            }
            &&& after.resource_version == record.resource_version + 1
            &&& after.instance is Some
            &&& after.instance->0.session_generation == Some(session_generation)
            &&& after.instance->0.active_boot_id == Some(request.boot_id)
            &&& after.instance->0.active_session_id == Some(session_id)
            &&& after.instance->0.session_open_expected_resource_version == Some(
                request.expected_resource_version,
            )
            &&& after.instance->0.session_opened_at_unix_ms == Some(now)
            &&& after.instance->0.last_heartbeat_at_unix_ms is None
            &&& after.instance->0.last_sequence is None
            &&& after.instance->0.agent_id == record.instance->0.agent_id
            &&& after.instance->0.installation_id == record.instance->0.installation_id
            &&& after.instance->0.public_key_fingerprint
                == record.instance->0.public_key_fingerprint
            &&& after.instance->0.state == record.instance->0.state
            &&& after.enrollment == record.enrollment
            &&& after.candidate == record.candidate
            &&& after.owner == record.owner
            &&& after.decision_audit_event == record.decision_audit_event
            &&& is_touched(record.storage_enrollment, after.storage_enrollment, now)
            &&& record.instance->0.active_boot_id is None ==> after.mount == record.mount
            &&& record.instance->0.active_boot_id is Some ==> {
                &&& after.mount.health is Unknown
                &&& after.mount.observed_volume_marker is None
                &&& after.mount.observed_access_mode is None
                &&& after.mount.reported_health is None
                &&& after.mount.observed_at_unix_ms is None
                &&& after.mount.mount_generation == record.mount.mount_generation
                &&& after.mount.mount_identity_digest == record.mount.mount_identity_digest
            }
        },
{
}

/// No session is opened by an Agent that is not in service, with another installation or mount, at
/// another version, or while another boot holds one that is still heard of. The boot that holds the
/// session gets it again where it asks in the same way.
pub proof fn lemma_session_belongs_to_one_boot(
    record: AgentRegistryRecord,
    request: &OpenAgentSessionRequest,
    session_id: SessionId,
    now: UnixMillis,
    timeout: u64,
    result: CentralResult<OpenSessionStep>,
)
    requires
        call_ensures(open_session, (record, request, session_id, now, timeout), result),
    ensures
        !is_in_service(record) ==> fails_with(result, CentralErrorCode::ApprovalRequired),
        is_in_service(record) && (record.instance->0.installation_id@ != request.installation_id@
            || record.mount.mount_identity_digest != Some(request.mount_identity_digest))
            ==> fails_with(result, CentralErrorCode::AgentIdentityMismatch),
        is_in_service(record) && record.instance->0.installation_id@ == request.installation_id@
            && record.mount.mount_identity_digest == Some(request.mount_identity_digest) && (
        record.instance->0.active_boot_id is None || record.instance->0.active_boot_id->0@
            != request.boot_id@) ==> {
            &&& record.resource_version != request.expected_resource_version ==> fails_with(
                result,
                CentralErrorCode::ConcurrentUpdate,
            )
            &&& record.resource_version == request.expected_resource_version
                && record.instance->0.active_boot_id is Some && (was_heard_at(
                record.instance->0,
            ) is None || now <= was_heard_at(record.instance->0)->0 + timeout) ==> fails_with(
                result,
                CentralErrorCode::AgentSessionActive,
            )
        },
        is_in_service(record) && record.instance->0.installation_id@ == request.installation_id@
            && record.mount.mount_identity_digest == Some(request.mount_identity_digest)
            && record.instance->0.active_boot_id is Some && record.instance->0.active_boot_id->0@
            == request.boot_id@ ==> {
            &&& record.instance->0.session_open_expected_resource_version != Some(
                request.expected_resource_version,
            ) ==> fails_with(result, CentralErrorCode::ConcurrentUpdate)
            &&& record.instance->0.session_open_expected_resource_version == Some(
                request.expected_resource_version,
            ) && record.instance->0.session_generation is Some
                && record.instance->0.active_session_id is Some ==> (result matches Ok(
                OpenSessionStep::Replayed { record: found, session_id: held, session_generation },
            ) && found == record && record.instance->0.active_session_id == Some(held)
                && record.instance->0.session_generation == Some(session_generation))
        },
{
}

/// A report or a request comes from the boot that holds the session, in its count.
pub open spec fn holds_the_session(
    record: AgentRegistryRecord,
    boot_id: Seq<char>,
    generation: SessionGeneration,
) -> bool {
    &&& record.instance is Some
    &&& record.instance->0.active_boot_id is Some
    &&& record.instance->0.active_boot_id->0@ == boot_id
    &&& record.instance->0.session_generation == Some(generation)
}

/// The boot that holds the session closes it, at the version that it expects: the Agent keeps its
/// count and has no boot and no session any more, and its mount is unknown from then on. Nobody else
/// closes it.
pub proof fn lemma_session_is_closed_by_its_boot(
    record: AgentRegistryRecord,
    request: &CloseAgentSessionRequest,
    now: UnixMillis,
    result: CentralResult<AgentRegistryRecord>,
)
    requires
        call_ensures(close_session, (record, request, now), result),
        record.resource_version < u64::MAX,
    ensures
        record.resource_version != request.expected_resource_version ==> fails_with(
            result,
            CentralErrorCode::ConcurrentUpdate,
        ),
        result is Ok <==> record.resource_version == request.expected_resource_version
            && holds_the_session(record, request.boot_id@, request.session_generation),
        result matches Ok(after) ==> {
            &&& after.resource_version == record.resource_version + 1
            &&& after.instance is Some
            &&& after.instance->0.active_boot_id is None
            &&& after.instance->0.active_session_id is None
            &&& after.instance->0.session_open_expected_resource_version is None
            &&& after.instance->0.session_opened_at_unix_ms is None
            &&& after.instance->0.last_heartbeat_at_unix_ms is None
            &&& after.instance->0.last_sequence is None
            &&& after.instance->0.session_generation == record.instance->0.session_generation
            &&& after.instance->0.agent_id == record.instance->0.agent_id
            &&& after.instance->0.installation_id == record.instance->0.installation_id
            &&& after.instance->0.state == record.instance->0.state
            &&& after.mount.health is Unknown
            &&& after.mount.observed_at_unix_ms is None
            &&& after.mount == AgentMountRecord {
                health: after.mount.health,
                observed_at_unix_ms: after.mount.observed_at_unix_ms,
                ..record.mount
            }
            &&& after.enrollment == record.enrollment
            &&& after.candidate == record.candidate
            &&& after.owner == record.owner
            &&& after.decision_audit_event == record.decision_audit_event
            &&& is_touched(record.storage_enrollment, after.storage_enrollment, now)
        },
{
}

/// A signed action counts with a valid proof and a valid fence, within the clock window on either
/// side of now.
pub proof fn lemma_action_counts_in_its_window(
    proof_is_valid: bool,
    fence_is_valid: bool,
    require_active_session: bool,
    signed_at: UnixMillis,
    skew: u64,
    now: UnixMillis,
    result: CentralResult<()>,
)
    requires
        call_ensures(
            admit_agent_action,
            (proof_is_valid, fence_is_valid, require_active_session, signed_at, skew, now),
            result,
        ),
    ensures
        result is Ok <==> proof_is_valid && fence_is_valid && signed_at <= now + skew && now
            <= signed_at + skew,
        result is Err ==> fails_with(result, CentralErrorCode::AgentIdentityMismatch),
{
}

/// An action is that of an Agent in service where it carries the installation and the key that were
/// approved; where a session is asked for, it also carries the boot, the session and the count that
/// are current.
pub proof fn lemma_action_is_authentic(
    record: &AgentRegistryRecord,
    fence: &AgentActionFence,
    require_active_session: bool,
    result: CentralResult<()>,
)
    requires
        call_ensures(authenticate_agent_action, (record, fence, require_active_session), result),
    ensures
        result is Ok <==> {
            &&& is_in_service(*record)
            &&& record.candidate is Some
            &&& record.candidate->0.credential_evidence is Some
            &&& record.instance->0.installation_id@ == fence.installation_id@
            &&& record.candidate->0.credential_evidence->0.algorithm == fence.algorithm
            &&& record.candidate->0.credential_evidence->0.public_key_spki.encoded@
                == fence.public_key_spki.encoded@
            &&& record.candidate->0.credential_evidence->0.public_key_spki.fingerprint
                == fence.public_key_spki.fingerprint
            &&& require_active_session ==> {
                &&& record.instance->0.active_boot_id is Some
                &&& record.instance->0.active_boot_id->0@ == fence.boot_id@
                &&& record.instance->0.session_generation == fence.session_generation
                &&& match (record.instance->0.active_session_id, fence.session_id) {
                    (None, None) => true,
                    (Some(held), Some(carried)) => held@ == carried@,
                    _ => false,
                }
            }
        },
        !is_in_service(*record) ==> fails_with(result, CentralErrorCode::ApprovalRequired),
{
}

/// A mount report belongs to an Agent in service: it carries its installation, mount, volume and
/// mount identity, the current generations of mount and owner, and its session.
pub open spec fn reports_for(record: AgentRegistryRecord, report: AgentMountStatusReport) -> bool {
    &&& is_in_service(record)
    &&& report.installation_id@ == record.instance->0.installation_id@
    &&& report.agent_mount_id@ == record.mount.agent_mount_id@
    &&& report.storage_volume_id@ == record.mount.storage_volume_id@
    &&& record.mount.mount_identity_digest == Some(report.mount_identity_digest)
    &&& report.mount_generation == record.mount.mount_generation
    &&& report.owner_generation == record.owner.owner_generation
    &&& holds_the_session(record, report.boot_id@, report.session_generation)
}

/// A volume serves its owner: its Agent is in service with a session that is still heard of, is the
/// active owner, and reads the expected marker from the mount that was approved.
pub open spec fn is_served(
    record: AgentRegistryRecord,
    owner_is_active: bool,
    now: UnixMillis,
    timeout: u64,
) -> bool {
    &&& is_in_service(record)
    &&& owner_is_active
    &&& record.instance->0.active_boot_id is Some
    &&& record.instance->0.session_generation is Some
    &&& record.owner.active_agent_id is Some
    &&& record.owner.active_agent_id->0@ == record.instance->0.agent_id@
    &&& record.instance->0.last_heartbeat_at_unix_ms is Some
    &&& now <= record.instance->0.last_heartbeat_at_unix_ms->0 + timeout
    &&& record.mount.mount_identity_digest is Some
    &&& record.mount.observed_volume_marker is Some
    &&& record.mount.observed_volume_marker->0@ == record.mount.expected_volume_marker@
}

/// A volume may be written where that is desired of it.
pub open spec fn has_its_access(mount: AgentMountRecord) -> bool {
    mount.desired_access_mode is ReadWrite ==> mount.observed_access_mode == Some(
        MountAccessMode::ReadWrite,
    )
}

/// The state of a volume follows from its enrollment: it is ready where it is served, healthy and has
/// its access, degraded where it is served and either is not so, and unavailable otherwise. An
/// enrollment of the earlier format has none.
pub proof fn lemma_volume_state_follows(
    record: &AgentRegistryRecord,
    now: UnixMillis,
    timeout: u64,
    result: CentralResult<DerivedVolumeState>,
    state: DerivedVolumeState,
    without_owner: DerivedVolumeState,
)
    requires
        call_ensures(volume_state, (record, now, timeout), result),
        call_ensures(AgentRegistryRecord::derived_volume_state, (record, now, timeout), state),
        call_ensures(
            AgentRegistryRecord::derived_volume_state_without_owner,
            (record, now, timeout),
            without_owner,
        ),
    ensures
        record.storage_enrollment.record_format is LegacyV2 ==> fails_with(
            result,
            CentralErrorCode::LegacyEnrollmentRequiresReissue,
        ),
        record.storage_enrollment.record_format is CurrentV3 ==> result == Ok::<
            DerivedVolumeState,
            CentralError,
        >(state),
        is_state_of(*record, record.owner.state is Active, now, timeout, state),
        is_state_of(*record, true, now, timeout, without_owner),
{
}

/// A state is the one that follows from a record.
pub open spec fn is_state_of(
    record: AgentRegistryRecord,
    owner_is_active: bool,
    now: UnixMillis,
    timeout: u64,
    state: DerivedVolumeState,
) -> bool {
    let served = is_served(record, owner_is_active, now, timeout);
    &&& state is Ready <==> served && record.mount.health is Ready && has_its_access(record.mount)
    &&& state is Degraded <==> served && (record.mount.health is Degraded || (
    record.mount.health is Ready && !has_its_access(record.mount)))
}

/// A report of the Agent in service that comes after every earlier one of its session is written
/// down: the observation, the time and the place in the sequence. The volume is unavailable where
/// another marker was read, degraded where it cannot be written as desired, and otherwise as healthy
/// as reported. The first report that finds an approved volume ready enrolls it.
pub proof fn lemma_mount_report_is_written_down(
    record: AgentRegistryRecord,
    report: &AgentMountStatusReport,
    received_at: UnixMillis,
    timeout: u64,
    result: CentralResult<MountReportStep>,
)
    requires
        call_ensures(report_mount, (record, report, received_at, timeout), result),
        reports_for(record, *report),
        record.instance->0.last_sequence is Some ==> record.instance->0.last_sequence->0
            < report.sequence,
        record.resource_version < u64::MAX,
    ensures
        result matches Ok(MountReportStep::Store { expected, record: after }) && {
            &&& expected == record.resource_version
            &&& after.resource_version == record.resource_version + 1
            &&& after.instance is Some
            &&& after.instance->0.last_sequence == Some(report.sequence)
            &&& after.instance->0.last_heartbeat_at_unix_ms == Some(received_at)
            &&& after.instance->0 == AgentInstanceRecord {
                last_sequence: after.instance->0.last_sequence,
                last_heartbeat_at_unix_ms: after.instance->0.last_heartbeat_at_unix_ms,
                ..record.instance->0
            }
            &&& after.mount.observed_volume_marker == Some(report.observed_volume_marker)
            &&& after.mount.observed_access_mode == Some(report.access_mode)
            &&& after.mount.reported_health == Some(report.health)
            &&& after.mount.observed_at_unix_ms == Some(report.observed_at_unix_ms)
            &&& after.mount.health == if report.observed_volume_marker@
                != record.mount.expected_volume_marker@ {
                ResourceHealth::Unavailable
            } else if record.mount.desired_access_mode is ReadWrite && report.access_mode is
                ReadOnly {
                ResourceHealth::Degraded
            } else {
                report.health
            }
            &&& after.mount.mount_generation == record.mount.mount_generation
            &&& after.mount.expected_volume_marker == record.mount.expected_volume_marker
            &&& after.enrollment == record.enrollment
            &&& after.candidate == record.candidate
            &&& after.owner == record.owner
            &&& after.decision_audit_event == record.decision_audit_event
            &&& if record.storage_enrollment.state == Some(StorageEnrollmentState::Approved)
                && is_served(after, record.owner.state is Active, received_at, timeout)
                && after.mount.health is Ready && has_its_access(after.mount) {
                tells_of(
                    record.storage_enrollment,
                    after.storage_enrollment,
                    record.enrollment,
                    record.resource_version + 1,
                    Some(StorageEnrollmentState::Enrolled),
                    AgentEnrollmentLifecycleAuditKind::Enrolled,
                    received_at,
                    None,
                )
            } else {
                is_touched(record.storage_enrollment, after.storage_enrollment, received_at)
            }
        },
{
    if let Ok(MountReportStep::Store { record: after, .. }) = result {
        if !(record.storage_enrollment.record_format is LegacyV2)
            && after.storage_enrollment.lifecycle_audit_events@.len()
            == record.storage_enrollment.lifecycle_audit_events@.len() + 1
            && after.storage_enrollment.lifecycle_audit_events@.drop_last()
            == record.storage_enrollment.lifecycle_audit_events@ {
            lemma_events(record.storage_enrollment, after.storage_enrollment);
        }
    }
}

/// A report is refused of an Agent that is not in service, of another installation, mount or
/// generation, of another session, and out of sequence. The last report again changes nothing where
/// it says the same, and is refused where it does not.
pub proof fn lemma_mount_report_has_its_limits(
    record: AgentRegistryRecord,
    report: &AgentMountStatusReport,
    received_at: UnixMillis,
    timeout: u64,
    result: CentralResult<MountReportStep>,
)
    requires
        call_ensures(report_mount, (record, report, received_at, timeout), result),
    ensures
        !is_in_service(record) ==> fails_with(result, CentralErrorCode::ApprovalRequired),
        !reports_for(record, *report) ==> result is Err,
        reports_for(record, *report) && record.instance->0.last_sequence is Some && report.sequence
            < record.instance->0.last_sequence->0 ==> fails_with(
            result,
            CentralErrorCode::GenerationMismatch,
        ),
        reports_for(record, *report) && record.instance->0.last_sequence == Some(report.sequence)
            ==> if record.mount.observed_at_unix_ms == Some(report.observed_at_unix_ms)
            && record.mount.observed_volume_marker is Some
            && record.mount.observed_volume_marker->0@ == report.observed_volume_marker@
            && record.mount.observed_access_mode == Some(report.access_mode)
            && record.mount.reported_health == Some(report.health) {
            result == Ok::<MountReportStep, CentralError>(MountReportStep::Replayed(record))
        } else {
            fails_with(result, CentralErrorCode::GenerationMismatch)
        },
{
}

/// Recovery is completed for the owner generation that awaits it, at the version that is expected,
/// once the volume is served, healthy and has its access: the owner is active then and the
/// enrollment enrolled. Nothing else completes it.
pub proof fn lemma_recovery_is_completed_when_ready(
    record: AgentRegistryRecord,
    request: &CompleteVolumeRecoveryRequest,
    now: UnixMillis,
    timeout: u64,
    result: CentralResult<AgentRegistryRecord>,
)
    requires
        call_ensures(complete_recovery, (record, request, now, timeout), result),
        record.resource_version < u64::MAX,
    ensures
        result is Ok <==> {
            &&& record.resource_version == request.expected_resource_version
            &&& record.owner.owner_generation == request.owner_generation
            &&& record.owner.state is RecoveryRequired
            &&& is_served(record, true, now, timeout)
            &&& record.mount.health is Ready
            &&& has_its_access(record.mount)
        },
        record.resource_version != request.expected_resource_version ==> fails_with(
            result,
            CentralErrorCode::ConcurrentUpdate,
        ),
        record.resource_version == request.expected_resource_version && (
        record.owner.owner_generation != request.owner_generation || !(
        record.owner.state is RecoveryRequired)) ==> fails_with(
            result,
            CentralErrorCode::VolumeOwnerConflict,
        ),
        result matches Ok(after) ==> {
            &&& after.resource_version == record.resource_version + 1
            &&& after.owner.state is Active
            &&& after.owner == VolumeOwnerRecord { state: after.owner.state, ..record.owner }
            &&& after.enrollment == record.enrollment
            &&& after.candidate == record.candidate
            &&& after.instance == record.instance
            &&& after.mount == record.mount
            &&& after.decision_audit_event == record.decision_audit_event
            &&& tells_of(
                record.storage_enrollment,
                after.storage_enrollment,
                record.enrollment,
                record.resource_version + 1,
                Some(StorageEnrollmentState::Enrolled),
                AgentEnrollmentLifecycleAuditKind::Enrolled,
                now,
                None,
            )
        },
{
    if let Ok(after) = result {
        if !(record.storage_enrollment.record_format is LegacyV2) {
            lemma_events(record.storage_enrollment, after.storage_enrollment);
        }
    }
}

/// An enrollment can be expired at the version that is expected, once its time has come: an issued
/// token from its own expiry on, and a candidate that waits for approval from the end of its review
/// window on. Nothing else expires.
pub proof fn lemma_enrollment_expires_in_its_time(
    record: AgentRegistryRecord,
    request: &ExpireAgentEnrollmentRequest,
    now: UnixMillis,
    result: CentralResult<AgentRegistryRecord>,
)
    requires
        call_ensures(expire_enrollment, (record, request, now), result),
        record.resource_version < u64::MAX,
    ensures
        result is Ok <==> {
            &&& record.resource_version == request.expected_resource_version
            &&& match record.enrollment.state {
                AgentEnrollmentState::TokenIssued => record.enrollment.expires_at_unix_ms <= now,
                AgentEnrollmentState::PendingApproval =>
                    record.enrollment.review_expires_at_unix_ms is Some
                    && record.enrollment.review_expires_at_unix_ms->0 <= now,
                _ => false,
            }
        },
        record.resource_version != request.expected_resource_version ==> fails_with(
            result,
            CentralErrorCode::ConcurrentUpdate,
        ),
        result matches Ok(after) ==> is_closed(
            record,
            after,
            if record.candidate is Some {
                Some(StorageEnrollmentState::Expired)
            } else {
                None
            },
            now,
        ),
{
    if let Ok(after) = result {
        if !(record.storage_enrollment.record_format is LegacyV2) {
            lemma_events(record.storage_enrollment, after.storage_enrollment);
        }
    }
}

/// A lookup gives what was found and refuses what was not. An enrollment is shown only where it is
/// public and a candidate has come.
pub proof fn lemma_only_public_enrollments_are_shown(
    found: Option<AgentRegistryRecord>,
    enrollment: CentralResult<AgentRegistryRecord>,
    agent: CentralResult<AgentRegistryRecord>,
    shown: CentralResult<AgentRegistryRecord>,
)
    requires
        call_ensures(require_enrollment, (found,), enrollment),
        call_ensures(require_agent, (found,), agent),
        call_ensures(query_enrollment, (found,), shown),
    ensures
        found matches Some(record) ==> enrollment == Ok::<AgentRegistryRecord, CentralError>(record)
            && agent == Ok::<AgentRegistryRecord, CentralError>(record),
        found is None ==> fails_with(enrollment, CentralErrorCode::EnrollmentNotFound)
            && fails_with(agent, CentralErrorCode::EnrollmentNotFound) && fails_with(
            shown,
            CentralErrorCode::EnrollmentNotFound,
        ),
        found matches Some(record) ==> if !is_public(record) {
            fails_with(shown, CentralErrorCode::LegacyEnrollmentRequiresReissue)
        } else if record.storage_enrollment.state is None {
            fails_with(shown, CentralErrorCode::EnrollmentNotFound)
        } else {
            shown == Ok::<AgentRegistryRecord, CentralError>(record)
        },
{
}

/// A list of enrollments is shown only where every one of them is public.
pub proof fn lemma_public_enrollments_are_listed(
    records: &Vec<AgentRegistryRecord>,
    listed: CentralResult<()>,
)
    requires
        call_ensures(list_enrollments, (records,), listed),
    ensures
        listed is Ok ==> forall|i: int|
            0 <= i < records@.len() ==> is_public(#[trigger] records@[i]),
        (forall|i: int| 0 <= i < records@.len() ==> is_public(#[trigger] records@[i]))
            ==> listed is Ok,
        listed is Err ==> fails_with(listed, CentralErrorCode::LegacyEnrollmentRequiresReissue),
{
    if are_public(records@) {
        assert forall|i: int| 0 <= i < records@.len() implies is_public(#[trigger] records@[i]) by {
            assert(is_public_enrollment(records@[i]));
        }
    }
    if forall|i: int| 0 <= i < records@.len() ==> is_public(#[trigger] records@[i]) {
        assert forall|i: int| 0 <= i < records@.len() implies is_public_enrollment(
            #[trigger] records@[i],
        ) by {
            assert(is_public(records@[i]));
        }
    }
}

} // verus!
