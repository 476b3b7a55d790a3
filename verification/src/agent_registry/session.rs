//! Sessions of approved Agents: opening, reporting, closing, recovery and expiry.
use vstd::prelude::*;

use crate::agent_registry::bootstrap::{
    advance_resource_version, distance, enrollment_missing, enrollment_was_not_found,
    expire_record, is_expired_from, is_within, version_exhausted,
};
use crate::agent_registry::decision::{
    is_approved, not_approved, require_approved, require_resource_version, review_undated,
    review_window_elapsed, version_changed,
};
use crate::agent_registry::lifecycle::{
    storage_transitioned, touch_storage_enrollment, touched, transition_storage_enrollment,
    volume_readiness,
};
use crate::agent_registry::records::{
    AgentEnrollmentLifecycleAuditKind, AgentEnrollmentState, AgentInstanceRecord,
    AgentMountRecord, AgentRegistryRecord, AgentSignatureAlgorithm, DerivedVolumeState,
    Ed25519PublicKeySpki, MountAccessMode, ResourceHealth, StorageEnrollmentState,
    VolumeOwnerRecord, VolumeOwnerState,
};
use crate::agent_registry::validation::{
    is_public_enrollment, reissue_fault, require_current_registry_record,
    require_public_enrollment_metadata,
};
use crate::digest::AgentMountIdentityDigest;
use crate::equality::Same;
use crate::error::{
    fault_of, final_failure, final_fault, CentralError, CentralErrorCode, CentralResult, Fault,
};
use crate::identifier::{
    is_named, names, AgentBootId, AgentEnrollmentId, AgentId, AgentInstallationId, AgentMountId,
    Identifier, MountGeneration, OwnerGeneration, ResourceVersion, SequenceNumber,
    SessionGeneration, SessionId, StorageVolumeId, UnixMillis, VolumeMarkerId,
};

verus! {

pub struct OpenAgentSessionRequest {
    pub agent_id: AgentId,
    pub installation_id: AgentInstallationId,
    pub boot_id: AgentBootId,
    pub mount_identity_digest: AgentMountIdentityDigest,
    pub expected_resource_version: ResourceVersion,
}

/// What opening a session comes to.
pub enum OpenSessionStep {
    /// The same boot opened its session before with the same request.
    Replayed {
        record: AgentRegistryRecord,
        session_id: SessionId,
        session_generation: SessionGeneration,
    },
    /// `record` is to replace the stored version `expected`.
    Store {
        expected: ResourceVersion,
        record: AgentRegistryRecord,
        session_generation: SessionGeneration,
    },
}

/// The identity of a session, made of the digest of its Agent, boot and generation.
pub fn session_id_of(digest_text: &str) -> (session_id: SessionId)
    ensures
        session_id@ == "session-"@ + digest_text@,
{
    let mut text = String::from_str("session-");
    text.append(digest_text);
    Identifier::new(text)
}

/// The last sign of life of a session is too old.
pub open spec fn session_has_lapsed(
    instance: AgentInstanceRecord,
    now_unix_ms: UnixMillis,
    heartbeat_timeout_ms: u64,
) -> bool {
    match instance.last_heartbeat_at_unix_ms {
        Some(last_seen) => now_unix_ms - last_seen > heartbeat_timeout_ms,
        None => instance.session_opened_at_unix_ms matches Some(last_seen) && now_unix_ms
            - last_seen > heartbeat_timeout_ms,
    }
}

pub fn session_is_stale(
    instance: &AgentInstanceRecord,
    now_unix_ms: UnixMillis,
    heartbeat_timeout_ms: u64,
) -> (stale: bool)
    ensures
        stale == session_has_lapsed(*instance, now_unix_ms, heartbeat_timeout_ms),
{
    let last_seen: Option<UnixMillis> = match instance.last_heartbeat_at_unix_ms {
        Some(at) => Some(at),
        None => instance.session_opened_at_unix_ms,
    };
    match last_seen {
        Some(at) => now_unix_ms.saturating_sub(at) > heartbeat_timeout_ms,
        None => false,
    }
}

/// The generation that the next session of an instance gets; `None` where there is none left.
pub open spec fn next_generation(instance: AgentInstanceRecord) -> Option<SessionGeneration> {
    match instance.session_generation {
        None => Some(1),
        Some(generation) => if generation == u64::MAX {
            None
        } else {
            Some((generation + 1) as u64)
        },
    }
}

/// The generation that the next session of an instance gets; `None` where there is none left.
pub fn next_session_generation(instance: &AgentInstanceRecord) -> (generation: Option<
    SessionGeneration,
>)
    ensures
        generation == next_generation(*instance),
{
    match instance.session_generation {
        None => Some(1),
        Some(generation) => generation.checked_add(1),
    }
}

/// Why a session is not opened.
pub open spec fn open_session_fault(
    record: AgentRegistryRecord,
    request: OpenAgentSessionRequest,
    now: UnixMillis,
    heartbeat_timeout_ms: u64,
) -> Option<Fault> {
    if !is_approved(record) {
        Some(not_approved())
    } else {
        let instance = record.instance->0;
        if instance.installation_id@ != request.installation_id@ {
            Some(
                final_fault(
                    CentralErrorCode::AgentIdentityMismatch,
                    "session installation differs from bootstrap identity"@,
                ),
            )
        } else if record.mount.mount_identity_digest != Some(request.mount_identity_digest) {
            Some(
                final_fault(
                    CentralErrorCode::AgentIdentityMismatch,
                    "session mount identity differs from the approved bootstrap"@,
                ),
            )
        } else if names(instance.active_boot_id, request.boot_id@) {
            if instance.session_open_expected_resource_version != Some(
                request.expected_resource_version,
            ) {
                Some(
                    final_fault(
                        CentralErrorCode::ConcurrentUpdate,
                        "session open replay payload differs from the persisted request"@,
                    ),
                )
            } else if instance.session_generation is None {
                Some(
                    final_fault(
                        CentralErrorCode::Internal,
                        "active session is missing its generation"@,
                    ),
                )
            } else if instance.active_session_id is None {
                Some(
                    final_fault(
                        CentralErrorCode::Internal,
                        "active session is missing its session ID"@,
                    ),
                )
            } else {
                None
            }
        } else if record.resource_version != request.expected_resource_version {
            Some(version_changed())
        } else if instance.active_boot_id is Some && !session_has_lapsed(
            instance,
            now,
            heartbeat_timeout_ms,
        ) {
            Some(
                final_fault(
                    CentralErrorCode::AgentSessionActive,
                    "another Agent boot already owns the active session"@,
                ),
            )
        } else if next_generation(instance) is None {
            Some(final_fault(CentralErrorCode::Internal, "session generation exhausted"@))
        } else if record.resource_version == u64::MAX {
            Some(version_exhausted())
        } else {
            None
        }
    }
}

/// What was observed of a mount is forgotten; what was reserved stays.
pub open spec fn unobserved_mount(mount: AgentMountRecord) -> AgentMountRecord {
    AgentMountRecord {
        observed_volume_marker: None,
        observed_access_mode: None,
        reported_health: None,
        health: ResourceHealth::Unknown,
        observed_at_unix_ms: None,
        ..mount
    }
}

/// `record` with a fresh session of the requesting boot. Taking over from a lapsed session
/// forgets what that session observed.
pub open spec fn session_opened(
    record: AgentRegistryRecord,
    request: OpenAgentSessionRequest,
    session_id: SessionId,
    now: UnixMillis,
) -> AgentRegistryRecord {
    let instance = record.instance->0;
    touched(
        AgentRegistryRecord {
            resource_version: (record.resource_version + 1) as u64,
            instance: Some(
                AgentInstanceRecord {
                    session_generation: next_generation(instance),
                    active_boot_id: Some(request.boot_id),
                    active_session_id: Some(session_id),
                    session_open_expected_resource_version: Some(
                        request.expected_resource_version,
                    ),
                    session_opened_at_unix_ms: Some(now),
                    last_heartbeat_at_unix_ms: None,
                    last_sequence: None,
                    ..instance
                },
            ),
            mount: if instance.active_boot_id is Some {
                unobserved_mount(record.mount)
            } else {
                record.mount
            },
            ..record
        },
        now,
    )
}

/// Opens a session for one boot of an approved Agent, or recognises that it is open.
///
/// `session_id` is the identity derived for the Agent, the requesting boot and the generation that
/// [`next_session_generation`] gives.
pub fn open_session(
    record: AgentRegistryRecord,
    request: &OpenAgentSessionRequest,
    session_id: SessionId,
    now: UnixMillis,
    heartbeat_timeout_ms: u64,
) -> (result: CentralResult<OpenSessionStep>)
    ensures
        fault_of(result) == open_session_fault(record, *request, now, heartbeat_timeout_ms),
        result matches Ok(OpenSessionStep::Replayed {
            record: found,
            session_id: found_id,
            session_generation,
        }) ==> {
            &&& record.instance matches Some(instance)
            &&& names(instance.active_boot_id, request.boot_id@)
            &&& found == record
            &&& instance.active_session_id == Some(found_id)
            &&& instance.session_generation == Some(session_generation)
        },
        result matches Ok(OpenSessionStep::Store {
            expected,
            record: opened,
            session_generation,
        }) ==> {
            &&& record.instance matches Some(instance)
            &&& !names(instance.active_boot_id, request.boot_id@)
            &&& expected == record.resource_version
            &&& opened == session_opened(record, *request, session_id, now)
            &&& next_generation(instance) == Some(session_generation)
        },
{
    require_approved(&record)?;
    let instance = match &record.instance {
        Some(instance) => instance,
        None => return Err(
            final_failure(
                CentralErrorCode::AgentIdentityMismatch,
                "approved enrollment has no Agent instance",
            ),
        ),
    };
    if instance.installation_id != request.installation_id {
        return Err(
            final_failure(
                CentralErrorCode::AgentIdentityMismatch,
                "session installation differs from bootstrap identity",
            ),
        );
    }
    if record.mount.mount_identity_digest != Some(request.mount_identity_digest) {
        return Err(
            final_failure(
                CentralErrorCode::AgentIdentityMismatch,
                "session mount identity differs from the approved bootstrap",
            ),
        );
    }
    if is_named(&instance.active_boot_id, &request.boot_id) {
        if instance.session_open_expected_resource_version != Some(
            request.expected_resource_version,
        ) {
            return Err(
                final_failure(
                    CentralErrorCode::ConcurrentUpdate,
                    "session open replay payload differs from the persisted request",
                ),
            );
        }
        let session_generation: SessionGeneration = match instance.session_generation {
            Some(generation) => generation,
            None => return Err(
                final_failure(
                    CentralErrorCode::Internal,
                    "active session is missing its generation",
                ),
            ),
        };
        let found_id = match &instance.active_session_id {
            Some(found_id) => found_id.clone(),
            None => return Err(
                final_failure(
                    CentralErrorCode::Internal,
                    "active session is missing its session ID",
                ),
            ),
        };
        return Ok(
            OpenSessionStep::Replayed { record, session_id: found_id, session_generation },
        );
    }
    require_resource_version(&record, request.expected_resource_version)?;
    let takes_over = instance.active_boot_id.is_some();
    if takes_over && !session_is_stale(instance, now, heartbeat_timeout_ms) {
        return Err(
            final_failure(
                CentralErrorCode::AgentSessionActive,
                "another Agent boot already owns the active session",
            ),
        );
    }
    let session_generation: SessionGeneration = match next_session_generation(instance) {
        Some(generation) => generation,
        None => return Err(
            final_failure(CentralErrorCode::Internal, "session generation exhausted"),
        ),
    };
    let expected: ResourceVersion = record.resource_version;
    let mut record = record;
    if let Some(instance) = record.instance.take() {
        let mut instance = instance;
        instance.session_generation = Some(session_generation);
        instance.active_boot_id = Some(request.boot_id.clone());
        instance.session_open_expected_resource_version = Some(request.expected_resource_version);
        instance.session_opened_at_unix_ms = Some(now);
        instance.last_heartbeat_at_unix_ms = None;
        instance.last_sequence = None;
        instance.active_session_id = Some(session_id);
        record.instance = Some(instance);
    }
    if takes_over {
        record.mount.observed_volume_marker = None;
        record.mount.observed_access_mode = None;
        record.mount.reported_health = None;
        record.mount.health = ResourceHealth::Unknown;
        record.mount.observed_at_unix_ms = None;
    }
    advance_resource_version(&mut record)?;
    touch_storage_enrollment(&mut record, now);
    Ok(OpenSessionStep::Store { expected, record, session_generation })
}

/// The request comes from the session that is open.
pub open spec fn is_current_session(
    instance: AgentInstanceRecord,
    boot_id: Seq<char>,
    generation: SessionGeneration,
) -> bool {
    names(instance.active_boot_id, boot_id) && instance.session_generation == Some(generation)
}

/// Why a request that carries a session fence is refused.
pub open spec fn session_fault(
    record: AgentRegistryRecord,
    boot_id: Seq<char>,
    generation: SessionGeneration,
) -> Option<Fault> {
    match record.instance {
        None => Some(
            final_fault(
                CentralErrorCode::AgentIdentityMismatch,
                "enrollment has no Agent instance"@,
            ),
        ),
        Some(instance) => if is_current_session(instance, boot_id, generation) {
            None
        } else {
            Some(
                final_fault(
                    CentralErrorCode::GenerationMismatch,
                    "Agent report belongs to a stale session"@,
                ),
            )
        },
    }
}

pub(crate) fn require_session(
    record: &AgentRegistryRecord,
    boot_id: &AgentBootId,
    generation: SessionGeneration,
) -> (result: CentralResult<()>)
    ensures
        fault_of(result) == session_fault(*record, boot_id@, generation),
{
    match &record.instance {
        None => Err(
            final_failure(
                CentralErrorCode::AgentIdentityMismatch,
                "enrollment has no Agent instance",
            ),
        ),
        Some(instance) => if !is_named(&instance.active_boot_id, boot_id)
            || instance.session_generation != Some(generation) {
            Err(
                final_failure(
                    CentralErrorCode::GenerationMismatch,
                    "Agent report belongs to a stale session",
                ),
            )
        } else {
            Ok(())
        },
    }
}

pub struct CloseAgentSessionRequest {
    pub agent_id: AgentId,
    pub boot_id: AgentBootId,
    pub session_generation: SessionGeneration,
    pub expected_resource_version: ResourceVersion,
}

/// `record` with its session closed. The session generation stays, so the next one is newer.
pub open spec fn session_closed(record: AgentRegistryRecord, now: UnixMillis) -> AgentRegistryRecord {
    touched(
        AgentRegistryRecord {
            resource_version: (record.resource_version + 1) as u64,
            instance: Some(
                AgentInstanceRecord {
                    active_boot_id: None,
                    active_session_id: None,
                    session_open_expected_resource_version: None,
                    session_opened_at_unix_ms: None,
                    last_heartbeat_at_unix_ms: None,
                    last_sequence: None,
                    ..record.instance->0
                },
            ),
            mount: AgentMountRecord {
                health: ResourceHealth::Unknown,
                observed_at_unix_ms: None,
                ..record.mount
            },
            ..record
        },
        now,
    )
}

/// Closes the session that the request names.
pub fn close_session(
    record: AgentRegistryRecord,
    request: &CloseAgentSessionRequest,
    now: UnixMillis,
) -> (result: CentralResult<AgentRegistryRecord>)
    ensures
        fault_of(result) == if record.resource_version != request.expected_resource_version {
            Some(version_changed())
        } else if session_fault(record, request.boot_id@, request.session_generation) is Some {
            session_fault(record, request.boot_id@, request.session_generation)
        } else if record.resource_version == u64::MAX {
            Some(version_exhausted())
        } else {
            None::<Fault>
        },
        result matches Ok(closed) ==> closed == session_closed(record, now),
{
    require_resource_version(&record, request.expected_resource_version)?;
    require_session(&record, &request.boot_id, request.session_generation)?;
    let mut record = record;
    if let Some(instance) = record.instance.take() {
        let mut instance = instance;
        instance.active_boot_id = None;
        instance.active_session_id = None;
        instance.session_open_expected_resource_version = None;
        instance.session_opened_at_unix_ms = None;
        instance.last_heartbeat_at_unix_ms = None;
        instance.last_sequence = None;
        record.instance = Some(instance);
    }
    record.mount.health = ResourceHealth::Unknown;
    record.mount.observed_at_unix_ms = None;
    advance_resource_version(&mut record)?;
    touch_storage_enrollment(&mut record, now);
    Ok(record)
}

/// The parts of a signed Agent action that are checked against its enrollment.
pub struct AgentActionFence {
    pub agent_id: AgentId,
    pub installation_id: AgentInstallationId,
    pub boot_id: AgentBootId,
    pub session_id: Option<SessionId>,
    pub session_generation: Option<SessionGeneration>,
    pub signed_at_unix_ms: UnixMillis,
    pub algorithm: AgentSignatureAlgorithm,
    pub public_key_spki: Ed25519PublicKeySpki,
}

/// Checks proof, fence shape and signature time of an Agent action, before its record is read.
///
/// `proof_is_valid` tells whether the signature verifies, `fence_is_valid` whether the request
/// carries the session fence that its kind calls for.
pub fn admit_agent_action(
    proof_is_valid: bool,
    fence_is_valid: bool,
    require_active_session: bool,
    signed_at_unix_ms: UnixMillis,
    max_clock_skew_ms: u64,
    now: UnixMillis,
) -> (result: CentralResult<()>)
    ensures
        fault_of(result) == if !proof_is_valid {
            Some(
                final_fault(
                    CentralErrorCode::AgentIdentityMismatch,
                    "Agent action request proof is invalid"@,
                ),
            )
        } else if !fence_is_valid && require_active_session {
            Some(
                final_fault(
                    CentralErrorCode::AgentIdentityMismatch,
                    "Agent action request lacks an active session fence"@,
                ),
            )
        } else if !fence_is_valid {
            Some(
                final_fault(
                    CentralErrorCode::AgentIdentityMismatch,
                    "Agent session open request carries an invalid session fence"@,
                ),
            )
        } else if distance(now, signed_at_unix_ms) > max_clock_skew_ms {
            Some(
                final_fault(
                    CentralErrorCode::AgentIdentityMismatch,
                    "Agent action request proof is outside the accepted clock window"@,
                ),
            )
        } else {
            None::<Fault>
        },
{
    if !proof_is_valid {
        return Err(
            final_failure(
                CentralErrorCode::AgentIdentityMismatch,
                "Agent action request proof is invalid",
            ),
        );
    }
    if !fence_is_valid {
        return Err(
            final_failure(
                CentralErrorCode::AgentIdentityMismatch,
                if require_active_session {
                    "Agent action request lacks an active session fence"
                } else {
                    "Agent session open request carries an invalid session fence"
                },
            ),
        );
    }
    if !is_within(now, signed_at_unix_ms, max_clock_skew_ms) {
        return Err(
            final_failure(
                CentralErrorCode::AgentIdentityMismatch,
                "Agent action request proof is outside the accepted clock window",
            ),
        );
    }
    Ok(())
}

/// Why an Agent action is not accepted from this enrollment.
pub open spec fn agent_action_fault(
    record: AgentRegistryRecord,
    fence: AgentActionFence,
    require_active_session: bool,
) -> Option<Fault> {
    if !is_approved(record) {
        Some(not_approved())
    } else if !(record.candidate matches Some(candidate)
        && candidate.credential_evidence is Some) {
        Some(
            final_fault(
                CentralErrorCode::AgentIdentityMismatch,
                "approved enrollment has no credential evidence"@,
            ),
        )
    } else {
        let instance = record.instance->0;
        let evidence = record.candidate->0.credential_evidence->0;
        if instance.installation_id@ != fence.installation_id@ || evidence.algorithm
            != fence.algorithm || !evidence.public_key_spki.same(fence.public_key_spki) {
            Some(
                final_fault(
                    CentralErrorCode::AgentIdentityMismatch,
                    "Agent action credential differs from the approved enrollment"@,
                ),
            )
        } else if require_active_session && !(names(instance.active_boot_id, fence.boot_id@)
            && instance.active_session_id.same(fence.session_id) && instance.session_generation
            == fence.session_generation) {
            Some(
                final_fault(
                    CentralErrorCode::GenerationMismatch,
                    "Agent action carries a stale session fence"@,
                ),
            )
        } else {
            None
        }
    }
}

/// Verifies an Agent action against the approved enrollment key and the durable session fence.
/// Nothing is changed.
pub fn authenticate_agent_action(
    record: &AgentRegistryRecord,
    fence: &AgentActionFence,
    require_active_session: bool,
) -> (result: CentralResult<()>)
    ensures
        fault_of(result) == agent_action_fault(*record, *fence, require_active_session),
{
    require_approved(record)?;
    let instance = match &record.instance {
        Some(instance) => instance,
        None => return Err(
            final_failure(
                CentralErrorCode::AgentIdentityMismatch,
                "approved enrollment has no Agent instance",
            ),
        ),
    };
    let candidate = match &record.candidate {
        Some(candidate) => candidate,
        None => return Err(
            final_failure(
                CentralErrorCode::AgentIdentityMismatch,
                "approved enrollment has no credential evidence",
            ),
        ),
    };
    let evidence = match &candidate.credential_evidence {
        Some(evidence) => evidence,
        None => return Err(
            final_failure(
                CentralErrorCode::AgentIdentityMismatch,
                "approved enrollment has no credential evidence",
            ),
        ),
    };
    if instance.installation_id != fence.installation_id || evidence.algorithm != fence.algorithm
        || evidence.public_key_spki != fence.public_key_spki {
        return Err(
            final_failure(
                CentralErrorCode::AgentIdentityMismatch,
                "Agent action credential differs from the approved enrollment",
            ),
        );
    }
    if require_active_session && (!is_named(&instance.active_boot_id, &fence.boot_id)
        || instance.active_session_id != fence.session_id || instance.session_generation
        != fence.session_generation) {
        return Err(
            final_failure(
                CentralErrorCode::GenerationMismatch,
                "Agent action carries a stale session fence",
            ),
        );
    }
    Ok(())
}

/// A validated mount observation of one session.
pub struct AgentMountStatusReport {
    pub agent_id: AgentId,
    pub installation_id: AgentInstallationId,
    pub boot_id: AgentBootId,
    pub session_generation: SessionGeneration,
    pub sequence: SequenceNumber,
    pub agent_mount_id: AgentMountId,
    pub storage_volume_id: StorageVolumeId,
    pub mount_generation: MountGeneration,
    pub owner_generation: OwnerGeneration,
    pub mount_identity_digest: AgentMountIdentityDigest,
    pub observed_volume_marker: VolumeMarkerId,
    pub access_mode: MountAccessMode,
    pub health: ResourceHealth,
    pub observed_at_unix_ms: UnixMillis,
}

/// Why a report does not belong to this enrollment.
pub open spec fn report_scope_fault(
    record: AgentRegistryRecord,
    report: AgentMountStatusReport,
) -> Option<Fault> {
    match record.instance {
        None => Some(
            final_fault(
                CentralErrorCode::AgentIdentityMismatch,
                "enrollment has no Agent instance"@,
            ),
        ),
        Some(instance) => if report.installation_id@ != instance.installation_id@
            || report.agent_mount_id@ != record.mount.agent_mount_id@ || report.storage_volume_id@
            != record.mount.storage_volume_id@ || record.mount.mount_identity_digest != Some(
            report.mount_identity_digest,
        ) {
            Some(
                final_fault(
                    CentralErrorCode::AgentIdentityMismatch,
                    "mount report identity differs from the approved enrollment"@,
                ),
            )
        } else if report.mount_generation != record.mount.mount_generation
            || report.owner_generation != record.owner.owner_generation {
            Some(
                final_fault(
                    CentralErrorCode::GenerationMismatch,
                    "mount report carries a stale mount or owner generation"@,
                ),
            )
        } else {
            None
        },
    }
}

pub(crate) fn validate_report_scope(
    record: &AgentRegistryRecord,
    report: &AgentMountStatusReport,
) -> (result: CentralResult<()>)
    ensures
        fault_of(result) == report_scope_fault(*record, *report),
{
    let instance = match &record.instance {
        Some(instance) => instance,
        None => return Err(
            final_failure(
                CentralErrorCode::AgentIdentityMismatch,
                "enrollment has no Agent instance",
            ),
        ),
    };
    if report.installation_id != instance.installation_id || report.agent_mount_id
        != record.mount.agent_mount_id || report.storage_volume_id
        != record.mount.storage_volume_id || record.mount.mount_identity_digest != Some(
        report.mount_identity_digest,
    ) {
        return Err(
            final_failure(
                CentralErrorCode::AgentIdentityMismatch,
                "mount report identity differs from the approved enrollment",
            ),
        );
    }
    if report.mount_generation != record.mount.mount_generation || report.owner_generation
        != record.owner.owner_generation {
        return Err(
            final_failure(
                CentralErrorCode::GenerationMismatch,
                "mount report carries a stale mount or owner generation",
            ),
        );
    }
    Ok(())
}

/// The record already holds this very observation.
pub open spec fn is_report_replay(
    record: AgentRegistryRecord,
    report: AgentMountStatusReport,
) -> bool {
    &&& record.mount.observed_at_unix_ms == Some(report.observed_at_unix_ms)
    &&& names(record.mount.observed_volume_marker, report.observed_volume_marker@)
    &&& record.mount.mount_identity_digest == Some(report.mount_identity_digest)
    &&& record.mount.observed_access_mode == Some(report.access_mode)
    &&& record.mount.reported_health == Some(report.health)
}

/// Why a report is refused.
pub open spec fn report_fault(
    record: AgentRegistryRecord,
    report: AgentMountStatusReport,
) -> Option<Fault> {
    if !is_approved(record) {
        Some(not_approved())
    } else if report_scope_fault(record, report) is Some {
        report_scope_fault(record, report)
    } else if session_fault(record, report.boot_id@, report.session_generation) is Some {
        session_fault(record, report.boot_id@, report.session_generation)
    } else if record.instance->0.last_sequence matches Some(last) && report.sequence < last {
        Some(
            final_fault(
                CentralErrorCode::GenerationMismatch,
                "mount report sequence moved backwards"@,
            ),
        )
    } else if record.instance->0.last_sequence == Some(report.sequence) {
        if is_report_replay(record, report) {
            None
        } else {
            Some(
                final_fault(
                    CentralErrorCode::GenerationMismatch,
                    "mount report sequence was reused with another observation"@,
                ),
            )
        }
    } else if record.resource_version == u64::MAX {
        Some(version_exhausted())
    } else {
        None
    }
}

/// The health that an observation amounts to.
pub open spec fn effective_health(
    mount: AgentMountRecord,
    report: AgentMountStatusReport,
) -> ResourceHealth {
    if report.observed_volume_marker@ != mount.expected_volume_marker@ {
        ResourceHealth::Unavailable
    } else if mount.desired_access_mode is ReadWrite && !(report.access_mode is ReadWrite) {
        ResourceHealth::Degraded
    } else {
        report.health
    }
}

/// `record` with the observation written down, before its version moves.
pub open spec fn observed(
    record: AgentRegistryRecord,
    report: AgentMountStatusReport,
    received_at_unix_ms: UnixMillis,
) -> AgentRegistryRecord {
    AgentRegistryRecord {
        instance: Some(
            AgentInstanceRecord {
                last_sequence: Some(report.sequence),
                last_heartbeat_at_unix_ms: Some(received_at_unix_ms),
                ..record.instance->0
            },
        ),
        mount: AgentMountRecord {
            observed_volume_marker: Some(report.observed_volume_marker),
            observed_access_mode: Some(report.access_mode),
            reported_health: Some(report.health),
            observed_at_unix_ms: Some(report.observed_at_unix_ms),
            health: effective_health(record.mount, report),
            ..record.mount
        },
        ..record
    }
}

/// An approved Volume is enrolled by the first observation that makes it ready.
pub open spec fn report_enrolls(
    record: AgentRegistryRecord,
    report: AgentMountStatusReport,
    received_at_unix_ms: UnixMillis,
    heartbeat_timeout_ms: u64,
) -> bool {
    &&& record.storage_enrollment.state == Some(StorageEnrollmentState::Approved)
    &&& volume_readiness(
        observed(record, report, received_at_unix_ms),
        record.owner.state,
        received_at_unix_ms,
        heartbeat_timeout_ms,
    ) is Ready
}

/// `after` is `before` with one more observation of its session.
pub open spec fn is_reported_from(
    before: AgentRegistryRecord,
    after: AgentRegistryRecord,
    report: AgentMountStatusReport,
    received_at_unix_ms: UnixMillis,
    heartbeat_timeout_ms: u64,
) -> bool {
    let advanced = AgentRegistryRecord {
        resource_version: (before.resource_version + 1) as u64,
        ..observed(before, report, received_at_unix_ms)
    };
    if report_enrolls(before, report, received_at_unix_ms, heartbeat_timeout_ms) {
        storage_transitioned(
            advanced,
            after,
            Some(StorageEnrollmentState::Enrolled),
            AgentEnrollmentLifecycleAuditKind::Enrolled,
            received_at_unix_ms,
            None,
        )
    } else {
        after == touched(advanced, received_at_unix_ms)
    }
}

/// What a mount report comes to.
pub enum MountReportStep {
    /// The observation was reported before.
    Replayed(AgentRegistryRecord),
    /// `record` is to replace the stored version `expected`.
    Store { expected: ResourceVersion, record: AgentRegistryRecord },
}

/// Applies a mount observation of the current session.
pub fn report_mount(
    record: AgentRegistryRecord,
    report: &AgentMountStatusReport,
    received_at_unix_ms: UnixMillis,
    heartbeat_timeout_ms: u64,
) -> (result: CentralResult<MountReportStep>)
    ensures
        fault_of(result) == report_fault(record, *report),
        result matches Ok(MountReportStep::Replayed(found)) ==> record.instance matches Some(
            instance,
        ) && instance.last_sequence == Some(report.sequence) && found == record,
        result matches Ok(MountReportStep::Store { expected, record: stored }) ==> {
            &&& record.instance matches Some(instance)
            &&& instance.last_sequence matches Some(last) ==> last < report.sequence
            &&& expected == record.resource_version
            &&& is_reported_from(
                record,
                stored,
                *report,
                received_at_unix_ms,
                heartbeat_timeout_ms,
            )
        },
{
    require_approved(&record)?;
    validate_report_scope(&record, report)?;
    require_session(&record, &report.boot_id, report.session_generation)?;
    let last_sequence: Option<SequenceNumber> = match &record.instance {
        Some(instance) => instance.last_sequence,
        None => None,
    };
    if let Some(last) = last_sequence {
        if report.sequence < last {
            return Err(
                final_failure(
                    CentralErrorCode::GenerationMismatch,
                    "mount report sequence moved backwards",
                ),
            );
        }
        if report.sequence == last {
            let replayed = record.mount.observed_at_unix_ms == Some(report.observed_at_unix_ms)
                && is_named(&record.mount.observed_volume_marker, &report.observed_volume_marker)
                && record.mount.mount_identity_digest == Some(report.mount_identity_digest)
                && record.mount.observed_access_mode == Some(report.access_mode)
                && record.mount.reported_health == Some(report.health);
            if replayed {
                return Ok(MountReportStep::Replayed(record));
            }
            return Err(
                final_failure(
                    CentralErrorCode::GenerationMismatch,
                    "mount report sequence was reused with another observation",
                ),
            );
        }
    }
    let expected: ResourceVersion = record.resource_version;
    let mut record = record;
    if let Some(instance) = record.instance.take() {
        let mut instance = instance;
        instance.last_sequence = Some(report.sequence);
        instance.last_heartbeat_at_unix_ms = Some(received_at_unix_ms);
        record.instance = Some(instance);
    }
    let health = if report.observed_volume_marker != record.mount.expected_volume_marker {
        ResourceHealth::Unavailable
    } else if record.mount.desired_access_mode == MountAccessMode::ReadWrite && report.access_mode
        != MountAccessMode::ReadWrite {
        ResourceHealth::Degraded
    } else {
        report.health
    };
    record.mount.observed_volume_marker = Some(report.observed_volume_marker.clone());
    record.mount.observed_access_mode = Some(report.access_mode);
    record.mount.reported_health = Some(report.health);
    record.mount.observed_at_unix_ms = Some(report.observed_at_unix_ms);
    record.mount.health = health;
    let becomes_enrolled = record.storage_enrollment.state == Some(
        StorageEnrollmentState::Approved,
    ) && record.derived_volume_state(received_at_unix_ms, heartbeat_timeout_ms)
        == DerivedVolumeState::Ready;
    advance_resource_version(&mut record)?;
    if becomes_enrolled {
        transition_storage_enrollment(
            &mut record,
            Some(StorageEnrollmentState::Enrolled),
            AgentEnrollmentLifecycleAuditKind::Enrolled,
            received_at_unix_ms,
            None,
        );
    } else {
        touch_storage_enrollment(&mut record, received_at_unix_ms);
    }
    Ok(MountReportStep::Store { expected, record })
}

pub struct CompleteVolumeRecoveryRequest {
    pub enrollment_id: AgentEnrollmentId,
    pub expected_resource_version: ResourceVersion,
    pub owner_generation: OwnerGeneration,
}

/// Why a recovery is not complete.
pub open spec fn recovery_fault(
    record: AgentRegistryRecord,
    request: CompleteVolumeRecoveryRequest,
    now: UnixMillis,
    heartbeat_timeout_ms: u64,
) -> Option<Fault> {
    if record.resource_version != request.expected_resource_version {
        Some(version_changed())
    } else if record.owner.owner_generation != request.owner_generation || !(
    record.owner.state is RecoveryRequired) {
        Some(
            final_fault(
                CentralErrorCode::VolumeOwnerConflict,
                "Volume is not awaiting recovery for this owner generation"@,
            ),
        )
    } else if !(volume_readiness(
        record,
        VolumeOwnerState::Active,
        now,
        heartbeat_timeout_ms,
    ) is Ready) {
        Some(
            final_fault(
                CentralErrorCode::InvalidState,
                "Volume mount must report Ready before recovery completes"@,
            ),
        )
    } else if record.resource_version == u64::MAX {
        Some(version_exhausted())
    } else {
        None
    }
}

/// `after` is `before` with its new owner active.
pub open spec fn is_recovered_from(
    before: AgentRegistryRecord,
    after: AgentRegistryRecord,
    now: UnixMillis,
) -> bool {
    storage_transitioned(
        AgentRegistryRecord {
            resource_version: (before.resource_version + 1) as u64,
            owner: VolumeOwnerRecord { state: VolumeOwnerState::Active, ..before.owner },
            ..before
        },
        after,
        Some(StorageEnrollmentState::Enrolled),
        AgentEnrollmentLifecycleAuditKind::Enrolled,
        now,
        None,
    )
}

/// Makes the owner of a recovered Volume active.
pub fn complete_recovery(
    record: AgentRegistryRecord,
    request: &CompleteVolumeRecoveryRequest,
    now: UnixMillis,
    heartbeat_timeout_ms: u64,
) -> (result: CentralResult<AgentRegistryRecord>)
    ensures
        fault_of(result) == recovery_fault(record, *request, now, heartbeat_timeout_ms),
        result matches Ok(recovered) ==> is_recovered_from(record, recovered, now),
{
    require_resource_version(&record, request.expected_resource_version)?;
    if record.owner.owner_generation != request.owner_generation || record.owner.state
        != VolumeOwnerState::RecoveryRequired {
        return Err(
            final_failure(
                CentralErrorCode::VolumeOwnerConflict,
                "Volume is not awaiting recovery for this owner generation",
            ),
        );
    }
    if record.derived_volume_state_without_owner(now, heartbeat_timeout_ms)
        != DerivedVolumeState::Ready {
        return Err(
            final_failure(
                CentralErrorCode::InvalidState,
                "Volume mount must report Ready before recovery completes",
            ),
        );
    }
    let mut record = record;
    record.owner.state = VolumeOwnerState::Active;
    advance_resource_version(&mut record)?;
    transition_storage_enrollment(
        &mut record,
        Some(StorageEnrollmentState::Enrolled),
        AgentEnrollmentLifecycleAuditKind::Enrolled,
        now,
        None,
    );
    Ok(record)
}

pub struct ExpireAgentEnrollmentRequest {
    pub enrollment_id: AgentEnrollmentId,
    pub expected_resource_version: ResourceVersion,
}

/// Why an enrollment does not expire.
pub open spec fn expiry_fault(
    record: AgentRegistryRecord,
    request: ExpireAgentEnrollmentRequest,
    now: UnixMillis,
) -> Option<Fault> {
    let enrollment = record.enrollment;
    if record.resource_version != request.expected_resource_version {
        Some(version_changed())
    } else if !(enrollment.state is TokenIssued) && !(enrollment.state is PendingApproval) {
        Some(
            final_fault(
                CentralErrorCode::InvalidState,
                "only an issued token or pending Agent enrollment can expire"@,
            ),
        )
    } else if enrollment.state is PendingApproval && enrollment.review_expires_at_unix_ms is None {
        Some(review_undated())
    } else if now < (if enrollment.state is TokenIssued {
        enrollment.expires_at_unix_ms
    } else {
        enrollment.review_expires_at_unix_ms->0
    }) {
        Some(
            final_fault(
                CentralErrorCode::InvalidState,
                "Agent enrollment expiry window has not elapsed"@,
            ),
        )
    } else if record.resource_version == u64::MAX {
        Some(version_exhausted())
    } else {
        None
    }
}

/// Closes an enrollment whose token or review window has passed.
pub fn expire_enrollment(
    record: AgentRegistryRecord,
    request: &ExpireAgentEnrollmentRequest,
    now: UnixMillis,
) -> (result: CentralResult<AgentRegistryRecord>)
    ensures
        fault_of(result) == expiry_fault(record, *request, now),
        result matches Ok(expired) ==> is_expired_from(
            record,
            expired,
            if record.candidate is Some {
                Some(StorageEnrollmentState::Expired)
            } else {
                None
            },
            now,
        ),
{
    require_resource_version(&record, request.expected_resource_version)?;
    let elapsed = match record.enrollment.state {
        AgentEnrollmentState::TokenIssued => now >= record.enrollment.expires_at_unix_ms,
        AgentEnrollmentState::PendingApproval => review_window_elapsed(&record, now)?,
        _ => return Err(
            final_failure(
                CentralErrorCode::InvalidState,
                "only an issued token or pending Agent enrollment can expire",
            ),
        ),
    };
    if !elapsed {
        return Err(
            final_failure(
                CentralErrorCode::InvalidState,
                "Agent enrollment expiry window has not elapsed",
            ),
        );
    }
    let public_state = if record.candidate.is_some() {
        Some(StorageEnrollmentState::Expired)
    } else {
        None
    };
    expire_record(record, public_state, now)
}

/// Finds the enrollment that a request names.
pub fn require_enrollment(found: Option<AgentRegistryRecord>) -> (result: CentralResult<
    AgentRegistryRecord,
>)
    ensures
        fault_of(result) == if found is Some {
            None
        } else {
            Some(enrollment_missing())
        },
        result matches Ok(record) ==> found == Some(record),
{
    match found {
        Some(record) => Ok(record),
        None => Err(enrollment_was_not_found()),
    }
}

/// Finds the enrollment of the Agent that a request names.
pub fn require_agent(found: Option<AgentRegistryRecord>) -> (result: CentralResult<
    AgentRegistryRecord,
>)
    ensures
        fault_of(result) == if found is Some {
            None
        } else {
            Some(final_fault(CentralErrorCode::EnrollmentNotFound, "Agent was not enrolled"@))
        },
        result matches Ok(record) ==> found == Some(record),
{
    match found {
        Some(record) => Ok(record),
        None => Err(
            final_failure(CentralErrorCode::EnrollmentNotFound, "Agent was not enrolled"),
        ),
    }
}

/// The answer to a query for an enrollment that tenants cannot see.
pub open spec fn query_missing() -> Fault {
    final_fault(CentralErrorCode::EnrollmentNotFound, "Agent enrollment was not found"@)
}

pub(crate) fn enrollment_not_found() -> (failure: CentralError)
    ensures
        failure@ == query_missing(),
{
    final_failure(CentralErrorCode::EnrollmentNotFound, "Agent enrollment was not found")
}

/// Answers a tenant's query for one enrollment from the record found in that tenant.
pub fn query_enrollment(record: Option<AgentRegistryRecord>) -> (result: CentralResult<
    AgentRegistryRecord,
>)
    ensures
        fault_of(result) == match record {
            None => Some(query_missing()),
            Some(record) => if !is_public_enrollment(record) {
                Some(reissue_fault())
            } else if record.storage_enrollment.state is None {
                Some(query_missing())
            } else {
                None::<Fault>
            },
        },
        result matches Ok(found) ==> record == Some(found),
{
    let record = match record {
        Some(record) => record,
        None => return Err(enrollment_not_found()),
    };
    require_public_enrollment_metadata(&record)?;
    if record.storage_enrollment.state.is_none() {
        return Err(enrollment_not_found());
    }
    Ok(record)
}

/// Every one of some enrollments is public.
pub open spec fn are_public(records: Seq<AgentRegistryRecord>) -> bool {
    forall|i: int| 0 <= i < records.len() ==> is_public_enrollment(#[trigger] records[i])
}

/// Every record of a page must be one that tenants may inspect.
pub fn list_enrollments(records: &Vec<AgentRegistryRecord>) -> (result: CentralResult<()>)
    ensures
        fault_of(result) == if forall|i: int|
            0 <= i < records@.len() ==> is_public_enrollment(#[trigger] records@[i]) {
            None::<Fault>
        } else {
            Some(reissue_fault())
        },
        result is Ok <==> are_public(records@),
{
    let mut index: usize = 0;
    while index < records.len()
        invariant
            index <= records.len(),
            forall|i: int| 0 <= i < index ==> is_public_enrollment(#[trigger] records@[i]),
        decreases records.len() - index,
    {
        let checked = require_public_enrollment_metadata(&records[index]);
        if checked.is_err() {
            assert(!is_public_enrollment(records@[index as int]));
            return checked;
        }
        index += 1;
    }
    Ok(())
}

/// The readiness of the Volume of one enrollment.
pub fn volume_state(
    record: &AgentRegistryRecord,
    now: UnixMillis,
    heartbeat_timeout_ms: u64,
) -> (result: CentralResult<DerivedVolumeState>)
    ensures
        fault_of(result) == if record.storage_enrollment.record_format is CurrentV3 {
            None::<Fault>
        } else {
            Some(reissue_fault())
        },
        result matches Ok(state) ==> state == volume_readiness(
            *record,
            record.owner.state,
            now,
            heartbeat_timeout_ms,
        ),
{
    require_current_registry_record(record)?;
    Ok(record.derived_volume_state(now, heartbeat_timeout_ms))
}

} // verus!
