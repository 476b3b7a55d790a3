//! Lifecycle audit, decision audit and derived Volume readiness of one enrollment aggregate.
use vstd::prelude::*;

use crate::agent_registry::records::{
    AgentEnrollmentAuditEvent, AgentEnrollmentAuditKind, AgentEnrollmentDecision,
    AgentEnrollmentLifecycleAuditEvent, AgentEnrollmentLifecycleAuditKind, AgentEnrollmentRecord,
    AgentEnrollmentState, AgentInstanceState, AgentRegistryRecord, AgentRegistryRecordFormat,
    DerivedVolumeState, MountAccessMode, ResourceHealth, StorageEnrollmentMetadata,
    StorageEnrollmentState, VolumeOwnerState,
};
use crate::equality::Same;
use crate::error::{
    fault_of, final_failure, final_fault, CentralErrorCode, CentralResult, Fault,
};
use crate::identifier::{is_named, names, Identifier, OpaqueText, ResourceVersion, UnixMillis};
use crate::text::{decimal, decimal_text};

verus! {

/// The name of a lifecycle step inside event identities.
pub open spec fn lifecycle_kind_text(kind: AgentEnrollmentLifecycleAuditKind) -> Seq<char> {
    match kind {
        AgentEnrollmentLifecycleAuditKind::TokenIssued => "token-issued"@,
        AgentEnrollmentLifecycleAuditKind::PendingApproval => "pending-approval"@,
        AgentEnrollmentLifecycleAuditKind::Approved => "approved"@,
        AgentEnrollmentLifecycleAuditKind::Enrolled => "enrolled"@,
        AgentEnrollmentLifecycleAuditKind::Rejected => "rejected"@,
        AgentEnrollmentLifecycleAuditKind::Expired => "expired"@,
        AgentEnrollmentLifecycleAuditKind::Revoked => "revoked"@,
    }
}

/// The name of a lifecycle step inside event identities.
pub fn lifecycle_kind_name(kind: AgentEnrollmentLifecycleAuditKind) -> (name: &'static str)
    ensures
        name@ == lifecycle_kind_text(kind),
{
    match kind {
        AgentEnrollmentLifecycleAuditKind::TokenIssued => "token-issued",
        AgentEnrollmentLifecycleAuditKind::PendingApproval => "pending-approval",
        AgentEnrollmentLifecycleAuditKind::Approved => "approved",
        AgentEnrollmentLifecycleAuditKind::Enrolled => "enrolled",
        AgentEnrollmentLifecycleAuditKind::Rejected => "rejected",
        AgentEnrollmentLifecycleAuditKind::Expired => "expired",
        AgentEnrollmentLifecycleAuditKind::Revoked => "revoked",
    }
}

/// The identity of the lifecycle event that one write of one enrollment appends.
pub open spec fn lifecycle_event_text(
    enrollment_id: Seq<char>,
    resource_version: ResourceVersion,
    kind: AgentEnrollmentLifecycleAuditKind,
) -> Seq<char> {
    "agent-enrollment-lifecycle:"@ + enrollment_id + ":"@ + decimal(resource_version as nat)
        + ":"@ + lifecycle_kind_text(kind)
}

pub(crate) fn lifecycle_event_id(
    enrollment_id: &Identifier,
    resource_version: ResourceVersion,
    kind: AgentEnrollmentLifecycleAuditKind,
) -> (event_id: Identifier)
    ensures
        event_id@ == lifecycle_event_text(enrollment_id@, resource_version, kind),
{
    let mut text = String::from_str("agent-enrollment-lifecycle:");
    text.append(enrollment_id.as_str());
    text.append(":");
    text.append(decimal_text(resource_version).as_str());
    text.append(":");
    text.append(lifecycle_kind_name(kind));
    Identifier::new(text)
}

/// The event that a write of `record` appends for a lifecycle step.
pub open spec fn is_lifecycle_event(
    event: AgentEnrollmentLifecycleAuditEvent,
    enrollment: AgentEnrollmentRecord,
    resource_version: ResourceVersion,
    kind: AgentEnrollmentLifecycleAuditKind,
    occurred_at_unix_ms: UnixMillis,
    rejection_reason: Option<OpaqueText>,
) -> bool {
    &&& event.event_id@ == lifecycle_event_text(enrollment.enrollment_id@, resource_version, kind)
    &&& event.kind == kind
    &&& event.tenant_id == enrollment.tenant_id
    &&& event.enrollment_id == enrollment.enrollment_id
    &&& event.resource_version == resource_version
    &&& event.occurred_at_unix_ms == occurred_at_unix_ms
    &&& event.rejection_reason == rejection_reason
}

/// `after` is `before` with one lifecycle event appended, and nothing else changed.
pub open spec fn lifecycle_appended(
    before: AgentRegistryRecord,
    after: AgentRegistryRecord,
    kind: AgentEnrollmentLifecycleAuditKind,
    occurred_at_unix_ms: UnixMillis,
    rejection_reason: Option<OpaqueText>,
) -> bool {
    let events = after.storage_enrollment.lifecycle_audit_events;
    &&& events@.len() == before.storage_enrollment.lifecycle_audit_events@.len() + 1
    &&& events@.drop_last() == before.storage_enrollment.lifecycle_audit_events@
    &&& is_lifecycle_event(
        events@.last(),
        before.enrollment,
        before.resource_version,
        kind,
        occurred_at_unix_ms,
        rejection_reason,
    )
    &&& after == AgentRegistryRecord {
        storage_enrollment: StorageEnrollmentMetadata {
            lifecycle_audit_events: events,
            ..before.storage_enrollment
        },
        ..before
    }
}

pub(crate) fn append_lifecycle_event(
    record: &mut AgentRegistryRecord,
    kind: AgentEnrollmentLifecycleAuditKind,
    occurred_at_unix_ms: UnixMillis,
    rejection_reason: Option<OpaqueText>,
)
    ensures
        lifecycle_appended(
            *old(record),
            *final(record),
            kind,
            occurred_at_unix_ms,
            rejection_reason,
        ),
{
    let event = AgentEnrollmentLifecycleAuditEvent {
        event_id: lifecycle_event_id(
            &record.enrollment.enrollment_id,
            record.resource_version,
            kind,
        ),
        kind,
        tenant_id: record.enrollment.tenant_id.clone(),
        enrollment_id: record.enrollment.enrollment_id.clone(),
        resource_version: record.resource_version,
        occurred_at_unix_ms,
        rejection_reason,
    };
    record.storage_enrollment.lifecycle_audit_events.push(event);
    proof {
        assert(record.storage_enrollment.lifecycle_audit_events@.drop_last()
            =~= old(record).storage_enrollment.lifecycle_audit_events@);
    }
}

/// A public state transition together with its audit event. Records that predate public
/// enrollments are left alone.
pub open spec fn storage_transitioned(
    before: AgentRegistryRecord,
    after: AgentRegistryRecord,
    state: Option<StorageEnrollmentState>,
    kind: AgentEnrollmentLifecycleAuditKind,
    occurred_at_unix_ms: UnixMillis,
    rejection_reason: Option<OpaqueText>,
) -> bool {
    if before.storage_enrollment.record_format is CurrentV3 {
        lifecycle_appended(
            AgentRegistryRecord {
                storage_enrollment: StorageEnrollmentMetadata {
                    state,
                    updated_at_unix_ms: Some(occurred_at_unix_ms),
                    ..before.storage_enrollment
                },
                ..before
            },
            after,
            kind,
            occurred_at_unix_ms,
            rejection_reason,
        )
    } else {
        after == before
    }
}

/// Moves the public state and appends the lifecycle event of the same write.
pub fn transition_storage_enrollment(
    record: &mut AgentRegistryRecord,
    state: Option<StorageEnrollmentState>,
    kind: AgentEnrollmentLifecycleAuditKind,
    occurred_at_unix_ms: UnixMillis,
    rejection_reason: Option<OpaqueText>,
)
    ensures
        storage_transitioned(
            *old(record),
            *final(record),
            state,
            kind,
            occurred_at_unix_ms,
            rejection_reason,
        ),
{
    if record.storage_enrollment.record_format != AgentRegistryRecordFormat::CurrentV3 {
        return ;
    }
    record.storage_enrollment.state = state;
    record.storage_enrollment.updated_at_unix_ms = Some(occurred_at_unix_ms);
    append_lifecycle_event(record, kind, occurred_at_unix_ms, rejection_reason);
}

/// `record` with its public update time moved, where it has one.
pub open spec fn touched(
    record: AgentRegistryRecord,
    updated_at_unix_ms: UnixMillis,
) -> AgentRegistryRecord {
    if record.storage_enrollment.record_format is CurrentV3 {
        AgentRegistryRecord {
            storage_enrollment: StorageEnrollmentMetadata {
                updated_at_unix_ms: Some(updated_at_unix_ms),
                ..record.storage_enrollment
            },
            ..record
        }
    } else {
        record
    }
}

pub(crate) fn touch_storage_enrollment(
    record: &mut AgentRegistryRecord,
    updated_at_unix_ms: UnixMillis,
)
    ensures
        *final(record) == touched(*old(record), updated_at_unix_ms),
{
    if record.storage_enrollment.record_format == AgentRegistryRecordFormat::CurrentV3 {
        record.storage_enrollment.updated_at_unix_ms = Some(updated_at_unix_ms);
    }
}

/// The kind of a decision, given whether the enrollment replaces another one.
pub open spec fn decision_audit_kind(
    decision: AgentEnrollmentDecision,
    is_replacement: bool,
) -> AgentEnrollmentAuditKind {
    match decision {
        AgentEnrollmentDecision::Approve => if is_replacement {
            AgentEnrollmentAuditKind::ReplacementApproved
        } else {
            AgentEnrollmentAuditKind::Approved
        },
        AgentEnrollmentDecision::Reject => AgentEnrollmentAuditKind::Rejected,
    }
}

/// Why a decided enrollment has no audit event.
pub open spec fn decision_audit_fault(enrollment: AgentEnrollmentRecord) -> Option<Fault> {
    match enrollment.decision_request {
        None => Some(
            final_fault(
                CentralErrorCode::Internal,
                "decided enrollment has no stable decision request"@,
            ),
        ),
        Some(request) => if enrollment.decided_by is None {
            Some(
                final_fault(CentralErrorCode::Internal, "decided enrollment has no audit actor"@),
            )
        } else if enrollment.decided_at_unix_ms is None {
            Some(
                final_fault(
                    CentralErrorCode::Internal,
                    "decided enrollment has no audit timestamp"@,
                ),
            )
        } else if request.expected_resource_version == u64::MAX {
            Some(
                final_fault(
                    CentralErrorCode::Internal,
                    "decision ResourceVersion exceeds the registry range"@,
                ),
            )
        } else {
            None
        },
    }
}

/// The audit event that a decided enrollment determines.
pub open spec fn is_decision_audit_event(
    event: AgentEnrollmentAuditEvent,
    enrollment: AgentEnrollmentRecord,
) -> bool {
    &&& enrollment.decision_request matches Some(request)
    &&& enrollment.decided_by matches Some(actor)
    &&& enrollment.decided_at_unix_ms matches Some(occurred_at_unix_ms)
    &&& event.event_id@ == "agent-enrollment:"@ + enrollment.enrollment_id@ + ":"@
        + request.decision_request_id@
    &&& event.kind == decision_audit_kind(
        request.decision,
        enrollment.replaces_enrollment_id is Some,
    )
    &&& event.tenant_id@ == enrollment.tenant_id@
    &&& event.enrollment_id@ == enrollment.enrollment_id@
    &&& event.storage_volume_id@ == enrollment.storage_volume_id@
    &&& event.decision_request_id@ == request.decision_request_id@
    &&& event.resource_version == request.expected_resource_version + 1
    &&& event.actor@ == actor@
    &&& event.occurred_at_unix_ms == occurred_at_unix_ms
}

/// Derives the immutable audit event of a decided enrollment.
pub fn decision_audit_event(enrollment: &AgentEnrollmentRecord) -> (result: CentralResult<
    AgentEnrollmentAuditEvent,
>)
    ensures
        fault_of(result) == decision_audit_fault(*enrollment),
        result matches Ok(event) ==> is_decision_audit_event(event, *enrollment),
{
    let request = match &enrollment.decision_request {
        Some(request) => request,
        None => return Err(
            final_failure(
                CentralErrorCode::Internal,
                "decided enrollment has no stable decision request",
            ),
        ),
    };
    let kind = match (request.decision, enrollment.replaces_enrollment_id.is_some()) {
        (AgentEnrollmentDecision::Approve, true) => AgentEnrollmentAuditKind::ReplacementApproved,
        (AgentEnrollmentDecision::Approve, false) => AgentEnrollmentAuditKind::Approved,
        (AgentEnrollmentDecision::Reject, _) => AgentEnrollmentAuditKind::Rejected,
    };
    let actor = match &enrollment.decided_by {
        Some(actor) => actor.clone(),
        None => return Err(
            final_failure(
                CentralErrorCode::Internal,
                "decided enrollment has no audit actor",
            ),
        ),
    };
    let occurred_at_unix_ms: UnixMillis = match enrollment.decided_at_unix_ms {
        Some(at) => at,
        None => return Err(
            final_failure(
                CentralErrorCode::Internal,
                "decided enrollment has no audit timestamp",
            ),
        ),
    };
    let resource_version: ResourceVersion = match request.expected_resource_version.checked_add(
        1,
    ) {
        Some(next) => next,
        None => return Err(
            final_failure(
                CentralErrorCode::Internal,
                "decision ResourceVersion exceeds the registry range",
            ),
        ),
    };
    let mut event_id = String::from_str("agent-enrollment:");
    event_id.append(enrollment.enrollment_id.as_str());
    event_id.append(":");
    event_id.append(request.decision_request_id.as_str());
    Ok(
        AgentEnrollmentAuditEvent {
            event_id: Identifier::new(event_id),
            kind,
            tenant_id: enrollment.tenant_id.clone(),
            enrollment_id: enrollment.enrollment_id.clone(),
            storage_volume_id: enrollment.storage_volume_id.clone(),
            decision_request_id: request.decision_request_id.clone(),
            resource_version,
            actor,
            occurred_at_unix_ms,
        },
    )
}

/// The stored audit event is the one that the enrollment determines; where the enrollment
/// determines none, none is stored.
pub open spec fn decision_audit_agrees(record: AgentRegistryRecord) -> bool {
    if decision_audit_fault(record.enrollment) is None {
        record.decision_audit_event matches Some(event) && is_decision_audit_event(
            event,
            record.enrollment,
        )
    } else {
        record.decision_audit_event is None
    }
}

pub(crate) fn decision_audit_matches(record: &AgentRegistryRecord) -> (matches: bool)
    ensures
        matches == decision_audit_agrees(*record),
{
    match decision_audit_event(&record.enrollment) {
        Ok(expected) => match &record.decision_audit_event {
            Some(stored) => *stored == expected,
            None => false,
        },
        Err(_) => record.decision_audit_event.is_none(),
    }
}

/// Why a replayed decision cannot be answered.
pub open spec fn decision_audit_requirement(record: AgentRegistryRecord) -> Option<Fault> {
    match decision_audit_fault(record.enrollment) {
        Some(fault) => Some(fault),
        None => if record.decision_audit_event matches Some(event) && is_decision_audit_event(
            event,
            record.enrollment,
        ) {
            None
        } else {
            Some(
                final_fault(
                    CentralErrorCode::Internal,
                    "decided enrollment is missing its immutable audit event"@,
                ),
            )
        },
    }
}

pub(crate) fn require_decision_audit(record: &AgentRegistryRecord) -> (result: CentralResult<()>)
    ensures
        fault_of(result) == decision_audit_requirement(*record),
{
    match decision_audit_event(&record.enrollment) {
        Ok(expected) => {
            if let Some(stored) = &record.decision_audit_event {
                if *stored == expected {
                    return Ok(());
                }
            }
            Err(
                final_failure(
                    CentralErrorCode::Internal,
                    "decided enrollment is missing its immutable audit event",
                ),
            )
        },
        Err(failure) => Err(failure),
    }
}

/// The reason of the last rejection in the audit, if that event carries one.
pub open spec fn last_rejection_reason(
    events: Seq<AgentEnrollmentLifecycleAuditEvent>,
) -> Option<OpaqueText>
    decreases events.len(),
{
    if events.len() == 0 {
        None
    } else if events.last().kind is Rejected {
        events.last().rejection_reason
    } else {
        last_rejection_reason(events.drop_last())
    }
}

pub(crate) fn lifecycle_rejection_reason(record: &AgentRegistryRecord) -> (reason: Option<
    OpaqueText,
>)
    ensures
        reason == last_rejection_reason(record.storage_enrollment.lifecycle_audit_events@),
{
    let events = &record.storage_enrollment.lifecycle_audit_events;
    let mut remaining: usize = events.len();
    proof {
        assert(events@.take(events@.len() as int) =~= events@);
    }
    while remaining > 0
        invariant
            remaining <= events@.len(),
            events@ == record.storage_enrollment.lifecycle_audit_events@,
            last_rejection_reason(events@) == last_rejection_reason(
                events@.take(remaining as int),
            ),
        decreases remaining,
    {
        proof {
            assert(events@.take(remaining as int).drop_last() =~= events@.take(remaining - 1));
            assert(events@.take(remaining as int).last() == events@[remaining - 1]);
        }
        remaining -= 1;
        let event = &events[remaining];
        if event.kind == AgentEnrollmentLifecycleAuditKind::Rejected {
            return event.rejection_reason.clone();
        }
    }
    None
}

/// The Agent of an approved enrollment is connected, recently heard of, and sees the Volume it
/// was approved for.
pub open spec fn volume_is_served(
    record: AgentRegistryRecord,
    owner_state: VolumeOwnerState,
    now_unix_ms: UnixMillis,
    heartbeat_timeout_ms: u64,
) -> bool {
    &&& record.enrollment.state is Approved
    &&& owner_state is Active
    &&& record.instance matches Some(instance)
    &&& instance.state is Active
    &&& instance.active_boot_id is Some
    &&& instance.session_generation is Some
    &&& names(record.owner.active_agent_id, instance.agent_id@)
    &&& instance.last_heartbeat_at_unix_ms matches Some(last_heartbeat)
    &&& now_unix_ms - last_heartbeat <= heartbeat_timeout_ms
    &&& record.mount.mount_identity_digest is Some
    &&& names(record.mount.observed_volume_marker, record.mount.expected_volume_marker@)
}

/// Volume readiness under a given owner state.
pub open spec fn volume_readiness(
    record: AgentRegistryRecord,
    owner_state: VolumeOwnerState,
    now_unix_ms: UnixMillis,
    heartbeat_timeout_ms: u64,
) -> DerivedVolumeState {
    if !volume_is_served(record, owner_state, now_unix_ms, heartbeat_timeout_ms) {
        DerivedVolumeState::Unavailable
    } else {
        match record.mount.health {
            ResourceHealth::Ready => if record.mount.desired_access_mode is ReadWrite
                && record.mount.observed_access_mode != Some(MountAccessMode::ReadWrite) {
                DerivedVolumeState::Degraded
            } else {
                DerivedVolumeState::Ready
            },
            ResourceHealth::Degraded => DerivedVolumeState::Degraded,
            ResourceHealth::Unavailable | ResourceHealth::Unknown =>
                DerivedVolumeState::Unavailable,
        }
    }
}

impl AgentRegistryRecord {
    #[must_use]
    pub fn derived_volume_state(
        &self,
        now_unix_ms: UnixMillis,
        heartbeat_timeout_ms: u64,
    ) -> (state: DerivedVolumeState)
        ensures
            state == volume_readiness(
                *self,
                self.owner.state,
                now_unix_ms,
                heartbeat_timeout_ms,
            ),
    {
        self.derived_volume_state_with_owner(self.owner.state, now_unix_ms, heartbeat_timeout_ms)
    }

    /// Readiness as it would be if the owner were active.
    #[must_use]
    pub fn derived_volume_state_without_owner(
        &self,
        now_unix_ms: UnixMillis,
        heartbeat_timeout_ms: u64,
    ) -> (state: DerivedVolumeState)
        ensures
            state == volume_readiness(
                *self,
                VolumeOwnerState::Active,
                now_unix_ms,
                heartbeat_timeout_ms,
            ),
    {
        self.derived_volume_state_with_owner(
            VolumeOwnerState::Active,
            now_unix_ms,
            heartbeat_timeout_ms,
        )
    }

    fn derived_volume_state_with_owner(
        &self,
        owner_state: VolumeOwnerState,
        now_unix_ms: UnixMillis,
        heartbeat_timeout_ms: u64,
    ) -> (state: DerivedVolumeState)
        ensures
            state == volume_readiness(*self, owner_state, now_unix_ms, heartbeat_timeout_ms),
    {
        if self.enrollment.state != AgentEnrollmentState::Approved || owner_state
            != VolumeOwnerState::Active {
            return DerivedVolumeState::Unavailable;
        }
        let instance = match &self.instance {
            Some(instance) => instance,
            None => return DerivedVolumeState::Unavailable,
        };
        if instance.state != AgentInstanceState::Active || instance.active_boot_id.is_none()
            || instance.session_generation.is_none() || !is_named(
            &self.owner.active_agent_id,
            &instance.agent_id,
        ) {
            return DerivedVolumeState::Unavailable;
        }
        let last_heartbeat: UnixMillis = match instance.last_heartbeat_at_unix_ms {
            Some(last_heartbeat) => last_heartbeat,
            None => return DerivedVolumeState::Unavailable,
        };
        if now_unix_ms.saturating_sub(last_heartbeat) > heartbeat_timeout_ms {
            return DerivedVolumeState::Unavailable;
        }
        if self.mount.mount_identity_digest.is_none() || !is_named(
            &self.mount.observed_volume_marker,
            &self.mount.expected_volume_marker,
        ) {
            return DerivedVolumeState::Unavailable;
        }
        match self.mount.health {
            ResourceHealth::Ready => {
                if self.mount.desired_access_mode == MountAccessMode::ReadWrite
                    && self.mount.observed_access_mode != Some(MountAccessMode::ReadWrite) {
                    DerivedVolumeState::Degraded
                } else {
                    DerivedVolumeState::Ready
                }
            },
            ResourceHealth::Degraded => DerivedVolumeState::Degraded,
            ResourceHealth::Unavailable | ResourceHealth::Unknown =>
                DerivedVolumeState::Unavailable,
        }
    }
}

} // verus!
