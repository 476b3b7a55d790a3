//! Bootstrap-token intents: the first record of every enrollment.
use vstd::prelude::*;

use crate::agent_registry::lifecycle::{append_lifecycle_event, is_lifecycle_event};
use crate::agent_registry::records::{
    AgentEnrollmentLifecycleAuditKind, AgentEnrollmentRecord, AgentEnrollmentState,
    AgentMountRecord, AgentRegistryRecord, AgentRegistryRecordFormat, BootstrapTokenMetadata,
    FrozenStorageDescriptor, MountAccessMode, ResourceHealth, StorageEnrollmentMetadata,
    StorageEnrollmentRegistrationKind, VolumeOwnerRecord, VolumeOwnerState,
};
use crate::digest::{ContentDigest, PvcIdentityDigest};
use crate::equality::Same;
use crate::error::{
    fault_of, final_failure, final_fault, CentralErrorCode, CentralResult, Fault,
};
use crate::identifier::{
    AgentEnrollmentId, AgentEnrollmentTokenId, AgentId, AgentMountId, EdgeClusterId, Extensions,
    Identifier, MountGeneration, OpaqueText, OwnerGeneration, RequestId, StorageVolumeId, TenantId,
    UnixMillis, VolumeMarkerId,
};

verus! {

/// A validated request for a bootstrap token. The token itself stays outside; its digest is here.
#[derive(Debug)]
pub struct AgentEnrollmentTokenCreateRequest {
    pub token_id: AgentEnrollmentTokenId,
    pub token_request_id: RequestId,
    pub enrollment_id: AgentEnrollmentId,
    pub tenant_id: TenantId,
    pub edge_cluster_id: EdgeClusterId,
    pub storage_volume_id: StorageVolumeId,
    pub volume_descriptor_digest: ContentDigest,
    pub pvc_identity_digest: PvcIdentityDigest,
    pub agent_id: AgentId,
    pub agent_mount_id: AgentMountId,
    pub bootstrap_token_digest: ContentDigest,
    pub created_at_unix_ms: UnixMillis,
    pub expires_at_unix_ms: UnixMillis,
    pub expected_volume_marker: VolumeMarkerId,
    pub desired_access_mode: MountAccessMode,
    pub extensions: Extensions,
}

/// The public part of a token request: the frozen Volume fields and the token key.
#[derive(Debug)]
pub struct StorageIntentMetadata {
    pub descriptor: FrozenStorageDescriptor,
    pub token: BootstrapTokenMetadata,
}

/// The Volume that an EdgeCluster PVC identity is bound to.
#[derive(Debug)]
pub struct PvcVolumeBinding {
    pub pvc_identity_digest: PvcIdentityDigest,
    pub tenant_id: TenantId,
    pub edge_cluster_id: EdgeClusterId,
    pub storage_volume_id: StorageVolumeId,
}

/// An issued token intent, and whether it had been issued before.
pub struct CreateAgentEnrollmentTokenResult {
    pub record: AgentRegistryRecord,
    pub replayed: bool,
}

/// The outcome of inserting an enrollment aggregate.
pub enum AgentRegistryInsertOutcome {
    Inserted(AgentRegistryRecord),
    Existing(AgentRegistryRecord),
}

/// The enrollment that a token request opens.
pub open spec fn intent_enrollment(
    request: AgentEnrollmentTokenCreateRequest,
    replaces_enrollment_id: Option<AgentEnrollmentId>,
) -> AgentEnrollmentRecord {
    AgentEnrollmentRecord {
        token_id: request.token_id,
        token_request_id: request.token_request_id,
        enrollment_id: request.enrollment_id,
        tenant_id: request.tenant_id,
        edge_cluster_id: request.edge_cluster_id,
        storage_volume_id: request.storage_volume_id,
        volume_descriptor_digest: request.volume_descriptor_digest,
        pvc_identity_digest: request.pvc_identity_digest,
        reserved_agent_id: request.agent_id,
        reserved_agent_mount_id: request.agent_mount_id,
        bootstrap_token_digest: request.bootstrap_token_digest,
        state: AgentEnrollmentState::TokenIssued,
        created_at_unix_ms: request.created_at_unix_ms,
        expires_at_unix_ms: request.expires_at_unix_ms,
        bootstrapped_at_unix_ms: None,
        bootstrap_request_id: None,
        review_expires_at_unix_ms: None,
        decided_at_unix_ms: None,
        decided_by: None,
        decision_request: None,
        replaces_enrollment_id,
        replaced_by_enrollment_id: None,
        extensions: request.extensions,
    }
}

/// The mount that a token request reserves.
pub open spec fn intent_mount(
    request: AgentEnrollmentTokenCreateRequest,
    mount_generation: MountGeneration,
) -> AgentMountRecord {
    AgentMountRecord {
        agent_mount_id: request.agent_mount_id,
        storage_volume_id: request.storage_volume_id,
        mount_generation,
        expected_volume_marker: request.expected_volume_marker,
        desired_access_mode: request.desired_access_mode,
        mount_identity_digest: None,
        observed_volume_marker: None,
        observed_access_mode: None,
        reported_health: None,
        health: ResourceHealth::Unknown,
        observed_at_unix_ms: None,
    }
}

/// The owner slot that a token request opens.
pub open spec fn intent_owner(
    request: AgentEnrollmentTokenCreateRequest,
    owner_generation: OwnerGeneration,
) -> VolumeOwnerRecord {
    VolumeOwnerRecord {
        tenant_id: request.tenant_id,
        storage_volume_id: request.storage_volume_id,
        active_agent_id: None,
        active_agent_mount_id: None,
        owner_generation,
        state: VolumeOwnerState::Inactive,
    }
}

/// The first record of an enrollment, at version one, with its issuance on the audit.
pub open spec fn is_token_intent(
    record: AgentRegistryRecord,
    request: AgentEnrollmentTokenCreateRequest,
    replaces_enrollment_id: Option<AgentEnrollmentId>,
    mount_generation: MountGeneration,
    owner_generation: OwnerGeneration,
) -> bool {
    let metadata = record.storage_enrollment;
    &&& record.resource_version == 1
    &&& record.enrollment == intent_enrollment(request, replaces_enrollment_id)
    &&& record.candidate is None
    &&& record.instance is None
    &&& record.mount == intent_mount(request, mount_generation)
    &&& record.owner == intent_owner(request, owner_generation)
    &&& record.decision_audit_event is None
    &&& metadata.record_format is CurrentV3
    &&& metadata.registration_kind == Some(
        if replaces_enrollment_id is Some {
            StorageEnrollmentRegistrationKind::Replacement
        } else {
            StorageEnrollmentRegistrationKind::Initial
        },
    )
    &&& metadata.state is None
    &&& metadata.updated_at_unix_ms == Some(request.created_at_unix_ms)
    &&& metadata.lifecycle_audit_events@.len() == 1
    &&& is_lifecycle_event(
        metadata.lifecycle_audit_events@[0],
        record.enrollment,
        1,
        AgentEnrollmentLifecycleAuditKind::TokenIssued,
        request.created_at_unix_ms,
        None,
    )
}

/// The public fields that a token intent was issued with.
pub open spec fn intent_metadata_is(
    record: AgentRegistryRecord,
    metadata: Option<StorageIntentMetadata>,
) -> bool {
    match metadata {
        None => record.storage_enrollment.descriptor is None
            && record.storage_enrollment.token_key_id is None,
        Some(metadata) => {
            &&& record.storage_enrollment.descriptor == Some(metadata.descriptor)
            &&& record.storage_enrollment.token_key_id matches Some(key_id) && key_id@
                == metadata.token.key_id@
        },
    }
}

pub(crate) fn token_intent_record(
    request: AgentEnrollmentTokenCreateRequest,
    replaces_enrollment_id: Option<AgentEnrollmentId>,
    mount_generation: MountGeneration,
    owner_generation: OwnerGeneration,
) -> (record: AgentRegistryRecord)
    ensures
        is_token_intent(
            record,
            request,
            replaces_enrollment_id,
            mount_generation,
            owner_generation,
        ),
        intent_metadata_is(record, None),
{
    let registration_kind = if replaces_enrollment_id.is_some() {
        StorageEnrollmentRegistrationKind::Replacement
    } else {
        StorageEnrollmentRegistrationKind::Initial
    };
    let created_at_unix_ms: UnixMillis = request.created_at_unix_ms;
    let mut record = AgentRegistryRecord {
        resource_version: 1,
        enrollment: AgentEnrollmentRecord {
            token_id: request.token_id,
            token_request_id: request.token_request_id,
            enrollment_id: request.enrollment_id,
            tenant_id: request.tenant_id.clone(),
            edge_cluster_id: request.edge_cluster_id,
            storage_volume_id: request.storage_volume_id.clone(),
            volume_descriptor_digest: request.volume_descriptor_digest,
            pvc_identity_digest: request.pvc_identity_digest,
            reserved_agent_id: request.agent_id,
            reserved_agent_mount_id: request.agent_mount_id.clone(),
            bootstrap_token_digest: request.bootstrap_token_digest,
            state: AgentEnrollmentState::TokenIssued,
            created_at_unix_ms,
            expires_at_unix_ms: request.expires_at_unix_ms,
            bootstrapped_at_unix_ms: None,
            bootstrap_request_id: None,
            review_expires_at_unix_ms: None,
            decided_at_unix_ms: None,
            decided_by: None,
            decision_request: None,
            replaces_enrollment_id,
            replaced_by_enrollment_id: None,
            extensions: request.extensions,
        },
        candidate: None,
        instance: None,
        mount: AgentMountRecord {
            agent_mount_id: request.agent_mount_id,
            storage_volume_id: request.storage_volume_id.clone(),
            mount_generation,
            expected_volume_marker: request.expected_volume_marker,
            desired_access_mode: request.desired_access_mode,
            mount_identity_digest: None,
            observed_volume_marker: None,
            observed_access_mode: None,
            reported_health: None,
            health: ResourceHealth::Unknown,
            observed_at_unix_ms: None,
        },
        owner: VolumeOwnerRecord {
            tenant_id: request.tenant_id,
            storage_volume_id: request.storage_volume_id,
            active_agent_id: None,
            active_agent_mount_id: None,
            owner_generation,
            state: VolumeOwnerState::Inactive,
        },
        decision_audit_event: None,
        storage_enrollment: StorageEnrollmentMetadata {
            record_format: AgentRegistryRecordFormat::CurrentV3,
            descriptor: None,
            token_key_id: None,
            registration_kind: Some(registration_kind),
            state: None,
            updated_at_unix_ms: Some(created_at_unix_ms),
            lifecycle_audit_events: Vec::new(),
        },
    };
    append_lifecycle_event(
        &mut record,
        AgentEnrollmentLifecycleAuditKind::TokenIssued,
        created_at_unix_ms,
        None,
    );
    record
}

/// The stored intent was issued for exactly this request.
pub open spec fn intent_is_for_request(
    record: AgentRegistryRecord,
    request: AgentEnrollmentTokenCreateRequest,
) -> bool {
    &&& record.enrollment.token_id@ == request.token_id@
    &&& record.enrollment.enrollment_id@ == request.enrollment_id@
    &&& record.enrollment.reserved_agent_id@ == request.agent_id@
    &&& record.enrollment.reserved_agent_mount_id@ == request.agent_mount_id@
    &&& record.enrollment.bootstrap_token_digest == request.bootstrap_token_digest
    &&& record.enrollment.created_at_unix_ms == request.created_at_unix_ms
    &&& record.enrollment.expires_at_unix_ms == request.expires_at_unix_ms
    &&& record.enrollment.extensions@ == request.extensions@
    &&& intent_has_request_scope(record, request)
}

/// The stored intent has the request identity and the Volume scope of this request.
pub open spec fn intent_has_request_scope(
    record: AgentRegistryRecord,
    request: AgentEnrollmentTokenCreateRequest,
) -> bool {
    &&& record.enrollment.token_request_id@ == request.token_request_id@
    &&& record.enrollment.tenant_id@ == request.tenant_id@
    &&& record.enrollment.edge_cluster_id@ == request.edge_cluster_id@
    &&& record.enrollment.storage_volume_id@ == request.storage_volume_id@
    &&& record.enrollment.volume_descriptor_digest == request.volume_descriptor_digest
    &&& record.enrollment.pvc_identity_digest == request.pvc_identity_digest
    &&& record.mount.expected_volume_marker@ == request.expected_volume_marker@
    &&& record.mount.desired_access_mode == request.desired_access_mode
}

/// Two intents with the same request identity and Volume scope.
pub open spec fn intents_have_same_scope(
    left: AgentRegistryRecord,
    right: AgentRegistryRecord,
) -> bool {
    &&& left.enrollment.token_request_id@ == right.enrollment.token_request_id@
    &&& left.enrollment.tenant_id@ == right.enrollment.tenant_id@
    &&& left.enrollment.edge_cluster_id@ == right.enrollment.edge_cluster_id@
    &&& left.enrollment.storage_volume_id@ == right.enrollment.storage_volume_id@
    &&& left.enrollment.volume_descriptor_digest == right.enrollment.volume_descriptor_digest
    &&& left.enrollment.pvc_identity_digest == right.enrollment.pvc_identity_digest
    &&& left.mount.expected_volume_marker@ == right.mount.expected_volume_marker@
    &&& left.mount.desired_access_mode == right.mount.desired_access_mode
}

/// The frozen descriptor of a record is present and equal.
pub open spec fn has_descriptor(
    record: AgentRegistryRecord,
    descriptor: FrozenStorageDescriptor,
) -> bool {
    record.storage_enrollment.descriptor matches Some(stored) && stored.same(descriptor)
}

fn descriptor_holds(record: &AgentRegistryRecord, descriptor: &FrozenStorageDescriptor) -> (holds:
    bool)
    ensures
        holds == has_descriptor(*record, *descriptor),
{
    match &record.storage_enrollment.descriptor {
        Some(stored) => *stored == *descriptor,
        None => false,
    }
}

fn request_scope_holds(
    record: &AgentRegistryRecord,
    request: &AgentEnrollmentTokenCreateRequest,
) -> (holds: bool)
    ensures
        holds == intent_has_request_scope(*record, *request),
{
    record.enrollment.token_request_id == request.token_request_id && record.enrollment.tenant_id
        == request.tenant_id && record.enrollment.edge_cluster_id == request.edge_cluster_id
        && record.enrollment.storage_volume_id == request.storage_volume_id
        && record.enrollment.volume_descriptor_digest == request.volume_descriptor_digest
        && record.enrollment.pvc_identity_digest == request.pvc_identity_digest
        && record.mount.expected_volume_marker == request.expected_volume_marker
        && record.mount.desired_access_mode == request.desired_access_mode
}

pub(crate) fn token_intent_matches_request(
    record: &AgentRegistryRecord,
    request: &AgentEnrollmentTokenCreateRequest,
) -> (matches: bool)
    ensures
        matches == intent_is_for_request(*record, *request),
{
    record.enrollment.token_id == request.token_id && record.enrollment.enrollment_id
        == request.enrollment_id && record.enrollment.reserved_agent_id == request.agent_id
        && record.enrollment.reserved_agent_mount_id == request.agent_mount_id
        && record.enrollment.bootstrap_token_digest == request.bootstrap_token_digest
        && record.enrollment.created_at_unix_ms == request.created_at_unix_ms
        && record.enrollment.expires_at_unix_ms == request.expires_at_unix_ms
        && record.enrollment.extensions == request.extensions && request_scope_holds(
        record,
        request,
    )
}

pub(crate) fn storage_intent_matches_request(
    record: &AgentRegistryRecord,
    request: &AgentEnrollmentTokenCreateRequest,
    descriptor: &FrozenStorageDescriptor,
) -> (matches: bool)
    ensures
        matches == (intent_has_request_scope(*record, *request) && has_descriptor(
            *record,
            *descriptor,
        )),
{
    request_scope_holds(record, request) && descriptor_holds(record, descriptor)
}

pub(crate) fn storage_intent_matches_record(
    existing: &AgentRegistryRecord,
    candidate: &AgentRegistryRecord,
    descriptor: &FrozenStorageDescriptor,
) -> (matches: bool)
    ensures
        matches == (intents_have_same_scope(*existing, *candidate) && has_descriptor(
            *existing,
            *descriptor,
        )),
{
    existing.enrollment.token_request_id == candidate.enrollment.token_request_id
        && existing.enrollment.tenant_id == candidate.enrollment.tenant_id
        && existing.enrollment.edge_cluster_id == candidate.enrollment.edge_cluster_id
        && existing.enrollment.storage_volume_id == candidate.enrollment.storage_volume_id
        && existing.enrollment.volume_descriptor_digest
        == candidate.enrollment.volume_descriptor_digest && existing.enrollment.pvc_identity_digest
        == candidate.enrollment.pvc_identity_digest && existing.mount.expected_volume_marker
        == candidate.mount.expected_volume_marker && existing.mount.desired_access_mode
        == candidate.mount.desired_access_mode && descriptor_holds(existing, descriptor)
}

/// Whether a request that comes again may be answered with the stored record.
pub open spec fn token_request_is_replay(
    existing: AgentRegistryRecord,
    request: AgentEnrollmentTokenCreateRequest,
    metadata: Option<StorageIntentMetadata>,
) -> bool {
    match metadata {
        None => intent_is_for_request(existing, request),
        Some(metadata) => intent_has_request_scope(existing, request) && has_descriptor(
            existing,
            metadata.descriptor,
        ),
    }
}

/// Answers a token request whose identity is already stored.
pub fn replay_token_intent(
    existing: AgentRegistryRecord,
    request: &AgentEnrollmentTokenCreateRequest,
    metadata: &Option<StorageIntentMetadata>,
) -> (result: CentralResult<CreateAgentEnrollmentTokenResult>)
    ensures
        match result {
            Ok(created) => {
                &&& token_request_is_replay(existing, *request, *metadata)
                &&& created.record == existing
                &&& created.replayed
            },
            Err(failure) => {
                &&& !token_request_is_replay(existing, *request, *metadata)
                &&& failure@ == final_fault(
                    CentralErrorCode::EnrollmentIdReused,
                    "token request identity was reused with another enrollment intent"@,
                )
            },
        },
{
    let matches = match metadata {
        None => token_intent_matches_request(&existing, request),
        Some(metadata) => storage_intent_matches_request(&existing, request, &metadata.descriptor),
    };
    if matches {
        Ok(CreateAgentEnrollmentTokenResult { record: existing, replayed: true })
    } else {
        Err(
            final_failure(
                CentralErrorCode::EnrollmentIdReused,
                "token request identity was reused with another enrollment intent",
            ),
        )
    }
}

/// The current owner of the Volume was enrolled with what the request asks for.
pub open spec fn current_owner_agrees(
    current: AgentRegistryRecord,
    request: AgentEnrollmentTokenCreateRequest,
    metadata: Option<StorageIntentMetadata>,
) -> bool {
    &&& current.enrollment.edge_cluster_id@ == request.edge_cluster_id@
    &&& current.enrollment.volume_descriptor_digest == request.volume_descriptor_digest
    &&& current.enrollment.pvc_identity_digest == request.pvc_identity_digest
    &&& current.mount.expected_volume_marker@ == request.expected_volume_marker@
    &&& current.mount.desired_access_mode == request.desired_access_mode
    &&& metadata matches Some(metadata)
        ==> current.storage_enrollment.record_format is LegacyV2 || has_descriptor(
        current,
        metadata.descriptor,
    )
}

/// Why a token intent cannot be issued, given what is bound to the PVC and who owns the Volume.
pub open spec fn token_intent_fault(
    request: AgentEnrollmentTokenCreateRequest,
    metadata: Option<StorageIntentMetadata>,
    binding: Option<PvcVolumeBinding>,
    current: Option<AgentRegistryRecord>,
) -> Option<Fault> {
    if binding matches Some(binding) && (binding.tenant_id@ != request.tenant_id@
        || binding.edge_cluster_id@ != request.edge_cluster_id@ || binding.storage_volume_id@
        != request.storage_volume_id@) {
        Some(
            final_fault(
                CentralErrorCode::VolumeOwnerConflict,
                "PVC identity is already bound to another StorageVolume"@,
            ),
        )
    } else if current matches Some(current) && !current_owner_agrees(current, request, metadata) {
        Some(
            final_fault(
                CentralErrorCode::AgentIdentityMismatch,
                "replacement token intent differs from the active Volume descriptor"@,
            ),
        )
    } else if current matches Some(current) && (current.enrollment.reserved_agent_id@
        == request.agent_id@ || current.enrollment.reserved_agent_mount_id@
        == request.agent_mount_id@) {
        Some(
            final_fault(
                CentralErrorCode::AgentIdentityMismatch,
                "replacement token intent must reserve new Agent and mount identities"@,
            ),
        )
    } else {
        None
    }
}

/// Decides on a fresh token request and builds the record to insert.
///
/// `binding` is what the request's PVC identity is bound to and `current` the approved owner of
/// the request's Volume, both read after stale intents were expired.
pub fn plan_token_intent(
    request: AgentEnrollmentTokenCreateRequest,
    metadata: &Option<StorageIntentMetadata>,
    binding: &Option<PvcVolumeBinding>,
    current: &Option<AgentRegistryRecord>,
) -> (result: CentralResult<AgentRegistryRecord>)
    ensures
        fault_of(result) == token_intent_fault(request, *metadata, *binding, *current),
        result matches Ok(record) ==> is_token_intent(
            record,
            request,
            match *current {
                Some(current) => Some(current.enrollment.enrollment_id),
                None => None,
            },
            match *current {
                Some(current) => current.mount.mount_generation,
                None => 1,
            },
            match *current {
                Some(current) => current.owner.owner_generation,
                None => 1,
            },
        ) && intent_metadata_is(record, *metadata),
{
    if let Some(binding) = binding {
        if binding.tenant_id != request.tenant_id || binding.edge_cluster_id
            != request.edge_cluster_id || binding.storage_volume_id != request.storage_volume_id {
            return Err(
                final_failure(
                    CentralErrorCode::VolumeOwnerConflict,
                    "PVC identity is already bound to another StorageVolume",
                ),
            );
        }
    }
    let mut replaces_enrollment_id: Option<AgentEnrollmentId> = None;
    let mut mount_generation: MountGeneration = 1;
    let mut owner_generation: OwnerGeneration = 1;
    if let Some(current) = current {
        let descriptor_agrees = match metadata {
            Some(metadata) => current.storage_enrollment.record_format
                == AgentRegistryRecordFormat::LegacyV2 || descriptor_holds(
                current,
                &metadata.descriptor,
            ),
            None => true,
        };
        if current.enrollment.edge_cluster_id != request.edge_cluster_id
            || current.enrollment.volume_descriptor_digest != request.volume_descriptor_digest
            || current.enrollment.pvc_identity_digest != request.pvc_identity_digest
            || current.mount.expected_volume_marker != request.expected_volume_marker
            || current.mount.desired_access_mode != request.desired_access_mode
            || !descriptor_agrees {
            return Err(
                final_failure(
                    CentralErrorCode::AgentIdentityMismatch,
                    "replacement token intent differs from the active Volume descriptor",
                ),
            );
        }
        if current.enrollment.reserved_agent_id == request.agent_id
            || current.enrollment.reserved_agent_mount_id == request.agent_mount_id {
            return Err(
                final_failure(
                    CentralErrorCode::AgentIdentityMismatch,
                    "replacement token intent must reserve new Agent and mount identities",
                ),
            );
        }
        replaces_enrollment_id = Some(current.enrollment.enrollment_id.clone());
        mount_generation = current.mount.mount_generation;
        owner_generation = current.owner.owner_generation;
    }
    let mut record = token_intent_record(
        request,
        replaces_enrollment_id,
        mount_generation,
        owner_generation,
    );
    if let Some(metadata) = metadata {
        record.storage_enrollment.descriptor = Some(metadata.descriptor.clone());
        let key_id: OpaqueText = Identifier::new(metadata.token.key_id.clone());
        record.storage_enrollment.token_key_id = Some(key_id);
    }
    Ok(record)
}

/// Whether a record that was already stored answers the intent that was to be inserted.
pub open spec fn stored_intent_answers(
    existing: AgentRegistryRecord,
    record: AgentRegistryRecord,
    metadata: Option<StorageIntentMetadata>,
) -> bool {
    match metadata {
        None => existing.same(record),
        Some(metadata) => intents_have_same_scope(existing, record) && has_descriptor(
            existing,
            metadata.descriptor,
        ),
    }
}

/// Turns the outcome of the insertion into the answer to the token request.
pub fn resolve_token_insert(
    outcome: AgentRegistryInsertOutcome,
    record: &AgentRegistryRecord,
    metadata: &Option<StorageIntentMetadata>,
) -> (result: CentralResult<CreateAgentEnrollmentTokenResult>)
    ensures
        match (outcome, result) {
            (AgentRegistryInsertOutcome::Inserted(inserted), Ok(created)) => created.record
                == inserted && !created.replayed,
            (AgentRegistryInsertOutcome::Existing(existing), Ok(created)) => {
                &&& stored_intent_answers(existing, *record, *metadata)
                &&& created.record == existing
                &&& created.replayed
            },
            (AgentRegistryInsertOutcome::Inserted(_), Err(_)) => false,
            (AgentRegistryInsertOutcome::Existing(existing), Err(failure)) => {
                &&& !stored_intent_answers(existing, *record, *metadata)
                &&& failure@ == final_fault(
                    CentralErrorCode::EnrollmentIdReused,
                    "enrollment ID already belongs to another one-Volume request"@,
                )
            },
        },
{
    match outcome {
        AgentRegistryInsertOutcome::Inserted(record) => Ok(
            CreateAgentEnrollmentTokenResult { record, replayed: false },
        ),
        AgentRegistryInsertOutcome::Existing(existing) => {
            let matches = match metadata {
                None => existing == *record,
                Some(metadata) => storage_intent_matches_record(
                    &existing,
                    record,
                    &metadata.descriptor,
                ),
            };
            if matches {
                Ok(CreateAgentEnrollmentTokenResult { record: existing, replayed: true })
            } else {
                Err(
                    final_failure(
                        CentralErrorCode::EnrollmentIdReused,
                        "enrollment ID already belongs to another one-Volume request",
                    ),
                )
            }
        },
    }
}

} // verus!
