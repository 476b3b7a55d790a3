//! What `==` means for the records of the registry, the catalog and the gateways: every field counts.
use vstd::prelude::*;

use crate::agent_registry::records::{
    AgentBootstrapProbe, AgentCandidateRecord, AgentCredentialEvidence,
    AgentEnrollmentApprovalRequest, AgentEnrollmentAuditEvent, AgentEnrollmentLifecycleAuditEvent,
    AgentEnrollmentRecord, AgentInstanceRecord, AgentMountRecord, AgentRegistryRecord,
    BootstrapTokenMetadata, Ed25519PublicKeySpki, FrozenPvcReference, FrozenStorageDescriptor,
    StorageEnrollmentMetadata, VolumeOwnerRecord,
};
use crate::catalog::records::{
    ArtifactInitialization, ArtifactRecord, CatalogNfsReference, CatalogPvcReference,
    PlaygroundRecord, SnapshotRecord, StorageVolumeRecord, TenantRecord,
};
use crate::equality::Same;
use crate::gateway::{
    AgentRouteLease, GatewayCredential, GatewayCredentialState, GatewayPoolRecord, GatewayPoolState,
    GatewayReplicaRecord, GatewayReplicaState,
};

verus! {

/// Two values are equal exactly where they agree in every field.
pub proof fn lemma_equal_agent_bootstrap_probe(
    left: &AgentBootstrapProbe,
    right: &AgentBootstrapProbe,
    equal: bool,
)
    requires
        call_ensures(AgentBootstrapProbe::eq, (left, right), equal),
    ensures
        equal <==> {
            &&& left.mount_identity_digest == right.mount_identity_digest
            &&& match (left.observed_volume_marker, right.observed_volume_marker) {
                (None, None) => true,
                (Some(left), Some(right)) => left@ == right@,
                _ => false,
            }
            &&& left.marker_matches == right.marker_matches
            &&& left.mount_boundary_detected == right.mount_boundary_detected
            &&& left.access_mode == right.access_mode
            &&& left.rename_supported == right.rename_supported
            &&& left.fsync_supported == right.fsync_supported
            &&& left.health == right.health
        },
{
}

/// Two values are equal exactly where they agree in every field.
pub proof fn lemma_equal_agent_candidate_record(
    left: &AgentCandidateRecord,
    right: &AgentCandidateRecord,
    equal: bool,
)
    requires
        call_ensures(AgentCandidateRecord::eq, (left, right), equal),
    ensures
        equal <==> {
            &&& left.bootstrap_request_id@ == right.bootstrap_request_id@
            &&& left.installation_id@ == right.installation_id@
            &&& left.public_key_fingerprint == right.public_key_fingerprint
            &&& left.bootstrap_signed_payload_digest == right.bootstrap_signed_payload_digest
            &&& left.mount_identity_digest == right.mount_identity_digest
            &&& left.agent_version@ == right.agent_version@
            &&& left.supported_protocol_versions@ == right.supported_protocol_versions@
            &&& left.capabilities@.len() == right.capabilities@.len()
            &&& forall|i: int|
                0 <= i < left.capabilities@.len()
                    ==> (#[trigger] left.capabilities@[i])@ == right.capabilities@[i]@
            &&& left.probe.same(right.probe)
            &&& match (left.credential_evidence, right.credential_evidence) {
                (None, None) => true,
                (Some(left), Some(right)) => left.same(right),
                _ => false,
            }
            &&& left.proof_of_possession_status == right.proof_of_possession_status
        },
{
}

/// Two values are equal exactly where they agree in every field.
pub proof fn lemma_equal_agent_credential_evidence(
    left: &AgentCredentialEvidence,
    right: &AgentCredentialEvidence,
    equal: bool,
)
    requires
        call_ensures(AgentCredentialEvidence::eq, (left, right), equal),
    ensures
        equal <==> {
            &&& left.algorithm == right.algorithm
            &&& left.public_key_spki.same(right.public_key_spki)
            &&& left.proof_of_possession@ == right.proof_of_possession@
        },
{
}

/// Two values are equal exactly where they agree in every field.
pub proof fn lemma_equal_agent_enrollment_approval_request(
    left: &AgentEnrollmentApprovalRequest,
    right: &AgentEnrollmentApprovalRequest,
    equal: bool,
)
    requires
        call_ensures(AgentEnrollmentApprovalRequest::eq, (left, right), equal),
    ensures
        equal <==> {
            &&& left.decision_request_id@ == right.decision_request_id@
            &&& left.enrollment_id@ == right.enrollment_id@
            &&& left.decision == right.decision
            &&& left.expected_resource_version == right.expected_resource_version
            &&& left.confirm_replacement == right.confirm_replacement
            &&& left.extensions@ == right.extensions@
        },
{
}

/// Two values are equal exactly where they agree in every field.
pub proof fn lemma_equal_agent_enrollment_audit_event(
    left: &AgentEnrollmentAuditEvent,
    right: &AgentEnrollmentAuditEvent,
    equal: bool,
)
    requires
        call_ensures(AgentEnrollmentAuditEvent::eq, (left, right), equal),
    ensures
        equal <==> {
            &&& left.event_id@ == right.event_id@
            &&& left.kind == right.kind
            &&& left.tenant_id@ == right.tenant_id@
            &&& left.enrollment_id@ == right.enrollment_id@
            &&& left.storage_volume_id@ == right.storage_volume_id@
            &&& left.decision_request_id@ == right.decision_request_id@
            &&& left.resource_version == right.resource_version
            &&& left.actor@ == right.actor@
            &&& left.occurred_at_unix_ms == right.occurred_at_unix_ms
        },
{
}

/// Two values are equal exactly where they agree in every field.
pub proof fn lemma_equal_agent_enrollment_lifecycle_audit_event(
    left: &AgentEnrollmentLifecycleAuditEvent,
    right: &AgentEnrollmentLifecycleAuditEvent,
    equal: bool,
)
    requires
        call_ensures(AgentEnrollmentLifecycleAuditEvent::eq, (left, right), equal),
    ensures
        equal <==> {
            &&& left.event_id@ == right.event_id@
            &&& left.kind == right.kind
            &&& left.tenant_id@ == right.tenant_id@
            &&& left.enrollment_id@ == right.enrollment_id@
            &&& left.resource_version == right.resource_version
            &&& left.occurred_at_unix_ms == right.occurred_at_unix_ms
            &&& match (left.rejection_reason, right.rejection_reason) {
                (None, None) => true,
                (Some(left), Some(right)) => left@ == right@,
                _ => false,
            }
        },
{
}

/// Two values are equal exactly where they agree in every field.
pub proof fn lemma_equal_agent_enrollment_record(
    left: &AgentEnrollmentRecord,
    right: &AgentEnrollmentRecord,
    equal: bool,
)
    requires
        call_ensures(AgentEnrollmentRecord::eq, (left, right), equal),
    ensures
        equal <==> {
            &&& left.token_id@ == right.token_id@
            &&& left.token_request_id@ == right.token_request_id@
            &&& left.enrollment_id@ == right.enrollment_id@
            &&& left.tenant_id@ == right.tenant_id@
            &&& left.edge_cluster_id@ == right.edge_cluster_id@
            &&& left.storage_volume_id@ == right.storage_volume_id@
            &&& left.volume_descriptor_digest == right.volume_descriptor_digest
            &&& left.pvc_identity_digest == right.pvc_identity_digest
            &&& left.reserved_agent_id@ == right.reserved_agent_id@
            &&& left.reserved_agent_mount_id@ == right.reserved_agent_mount_id@
            &&& left.bootstrap_token_digest == right.bootstrap_token_digest
            &&& left.state == right.state
            &&& left.created_at_unix_ms == right.created_at_unix_ms
            &&& left.expires_at_unix_ms == right.expires_at_unix_ms
            &&& left.bootstrapped_at_unix_ms == right.bootstrapped_at_unix_ms
            &&& match (left.bootstrap_request_id, right.bootstrap_request_id) {
                (None, None) => true,
                (Some(left), Some(right)) => left@ == right@,
                _ => false,
            }
            &&& left.review_expires_at_unix_ms == right.review_expires_at_unix_ms
            &&& left.decided_at_unix_ms == right.decided_at_unix_ms
            &&& match (left.decided_by, right.decided_by) {
                (None, None) => true,
                (Some(left), Some(right)) => left@ == right@,
                _ => false,
            }
            &&& match (left.decision_request, right.decision_request) {
                (None, None) => true,
                (Some(left), Some(right)) => left.same(right),
                _ => false,
            }
            &&& match (left.replaces_enrollment_id, right.replaces_enrollment_id) {
                (None, None) => true,
                (Some(left), Some(right)) => left@ == right@,
                _ => false,
            }
            &&& match (left.replaced_by_enrollment_id, right.replaced_by_enrollment_id) {
                (None, None) => true,
                (Some(left), Some(right)) => left@ == right@,
                _ => false,
            }
            &&& left.extensions@ == right.extensions@
        },
{
}

/// Two values are equal exactly where they agree in every field.
pub proof fn lemma_equal_agent_instance_record(
    left: &AgentInstanceRecord,
    right: &AgentInstanceRecord,
    equal: bool,
)
    requires
        call_ensures(AgentInstanceRecord::eq, (left, right), equal),
    ensures
        equal <==> {
            &&& left.agent_id@ == right.agent_id@
            &&& left.installation_id@ == right.installation_id@
            &&& left.public_key_fingerprint == right.public_key_fingerprint
            &&& left.agent_version@ == right.agent_version@
            &&& left.supported_protocol_versions@ == right.supported_protocol_versions@
            &&& left.capabilities@.len() == right.capabilities@.len()
            &&& forall|i: int|
                0 <= i < left.capabilities@.len()
                    ==> (#[trigger] left.capabilities@[i])@ == right.capabilities@[i]@
            &&& left.state == right.state
            &&& left.session_generation == right.session_generation
            &&& match (left.active_boot_id, right.active_boot_id) {
                (None, None) => true,
                (Some(left), Some(right)) => left@ == right@,
                _ => false,
            }
            &&& match (left.active_session_id, right.active_session_id) {
                (None, None) => true,
                (Some(left), Some(right)) => left@ == right@,
                _ => false,
            }
            &&& left.session_open_expected_resource_version == right.session_open_expected_resource_version
            &&& left.session_opened_at_unix_ms == right.session_opened_at_unix_ms
            &&& left.last_heartbeat_at_unix_ms == right.last_heartbeat_at_unix_ms
            &&& left.last_sequence == right.last_sequence
        },
{
}

/// Two values are equal exactly where they agree in every field.
pub proof fn lemma_equal_agent_mount_record(
    left: &AgentMountRecord,
    right: &AgentMountRecord,
    equal: bool,
)
    requires
        call_ensures(AgentMountRecord::eq, (left, right), equal),
    ensures
        equal <==> {
            &&& left.agent_mount_id@ == right.agent_mount_id@
            &&& left.storage_volume_id@ == right.storage_volume_id@
            &&& left.mount_generation == right.mount_generation
            &&& left.expected_volume_marker@ == right.expected_volume_marker@
            &&& left.desired_access_mode == right.desired_access_mode
            &&& left.mount_identity_digest == right.mount_identity_digest
            &&& match (left.observed_volume_marker, right.observed_volume_marker) {
                (None, None) => true,
                (Some(left), Some(right)) => left@ == right@,
                _ => false,
            }
            &&& left.observed_access_mode == right.observed_access_mode
            &&& left.reported_health == right.reported_health
            &&& left.health == right.health
            &&& left.observed_at_unix_ms == right.observed_at_unix_ms
        },
{
}

/// Two values are equal exactly where they agree in every field.
pub proof fn lemma_equal_agent_registry_record(
    left: &AgentRegistryRecord,
    right: &AgentRegistryRecord,
    equal: bool,
)
    requires
        call_ensures(AgentRegistryRecord::eq, (left, right), equal),
    ensures
        equal <==> {
            &&& left.resource_version == right.resource_version
            &&& left.enrollment.same(right.enrollment)
            &&& match (left.candidate, right.candidate) {
                (None, None) => true,
                (Some(left), Some(right)) => left.same(right),
                _ => false,
            }
            &&& match (left.instance, right.instance) {
                (None, None) => true,
                (Some(left), Some(right)) => left.same(right),
                _ => false,
            }
            &&& left.mount.same(right.mount)
            &&& left.owner.same(right.owner)
            &&& match (left.decision_audit_event, right.decision_audit_event) {
                (None, None) => true,
                (Some(left), Some(right)) => left.same(right),
                _ => false,
            }
            &&& left.storage_enrollment.same(right.storage_enrollment)
        },
{
}

/// Two values are equal exactly where they agree in every field.
pub proof fn lemma_equal_agent_route_lease(
    left: &AgentRouteLease,
    right: &AgentRouteLease,
    equal: bool,
)
    requires
        call_ensures(AgentRouteLease::eq, (left, right), equal),
    ensures
        equal <==> {
            &&& left.agent_id@ == right.agent_id@
            &&& left.edge_cluster_id@ == right.edge_cluster_id@
            &&& left.gateway_pool_id@ == right.gateway_pool_id@
            &&& left.gateway_replica_id@ == right.gateway_replica_id@
            &&& left.connection_id@ == right.connection_id@
            &&& left.session_generation == right.session_generation
            &&& left.acquire_request_id@ == right.acquire_request_id@
            &&& match (left.last_renew_request_id, right.last_renew_request_id) {
                (None, None) => true,
                (Some(left), Some(right)) => left@ == right@,
                _ => false,
            }
            &&& match (left.release_request_id, right.release_request_id) {
                (None, None) => true,
                (Some(left), Some(right)) => left@ == right@,
                _ => false,
            }
            &&& left.detail@ == right.detail@
        },
{
}

/// Two values are equal exactly where they agree in kind and content.
pub proof fn lemma_equal_artifact_initialization(
    left: &ArtifactInitialization,
    right: &ArtifactInitialization,
    equal: bool,
)
    requires
        call_ensures(ArtifactInitialization::eq, (left, right), equal),
    ensures
        equal <==> match (*left, *right) {
            (ArtifactInitialization::Empty, ArtifactInitialization::Empty) => true,
            (
                ArtifactInitialization::Derived { source_project_id, source_artifact_id, source_commit_id },
                ArtifactInitialization::Derived { source_project_id: other_source_project_id, source_artifact_id: other_source_artifact_id, source_commit_id: other_source_commit_id },
            ) => {
                &&& (source_project_id@ == other_source_project_id@)
                &&& (source_artifact_id@ == other_source_artifact_id@)
                &&& (source_commit_id == other_source_commit_id)
            },
            _ => false,
        },
{
}

/// Two values are equal exactly where they agree in every field.
pub proof fn lemma_equal_artifact_record(left: &ArtifactRecord, right: &ArtifactRecord, equal: bool)
    requires
        call_ensures(ArtifactRecord::eq, (left, right), equal),
    ensures
        equal <==> {
            &&& left.tenant_id@ == right.tenant_id@
            &&& left.project_id@ == right.project_id@
            &&& left.artifact_id@ == right.artifact_id@
            &&& left.display_name@ == right.display_name@
            &&& match (left.description, right.description) {
                (None, None) => true,
                (Some(left), Some(right)) => left@ == right@,
                _ => false,
            }
            &&& left.initialization.same(right.initialization)
            &&& left.head_commit_id == right.head_commit_id
            &&& left.resource_version == right.resource_version
            &&& left.created_at_unix_ms == right.created_at_unix_ms
            &&& left.updated_at_unix_ms == right.updated_at_unix_ms
        },
{
}

/// Two values are equal exactly where they agree in every field.
pub proof fn lemma_equal_bootstrap_token_metadata(
    left: &BootstrapTokenMetadata,
    right: &BootstrapTokenMetadata,
    equal: bool,
)
    requires
        call_ensures(BootstrapTokenMetadata::eq, (left, right), equal),
    ensures
        equal <==> {
            &&& left.key_id@ == right.key_id@
        },
{
}

/// Two values are equal exactly where they agree in every field.
pub proof fn lemma_equal_catalog_nfs_reference(
    left: &CatalogNfsReference,
    right: &CatalogNfsReference,
    equal: bool,
)
    requires
        call_ensures(CatalogNfsReference::eq, (left, right), equal),
    ensures
        equal <==> {
            &&& left.server@ == right.server@
            &&& left.export_path@ == right.export_path@
        },
{
}

/// Two values are equal exactly where they agree in every field.
pub proof fn lemma_equal_catalog_pvc_reference(
    left: &CatalogPvcReference,
    right: &CatalogPvcReference,
    equal: bool,
)
    requires
        call_ensures(CatalogPvcReference::eq, (left, right), equal),
    ensures
        equal <==> {
            &&& left.namespace@ == right.namespace@
            &&& left.claim_name@ == right.claim_name@
        },
{
}

/// Two values are equal exactly where they agree in every field.
pub proof fn lemma_equal_ed25519_public_key_spki(
    left: &Ed25519PublicKeySpki,
    right: &Ed25519PublicKeySpki,
    equal: bool,
)
    requires
        call_ensures(Ed25519PublicKeySpki::eq, (left, right), equal),
    ensures
        equal <==> {
            &&& left.encoded@ == right.encoded@
            &&& left.fingerprint == right.fingerprint
        },
{
}

/// Two values are equal exactly where they agree in every field.
pub proof fn lemma_equal_frozen_pvc_reference(
    left: &FrozenPvcReference,
    right: &FrozenPvcReference,
    equal: bool,
)
    requires
        call_ensures(FrozenPvcReference::eq, (left, right), equal),
    ensures
        equal <==> {
            &&& left.namespace@ == right.namespace@
            &&& left.claim_name@ == right.claim_name@
        },
{
}

/// Two values are equal exactly where they agree in every field.
pub proof fn lemma_equal_frozen_storage_descriptor(
    left: &FrozenStorageDescriptor,
    right: &FrozenStorageDescriptor,
    equal: bool,
)
    requires
        call_ensures(FrozenStorageDescriptor::eq, (left, right), equal),
    ensures
        equal <==> {
            &&& left.display_name@ == right.display_name@
            &&& left.region@ == right.region@
            &&& left.access_mode == right.access_mode
            &&& left.pvc_reference.same(right.pvc_reference)
        },
{
}

/// Two values are equal exactly where they agree in every field.
pub proof fn lemma_equal_gateway_credential(
    left: &GatewayCredential,
    right: &GatewayCredential,
    equal: bool,
)
    requires
        call_ensures(GatewayCredential::eq, (left, right), equal),
    ensures
        equal <==> {
            &&& left.state.same(right.state)
            &&& left.activation_token_digest == right.activation_token_digest
        },
{
}

/// Two values are equal exactly where they agree in kind and content.
pub proof fn lemma_equal_gateway_credential_state(
    left: &GatewayCredentialState,
    right: &GatewayCredentialState,
    equal: bool,
)
    requires
        call_ensures(GatewayCredentialState::eq, (left, right), equal),
    ensures
        equal <==> match (*left, *right) {
            (GatewayCredentialState::PendingActivation, GatewayCredentialState::PendingActivation) => true,
            (GatewayCredentialState::Other(left), GatewayCredentialState::Other(right)) => left@ == right@,
            _ => false,
        },
{
}

/// Two values are equal exactly where they agree in every field.
pub proof fn lemma_equal_gateway_pool_record(
    left: &GatewayPoolRecord,
    right: &GatewayPoolRecord,
    equal: bool,
)
    requires
        call_ensures(GatewayPoolRecord::eq, (left, right), equal),
    ensures
        equal <==> {
            &&& left.gateway_pool_id@ == right.gateway_pool_id@
            &&& left.edge_cluster_id@ == right.edge_cluster_id@
            &&& left.resource_version == right.resource_version
            &&& left.config_generation == right.config_generation
            &&& left.state.same(right.state)
            &&& left.agent_endpoint@ == right.agent_endpoint@
            &&& match (left.s3_endpoint, right.s3_endpoint) {
                (None, None) => true,
                (Some(left), Some(right)) => left@ == right@,
                _ => false,
            }
            &&& left.detail@ == right.detail@
        },
{
}

/// Two values are equal exactly where they agree in kind and content.
pub proof fn lemma_equal_gateway_pool_state(
    left: &GatewayPoolState,
    right: &GatewayPoolState,
    equal: bool,
)
    requires
        call_ensures(GatewayPoolState::eq, (left, right), equal),
    ensures
        equal <==> match (*left, *right) {
            (GatewayPoolState::Draining, GatewayPoolState::Draining) => true,
            (GatewayPoolState::Disabled, GatewayPoolState::Disabled) => true,
            (GatewayPoolState::Other(left), GatewayPoolState::Other(right)) => left@ == right@,
            _ => false,
        },
{
}

/// Two values are equal exactly where they agree in every field.
pub proof fn lemma_equal_gateway_replica_record(
    left: &GatewayReplicaRecord,
    right: &GatewayReplicaRecord,
    equal: bool,
)
    requires
        call_ensures(GatewayReplicaRecord::eq, (left, right), equal),
    ensures
        equal <==> {
            &&& left.gateway_replica_id@ == right.gateway_replica_id@
            &&& left.gateway_pool_id@ == right.gateway_pool_id@
            &&& left.edge_cluster_id@ == right.edge_cluster_id@
            &&& left.resource_version == right.resource_version
            &&& left.state.same(right.state)
            &&& left.credential.same(right.credential)
            &&& left.control_endpoint@ == right.control_endpoint@
            &&& left.peer_endpoint@ == right.peer_endpoint@
            &&& left.bootstrap_endpoint@ == right.bootstrap_endpoint@
            &&& left.last_heartbeat_at_unix_ms == right.last_heartbeat_at_unix_ms
            &&& left.detail@ == right.detail@
        },
{
}

/// Two values are equal exactly where they agree in kind and content.
pub proof fn lemma_equal_gateway_replica_state(
    left: &GatewayReplicaState,
    right: &GatewayReplicaState,
    equal: bool,
)
    requires
        call_ensures(GatewayReplicaState::eq, (left, right), equal),
    ensures
        equal <==> match (*left, *right) {
            (GatewayReplicaState::Pending, GatewayReplicaState::Pending) => true,
            (GatewayReplicaState::Other(left), GatewayReplicaState::Other(right)) => left@ == right@,
            _ => false,
        },
{
}

/// Two values are equal exactly where they agree in every field.
pub proof fn lemma_equal_playground_record(
    left: &PlaygroundRecord,
    right: &PlaygroundRecord,
    equal: bool,
)
    requires
        call_ensures(PlaygroundRecord::eq, (left, right), equal),
    ensures
        equal <==> {
            &&& left.tenant_id@ == right.tenant_id@
            &&& left.project_id@ == right.project_id@
            &&& left.artifact_id@ == right.artifact_id@
            &&& left.playground_id@ == right.playground_id@
            &&& left.storage_volume_id@ == right.storage_volume_id@
            &&& left.region@ == right.region@
            &&& left.display_name@ == right.display_name@
            &&& left.base_commit_id == right.base_commit_id
            &&& left.head_commit_id == right.head_commit_id
            &&& left.index_version.same(right.index_version)
            &&& left.state == right.state
            &&& left.relative_root@ == right.relative_root@
            &&& left.created_at_unix_ms == right.created_at_unix_ms
            &&& left.updated_at_unix_ms == right.updated_at_unix_ms
        },
{
}

/// Two values are equal exactly where they agree in every field.
pub proof fn lemma_equal_snapshot_record(left: &SnapshotRecord, right: &SnapshotRecord, equal: bool)
    requires
        call_ensures(SnapshotRecord::eq, (left, right), equal),
    ensures
        equal <==> {
            &&& left.tenant_id@ == right.tenant_id@
            &&& left.project_id@ == right.project_id@
            &&& left.artifact_id@ == right.artifact_id@
            &&& left.snapshot_id@ == right.snapshot_id@
            &&& left.snapshot_request_id@ == right.snapshot_request_id@
            &&& left.commit_id == right.commit_id
            &&& left.storage_volume_id@ == right.storage_volume_id@
            &&& left.region@ == right.region@
            &&& left.relative_root@ == right.relative_root@
            &&& left.state@ == right.state@
            &&& left.phase@ == right.phase@
            &&& left.created_at_unix_ms == right.created_at_unix_ms
            &&& left.updated_at_unix_ms == right.updated_at_unix_ms
        },
{
}

/// Two values are equal exactly where they agree in every field.
pub proof fn lemma_equal_storage_enrollment_metadata(
    left: &StorageEnrollmentMetadata,
    right: &StorageEnrollmentMetadata,
    equal: bool,
)
    requires
        call_ensures(StorageEnrollmentMetadata::eq, (left, right), equal),
    ensures
        equal <==> {
            &&& left.record_format == right.record_format
            &&& match (left.descriptor, right.descriptor) {
                (None, None) => true,
                (Some(left), Some(right)) => left.same(right),
                _ => false,
            }
            &&& match (left.token_key_id, right.token_key_id) {
                (None, None) => true,
                (Some(left), Some(right)) => left@ == right@,
                _ => false,
            }
            &&& left.registration_kind == right.registration_kind
            &&& left.state == right.state
            &&& left.updated_at_unix_ms == right.updated_at_unix_ms
            &&& left.lifecycle_audit_events@.len() == right.lifecycle_audit_events@.len()
            &&& forall|i: int|
                0 <= i < left.lifecycle_audit_events@.len()
                    ==> (#[trigger] left.lifecycle_audit_events@[i]).same(right.lifecycle_audit_events@[i])
        },
{
}

/// Two values are equal exactly where they agree in every field.
pub proof fn lemma_equal_storage_volume_record(
    left: &StorageVolumeRecord,
    right: &StorageVolumeRecord,
    equal: bool,
)
    requires
        call_ensures(StorageVolumeRecord::eq, (left, right), equal),
    ensures
        equal <==> {
            &&& left.tenant_id@ == right.tenant_id@
            &&& left.storage_volume_id@ == right.storage_volume_id@
            &&& left.display_name@ == right.display_name@
            &&& left.edge_cluster_id@ == right.edge_cluster_id@
            &&& left.region@ == right.region@
            &&& left.backend_type == right.backend_type
            &&& left.access_mode == right.access_mode
            &&& match (left.pvc_reference, right.pvc_reference) {
                (None, None) => true,
                (Some(left), Some(right)) => left.same(right),
                _ => false,
            }
            &&& match (left.nfs_reference, right.nfs_reference) {
                (None, None) => true,
                (Some(left), Some(right)) => left.same(right),
                _ => false,
            }
            &&& left.state == right.state
            &&& left.resource_version == right.resource_version
            &&& left.created_at_unix_ms == right.created_at_unix_ms
            &&& left.updated_at_unix_ms == right.updated_at_unix_ms
        },
{
}

/// Two values are equal exactly where they agree in every field.
pub proof fn lemma_equal_tenant_record(left: &TenantRecord, right: &TenantRecord, equal: bool)
    requires
        call_ensures(TenantRecord::eq, (left, right), equal),
    ensures
        equal <==> {
            &&& left.tenant_id@ == right.tenant_id@
            &&& left.display_name@ == right.display_name@
            &&& match (left.description, right.description) {
                (None, None) => true,
                (Some(left), Some(right)) => left@ == right@,
                _ => false,
            }
            &&& left.resource_version == right.resource_version
            &&& left.created_at_unix_ms == right.created_at_unix_ms
            &&& left.updated_at_unix_ms == right.updated_at_unix_ms
        },
{
}

/// Two values are equal exactly where they agree in every field.
pub proof fn lemma_equal_volume_owner_record(
    left: &VolumeOwnerRecord,
    right: &VolumeOwnerRecord,
    equal: bool,
)
    requires
        call_ensures(VolumeOwnerRecord::eq, (left, right), equal),
    ensures
        equal <==> {
            &&& left.tenant_id@ == right.tenant_id@
            &&& left.storage_volume_id@ == right.storage_volume_id@
            &&& match (left.active_agent_id, right.active_agent_id) {
                (None, None) => true,
                (Some(left), Some(right)) => left@ == right@,
                _ => false,
            }
            &&& match (left.active_agent_mount_id, right.active_agent_mount_id) {
                (None, None) => true,
                (Some(left), Some(right)) => left@ == right@,
                _ => false,
            }
            &&& left.owner_generation == right.owner_generation
            &&& left.state == right.state
        },
{
}

} // verus!
