//! The enrollment aggregate: enrollment, candidate, instance, mount, owner and public metadata.
use vstd::prelude::*;

use crate::digest::{AgentMountIdentityDigest, ContentDigest, PvcIdentityDigest};
use crate::equality::{numbers_equal, Same};
use crate::identifier::{
    AgentBootId, AgentEnrollmentId, AgentEnrollmentTokenId, AgentId, AgentInstallationId,
    AgentMountId, EdgeClusterId, EventId, Extensions, MountGeneration, OpaqueText,
    OwnerGeneration, PrincipalRef, ProtocolVersion, RequestId, ResourceVersion, SequenceNumber,
    SessionGeneration, SessionId, StorageVolumeId, TenantId, UnixMillis, VolumeMarkerId,
};
use crate::text::text_equals;

verus! {

/// How long a bootstrapped candidate may wait for the tenant's review.
pub const AGENT_ENROLLMENT_REVIEW_WINDOW_MS: u64 = 86_400_000;

/// How far a signed bootstrap-status request may be from the service clock.
pub const AGENT_BOOTSTRAP_STATUS_MAX_CLOCK_SKEW_MS: u64 = 60_000;

pub const AGENT_ENROLLMENT_MAX_PAGE_SIZE: usize = 100;

pub const AGENT_ENROLLMENT_MAX_QUERY_CHARS: usize = 256;

/// Persisted format provenance. Missing provenance means the record predates schema v3.
#[derive(Debug, Clone, Copy, PartialEq, Eq, Structural)]
pub enum AgentRegistryRecordFormat {
    LegacyV2,
    CurrentV3,
}

impl Default for AgentRegistryRecordFormat {
    fn default() -> (value: Self)
        ensures
            value == AgentRegistryRecordFormat::LegacyV2,
    {
        AgentRegistryRecordFormat::LegacyV2
    }
}

/// Access that an enrolled Volume is claimed with.
#[derive(Debug, Clone, Copy, PartialEq, Eq, Structural)]
pub enum StorageEnrollmentAccessMode {
    ReadWriteMany,
    ReadWriteOnce,
}

/// Server-owned result of verifying the bootstrap proof against its canonical request.
#[derive(Debug, Clone, Copy, PartialEq, Eq, Structural)]
pub enum AgentProofOfPossessionStatus {
    Verified,
}

/// Whether an enrollment claims a free Volume or replaces its current owner.
#[derive(Debug, Clone, Copy, PartialEq, Eq, Structural)]
pub enum StorageEnrollmentRegistrationKind {
    Initial,
    Replacement,
}

/// Enrollment state as tenants see it.
#[derive(Debug, Clone, Copy, PartialEq, Eq, Structural)]
pub enum StorageEnrollmentState {
    PendingApproval,
    Approved,
    Enrolled,
    Rejected,
    Expired,
}

/// One step of the enrollment lifecycle.
#[derive(Debug, Clone, Copy, PartialEq, Eq, Structural)]
pub enum AgentEnrollmentLifecycleAuditKind {
    TokenIssued,
    PendingApproval,
    Approved,
    Enrolled,
    Rejected,
    Expired,
    Revoked,
}

/// Whether an Agent identity may still open sessions.
#[derive(Debug, Clone, Copy, PartialEq, Eq, Structural)]
pub enum AgentInstanceState {
    Active,
    Revoked,
}

/// Whether a Volume has an owner that may serve it.
#[derive(Debug, Clone, Copy, PartialEq, Eq, Structural)]
pub enum VolumeOwnerState {
    Inactive,
    Active,
    RecoveryRequired,
}

/// Volume readiness derived from enrollment, session, mount and owner.
#[derive(Debug, Clone, Copy, PartialEq, Eq, Structural)]
pub enum DerivedVolumeState {
    Ready,
    Degraded,
    Unavailable,
}

/// Internal enrollment state.
#[derive(Debug, Clone, Copy, PartialEq, Eq, Structural)]
pub enum AgentEnrollmentState {
    TokenIssued,
    PendingApproval,
    Approved,
    Rejected,
    Expired,
    Revoked,
}

/// A tenant's decision on a bootstrapped candidate.
#[derive(Debug, Clone, Copy, PartialEq, Eq, Structural)]
pub enum AgentEnrollmentDecision {
    Approve,
    Reject,
}

/// Access mode of a mounted Volume.
#[derive(Debug, Clone, Copy, PartialEq, Eq, Structural)]
pub enum MountAccessMode {
    ReadOnly,
    ReadWrite,
}

/// Health of a mounted Volume.
#[derive(Debug, Clone, Copy, PartialEq, Eq, Structural)]
pub enum ResourceHealth {
    Ready,
    Degraded,
    Unavailable,
    Unknown,
}

/// Signature algorithm of an Agent credential.
#[derive(Debug, Clone, Copy, PartialEq, Eq, Structural)]
pub enum AgentSignatureAlgorithm {
    Ed25519,
    Unrecognized,
}

/// Kind of an immutable enrollment decision.
#[derive(Debug, Clone, Copy, PartialEq, Eq, Structural)]
pub enum AgentEnrollmentAuditKind {
    Approved,
    Rejected,
    ReplacementApproved,
}

/// Names of the claim that backs a Volume.
#[derive(Debug, Eq)]
pub struct FrozenPvcReference {
    pub namespace: String,
    pub claim_name: String,
}

impl PartialEq for FrozenPvcReference {
    fn eq(&self, other: &Self) -> (equal: bool) {
        text_equals(self.namespace.as_str(), other.namespace.as_str())
            && text_equals(self.claim_name.as_str(), other.claim_name.as_str())
    }
}

impl Same for FrozenPvcReference {
    open spec fn same(self, other: Self) -> bool {
        &&& self.namespace@ == other.namespace@
        &&& self.claim_name@ == other.claim_name@
    }
}

impl vstd::std_specs::cmp::PartialEqSpecImpl for FrozenPvcReference {
    open spec fn obeys_eq_spec() -> bool {
        true
    }

    open spec fn eq_spec(&self, other: &Self) -> bool {
        self.same(*other)
    }
}

impl Clone for FrozenPvcReference {
    fn clone(&self) -> (copy: Self)
        ensures
            copy.same(*self),
            copy == *self,
    {
        Self {
            namespace: self.namespace.clone(),
            claim_name: self.claim_name.clone(),
        }
    }
}

/// Public Volume fields frozen when the bootstrap token is created.
#[derive(Debug, Eq)]
pub struct FrozenStorageDescriptor {
    pub display_name: String,
    pub region: String,
    pub access_mode: StorageEnrollmentAccessMode,
    pub pvc_reference: FrozenPvcReference,
}

impl PartialEq for FrozenStorageDescriptor {
    fn eq(&self, other: &Self) -> (equal: bool) {
        text_equals(self.display_name.as_str(), other.display_name.as_str())
            && text_equals(self.region.as_str(), other.region.as_str())
            && self.access_mode == other.access_mode
            && self.pvc_reference == other.pvc_reference
    }
}

impl Same for FrozenStorageDescriptor {
    open spec fn same(self, other: Self) -> bool {
        &&& self.display_name@ == other.display_name@
        &&& self.region@ == other.region@
        &&& self.access_mode == other.access_mode
        &&& self.pvc_reference.same(other.pvc_reference)
    }
}

impl vstd::std_specs::cmp::PartialEqSpecImpl for FrozenStorageDescriptor {
    open spec fn obeys_eq_spec() -> bool {
        true
    }

    open spec fn eq_spec(&self, other: &Self) -> bool {
        self.same(*other)
    }
}

impl Clone for FrozenStorageDescriptor {
    fn clone(&self) -> (copy: Self)
        ensures
            copy.same(*self),
            copy == *self,
    {
        Self {
            display_name: self.display_name.clone(),
            region: self.region.clone(),
            access_mode: self.access_mode,
            pvc_reference: self.pvc_reference.clone(),
        }
    }
}

/// Identifies the key used to derive a replayable token. No reversible token material is stored.
#[derive(Debug, Eq)]
pub struct BootstrapTokenMetadata {
    pub key_id: String,
}

impl PartialEq for BootstrapTokenMetadata {
    fn eq(&self, other: &Self) -> (equal: bool) {
        text_equals(self.key_id.as_str(), other.key_id.as_str())
    }
}

impl Same for BootstrapTokenMetadata {
    open spec fn same(self, other: Self) -> bool {
        &&& self.key_id@ == other.key_id@
    }
}

impl vstd::std_specs::cmp::PartialEqSpecImpl for BootstrapTokenMetadata {
    open spec fn obeys_eq_spec() -> bool {
        true
    }

    open spec fn eq_spec(&self, other: &Self) -> bool {
        self.same(*other)
    }
}

impl Clone for BootstrapTokenMetadata {
    fn clone(&self) -> (copy: Self)
        ensures
            copy.same(*self),
            copy == *self,
    {
        Self {
            key_id: self.key_id.clone(),
        }
    }
}

/// A public key in its encoded form, with the fingerprint of that encoding.
#[derive(Eq)]
pub struct Ed25519PublicKeySpki {
    pub encoded: OpaqueText,
    pub fingerprint: ContentDigest,
}

impl PartialEq for Ed25519PublicKeySpki {
    fn eq(&self, other: &Self) -> (equal: bool) {
        self.encoded == other.encoded
            && self.fingerprint == other.fingerprint
    }
}

impl Same for Ed25519PublicKeySpki {
    open spec fn same(self, other: Self) -> bool {
        &&& self.encoded.same(other.encoded)
        &&& self.fingerprint == other.fingerprint
    }
}

impl vstd::std_specs::cmp::PartialEqSpecImpl for Ed25519PublicKeySpki {
    open spec fn obeys_eq_spec() -> bool {
        true
    }

    open spec fn eq_spec(&self, other: &Self) -> bool {
        self.same(*other)
    }
}

impl Clone for Ed25519PublicKeySpki {
    fn clone(&self) -> (copy: Self)
        ensures
            copy.same(*self),
            copy == *self,
    {
        Self {
            encoded: self.encoded.clone(),
            fingerprint: self.fingerprint,
        }
    }
}

/// Credential evidence retained so status proofs can be verified after restart.
#[derive(Eq)]
pub struct AgentCredentialEvidence {
    pub algorithm: AgentSignatureAlgorithm,
    pub public_key_spki: Ed25519PublicKeySpki,
    pub proof_of_possession: OpaqueText,
}

impl PartialEq for AgentCredentialEvidence {
    fn eq(&self, other: &Self) -> (equal: bool) {
        self.algorithm == other.algorithm
            && self.public_key_spki == other.public_key_spki
            && self.proof_of_possession == other.proof_of_possession
    }
}

impl Same for AgentCredentialEvidence {
    open spec fn same(self, other: Self) -> bool {
        &&& self.algorithm == other.algorithm
        &&& self.public_key_spki.same(other.public_key_spki)
        &&& self.proof_of_possession.same(other.proof_of_possession)
    }
}

impl vstd::std_specs::cmp::PartialEqSpecImpl for AgentCredentialEvidence {
    open spec fn obeys_eq_spec() -> bool {
        true
    }

    open spec fn eq_spec(&self, other: &Self) -> bool {
        self.same(*other)
    }
}

impl Clone for AgentCredentialEvidence {
    fn clone(&self) -> (copy: Self)
        ensures
            copy.same(*self),
            copy == *self,
    {
        Self {
            algorithm: self.algorithm,
            public_key_spki: self.public_key_spki.clone(),
            proof_of_possession: self.proof_of_possession.clone(),
        }
    }
}

/// One entry of the append-only lifecycle audit of an enrollment.
#[derive(Eq)]
pub struct AgentEnrollmentLifecycleAuditEvent {
    pub event_id: EventId,
    pub kind: AgentEnrollmentLifecycleAuditKind,
    pub tenant_id: TenantId,
    pub enrollment_id: AgentEnrollmentId,
    pub resource_version: ResourceVersion,
    pub occurred_at_unix_ms: UnixMillis,
    pub rejection_reason: Option<OpaqueText>,
}

impl PartialEq for AgentEnrollmentLifecycleAuditEvent {
    fn eq(&self, other: &Self) -> (equal: bool) {
        self.event_id == other.event_id
            && self.kind == other.kind
            && self.tenant_id == other.tenant_id
            && self.enrollment_id == other.enrollment_id
            && self.resource_version == other.resource_version
            && self.occurred_at_unix_ms == other.occurred_at_unix_ms
            && self.rejection_reason == other.rejection_reason
    }
}

impl Same for AgentEnrollmentLifecycleAuditEvent {
    open spec fn same(self, other: Self) -> bool {
        &&& self.event_id.same(other.event_id)
        &&& self.kind == other.kind
        &&& self.tenant_id.same(other.tenant_id)
        &&& self.enrollment_id.same(other.enrollment_id)
        &&& self.resource_version == other.resource_version
        &&& self.occurred_at_unix_ms == other.occurred_at_unix_ms
        &&& self.rejection_reason.same(other.rejection_reason)
    }
}

impl vstd::std_specs::cmp::PartialEqSpecImpl for AgentEnrollmentLifecycleAuditEvent {
    open spec fn obeys_eq_spec() -> bool {
        true
    }

    open spec fn eq_spec(&self, other: &Self) -> bool {
        self.same(*other)
    }
}

impl Clone for AgentEnrollmentLifecycleAuditEvent {
    fn clone(&self) -> (copy: Self)
        ensures
            copy.same(*self),
            copy == *self,
    {
        Self {
            event_id: self.event_id.clone(),
            kind: self.kind,
            tenant_id: self.tenant_id.clone(),
            enrollment_id: self.enrollment_id.clone(),
            resource_version: self.resource_version,
            occurred_at_unix_ms: self.occurred_at_unix_ms,
            rejection_reason: self.rejection_reason.clone(),
        }
    }
}

/// Public enrollment metadata stored in the same aggregate as runtime state.
#[derive(Eq)]
pub struct StorageEnrollmentMetadata {
    pub record_format: AgentRegistryRecordFormat,
    pub descriptor: Option<FrozenStorageDescriptor>,
    pub token_key_id: Option<OpaqueText>,
    pub registration_kind: Option<StorageEnrollmentRegistrationKind>,
    pub state: Option<StorageEnrollmentState>,
    pub updated_at_unix_ms: Option<UnixMillis>,
    pub lifecycle_audit_events: Vec<AgentEnrollmentLifecycleAuditEvent>,
}

impl PartialEq for StorageEnrollmentMetadata {
    fn eq(&self, other: &Self) -> (equal: bool) {
        self.record_format == other.record_format
            && self.descriptor == other.descriptor
            && self.token_key_id == other.token_key_id
            && self.registration_kind == other.registration_kind
            && self.state == other.state
            && self.updated_at_unix_ms == other.updated_at_unix_ms
            && self.lifecycle_audit_events == other.lifecycle_audit_events
    }
}

impl Same for StorageEnrollmentMetadata {
    open spec fn same(self, other: Self) -> bool {
        &&& self.record_format == other.record_format
        &&& self.descriptor.same(other.descriptor)
        &&& self.token_key_id.same(other.token_key_id)
        &&& self.registration_kind == other.registration_kind
        &&& self.state == other.state
        &&& self.updated_at_unix_ms == other.updated_at_unix_ms
        &&& self.lifecycle_audit_events.same(other.lifecycle_audit_events)
    }
}

impl vstd::std_specs::cmp::PartialEqSpecImpl for StorageEnrollmentMetadata {
    open spec fn obeys_eq_spec() -> bool {
        true
    }

    open spec fn eq_spec(&self, other: &Self) -> bool {
        self.same(*other)
    }
}

impl Clone for StorageEnrollmentMetadata {
    fn clone(&self) -> (copy: Self)
        ensures
            copy.same(*self),
    {
        Self {
            record_format: self.record_format,
            descriptor: self.descriptor.clone(),
            token_key_id: self.token_key_id.clone(),
            registration_kind: self.registration_kind,
            state: self.state,
            updated_at_unix_ms: self.updated_at_unix_ms,
            lifecycle_audit_events: self.lifecycle_audit_events.clone(),
        }
    }
}

impl StorageEnrollmentMetadata {
    /// Metadata of a record that predates public enrollments.
    pub open spec fn is_legacy_default(self) -> bool {
        &&& self.record_format is LegacyV2
        &&& self.descriptor is None
        &&& self.token_key_id is None
        &&& self.registration_kind is None
        &&& self.state is None
        &&& self.updated_at_unix_ms is None
        &&& self.lifecycle_audit_events@.len() == 0
    }
}

impl Default for StorageEnrollmentMetadata {
    fn default() -> (metadata: Self)
        ensures
            metadata.is_legacy_default(),
    {
        Self {
            record_format: AgentRegistryRecordFormat::LegacyV2,
            descriptor: None,
            token_key_id: None,
            registration_kind: None,
            state: None,
            updated_at_unix_ms: None,
            lifecycle_audit_events: Vec::new(),
        }
    }
}

/// A tenant's request to approve or reject one candidate.
#[derive(Debug, Eq)]
pub struct AgentEnrollmentApprovalRequest {
    pub decision_request_id: RequestId,
    pub enrollment_id: AgentEnrollmentId,
    pub decision: AgentEnrollmentDecision,
    pub expected_resource_version: ResourceVersion,
    pub confirm_replacement: bool,
    pub extensions: Extensions,
}

impl PartialEq for AgentEnrollmentApprovalRequest {
    fn eq(&self, other: &Self) -> (equal: bool) {
        self.decision_request_id == other.decision_request_id
            && self.enrollment_id == other.enrollment_id
            && self.decision == other.decision
            && self.expected_resource_version == other.expected_resource_version
            && self.confirm_replacement == other.confirm_replacement
            && self.extensions == other.extensions
    }
}

impl Same for AgentEnrollmentApprovalRequest {
    open spec fn same(self, other: Self) -> bool {
        &&& self.decision_request_id.same(other.decision_request_id)
        &&& self.enrollment_id.same(other.enrollment_id)
        &&& self.decision == other.decision
        &&& self.expected_resource_version == other.expected_resource_version
        &&& self.confirm_replacement == other.confirm_replacement
        &&& self.extensions.same(other.extensions)
    }
}

impl vstd::std_specs::cmp::PartialEqSpecImpl for AgentEnrollmentApprovalRequest {
    open spec fn obeys_eq_spec() -> bool {
        true
    }

    open spec fn eq_spec(&self, other: &Self) -> bool {
        self.same(*other)
    }
}

impl Clone for AgentEnrollmentApprovalRequest {
    fn clone(&self) -> (copy: Self)
        ensures
            copy.same(*self),
            copy == *self,
    {
        Self {
            decision_request_id: self.decision_request_id.clone(),
            enrollment_id: self.enrollment_id.clone(),
            decision: self.decision,
            expected_resource_version: self.expected_resource_version,
            confirm_replacement: self.confirm_replacement,
            extensions: self.extensions.clone(),
        }
    }
}

/// Immutable audit event of one enrollment decision.
#[derive(Debug, Eq)]
pub struct AgentEnrollmentAuditEvent {
    pub event_id: EventId,
    pub kind: AgentEnrollmentAuditKind,
    pub tenant_id: TenantId,
    pub enrollment_id: AgentEnrollmentId,
    pub storage_volume_id: StorageVolumeId,
    pub decision_request_id: RequestId,
    pub resource_version: ResourceVersion,
    pub actor: PrincipalRef,
    pub occurred_at_unix_ms: UnixMillis,
}

impl PartialEq for AgentEnrollmentAuditEvent {
    fn eq(&self, other: &Self) -> (equal: bool) {
        self.event_id == other.event_id
            && self.kind == other.kind
            && self.tenant_id == other.tenant_id
            && self.enrollment_id == other.enrollment_id
            && self.storage_volume_id == other.storage_volume_id
            && self.decision_request_id == other.decision_request_id
            && self.resource_version == other.resource_version
            && self.actor == other.actor
            && self.occurred_at_unix_ms == other.occurred_at_unix_ms
    }
}

impl Same for AgentEnrollmentAuditEvent {
    open spec fn same(self, other: Self) -> bool {
        &&& self.event_id.same(other.event_id)
        &&& self.kind == other.kind
        &&& self.tenant_id.same(other.tenant_id)
        &&& self.enrollment_id.same(other.enrollment_id)
        &&& self.storage_volume_id.same(other.storage_volume_id)
        &&& self.decision_request_id.same(other.decision_request_id)
        &&& self.resource_version == other.resource_version
        &&& self.actor.same(other.actor)
        &&& self.occurred_at_unix_ms == other.occurred_at_unix_ms
    }
}

impl vstd::std_specs::cmp::PartialEqSpecImpl for AgentEnrollmentAuditEvent {
    open spec fn obeys_eq_spec() -> bool {
        true
    }

    open spec fn eq_spec(&self, other: &Self) -> bool {
        self.same(*other)
    }
}

impl Clone for AgentEnrollmentAuditEvent {
    fn clone(&self) -> (copy: Self)
        ensures
            copy.same(*self),
            copy == *self,
    {
        Self {
            event_id: self.event_id.clone(),
            kind: self.kind,
            tenant_id: self.tenant_id.clone(),
            enrollment_id: self.enrollment_id.clone(),
            storage_volume_id: self.storage_volume_id.clone(),
            decision_request_id: self.decision_request_id.clone(),
            resource_version: self.resource_version,
            actor: self.actor.clone(),
            occurred_at_unix_ms: self.occurred_at_unix_ms,
        }
    }
}

/// The enrollment itself: what the token reserved and what was decided.
#[derive(Eq)]
pub struct AgentEnrollmentRecord {
    pub token_id: AgentEnrollmentTokenId,
    pub token_request_id: RequestId,
    pub enrollment_id: AgentEnrollmentId,
    pub tenant_id: TenantId,
    pub edge_cluster_id: EdgeClusterId,
    pub storage_volume_id: StorageVolumeId,
    pub volume_descriptor_digest: ContentDigest,
    pub pvc_identity_digest: PvcIdentityDigest,
    pub reserved_agent_id: AgentId,
    pub reserved_agent_mount_id: AgentMountId,
    pub bootstrap_token_digest: ContentDigest,
    pub state: AgentEnrollmentState,
    pub created_at_unix_ms: UnixMillis,
    pub expires_at_unix_ms: UnixMillis,
    pub bootstrapped_at_unix_ms: Option<UnixMillis>,
    pub bootstrap_request_id: Option<RequestId>,
    pub review_expires_at_unix_ms: Option<UnixMillis>,
    pub decided_at_unix_ms: Option<UnixMillis>,
    pub decided_by: Option<PrincipalRef>,
    pub decision_request: Option<AgentEnrollmentApprovalRequest>,
    pub replaces_enrollment_id: Option<AgentEnrollmentId>,
    pub replaced_by_enrollment_id: Option<AgentEnrollmentId>,
    pub extensions: Extensions,
}

impl PartialEq for AgentEnrollmentRecord {
    fn eq(&self, other: &Self) -> (equal: bool) {
        self.token_id == other.token_id
            && self.token_request_id == other.token_request_id
            && self.enrollment_id == other.enrollment_id
            && self.tenant_id == other.tenant_id
            && self.edge_cluster_id == other.edge_cluster_id
            && self.storage_volume_id == other.storage_volume_id
            && self.volume_descriptor_digest == other.volume_descriptor_digest
            && self.pvc_identity_digest == other.pvc_identity_digest
            && self.reserved_agent_id == other.reserved_agent_id
            && self.reserved_agent_mount_id == other.reserved_agent_mount_id
            && self.bootstrap_token_digest == other.bootstrap_token_digest
            && self.state == other.state
            && self.created_at_unix_ms == other.created_at_unix_ms
            && self.expires_at_unix_ms == other.expires_at_unix_ms
            && self.bootstrapped_at_unix_ms == other.bootstrapped_at_unix_ms
            && self.bootstrap_request_id == other.bootstrap_request_id
            && self.review_expires_at_unix_ms == other.review_expires_at_unix_ms
            && self.decided_at_unix_ms == other.decided_at_unix_ms
            && self.decided_by == other.decided_by
            && self.decision_request == other.decision_request
            && self.replaces_enrollment_id == other.replaces_enrollment_id
            && self.replaced_by_enrollment_id == other.replaced_by_enrollment_id
            && self.extensions == other.extensions
    }
}

impl Same for AgentEnrollmentRecord {
    open spec fn same(self, other: Self) -> bool {
        &&& self.token_id.same(other.token_id)
        &&& self.token_request_id.same(other.token_request_id)
        &&& self.enrollment_id.same(other.enrollment_id)
        &&& self.tenant_id.same(other.tenant_id)
        &&& self.edge_cluster_id.same(other.edge_cluster_id)
        &&& self.storage_volume_id.same(other.storage_volume_id)
        &&& self.volume_descriptor_digest == other.volume_descriptor_digest
        &&& self.pvc_identity_digest == other.pvc_identity_digest
        &&& self.reserved_agent_id.same(other.reserved_agent_id)
        &&& self.reserved_agent_mount_id.same(other.reserved_agent_mount_id)
        &&& self.bootstrap_token_digest == other.bootstrap_token_digest
        &&& self.state == other.state
        &&& self.created_at_unix_ms == other.created_at_unix_ms
        &&& self.expires_at_unix_ms == other.expires_at_unix_ms
        &&& self.bootstrapped_at_unix_ms == other.bootstrapped_at_unix_ms
        &&& self.bootstrap_request_id.same(other.bootstrap_request_id)
        &&& self.review_expires_at_unix_ms == other.review_expires_at_unix_ms
        &&& self.decided_at_unix_ms == other.decided_at_unix_ms
        &&& self.decided_by.same(other.decided_by)
        &&& self.decision_request.same(other.decision_request)
        &&& self.replaces_enrollment_id.same(other.replaces_enrollment_id)
        &&& self.replaced_by_enrollment_id.same(other.replaced_by_enrollment_id)
        &&& self.extensions.same(other.extensions)
    }
}

impl vstd::std_specs::cmp::PartialEqSpecImpl for AgentEnrollmentRecord {
    open spec fn obeys_eq_spec() -> bool {
        true
    }

    open spec fn eq_spec(&self, other: &Self) -> bool {
        self.same(*other)
    }
}

impl Clone for AgentEnrollmentRecord {
    fn clone(&self) -> (copy: Self)
        ensures
            copy.same(*self),
            copy == *self,
    {
        Self {
            token_id: self.token_id.clone(),
            token_request_id: self.token_request_id.clone(),
            enrollment_id: self.enrollment_id.clone(),
            tenant_id: self.tenant_id.clone(),
            edge_cluster_id: self.edge_cluster_id.clone(),
            storage_volume_id: self.storage_volume_id.clone(),
            volume_descriptor_digest: self.volume_descriptor_digest,
            pvc_identity_digest: self.pvc_identity_digest,
            reserved_agent_id: self.reserved_agent_id.clone(),
            reserved_agent_mount_id: self.reserved_agent_mount_id.clone(),
            bootstrap_token_digest: self.bootstrap_token_digest,
            state: self.state,
            created_at_unix_ms: self.created_at_unix_ms,
            expires_at_unix_ms: self.expires_at_unix_ms,
            bootstrapped_at_unix_ms: self.bootstrapped_at_unix_ms,
            bootstrap_request_id: self.bootstrap_request_id.clone(),
            review_expires_at_unix_ms: self.review_expires_at_unix_ms,
            decided_at_unix_ms: self.decided_at_unix_ms,
            decided_by: self.decided_by.clone(),
            decision_request: self.decision_request.clone(),
            replaces_enrollment_id: self.replaces_enrollment_id.clone(),
            replaced_by_enrollment_id: self.replaced_by_enrollment_id.clone(),
            extensions: self.extensions.clone(),
        }
    }
}

/// What a candidate observed of the Volume it wants to serve.
#[derive(Debug, Eq)]
pub struct AgentBootstrapProbe {
    pub mount_identity_digest: AgentMountIdentityDigest,
    pub observed_volume_marker: Option<VolumeMarkerId>,
    pub marker_matches: bool,
    pub mount_boundary_detected: bool,
    pub access_mode: Option<MountAccessMode>,
    pub rename_supported: bool,
    pub fsync_supported: bool,
    pub health: ResourceHealth,
}

impl PartialEq for AgentBootstrapProbe {
    fn eq(&self, other: &Self) -> (equal: bool) {
        self.mount_identity_digest == other.mount_identity_digest
            && self.observed_volume_marker == other.observed_volume_marker
            && self.marker_matches == other.marker_matches
            && self.mount_boundary_detected == other.mount_boundary_detected
            && self.access_mode == other.access_mode
            && self.rename_supported == other.rename_supported
            && self.fsync_supported == other.fsync_supported
            && self.health == other.health
    }
}

impl Same for AgentBootstrapProbe {
    open spec fn same(self, other: Self) -> bool {
        &&& self.mount_identity_digest == other.mount_identity_digest
        &&& self.observed_volume_marker.same(other.observed_volume_marker)
        &&& self.marker_matches == other.marker_matches
        &&& self.mount_boundary_detected == other.mount_boundary_detected
        &&& self.access_mode == other.access_mode
        &&& self.rename_supported == other.rename_supported
        &&& self.fsync_supported == other.fsync_supported
        &&& self.health == other.health
    }
}

impl vstd::std_specs::cmp::PartialEqSpecImpl for AgentBootstrapProbe {
    open spec fn obeys_eq_spec() -> bool {
        true
    }

    open spec fn eq_spec(&self, other: &Self) -> bool {
        self.same(*other)
    }
}

impl Clone for AgentBootstrapProbe {
    fn clone(&self) -> (copy: Self)
        ensures
            copy.same(*self),
            copy == *self,
    {
        Self {
            mount_identity_digest: self.mount_identity_digest,
            observed_volume_marker: self.observed_volume_marker.clone(),
            marker_matches: self.marker_matches,
            mount_boundary_detected: self.mount_boundary_detected,
            access_mode: self.access_mode,
            rename_supported: self.rename_supported,
            fsync_supported: self.fsync_supported,
            health: self.health,
        }
    }
}

/// The one Agent that bootstrapped with the enrollment's token.
#[derive(Eq)]
pub struct AgentCandidateRecord {
    pub bootstrap_request_id: RequestId,
    pub installation_id: AgentInstallationId,
    pub public_key_fingerprint: ContentDigest,
    pub bootstrap_signed_payload_digest: Option<ContentDigest>,
    pub mount_identity_digest: AgentMountIdentityDigest,
    pub agent_version: OpaqueText,
    pub supported_protocol_versions: Vec<ProtocolVersion>,
    /// Distinct capabilities in ascending order.
    pub capabilities: Vec<OpaqueText>,
    pub probe: AgentBootstrapProbe,
    pub credential_evidence: Option<AgentCredentialEvidence>,
    pub proof_of_possession_status: Option<AgentProofOfPossessionStatus>,
}

impl PartialEq for AgentCandidateRecord {
    fn eq(&self, other: &Self) -> (equal: bool) {
        self.bootstrap_request_id == other.bootstrap_request_id
            && self.installation_id == other.installation_id
            && self.public_key_fingerprint == other.public_key_fingerprint
            && self.bootstrap_signed_payload_digest == other.bootstrap_signed_payload_digest
            && self.mount_identity_digest == other.mount_identity_digest
            && self.agent_version == other.agent_version
            && numbers_equal(&self.supported_protocol_versions, &other.supported_protocol_versions)
            && self.capabilities == other.capabilities
            && self.probe == other.probe
            && self.credential_evidence == other.credential_evidence
            && self.proof_of_possession_status == other.proof_of_possession_status
    }
}

impl Same for AgentCandidateRecord {
    open spec fn same(self, other: Self) -> bool {
        &&& self.bootstrap_request_id.same(other.bootstrap_request_id)
        &&& self.installation_id.same(other.installation_id)
        &&& self.public_key_fingerprint == other.public_key_fingerprint
        &&& self.bootstrap_signed_payload_digest == other.bootstrap_signed_payload_digest
        &&& self.mount_identity_digest == other.mount_identity_digest
        &&& self.agent_version.same(other.agent_version)
        &&& self.supported_protocol_versions@ == other.supported_protocol_versions@
        &&& self.capabilities.same(other.capabilities)
        &&& self.probe.same(other.probe)
        &&& self.credential_evidence.same(other.credential_evidence)
        &&& self.proof_of_possession_status == other.proof_of_possession_status
    }
}

impl vstd::std_specs::cmp::PartialEqSpecImpl for AgentCandidateRecord {
    open spec fn obeys_eq_spec() -> bool {
        true
    }

    open spec fn eq_spec(&self, other: &Self) -> bool {
        self.same(*other)
    }
}

impl Clone for AgentCandidateRecord {
    fn clone(&self) -> (copy: Self)
        ensures
            copy.same(*self),
    {
        Self {
            bootstrap_request_id: self.bootstrap_request_id.clone(),
            installation_id: self.installation_id.clone(),
            public_key_fingerprint: self.public_key_fingerprint,
            bootstrap_signed_payload_digest: self.bootstrap_signed_payload_digest,
            mount_identity_digest: self.mount_identity_digest,
            agent_version: self.agent_version.clone(),
            supported_protocol_versions: self.supported_protocol_versions.clone(),
            capabilities: self.capabilities.clone(),
            probe: self.probe.clone(),
            credential_evidence: self.credential_evidence.clone(),
            proof_of_possession_status: self.proof_of_possession_status,
        }
    }
}

/// The approved Agent and its current session.
#[derive(Debug, Eq)]
pub struct AgentInstanceRecord {
    pub agent_id: AgentId,
    pub installation_id: AgentInstallationId,
    pub public_key_fingerprint: ContentDigest,
    pub agent_version: OpaqueText,
    pub supported_protocol_versions: Vec<ProtocolVersion>,
    pub capabilities: Vec<OpaqueText>,
    pub state: AgentInstanceState,
    pub session_generation: Option<SessionGeneration>,
    pub active_boot_id: Option<AgentBootId>,
    pub active_session_id: Option<SessionId>,
    pub session_open_expected_resource_version: Option<ResourceVersion>,
    pub session_opened_at_unix_ms: Option<UnixMillis>,
    pub last_heartbeat_at_unix_ms: Option<UnixMillis>,
    pub last_sequence: Option<SequenceNumber>,
}

impl PartialEq for AgentInstanceRecord {
    fn eq(&self, other: &Self) -> (equal: bool) {
        self.agent_id == other.agent_id
            && self.installation_id == other.installation_id
            && self.public_key_fingerprint == other.public_key_fingerprint
            && self.agent_version == other.agent_version
            && numbers_equal(&self.supported_protocol_versions, &other.supported_protocol_versions)
            && self.capabilities == other.capabilities
            && self.state == other.state
            && self.session_generation == other.session_generation
            && self.active_boot_id == other.active_boot_id
            && self.active_session_id == other.active_session_id
            && self.session_open_expected_resource_version == other.session_open_expected_resource_version
            && self.session_opened_at_unix_ms == other.session_opened_at_unix_ms
            && self.last_heartbeat_at_unix_ms == other.last_heartbeat_at_unix_ms
            && self.last_sequence == other.last_sequence
    }
}

impl Same for AgentInstanceRecord {
    open spec fn same(self, other: Self) -> bool {
        &&& self.agent_id.same(other.agent_id)
        &&& self.installation_id.same(other.installation_id)
        &&& self.public_key_fingerprint == other.public_key_fingerprint
        &&& self.agent_version.same(other.agent_version)
        &&& self.supported_protocol_versions@ == other.supported_protocol_versions@
        &&& self.capabilities.same(other.capabilities)
        &&& self.state == other.state
        &&& self.session_generation == other.session_generation
        &&& self.active_boot_id.same(other.active_boot_id)
        &&& self.active_session_id.same(other.active_session_id)
        &&& self.session_open_expected_resource_version == other.session_open_expected_resource_version
        &&& self.session_opened_at_unix_ms == other.session_opened_at_unix_ms
        &&& self.last_heartbeat_at_unix_ms == other.last_heartbeat_at_unix_ms
        &&& self.last_sequence == other.last_sequence
    }
}

impl vstd::std_specs::cmp::PartialEqSpecImpl for AgentInstanceRecord {
    open spec fn obeys_eq_spec() -> bool {
        true
    }

    open spec fn eq_spec(&self, other: &Self) -> bool {
        self.same(*other)
    }
}

impl Clone for AgentInstanceRecord {
    fn clone(&self) -> (copy: Self)
        ensures
            copy.same(*self),
    {
        Self {
            agent_id: self.agent_id.clone(),
            installation_id: self.installation_id.clone(),
            public_key_fingerprint: self.public_key_fingerprint,
            agent_version: self.agent_version.clone(),
            supported_protocol_versions: self.supported_protocol_versions.clone(),
            capabilities: self.capabilities.clone(),
            state: self.state,
            session_generation: self.session_generation,
            active_boot_id: self.active_boot_id.clone(),
            active_session_id: self.active_session_id.clone(),
            session_open_expected_resource_version: self.session_open_expected_resource_version,
            session_opened_at_unix_ms: self.session_opened_at_unix_ms,
            last_heartbeat_at_unix_ms: self.last_heartbeat_at_unix_ms,
            last_sequence: self.last_sequence,
        }
    }
}

/// The mount that the enrollment reserves and what was last observed of it.
#[derive(Debug, Eq)]
pub struct AgentMountRecord {
    pub agent_mount_id: AgentMountId,
    pub storage_volume_id: StorageVolumeId,
    pub mount_generation: MountGeneration,
    pub expected_volume_marker: VolumeMarkerId,
    pub desired_access_mode: MountAccessMode,
    pub mount_identity_digest: Option<AgentMountIdentityDigest>,
    pub observed_volume_marker: Option<VolumeMarkerId>,
    pub observed_access_mode: Option<MountAccessMode>,
    pub reported_health: Option<ResourceHealth>,
    pub health: ResourceHealth,
    pub observed_at_unix_ms: Option<UnixMillis>,
}

impl PartialEq for AgentMountRecord {
    fn eq(&self, other: &Self) -> (equal: bool) {
        self.agent_mount_id == other.agent_mount_id
            && self.storage_volume_id == other.storage_volume_id
            && self.mount_generation == other.mount_generation
            && self.expected_volume_marker == other.expected_volume_marker
            && self.desired_access_mode == other.desired_access_mode
            && self.mount_identity_digest == other.mount_identity_digest
            && self.observed_volume_marker == other.observed_volume_marker
            && self.observed_access_mode == other.observed_access_mode
            && self.reported_health == other.reported_health
            && self.health == other.health
            && self.observed_at_unix_ms == other.observed_at_unix_ms
    }
}

impl Same for AgentMountRecord {
    open spec fn same(self, other: Self) -> bool {
        &&& self.agent_mount_id.same(other.agent_mount_id)
        &&& self.storage_volume_id.same(other.storage_volume_id)
        &&& self.mount_generation == other.mount_generation
        &&& self.expected_volume_marker.same(other.expected_volume_marker)
        &&& self.desired_access_mode == other.desired_access_mode
        &&& self.mount_identity_digest == other.mount_identity_digest
        &&& self.observed_volume_marker.same(other.observed_volume_marker)
        &&& self.observed_access_mode == other.observed_access_mode
        &&& self.reported_health == other.reported_health
        &&& self.health == other.health
        &&& self.observed_at_unix_ms == other.observed_at_unix_ms
    }
}

impl vstd::std_specs::cmp::PartialEqSpecImpl for AgentMountRecord {
    open spec fn obeys_eq_spec() -> bool {
        true
    }

    open spec fn eq_spec(&self, other: &Self) -> bool {
        self.same(*other)
    }
}

impl Clone for AgentMountRecord {
    fn clone(&self) -> (copy: Self)
        ensures
            copy.same(*self),
            copy == *self,
    {
        Self {
            agent_mount_id: self.agent_mount_id.clone(),
            storage_volume_id: self.storage_volume_id.clone(),
            mount_generation: self.mount_generation,
            expected_volume_marker: self.expected_volume_marker.clone(),
            desired_access_mode: self.desired_access_mode,
            mount_identity_digest: self.mount_identity_digest,
            observed_volume_marker: self.observed_volume_marker.clone(),
            observed_access_mode: self.observed_access_mode,
            reported_health: self.reported_health,
            health: self.health,
            observed_at_unix_ms: self.observed_at_unix_ms,
        }
    }
}

/// Which Agent and mount may serve the Volume.
#[derive(Debug, Eq)]
pub struct VolumeOwnerRecord {
    pub tenant_id: TenantId,
    pub storage_volume_id: StorageVolumeId,
    pub active_agent_id: Option<AgentId>,
    pub active_agent_mount_id: Option<AgentMountId>,
    pub owner_generation: OwnerGeneration,
    pub state: VolumeOwnerState,
}

impl PartialEq for VolumeOwnerRecord {
    fn eq(&self, other: &Self) -> (equal: bool) {
        self.tenant_id == other.tenant_id
            && self.storage_volume_id == other.storage_volume_id
            && self.active_agent_id == other.active_agent_id
            && self.active_agent_mount_id == other.active_agent_mount_id
            && self.owner_generation == other.owner_generation
            && self.state == other.state
    }
}

impl Same for VolumeOwnerRecord {
    open spec fn same(self, other: Self) -> bool {
        &&& self.tenant_id.same(other.tenant_id)
        &&& self.storage_volume_id.same(other.storage_volume_id)
        &&& self.active_agent_id.same(other.active_agent_id)
        &&& self.active_agent_mount_id.same(other.active_agent_mount_id)
        &&& self.owner_generation == other.owner_generation
        &&& self.state == other.state
    }
}

impl vstd::std_specs::cmp::PartialEqSpecImpl for VolumeOwnerRecord {
    open spec fn obeys_eq_spec() -> bool {
        true
    }

    open spec fn eq_spec(&self, other: &Self) -> bool {
        self.same(*other)
    }
}

impl Clone for VolumeOwnerRecord {
    fn clone(&self) -> (copy: Self)
        ensures
            copy.same(*self),
            copy == *self,
    {
        Self {
            tenant_id: self.tenant_id.clone(),
            storage_volume_id: self.storage_volume_id.clone(),
            active_agent_id: self.active_agent_id.clone(),
            active_agent_mount_id: self.active_agent_mount_id.clone(),
            owner_generation: self.owner_generation,
            state: self.state,
        }
    }
}

/// One CAS aggregate keeps enrollment, identity, mount and ownership changes atomic.
#[derive(Eq)]
pub struct AgentRegistryRecord {
    pub resource_version: ResourceVersion,
    pub enrollment: AgentEnrollmentRecord,
    pub candidate: Option<AgentCandidateRecord>,
    pub instance: Option<AgentInstanceRecord>,
    pub mount: AgentMountRecord,
    pub owner: VolumeOwnerRecord,
    /// Immutable and atomically persisted with the enrollment decision CAS.
    pub decision_audit_event: Option<AgentEnrollmentAuditEvent>,
    pub storage_enrollment: StorageEnrollmentMetadata,
}

impl PartialEq for AgentRegistryRecord {
    fn eq(&self, other: &Self) -> (equal: bool) {
        self.resource_version == other.resource_version
            && self.enrollment == other.enrollment
            && self.candidate == other.candidate
            && self.instance == other.instance
            && self.mount == other.mount
            && self.owner == other.owner
            && self.decision_audit_event == other.decision_audit_event
            && self.storage_enrollment == other.storage_enrollment
    }
}

impl Same for AgentRegistryRecord {
    open spec fn same(self, other: Self) -> bool {
        &&& self.resource_version == other.resource_version
        &&& self.enrollment.same(other.enrollment)
        &&& self.candidate.same(other.candidate)
        &&& self.instance.same(other.instance)
        &&& self.mount.same(other.mount)
        &&& self.owner.same(other.owner)
        &&& self.decision_audit_event.same(other.decision_audit_event)
        &&& self.storage_enrollment.same(other.storage_enrollment)
    }
}

impl vstd::std_specs::cmp::PartialEqSpecImpl for AgentRegistryRecord {
    open spec fn obeys_eq_spec() -> bool {
        true
    }

    open spec fn eq_spec(&self, other: &Self) -> bool {
        self.same(*other)
    }
}

impl Clone for AgentRegistryRecord {
    fn clone(&self) -> (copy: Self)
        ensures
            copy.same(*self),
    {
        Self {
            resource_version: self.resource_version,
            enrollment: self.enrollment.clone(),
            candidate: self.candidate.clone(),
            instance: self.instance.clone(),
            mount: self.mount.clone(),
            owner: self.owner.clone(),
            decision_audit_event: self.decision_audit_event.clone(),
            storage_enrollment: self.storage_enrollment.clone(),
        }
    }
}

} // verus!
