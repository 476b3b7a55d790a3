//! Messages that the control plane exchanges with Agents and users.
use vstd::prelude::*;

use crate::digest::{ContentDigest, ManifestId, ObjectId};
use crate::equality::Same;
use crate::identifier::{
    AgentId, AgentMountId, ArtifactId, ArtifactPlacementId, AssignmentGeneration, AssignmentId,
    DecisionGeneration, EdgeClusterId, ErrorCode, Extensions, IndexRevision, JobId, LogicalPath,
    MetadataBatchId, MountGeneration, OpaqueText, OwnerGeneration, PlacementGeneration,
    PlaygroundId, PrincipalRef, ProjectId, ReceiptId, StorageVolumeId, TenantId, UnixMillis,
};
use crate::table::Replicate;
use crate::text::text_equals;

verus! {

/// State of a managed job.
#[derive(Debug, Clone, Copy, PartialEq, Eq, Structural)]
pub enum JobState {
    Queued,
    Assigned,
    Accepted,
    Running,
    Prepared,
    Publishing,
    CancelRequested,
    Succeeded,
    Conflicted,
    Rejected,
    Failed,
    Cancelled,
    TimedOut,
    RecoveryRequired,
    Unknown,
}

/// A state that a job never leaves. Which states these are is this library's own reading of the
/// protocol: a job that waits for recovery, or whose state is not known, is not at its end.
pub open spec fn is_terminal_state(state: JobState) -> bool {
    ||| state is Succeeded
    ||| state is Conflicted
    ||| state is Rejected
    ||| state is Failed
    ||| state is Cancelled
    ||| state is TimedOut
}

/// The name of a job state, as operators read it.
pub open spec fn state_text(state: JobState) -> Seq<char> {
    match state {
        JobState::Queued => "Queued"@,
        JobState::Assigned => "Assigned"@,
        JobState::Accepted => "Accepted"@,
        JobState::Running => "Running"@,
        JobState::Prepared => "Prepared"@,
        JobState::Publishing => "Publishing"@,
        JobState::CancelRequested => "CancelRequested"@,
        JobState::Succeeded => "Succeeded"@,
        JobState::Conflicted => "Conflicted"@,
        JobState::Rejected => "Rejected"@,
        JobState::Failed => "Failed"@,
        JobState::Cancelled => "Cancelled"@,
        JobState::TimedOut => "TimedOut"@,
        JobState::RecoveryRequired => "RecoveryRequired"@,
        JobState::Unknown => "Unknown"@,
    }
}

impl JobState {
    #[must_use]
    pub fn is_terminal(self) -> (terminal: bool)
        ensures
            terminal == is_terminal_state(self),
    {
        matches!(
            self,
            JobState::Succeeded
                | JobState::Conflicted
                | JobState::Rejected
                | JobState::Failed
                | JobState::Cancelled
                | JobState::TimedOut
        )
    }

    /// The name of this state, as operators read it.
    #[must_use]
    pub fn text(self) -> (text: &'static str)
        ensures
            text@ == state_text(self),
    {
        match self {
            JobState::Queued => "Queued",
            JobState::Assigned => "Assigned",
            JobState::Accepted => "Accepted",
            JobState::Running => "Running",
            JobState::Prepared => "Prepared",
            JobState::Publishing => "Publishing",
            JobState::CancelRequested => "CancelRequested",
            JobState::Succeeded => "Succeeded",
            JobState::Conflicted => "Conflicted",
            JobState::Rejected => "Rejected",
            JobState::Failed => "Failed",
            JobState::Cancelled => "Cancelled",
            JobState::TimedOut => "TimedOut",
            JobState::RecoveryRequired => "RecoveryRequired",
            JobState::Unknown => "Unknown",
        }
    }
}

/// What a managed job does.
#[derive(Debug, Clone, Copy, PartialEq, Eq, Structural)]
pub enum JobOperation {
    Add,
    WorkspaceMaterialize,
    SnapshotMount,
}

/// Revision and canonical digest of an Index.
#[derive(Debug, Eq)]
pub struct WireIndexVersion {
    pub revision: IndexRevision,
    pub digest: ContentDigest,
    pub extensions: Extensions,
}

impl PartialEq for WireIndexVersion {
    fn eq(&self, other: &Self) -> (equal: bool) {
        self.revision == other.revision
            && self.digest == other.digest
            && self.extensions == other.extensions
    }
}

impl Same for WireIndexVersion {
    open spec fn same(self, other: Self) -> bool {
        &&& self.revision == other.revision
        &&& self.digest == other.digest
        &&& self.extensions.same(other.extensions)
    }
}

impl vstd::std_specs::cmp::PartialEqSpecImpl for WireIndexVersion {
    open spec fn obeys_eq_spec() -> bool {
        true
    }

    open spec fn eq_spec(&self, other: &Self) -> bool {
        self.same(*other)
    }
}

impl Clone for WireIndexVersion {
    fn clone(&self) -> (copy: Self)
        ensures
            copy.same(*self),
            copy == *self,
    {
        Self {
            revision: self.revision,
            digest: self.digest,
            extensions: self.extensions.clone(),
        }
    }
}

/// A lease on an assignment.
#[derive(Debug, Eq)]
pub struct LeaseGrant {
    pub lease_id: OpaqueText,
    pub expires_at_unix_ms: UnixMillis,
    pub extensions: Extensions,
}

impl PartialEq for LeaseGrant {
    fn eq(&self, other: &Self) -> (equal: bool) {
        self.lease_id == other.lease_id
            && self.expires_at_unix_ms == other.expires_at_unix_ms
            && self.extensions == other.extensions
    }
}

impl Same for LeaseGrant {
    open spec fn same(self, other: Self) -> bool {
        &&& self.lease_id.same(other.lease_id)
        &&& self.expires_at_unix_ms == other.expires_at_unix_ms
        &&& self.extensions.same(other.extensions)
    }
}

impl vstd::std_specs::cmp::PartialEqSpecImpl for LeaseGrant {
    open spec fn obeys_eq_spec() -> bool {
        true
    }

    open spec fn eq_spec(&self, other: &Self) -> bool {
        self.same(*other)
    }
}

impl Clone for LeaseGrant {
    fn clone(&self) -> (copy: Self)
        ensures
            copy.same(*self),
            copy == *self,
    {
        Self {
            lease_id: self.lease_id.clone(),
            expires_at_unix_ms: self.expires_at_unix_ms,
            extensions: self.extensions.clone(),
        }
    }
}

/// A managed Add as handed to one Agent, with every generation that fences stale Agents.
#[derive(Debug, Eq)]
pub struct AddAssignment {
    pub job_id: JobId,
    pub assignment_id: AssignmentId,
    pub assignment_generation: AssignmentGeneration,
    pub agent_id: AgentId,
    pub principal: PrincipalRef,
    pub tenant_id: TenantId,
    pub project_id: ProjectId,
    pub artifact_id: ArtifactId,
    pub playground_id: PlaygroundId,
    pub edge_cluster_id: EdgeClusterId,
    pub storage_volume_id: StorageVolumeId,
    pub artifact_placement_id: ArtifactPlacementId,
    pub placement_generation: PlacementGeneration,
    pub agent_mount_id: AgentMountId,
    pub mount_generation: MountGeneration,
    pub owner_generation: OwnerGeneration,
    pub expected_index_version: WireIndexVersion,
    pub lease: Option<LeaseGrant>,
    pub request_digest: ContentDigest,
    pub deadline_unix_ms: UnixMillis,
    pub paths: Vec<LogicalPath>,
    pub all: bool,
    pub extensions: Extensions,
}

impl PartialEq for AddAssignment {
    fn eq(&self, other: &Self) -> (equal: bool) {
        self.job_id == other.job_id
            && self.assignment_id == other.assignment_id
            && self.assignment_generation == other.assignment_generation
            && self.agent_id == other.agent_id
            && self.principal == other.principal
            && self.tenant_id == other.tenant_id
            && self.project_id == other.project_id
            && self.artifact_id == other.artifact_id
            && self.playground_id == other.playground_id
            && self.edge_cluster_id == other.edge_cluster_id
            && self.storage_volume_id == other.storage_volume_id
            && self.artifact_placement_id == other.artifact_placement_id
            && self.placement_generation == other.placement_generation
            && self.agent_mount_id == other.agent_mount_id
            && self.mount_generation == other.mount_generation
            && self.owner_generation == other.owner_generation
            && self.expected_index_version == other.expected_index_version
            && self.lease == other.lease
            && self.request_digest == other.request_digest
            && self.deadline_unix_ms == other.deadline_unix_ms
            && self.paths == other.paths
            && self.all == other.all
            && self.extensions == other.extensions
    }
}

impl Same for AddAssignment {
    open spec fn same(self, other: Self) -> bool {
        &&& self.job_id.same(other.job_id)
        &&& self.assignment_id.same(other.assignment_id)
        &&& self.assignment_generation == other.assignment_generation
        &&& self.agent_id.same(other.agent_id)
        &&& self.principal.same(other.principal)
        &&& self.tenant_id.same(other.tenant_id)
        &&& self.project_id.same(other.project_id)
        &&& self.artifact_id.same(other.artifact_id)
        &&& self.playground_id.same(other.playground_id)
        &&& self.edge_cluster_id.same(other.edge_cluster_id)
        &&& self.storage_volume_id.same(other.storage_volume_id)
        &&& self.artifact_placement_id.same(other.artifact_placement_id)
        &&& self.placement_generation == other.placement_generation
        &&& self.agent_mount_id.same(other.agent_mount_id)
        &&& self.mount_generation == other.mount_generation
        &&& self.owner_generation == other.owner_generation
        &&& self.expected_index_version.same(other.expected_index_version)
        &&& self.lease.same(other.lease)
        &&& self.request_digest == other.request_digest
        &&& self.deadline_unix_ms == other.deadline_unix_ms
        &&& self.paths.same(other.paths)
        &&& self.all == other.all
        &&& self.extensions.same(other.extensions)
    }
}

impl vstd::std_specs::cmp::PartialEqSpecImpl for AddAssignment {
    open spec fn obeys_eq_spec() -> bool {
        true
    }

    open spec fn eq_spec(&self, other: &Self) -> bool {
        self.same(*other)
    }
}

impl Clone for AddAssignment {
    fn clone(&self) -> (copy: Self)
        ensures
            copy.same(*self),
    {
        Self {
            job_id: self.job_id.clone(),
            assignment_id: self.assignment_id.clone(),
            assignment_generation: self.assignment_generation,
            agent_id: self.agent_id.clone(),
            principal: self.principal.clone(),
            tenant_id: self.tenant_id.clone(),
            project_id: self.project_id.clone(),
            artifact_id: self.artifact_id.clone(),
            playground_id: self.playground_id.clone(),
            edge_cluster_id: self.edge_cluster_id.clone(),
            storage_volume_id: self.storage_volume_id.clone(),
            artifact_placement_id: self.artifact_placement_id.clone(),
            placement_generation: self.placement_generation,
            agent_mount_id: self.agent_mount_id.clone(),
            mount_generation: self.mount_generation,
            owner_generation: self.owner_generation,
            expected_index_version: self.expected_index_version.clone(),
            lease: self.lease.clone(),
            request_digest: self.request_digest,
            deadline_unix_ms: self.deadline_unix_ms,
            paths: self.paths.clone(),
            all: self.all,
            extensions: self.extensions.clone(),
        }
    }
}

/// What identifies an assignment and its recipient.
#[derive(Debug, Eq)]
pub struct AssignmentIdentity {
    pub tenant_id: TenantId,
    pub job_id: JobId,
    pub assignment_id: AssignmentId,
    pub agent_id: AgentId,
}

impl PartialEq for AssignmentIdentity {
    fn eq(&self, other: &Self) -> (equal: bool) {
        self.tenant_id == other.tenant_id
            && self.job_id == other.job_id
            && self.assignment_id == other.assignment_id
            && self.agent_id == other.agent_id
    }
}

impl Same for AssignmentIdentity {
    open spec fn same(self, other: Self) -> bool {
        &&& self.tenant_id.same(other.tenant_id)
        &&& self.job_id.same(other.job_id)
        &&& self.assignment_id.same(other.assignment_id)
        &&& self.agent_id.same(other.agent_id)
    }
}

impl vstd::std_specs::cmp::PartialEqSpecImpl for AssignmentIdentity {
    open spec fn obeys_eq_spec() -> bool {
        true
    }

    open spec fn eq_spec(&self, other: &Self) -> bool {
        self.same(*other)
    }
}

impl Clone for AssignmentIdentity {
    fn clone(&self) -> (copy: Self)
        ensures
            copy.same(*self),
            copy == *self,
    {
        Self {
            tenant_id: self.tenant_id.clone(),
            job_id: self.job_id.clone(),
            assignment_id: self.assignment_id.clone(),
            agent_id: self.agent_id.clone(),
        }
    }
}

/// The operation of an assignment.
#[derive(Debug, Eq)]
pub enum AssignmentOperation {
    Add {
        input: AddAssignment,
        extensions: Extensions,
    },
    /// An operation other than a managed Add, carried verbatim.
    Other {
        identity: AssignmentIdentity,
        payload: OpaqueText,
    },
}

impl PartialEq for AssignmentOperation {
    fn eq(&self, other: &Self) -> (equal: bool) {
        match (self, other) {
            (Self::Add { input, extensions }, Self::Add { input: other_input, extensions: other_extensions }) => *input == *other_input
                && *extensions == *other_extensions,
            (Self::Other { identity, payload }, Self::Other { identity: other_identity, payload: other_payload }) => *identity == *other_identity
                && *payload == *other_payload,
            _ => false,
        }
    }
}

impl Same for AssignmentOperation {
    open spec fn same(self, other: Self) -> bool {
        match (self, other) {
            (Self::Add { input, extensions }, Self::Add { input: other_input, extensions: other_extensions }) => {
                &&& input.same(other_input)
                &&& extensions.same(other_extensions)
            },
            (Self::Other { identity, payload }, Self::Other { identity: other_identity, payload: other_payload }) => {
                &&& identity.same(other_identity)
                &&& payload.same(other_payload)
            },
            _ => false,
        }
    }
}

impl vstd::std_specs::cmp::PartialEqSpecImpl for AssignmentOperation {
    open spec fn obeys_eq_spec() -> bool {
        true
    }

    open spec fn eq_spec(&self, other: &Self) -> bool {
        self.same(*other)
    }
}

impl Clone for AssignmentOperation {
    fn clone(&self) -> (copy: Self)
        ensures
            copy.same(*self),
    {
        match self {
            Self::Add { input, extensions } => Self::Add {
                input: input.clone(),
                extensions: extensions.clone(),
            },
            Self::Other { identity, payload } => Self::Other {
                identity: identity.clone(),
                payload: payload.clone(),
            },
        }
    }
}

/// The envelope in which an assignment is delivered.
#[derive(Debug, Eq)]
pub struct JobAssignment {
    pub assignment: AssignmentOperation,
    pub extensions: Extensions,
}

impl PartialEq for JobAssignment {
    fn eq(&self, other: &Self) -> (equal: bool) {
        self.assignment == other.assignment
            && self.extensions == other.extensions
    }
}

impl Same for JobAssignment {
    open spec fn same(self, other: Self) -> bool {
        &&& self.assignment.same(other.assignment)
        &&& self.extensions.same(other.extensions)
    }
}

impl vstd::std_specs::cmp::PartialEqSpecImpl for JobAssignment {
    open spec fn obeys_eq_spec() -> bool {
        true
    }

    open spec fn eq_spec(&self, other: &Self) -> bool {
        self.same(*other)
    }
}

impl Clone for JobAssignment {
    fn clone(&self) -> (copy: Self)
        ensures
            copy.same(*self),
    {
        Self {
            assignment: self.assignment.clone(),
            extensions: self.extensions.clone(),
        }
    }
}

impl Replicate for JobAssignment {
    fn replica(&self) -> (copy: Self) {
        self.clone()
    }
}

/// Tenant, job, assignment and Agent that an assignment belongs to.
pub open spec fn identity_of(assignment: JobAssignment) -> (Seq<char>, Seq<char>, Seq<char>, Seq<char>) {
    match assignment.assignment {
        AssignmentOperation::Add { input, .. } => (
            input.tenant_id@,
            input.job_id@,
            input.assignment_id@,
            input.agent_id@,
        ),
        AssignmentOperation::Other { identity, .. } => (
            identity.tenant_id@,
            identity.job_id@,
            identity.assignment_id@,
            identity.agent_id@,
        ),
    }
}

/// Tenant, job, assignment and Agent that an assignment belongs to.
#[must_use]
pub fn assignment_identity(assignment: &JobAssignment) -> (identity: (
    &TenantId,
    &JobId,
    &AssignmentId,
    &AgentId,
))
    ensures
        (identity.0@, identity.1@, identity.2@, identity.3@) == identity_of(*assignment),
{
    match &assignment.assignment {
        AssignmentOperation::Add { input, .. } => (
            &input.tenant_id,
            &input.job_id,
            &input.assignment_id,
            &input.agent_id,
        ),
        AssignmentOperation::Other { identity, .. } => (
            &identity.tenant_id,
            &identity.job_id,
            &identity.assignment_id,
            &identity.agent_id,
        ),
    }
}

/// A failure as it travels to Agents and users.
#[derive(Debug, Eq)]
pub struct ControlError {
    pub code: ErrorCode,
    pub message: String,
    pub retryable: bool,
    pub retry_after_ms: Option<u64>,
    pub extensions: Extensions,
}

impl PartialEq for ControlError {
    fn eq(&self, other: &Self) -> (equal: bool) {
        self.code == other.code
            && text_equals(self.message.as_str(), other.message.as_str())
            && self.retryable == other.retryable
            && self.retry_after_ms == other.retry_after_ms
            && self.extensions == other.extensions
    }
}

impl Same for ControlError {
    open spec fn same(self, other: Self) -> bool {
        &&& self.code.same(other.code)
        &&& self.message@ == other.message@
        &&& self.retryable == other.retryable
        &&& self.retry_after_ms == other.retry_after_ms
        &&& self.extensions.same(other.extensions)
    }
}

impl vstd::std_specs::cmp::PartialEqSpecImpl for ControlError {
    open spec fn obeys_eq_spec() -> bool {
        true
    }

    open spec fn eq_spec(&self, other: &Self) -> bool {
        self.same(*other)
    }
}

impl Clone for ControlError {
    fn clone(&self) -> (copy: Self)
        ensures
            copy.same(*self),
            copy == *self,
    {
        Self {
            code: self.code.clone(),
            message: self.message.clone(),
            retryable: self.retryable,
            retry_after_ms: self.retry_after_ms,
            extensions: self.extensions.clone(),
        }
    }
}

/// An Agent took its assignment.
#[derive(Debug, Eq)]
pub struct JobAccepted {
    pub job_id: JobId,
    pub assignment_id: AssignmentId,
    pub assignment_generation: AssignmentGeneration,
    pub request_digest: ContentDigest,
    pub extensions: Extensions,
}

impl PartialEq for JobAccepted {
    fn eq(&self, other: &Self) -> (equal: bool) {
        self.job_id == other.job_id
            && self.assignment_id == other.assignment_id
            && self.assignment_generation == other.assignment_generation
            && self.request_digest == other.request_digest
            && self.extensions == other.extensions
    }
}

impl Same for JobAccepted {
    open spec fn same(self, other: Self) -> bool {
        &&& self.job_id.same(other.job_id)
        &&& self.assignment_id.same(other.assignment_id)
        &&& self.assignment_generation == other.assignment_generation
        &&& self.request_digest == other.request_digest
        &&& self.extensions.same(other.extensions)
    }
}

impl vstd::std_specs::cmp::PartialEqSpecImpl for JobAccepted {
    open spec fn obeys_eq_spec() -> bool {
        true
    }

    open spec fn eq_spec(&self, other: &Self) -> bool {
        self.same(*other)
    }
}

impl Clone for JobAccepted {
    fn clone(&self) -> (copy: Self)
        ensures
            copy.same(*self),
            copy == *self,
    {
        Self {
            job_id: self.job_id.clone(),
            assignment_id: self.assignment_id.clone(),
            assignment_generation: self.assignment_generation,
            request_digest: self.request_digest,
            extensions: self.extensions.clone(),
        }
    }
}

/// An Agent works on its assignment.
#[derive(Debug, Eq)]
pub struct JobProgress {
    pub job_id: JobId,
    pub assignment_id: AssignmentId,
    pub assignment_generation: AssignmentGeneration,
    pub state: JobState,
    pub extensions: Extensions,
}

impl PartialEq for JobProgress {
    fn eq(&self, other: &Self) -> (equal: bool) {
        self.job_id == other.job_id
            && self.assignment_id == other.assignment_id
            && self.assignment_generation == other.assignment_generation
            && self.state == other.state
            && self.extensions == other.extensions
    }
}

impl Same for JobProgress {
    open spec fn same(self, other: Self) -> bool {
        &&& self.job_id.same(other.job_id)
        &&& self.assignment_id.same(other.assignment_id)
        &&& self.assignment_generation == other.assignment_generation
        &&& self.state == other.state
        &&& self.extensions.same(other.extensions)
    }
}

impl vstd::std_specs::cmp::PartialEqSpecImpl for JobProgress {
    open spec fn obeys_eq_spec() -> bool {
        true
    }

    open spec fn eq_spec(&self, other: &Self) -> bool {
        self.same(*other)
    }
}

impl Clone for JobProgress {
    fn clone(&self) -> (copy: Self)
        ensures
            copy.same(*self),
            copy == *self,
    {
        Self {
            job_id: self.job_id.clone(),
            assignment_id: self.assignment_id.clone(),
            assignment_generation: self.assignment_generation,
            state: self.state,
            extensions: self.extensions.clone(),
        }
    }
}

/// Where a metadata batch belongs.
#[derive(Debug, Eq)]
pub struct MetadataBatchScope {
    pub tenant_id: TenantId,
    pub artifact_id: ArtifactId,
    pub playground_id: PlaygroundId,
    pub job_id: JobId,
}

impl PartialEq for MetadataBatchScope {
    fn eq(&self, other: &Self) -> (equal: bool) {
        self.tenant_id == other.tenant_id
            && self.artifact_id == other.artifact_id
            && self.playground_id == other.playground_id
            && self.job_id == other.job_id
    }
}

impl Same for MetadataBatchScope {
    open spec fn same(self, other: Self) -> bool {
        &&& self.tenant_id.same(other.tenant_id)
        &&& self.artifact_id.same(other.artifact_id)
        &&& self.playground_id.same(other.playground_id)
        &&& self.job_id.same(other.job_id)
    }
}

impl vstd::std_specs::cmp::PartialEqSpecImpl for MetadataBatchScope {
    open spec fn obeys_eq_spec() -> bool {
        true
    }

    open spec fn eq_spec(&self, other: &Self) -> bool {
        self.same(*other)
    }
}

impl Clone for MetadataBatchScope {
    fn clone(&self) -> (copy: Self)
        ensures
            copy.same(*self),
            copy == *self,
    {
        Self {
            tenant_id: self.tenant_id.clone(),
            artifact_id: self.artifact_id.clone(),
            playground_id: self.playground_id.clone(),
            job_id: self.job_id.clone(),
        }
    }
}

/// A declared metadata batch. `content` holds the members that only its digest check reads.
#[derive(Debug, Eq)]
pub struct MetadataBatchDescriptor {
    pub batch_id: MetadataBatchId,
    pub scope: MetadataBatchScope,
    pub page_count: u32,
    pub content: OpaqueText,
}

impl PartialEq for MetadataBatchDescriptor {
    fn eq(&self, other: &Self) -> (equal: bool) {
        self.batch_id == other.batch_id
            && self.scope == other.scope
            && self.page_count == other.page_count
            && self.content == other.content
    }
}

impl Same for MetadataBatchDescriptor {
    open spec fn same(self, other: Self) -> bool {
        &&& self.batch_id.same(other.batch_id)
        &&& self.scope.same(other.scope)
        &&& self.page_count == other.page_count
        &&& self.content.same(other.content)
    }
}

impl vstd::std_specs::cmp::PartialEqSpecImpl for MetadataBatchDescriptor {
    open spec fn obeys_eq_spec() -> bool {
        true
    }

    open spec fn eq_spec(&self, other: &Self) -> bool {
        self.same(*other)
    }
}

impl Clone for MetadataBatchDescriptor {
    fn clone(&self) -> (copy: Self)
        ensures
            copy.same(*self),
            copy == *self,
    {
        Self {
            batch_id: self.batch_id.clone(),
            scope: self.scope.clone(),
            page_count: self.page_count,
            content: self.content.clone(),
        }
    }
}

/// One page of a metadata batch.
#[derive(Debug, Eq)]
pub struct MetadataBatchPage {
    pub batch_id: MetadataBatchId,
    pub page_number: u32,
    pub content: OpaqueText,
}

impl PartialEq for MetadataBatchPage {
    fn eq(&self, other: &Self) -> (equal: bool) {
        self.batch_id == other.batch_id
            && self.page_number == other.page_number
            && self.content == other.content
    }
}

impl Same for MetadataBatchPage {
    open spec fn same(self, other: Self) -> bool {
        &&& self.batch_id.same(other.batch_id)
        &&& self.page_number == other.page_number
        &&& self.content.same(other.content)
    }
}

impl vstd::std_specs::cmp::PartialEqSpecImpl for MetadataBatchPage {
    open spec fn obeys_eq_spec() -> bool {
        true
    }

    open spec fn eq_spec(&self, other: &Self) -> bool {
        self.same(*other)
    }
}

impl Clone for MetadataBatchPage {
    fn clone(&self) -> (copy: Self)
        ensures
            copy.same(*self),
            copy == *self,
    {
        Self {
            batch_id: self.batch_id.clone(),
            page_number: self.page_number,
            content: self.content.clone(),
        }
    }
}

impl Replicate for MetadataBatchPage {
    fn replica(&self) -> (copy: Self) {
        self.clone()
    }
}

/// An Agent staged what it wants to publish.
#[derive(Debug, Eq)]
pub struct JobPrepared {
    pub job_id: JobId,
    pub assignment_id: AssignmentId,
    pub assignment_generation: AssignmentGeneration,
    pub result_index_digest: ContentDigest,
    pub publication_digest: ContentDigest,
    pub metadata_batches: Vec<MetadataBatchDescriptor>,
    pub extensions: Extensions,
}

impl PartialEq for JobPrepared {
    fn eq(&self, other: &Self) -> (equal: bool) {
        self.job_id == other.job_id
            && self.assignment_id == other.assignment_id
            && self.assignment_generation == other.assignment_generation
            && self.result_index_digest == other.result_index_digest
            && self.publication_digest == other.publication_digest
            && self.metadata_batches == other.metadata_batches
            && self.extensions == other.extensions
    }
}

impl Same for JobPrepared {
    open spec fn same(self, other: Self) -> bool {
        &&& self.job_id.same(other.job_id)
        &&& self.assignment_id.same(other.assignment_id)
        &&& self.assignment_generation == other.assignment_generation
        &&& self.result_index_digest == other.result_index_digest
        &&& self.publication_digest == other.publication_digest
        &&& self.metadata_batches.same(other.metadata_batches)
        &&& self.extensions.same(other.extensions)
    }
}

impl vstd::std_specs::cmp::PartialEqSpecImpl for JobPrepared {
    open spec fn obeys_eq_spec() -> bool {
        true
    }

    open spec fn eq_spec(&self, other: &Self) -> bool {
        self.same(*other)
    }
}

impl Clone for JobPrepared {
    fn clone(&self) -> (copy: Self)
        ensures
            copy.same(*self),
    {
        Self {
            job_id: self.job_id.clone(),
            assignment_id: self.assignment_id.clone(),
            assignment_generation: self.assignment_generation,
            result_index_digest: self.result_index_digest,
            publication_digest: self.publication_digest,
            metadata_batches: self.metadata_batches.clone(),
            extensions: self.extensions.clone(),
        }
    }
}

/// The outcome of a publication.
#[derive(Debug, Eq)]
pub enum PublishDecision {
    Publish {
        published_index_version: WireIndexVersion,
        extensions: Extensions,
    },
    Conflict {
        current_index_version: WireIndexVersion,
        extensions: Extensions,
    },
    Reject {
        error: ControlError,
        extensions: Extensions,
    },
}

impl PartialEq for PublishDecision {
    fn eq(&self, other: &Self) -> (equal: bool) {
        match (self, other) {
            (Self::Publish { published_index_version, extensions }, Self::Publish { published_index_version: other_published_index_version, extensions: other_extensions }) => *published_index_version == *other_published_index_version
                && *extensions == *other_extensions,
            (Self::Conflict { current_index_version, extensions }, Self::Conflict { current_index_version: other_current_index_version, extensions: other_extensions }) => *current_index_version == *other_current_index_version
                && *extensions == *other_extensions,
            (Self::Reject { error, extensions }, Self::Reject { error: other_error, extensions: other_extensions }) => *error == *other_error
                && *extensions == *other_extensions,
            _ => false,
        }
    }
}

impl Same for PublishDecision {
    open spec fn same(self, other: Self) -> bool {
        match (self, other) {
            (Self::Publish { published_index_version, extensions }, Self::Publish { published_index_version: other_published_index_version, extensions: other_extensions }) => {
                &&& published_index_version.same(other_published_index_version)
                &&& extensions.same(other_extensions)
            },
            (Self::Conflict { current_index_version, extensions }, Self::Conflict { current_index_version: other_current_index_version, extensions: other_extensions }) => {
                &&& current_index_version.same(other_current_index_version)
                &&& extensions.same(other_extensions)
            },
            (Self::Reject { error, extensions }, Self::Reject { error: other_error, extensions: other_extensions }) => {
                &&& error.same(other_error)
                &&& extensions.same(other_extensions)
            },
            _ => false,
        }
    }
}

impl vstd::std_specs::cmp::PartialEqSpecImpl for PublishDecision {
    open spec fn obeys_eq_spec() -> bool {
        true
    }

    open spec fn eq_spec(&self, other: &Self) -> bool {
        self.same(*other)
    }
}

impl Clone for PublishDecision {
    fn clone(&self) -> (copy: Self)
        ensures
            copy.same(*self),
            copy == *self,
    {
        match self {
            Self::Publish { published_index_version, extensions } => Self::Publish {
                published_index_version: published_index_version.clone(),
                extensions: extensions.clone(),
            },
            Self::Conflict { current_index_version, extensions } => Self::Conflict {
                current_index_version: current_index_version.clone(),
                extensions: extensions.clone(),
            },
            Self::Reject { error, extensions } => Self::Reject {
                error: error.clone(),
                extensions: extensions.clone(),
            },
        }
    }
}

/// The terminal decision on a job.
#[derive(Debug, Eq)]
pub struct JobDecision {
    pub job_id: JobId,
    pub assignment_id: AssignmentId,
    pub assignment_generation: AssignmentGeneration,
    pub decision_generation: DecisionGeneration,
    pub decision: PublishDecision,
    pub final_state: JobState,
    pub extensions: Extensions,
}

impl PartialEq for JobDecision {
    fn eq(&self, other: &Self) -> (equal: bool) {
        self.job_id == other.job_id
            && self.assignment_id == other.assignment_id
            && self.assignment_generation == other.assignment_generation
            && self.decision_generation == other.decision_generation
            && self.decision == other.decision
            && self.final_state == other.final_state
            && self.extensions == other.extensions
    }
}

impl Same for JobDecision {
    open spec fn same(self, other: Self) -> bool {
        &&& self.job_id.same(other.job_id)
        &&& self.assignment_id.same(other.assignment_id)
        &&& self.assignment_generation == other.assignment_generation
        &&& self.decision_generation == other.decision_generation
        &&& self.decision.same(other.decision)
        &&& self.final_state == other.final_state
        &&& self.extensions.same(other.extensions)
    }
}

impl vstd::std_specs::cmp::PartialEqSpecImpl for JobDecision {
    open spec fn obeys_eq_spec() -> bool {
        true
    }

    open spec fn eq_spec(&self, other: &Self) -> bool {
        self.same(*other)
    }
}

impl Clone for JobDecision {
    fn clone(&self) -> (copy: Self)
        ensures
            copy.same(*self),
            copy == *self,
    {
        Self {
            job_id: self.job_id.clone(),
            assignment_id: self.assignment_id.clone(),
            assignment_generation: self.assignment_generation,
            decision_generation: self.decision_generation,
            decision: self.decision.clone(),
            final_state: self.final_state,
            extensions: self.extensions.clone(),
        }
    }
}

/// A job reached its terminal state.
#[derive(Debug, Eq)]
pub struct JobFinalized {
    pub job_id: JobId,
    pub assignment_id: AssignmentId,
    pub assignment_generation: AssignmentGeneration,
    pub decision_generation: DecisionGeneration,
    pub final_state: JobState,
    pub finalized_at_unix_ms: UnixMillis,
    pub extensions: Extensions,
}

impl PartialEq for JobFinalized {
    fn eq(&self, other: &Self) -> (equal: bool) {
        self.job_id == other.job_id
            && self.assignment_id == other.assignment_id
            && self.assignment_generation == other.assignment_generation
            && self.decision_generation == other.decision_generation
            && self.final_state == other.final_state
            && self.finalized_at_unix_ms == other.finalized_at_unix_ms
            && self.extensions == other.extensions
    }
}

impl Same for JobFinalized {
    open spec fn same(self, other: Self) -> bool {
        &&& self.job_id.same(other.job_id)
        &&& self.assignment_id.same(other.assignment_id)
        &&& self.assignment_generation == other.assignment_generation
        &&& self.decision_generation == other.decision_generation
        &&& self.final_state == other.final_state
        &&& self.finalized_at_unix_ms == other.finalized_at_unix_ms
        &&& self.extensions.same(other.extensions)
    }
}

impl vstd::std_specs::cmp::PartialEqSpecImpl for JobFinalized {
    open spec fn obeys_eq_spec() -> bool {
        true
    }

    open spec fn eq_spec(&self, other: &Self) -> bool {
        self.same(*other)
    }
}

impl Clone for JobFinalized {
    fn clone(&self) -> (copy: Self)
        ensures
            copy.same(*self),
            copy == *self,
    {
        Self {
            job_id: self.job_id.clone(),
            assignment_id: self.assignment_id.clone(),
            assignment_generation: self.assignment_generation,
            decision_generation: self.decision_generation,
            final_state: self.final_state,
            finalized_at_unix_ms: self.finalized_at_unix_ms,
            extensions: self.extensions.clone(),
        }
    }
}

/// An Agent gave a job up.
#[derive(Debug, Eq)]
pub struct JobFailed {
    pub tenant_id: TenantId,
    pub job_id: JobId,
    pub assignment_id: AssignmentId,
    pub assignment_generation: AssignmentGeneration,
    pub final_state: JobState,
    pub error: ControlError,
    pub failed_at_unix_ms: UnixMillis,
    pub extensions: Extensions,
}

impl PartialEq for JobFailed {
    fn eq(&self, other: &Self) -> (equal: bool) {
        self.tenant_id == other.tenant_id
            && self.job_id == other.job_id
            && self.assignment_id == other.assignment_id
            && self.assignment_generation == other.assignment_generation
            && self.final_state == other.final_state
            && self.error == other.error
            && self.failed_at_unix_ms == other.failed_at_unix_ms
            && self.extensions == other.extensions
    }
}

impl Same for JobFailed {
    open spec fn same(self, other: Self) -> bool {
        &&& self.tenant_id.same(other.tenant_id)
        &&& self.job_id.same(other.job_id)
        &&& self.assignment_id.same(other.assignment_id)
        &&& self.assignment_generation == other.assignment_generation
        &&& self.final_state == other.final_state
        &&& self.error.same(other.error)
        &&& self.failed_at_unix_ms == other.failed_at_unix_ms
        &&& self.extensions.same(other.extensions)
    }
}

impl vstd::std_specs::cmp::PartialEqSpecImpl for JobFailed {
    open spec fn obeys_eq_spec() -> bool {
        true
    }

    open spec fn eq_spec(&self, other: &Self) -> bool {
        self.same(*other)
    }
}

impl Clone for JobFailed {
    fn clone(&self) -> (copy: Self)
        ensures
            copy.same(*self),
            copy == *self,
    {
        Self {
            tenant_id: self.tenant_id.clone(),
            job_id: self.job_id.clone(),
            assignment_id: self.assignment_id.clone(),
            assignment_generation: self.assignment_generation,
            final_state: self.final_state,
            error: self.error.clone(),
            failed_at_unix_ms: self.failed_at_unix_ms,
            extensions: self.extensions.clone(),
        }
    }
}

/// A Manifest. `content` is its canonical text.
#[derive(Debug, Eq)]
pub struct Manifest {
    pub total_size: u64,
    pub content: OpaqueText,
}

impl PartialEq for Manifest {
    fn eq(&self, other: &Self) -> (equal: bool) {
        self.total_size == other.total_size
            && self.content == other.content
    }
}

impl Same for Manifest {
    open spec fn same(self, other: Self) -> bool {
        &&& self.total_size == other.total_size
        &&& self.content.same(other.content)
    }
}

impl vstd::std_specs::cmp::PartialEqSpecImpl for Manifest {
    open spec fn obeys_eq_spec() -> bool {
        true
    }

    open spec fn eq_spec(&self, other: &Self) -> bool {
        self.same(*other)
    }
}

impl Clone for Manifest {
    fn clone(&self) -> (copy: Self)
        ensures
            copy.same(*self),
            copy == *self,
    {
        Self {
            total_size: self.total_size,
            content: self.content.clone(),
        }
    }
}

/// One file of an Index.
#[derive(Debug, Eq)]
pub struct FileRecord {
    pub path: LogicalPath,
    pub manifest_id: ManifestId,
    pub total_size: u64,
    pub chunk_count: u64,
}

impl PartialEq for FileRecord {
    fn eq(&self, other: &Self) -> (equal: bool) {
        self.path == other.path
            && self.manifest_id == other.manifest_id
            && self.total_size == other.total_size
            && self.chunk_count == other.chunk_count
    }
}

impl Same for FileRecord {
    open spec fn same(self, other: Self) -> bool {
        &&& self.path.same(other.path)
        &&& self.manifest_id == other.manifest_id
        &&& self.total_size == other.total_size
        &&& self.chunk_count == other.chunk_count
    }
}

impl vstd::std_specs::cmp::PartialEqSpecImpl for FileRecord {
    open spec fn obeys_eq_spec() -> bool {
        true
    }

    open spec fn eq_spec(&self, other: &Self) -> bool {
        self.same(*other)
    }
}

impl Clone for FileRecord {
    fn clone(&self) -> (copy: Self)
        ensures
            copy.same(*self),
            copy == *self,
    {
        Self {
            path: self.path.clone(),
            manifest_id: self.manifest_id,
            total_size: self.total_size,
            chunk_count: self.chunk_count,
        }
    }
}

impl Replicate for FileRecord {
    fn replica(&self) -> (copy: Self) {
        self.clone()
    }
}

/// One change to an Index.
#[derive(Debug, Eq)]
pub enum IndexDeltaRecord {
    Upsert {
        path: LogicalPath,
        manifest_id: ManifestId,
        total_size: u64,
        chunk_count: u64,
        extensions: Extensions,
    },
    Delete {
        path: LogicalPath,
        extensions: Extensions,
    },
}

impl PartialEq for IndexDeltaRecord {
    fn eq(&self, other: &Self) -> (equal: bool) {
        match (self, other) {
            (Self::Upsert { path, manifest_id, total_size, chunk_count, extensions }, Self::Upsert { path: other_path, manifest_id: other_manifest_id, total_size: other_total_size, chunk_count: other_chunk_count, extensions: other_extensions }) => *path == *other_path
                && *manifest_id == *other_manifest_id
                && *total_size == *other_total_size
                && *chunk_count == *other_chunk_count
                && *extensions == *other_extensions,
            (Self::Delete { path, extensions }, Self::Delete { path: other_path, extensions: other_extensions }) => *path == *other_path
                && *extensions == *other_extensions,
            _ => false,
        }
    }
}

impl Same for IndexDeltaRecord {
    open spec fn same(self, other: Self) -> bool {
        match (self, other) {
            (Self::Upsert { path, manifest_id, total_size, chunk_count, extensions }, Self::Upsert { path: other_path, manifest_id: other_manifest_id, total_size: other_total_size, chunk_count: other_chunk_count, extensions: other_extensions }) => {
                &&& path.same(other_path)
                &&& manifest_id == other_manifest_id
                &&& total_size == other_total_size
                &&& chunk_count == other_chunk_count
                &&& extensions.same(other_extensions)
            },
            (Self::Delete { path, extensions }, Self::Delete { path: other_path, extensions: other_extensions }) => {
                &&& path.same(other_path)
                &&& extensions.same(other_extensions)
            },
            _ => false,
        }
    }
}

impl vstd::std_specs::cmp::PartialEqSpecImpl for IndexDeltaRecord {
    open spec fn obeys_eq_spec() -> bool {
        true
    }

    open spec fn eq_spec(&self, other: &Self) -> bool {
        self.same(*other)
    }
}

impl Clone for IndexDeltaRecord {
    fn clone(&self) -> (copy: Self)
        ensures
            copy.same(*self),
            copy == *self,
    {
        match self {
            Self::Upsert { path, manifest_id, total_size, chunk_count, extensions } => Self::Upsert {
                path: path.clone(),
                manifest_id: *manifest_id,
                total_size: *total_size,
                chunk_count: *chunk_count,
                extensions: extensions.clone(),
            },
            Self::Delete { path, extensions } => Self::Delete {
                path: path.clone(),
                extensions: extensions.clone(),
            },
        }
    }
}

/// An Agent's receipt for an object that it holds.
#[derive(Debug, Eq)]
pub struct ObjectReceipt {
    pub tenant_id: TenantId,
    pub receipt_id: ReceiptId,
    pub artifact_id: ArtifactId,
    pub job_id: JobId,
    pub storage_volume_id: StorageVolumeId,
    pub artifact_placement_id: ArtifactPlacementId,
    pub object_id: ObjectId,
    pub size: u64,
    pub verified_at_unix_ms: UnixMillis,
}

impl PartialEq for ObjectReceipt {
    fn eq(&self, other: &Self) -> (equal: bool) {
        self.tenant_id == other.tenant_id
            && self.receipt_id == other.receipt_id
            && self.artifact_id == other.artifact_id
            && self.job_id == other.job_id
            && self.storage_volume_id == other.storage_volume_id
            && self.artifact_placement_id == other.artifact_placement_id
            && self.object_id == other.object_id
            && self.size == other.size
            && self.verified_at_unix_ms == other.verified_at_unix_ms
    }
}

impl Same for ObjectReceipt {
    open spec fn same(self, other: Self) -> bool {
        &&& self.tenant_id.same(other.tenant_id)
        &&& self.receipt_id.same(other.receipt_id)
        &&& self.artifact_id.same(other.artifact_id)
        &&& self.job_id.same(other.job_id)
        &&& self.storage_volume_id.same(other.storage_volume_id)
        &&& self.artifact_placement_id.same(other.artifact_placement_id)
        &&& self.object_id == other.object_id
        &&& self.size == other.size
        &&& self.verified_at_unix_ms == other.verified_at_unix_ms
    }
}

impl vstd::std_specs::cmp::PartialEqSpecImpl for ObjectReceipt {
    open spec fn obeys_eq_spec() -> bool {
        true
    }

    open spec fn eq_spec(&self, other: &Self) -> bool {
        self.same(*other)
    }
}

impl Clone for ObjectReceipt {
    fn clone(&self) -> (copy: Self)
        ensures
            copy.same(*self),
            copy == *self,
    {
        Self {
            tenant_id: self.tenant_id.clone(),
            receipt_id: self.receipt_id.clone(),
            artifact_id: self.artifact_id.clone(),
            job_id: self.job_id.clone(),
            storage_volume_id: self.storage_volume_id.clone(),
            artifact_placement_id: self.artifact_placement_id.clone(),
            object_id: self.object_id,
            size: self.size,
            verified_at_unix_ms: self.verified_at_unix_ms,
        }
    }
}

/// Authenticated evidence for bytes held by one Volume placement generation.
#[derive(Debug, Eq)]
pub struct ObjectPlacementEvidence {
    pub receipt: ObjectReceipt,
    pub placement_generation: PlacementGeneration,
}

impl PartialEq for ObjectPlacementEvidence {
    fn eq(&self, other: &Self) -> (equal: bool) {
        self.receipt == other.receipt
            && self.placement_generation == other.placement_generation
    }
}

impl Same for ObjectPlacementEvidence {
    open spec fn same(self, other: Self) -> bool {
        &&& self.receipt.same(other.receipt)
        &&& self.placement_generation == other.placement_generation
    }
}

impl vstd::std_specs::cmp::PartialEqSpecImpl for ObjectPlacementEvidence {
    open spec fn obeys_eq_spec() -> bool {
        true
    }

    open spec fn eq_spec(&self, other: &Self) -> bool {
        self.same(*other)
    }
}

impl Clone for ObjectPlacementEvidence {
    fn clone(&self) -> (copy: Self)
        ensures
            copy.same(*self),
            copy == *self,
    {
        Self {
            receipt: self.receipt.clone(),
            placement_generation: self.placement_generation,
        }
    }
}

impl Replicate for ObjectPlacementEvidence {
    fn replica(&self) -> (copy: Self) {
        self.clone()
    }
}

} // verus!
