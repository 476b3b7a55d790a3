//! Records and requests of the managed Add control plane.
use vstd::prelude::*;

use crate::digest::{ContentDigest, ObjectId};
use crate::equality::Same;
use crate::identifier::{
    AgentId, AgentMountId, ArtifactId, ArtifactPlacementId, AssignmentGeneration, AssignmentId,
    EdgeClusterId, Extensions, JobId, LogicalPath, MetadataBatchId, MountGeneration,
    OwnerGeneration, PlacementGeneration, PlaygroundId, PrincipalRef, ProjectId, ResourceVersion,
    StorageVolumeId, TenantId, UnixMillis,
};
use crate::protocol::{
    AddAssignment, FileRecord, IndexDeltaRecord, JobAccepted, JobAssignment, JobDecision,
    JobFailed, JobFinalized, JobOperation, JobPrepared, JobProgress, JobState, LeaseGrant,
    Manifest, MetadataBatchDescriptor, MetadataBatchPage, WireIndexVersion,
};
use crate::table::{is_ordered, Named, OrderedKey, Replicate, Table};
use crate::text::{
    lemma_text_before_irreflexive, lemma_text_before_total, lemma_text_before_transitive,
    text_before, text_equals,
};

verus! {

/// Immutable tenant/artifact/workspace authority scope for one managed Add job.
#[derive(Debug, Eq)]
pub struct AddJobSpec {
    pub job_id: JobId,
    pub principal: PrincipalRef,
    pub tenant_id: TenantId,
    pub project_id: ProjectId,
    pub artifact_id: ArtifactId,
    pub playground_id: PlaygroundId,
    pub expected_index_version: WireIndexVersion,
    pub request_digest: ContentDigest,
    pub deadline_unix_ms: UnixMillis,
    pub paths: Vec<LogicalPath>,
    pub all: bool,
    /// Unknown user-operation members retained verbatim and bound by `request_digest`.
    pub extensions: Extensions,
}

impl PartialEq for AddJobSpec {
    fn eq(&self, other: &Self) -> (equal: bool) {
        self.job_id == other.job_id
            && self.principal == other.principal
            && self.tenant_id == other.tenant_id
            && self.project_id == other.project_id
            && self.artifact_id == other.artifact_id
            && self.playground_id == other.playground_id
            && self.expected_index_version == other.expected_index_version
            && self.request_digest == other.request_digest
            && self.deadline_unix_ms == other.deadline_unix_ms
            && self.paths == other.paths
            && self.all == other.all
            && self.extensions == other.extensions
    }
}

impl Same for AddJobSpec {
    open spec fn same(self, other: Self) -> bool {
        &&& self.job_id.same(other.job_id)
        &&& self.principal.same(other.principal)
        &&& self.tenant_id.same(other.tenant_id)
        &&& self.project_id.same(other.project_id)
        &&& self.artifact_id.same(other.artifact_id)
        &&& self.playground_id.same(other.playground_id)
        &&& self.expected_index_version.same(other.expected_index_version)
        &&& self.request_digest == other.request_digest
        &&& self.deadline_unix_ms == other.deadline_unix_ms
        &&& self.paths.same(other.paths)
        &&& self.all == other.all
        &&& self.extensions.same(other.extensions)
    }
}

impl vstd::std_specs::cmp::PartialEqSpecImpl for AddJobSpec {
    open spec fn obeys_eq_spec() -> bool {
        true
    }

    open spec fn eq_spec(&self, other: &Self) -> bool {
        self.same(*other)
    }
}

impl Clone for AddJobSpec {
    fn clone(&self) -> (copy: Self)
        ensures
            copy.same(*self),
    {
        Self {
            job_id: self.job_id.clone(),
            principal: self.principal.clone(),
            tenant_id: self.tenant_id.clone(),
            project_id: self.project_id.clone(),
            artifact_id: self.artifact_id.clone(),
            playground_id: self.playground_id.clone(),
            expected_index_version: self.expected_index_version.clone(),
            request_digest: self.request_digest,
            deadline_unix_ms: self.deadline_unix_ms,
            paths: self.paths.clone(),
            all: self.all,
            extensions: self.extensions.clone(),
        }
    }
}

/// What a user asked for; the request digest covers exactly these fields.
#[derive(Debug, Eq)]
pub struct AddOperation {
    pub job_id: JobId,
    pub principal: PrincipalRef,
    pub tenant_id: TenantId,
    pub project_id: ProjectId,
    pub artifact_id: ArtifactId,
    pub playground_id: PlaygroundId,
    pub expected_index_version: WireIndexVersion,
    pub deadline_unix_ms: UnixMillis,
    pub paths: Vec<LogicalPath>,
    pub all: bool,
    pub extensions: Extensions,
}

impl PartialEq for AddOperation {
    fn eq(&self, other: &Self) -> (equal: bool) {
        self.job_id == other.job_id
            && self.principal == other.principal
            && self.tenant_id == other.tenant_id
            && self.project_id == other.project_id
            && self.artifact_id == other.artifact_id
            && self.playground_id == other.playground_id
            && self.expected_index_version == other.expected_index_version
            && self.deadline_unix_ms == other.deadline_unix_ms
            && self.paths == other.paths
            && self.all == other.all
            && self.extensions == other.extensions
    }
}

impl Same for AddOperation {
    open spec fn same(self, other: Self) -> bool {
        &&& self.job_id.same(other.job_id)
        &&& self.principal.same(other.principal)
        &&& self.tenant_id.same(other.tenant_id)
        &&& self.project_id.same(other.project_id)
        &&& self.artifact_id.same(other.artifact_id)
        &&& self.playground_id.same(other.playground_id)
        &&& self.expected_index_version.same(other.expected_index_version)
        &&& self.deadline_unix_ms == other.deadline_unix_ms
        &&& self.paths.same(other.paths)
        &&& self.all == other.all
        &&& self.extensions.same(other.extensions)
    }
}

impl vstd::std_specs::cmp::PartialEqSpecImpl for AddOperation {
    open spec fn obeys_eq_spec() -> bool {
        true
    }

    open spec fn eq_spec(&self, other: &Self) -> bool {
        self.same(*other)
    }
}

impl Clone for AddOperation {
    fn clone(&self) -> (copy: Self)
        ensures
            copy.same(*self),
    {
        Self {
            job_id: self.job_id.clone(),
            principal: self.principal.clone(),
            tenant_id: self.tenant_id.clone(),
            project_id: self.project_id.clone(),
            artifact_id: self.artifact_id.clone(),
            playground_id: self.playground_id.clone(),
            expected_index_version: self.expected_index_version.clone(),
            deadline_unix_ms: self.deadline_unix_ms,
            paths: self.paths.clone(),
            all: self.all,
            extensions: self.extensions.clone(),
        }
    }
}

impl AddJobSpec {
    /// The part of the specification that the request digest covers.
    #[must_use]
    pub fn operation(&self) -> (operation: AddOperation)
        ensures
            operation.job_id == self.job_id,
            operation.principal == self.principal,
            operation.tenant_id == self.tenant_id,
            operation.project_id == self.project_id,
            operation.artifact_id == self.artifact_id,
            operation.playground_id == self.playground_id,
            operation.expected_index_version == self.expected_index_version,
            operation.deadline_unix_ms == self.deadline_unix_ms,
            operation.paths@.same(self.paths@),
            operation.all == self.all,
            operation.extensions == self.extensions,
    {
        AddOperation {
            job_id: self.job_id.clone(),
            principal: self.principal.clone(),
            tenant_id: self.tenant_id.clone(),
            project_id: self.project_id.clone(),
            artifact_id: self.artifact_id.clone(),
            playground_id: self.playground_id.clone(),
            expected_index_version: self.expected_index_version.clone(),
            deadline_unix_ms: self.deadline_unix_ms,
            paths: self.paths.clone(),
            all: self.all,
            extensions: self.extensions.clone(),
        }
    }
}

/// The tenant-scoped identity of a job.
#[derive(Debug, Eq)]
pub struct JobKey {
    pub tenant_id: TenantId,
    pub job_id: JobId,
}

impl PartialEq for JobKey {
    fn eq(&self, other: &Self) -> (equal: bool) {
        self.tenant_id == other.tenant_id
            && self.job_id == other.job_id
    }
}

impl Same for JobKey {
    open spec fn same(self, other: Self) -> bool {
        &&& self.tenant_id.same(other.tenant_id)
        &&& self.job_id.same(other.job_id)
    }
}

impl vstd::std_specs::cmp::PartialEqSpecImpl for JobKey {
    open spec fn obeys_eq_spec() -> bool {
        true
    }

    open spec fn eq_spec(&self, other: &Self) -> bool {
        self.same(*other)
    }
}

impl Clone for JobKey {
    fn clone(&self) -> (copy: Self)
        ensures
            copy.same(*self),
            copy == *self,
    {
        Self {
            tenant_id: self.tenant_id.clone(),
            job_id: self.job_id.clone(),
        }
    }
}

impl JobKey {
    #[must_use]
    pub fn new(tenant_id: TenantId, job_id: JobId) -> (key: Self)
        ensures
            key.tenant_id == tenant_id,
            key.job_id == job_id,
    {
        Self { tenant_id, job_id }
    }
}

/// The order of jobs: by tenant, then by job.
pub open spec fn job_precedes(left: (Seq<char>, Seq<char>), right: (Seq<char>, Seq<char>)) -> bool {
    text_before(left.0, right.0) || (left.0 == right.0 && text_before(left.1, right.1))
}

impl Named for JobKey {
    type Name = (Seq<char>, Seq<char>);

    open spec fn name(self) -> (Seq<char>, Seq<char>) {
        (self.tenant_id@, self.job_id@)
    }

    open spec fn precedes(left: (Seq<char>, Seq<char>), right: (Seq<char>, Seq<char>)) -> bool {
        job_precedes(left, right)
    }

    proof fn lemma_irreflexive(name: (Seq<char>, Seq<char>)) {
        lemma_text_before_irreflexive(name.0);
        lemma_text_before_irreflexive(name.1);
    }

    proof fn lemma_transitive(
        first: (Seq<char>, Seq<char>),
        second: (Seq<char>, Seq<char>),
        third: (Seq<char>, Seq<char>),
    ) {
        if text_before(first.0, second.0) && text_before(second.0, third.0) {
            lemma_text_before_transitive(first.0, second.0, third.0);
        }
        if text_before(first.1, second.1) && text_before(second.1, third.1) {
            lemma_text_before_transitive(first.1, second.1, third.1);
        }
    }

    proof fn lemma_total(left: (Seq<char>, Seq<char>), right: (Seq<char>, Seq<char>)) {
        lemma_text_before_total(left.0, right.0);
        lemma_text_before_total(left.1, right.1);
    }
}

impl OrderedKey for JobKey {
    fn is_before(&self, other: &Self) -> (before: bool) {
        self.tenant_id.is_before(&other.tenant_id) || (self.tenant_id == other.tenant_id
            && self.job_id.is_before(&other.job_id))
    }

    fn is_same(&self, other: &Self) -> (equal: bool) {
        self.tenant_id == other.tenant_id && self.job_id == other.job_id
    }
}

/// The Index of one Playground.
#[derive(Debug, Eq)]
pub struct IndexKey {
    pub tenant_id: TenantId,
    pub artifact_id: ArtifactId,
    pub playground_id: PlaygroundId,
}

impl PartialEq for IndexKey {
    fn eq(&self, other: &Self) -> (equal: bool) {
        self.tenant_id == other.tenant_id
            && self.artifact_id == other.artifact_id
            && self.playground_id == other.playground_id
    }
}

impl Same for IndexKey {
    open spec fn same(self, other: Self) -> bool {
        &&& self.tenant_id.same(other.tenant_id)
        &&& self.artifact_id.same(other.artifact_id)
        &&& self.playground_id.same(other.playground_id)
    }
}

impl vstd::std_specs::cmp::PartialEqSpecImpl for IndexKey {
    open spec fn obeys_eq_spec() -> bool {
        true
    }

    open spec fn eq_spec(&self, other: &Self) -> bool {
        self.same(*other)
    }
}

impl Clone for IndexKey {
    fn clone(&self) -> (copy: Self)
        ensures
            copy.same(*self),
            copy == *self,
    {
        Self {
            tenant_id: self.tenant_id.clone(),
            artifact_id: self.artifact_id.clone(),
            playground_id: self.playground_id.clone(),
        }
    }
}

/// Server-selected execution placement and all generations required to fence stale Agents.
#[derive(Debug, Eq)]
pub struct AssignmentTarget {
    pub assignment_id: AssignmentId,
    pub assignment_generation: AssignmentGeneration,
    pub agent_id: AgentId,
    pub edge_cluster_id: EdgeClusterId,
    pub storage_volume_id: StorageVolumeId,
    pub artifact_placement_id: ArtifactPlacementId,
    pub placement_generation: PlacementGeneration,
    pub agent_mount_id: AgentMountId,
    pub mount_generation: MountGeneration,
    pub owner_generation: OwnerGeneration,
    pub lease: Option<LeaseGrant>,
}

impl PartialEq for AssignmentTarget {
    fn eq(&self, other: &Self) -> (equal: bool) {
        self.assignment_id == other.assignment_id
            && self.assignment_generation == other.assignment_generation
            && self.agent_id == other.agent_id
            && self.edge_cluster_id == other.edge_cluster_id
            && self.storage_volume_id == other.storage_volume_id
            && self.artifact_placement_id == other.artifact_placement_id
            && self.placement_generation == other.placement_generation
            && self.agent_mount_id == other.agent_mount_id
            && self.mount_generation == other.mount_generation
            && self.owner_generation == other.owner_generation
            && self.lease == other.lease
    }
}

impl Same for AssignmentTarget {
    open spec fn same(self, other: Self) -> bool {
        &&& self.assignment_id.same(other.assignment_id)
        &&& self.assignment_generation == other.assignment_generation
        &&& self.agent_id.same(other.agent_id)
        &&& self.edge_cluster_id.same(other.edge_cluster_id)
        &&& self.storage_volume_id.same(other.storage_volume_id)
        &&& self.artifact_placement_id.same(other.artifact_placement_id)
        &&& self.placement_generation == other.placement_generation
        &&& self.agent_mount_id.same(other.agent_mount_id)
        &&& self.mount_generation == other.mount_generation
        &&& self.owner_generation == other.owner_generation
        &&& self.lease.same(other.lease)
    }
}

impl vstd::std_specs::cmp::PartialEqSpecImpl for AssignmentTarget {
    open spec fn obeys_eq_spec() -> bool {
        true
    }

    open spec fn eq_spec(&self, other: &Self) -> bool {
        self.same(*other)
    }
}

impl Clone for AssignmentTarget {
    fn clone(&self) -> (copy: Self)
        ensures
            copy.same(*self),
            copy == *self,
    {
        Self {
            assignment_id: self.assignment_id.clone(),
            assignment_generation: self.assignment_generation,
            agent_id: self.agent_id.clone(),
            edge_cluster_id: self.edge_cluster_id.clone(),
            storage_volume_id: self.storage_volume_id.clone(),
            artifact_placement_id: self.artifact_placement_id.clone(),
            placement_generation: self.placement_generation,
            agent_mount_id: self.agent_mount_id.clone(),
            mount_generation: self.mount_generation,
            owner_generation: self.owner_generation,
            lease: self.lease.clone(),
        }
    }
}

/// Canonical publication material frozen atomically with `Prepared -> Publishing`.
///
/// Publishing recovery must use this record rather than transient metadata staging or current
/// object-durability observations.
#[derive(Debug, Eq)]
pub struct PublicationCandidate {
    pub expected_index_version: WireIndexVersion,
    pub result_index_digest: ContentDigest,
    pub publication_digest: ContentDigest,
    pub manifests: Vec<Manifest>,
    pub mutations: Vec<IndexDeltaRecord>,
}

impl PartialEq for PublicationCandidate {
    fn eq(&self, other: &Self) -> (equal: bool) {
        self.expected_index_version == other.expected_index_version
            && self.result_index_digest == other.result_index_digest
            && self.publication_digest == other.publication_digest
            && self.manifests == other.manifests
            && self.mutations == other.mutations
    }
}

impl Same for PublicationCandidate {
    open spec fn same(self, other: Self) -> bool {
        &&& self.expected_index_version.same(other.expected_index_version)
        &&& self.result_index_digest == other.result_index_digest
        &&& self.publication_digest == other.publication_digest
        &&& self.manifests.same(other.manifests)
        &&& self.mutations.same(other.mutations)
    }
}

impl vstd::std_specs::cmp::PartialEqSpecImpl for PublicationCandidate {
    open spec fn obeys_eq_spec() -> bool {
        true
    }

    open spec fn eq_spec(&self, other: &Self) -> bool {
        self.same(*other)
    }
}

impl Clone for PublicationCandidate {
    fn clone(&self) -> (copy: Self)
        ensures
            copy.same(*self),
    {
        Self {
            expected_index_version: self.expected_index_version.clone(),
            result_index_digest: self.result_index_digest,
            publication_digest: self.publication_digest,
            manifests: self.manifests.clone(),
            mutations: self.mutations.clone(),
        }
    }
}

/// Durable authoritative record. Assignment and prepared metadata are persisted before side effects.
#[derive(Debug, Eq)]
pub struct JobRecord {
    pub spec: AddJobSpec,
    pub operation: JobOperation,
    pub state: JobState,
    pub resource_version: ResourceVersion,
    pub assignment: Option<AddAssignment>,
    pub accepted: Option<JobAccepted>,
    pub progress: Option<JobProgress>,
    pub prepared: Option<JobPrepared>,
    pub publication_candidate: Option<PublicationCandidate>,
    pub decision: Option<JobDecision>,
    pub finalized: Option<JobFinalized>,
    pub finalized_ack: Option<JobFinalized>,
    pub failure: Option<JobFailed>,
}

impl PartialEq for JobRecord {
    fn eq(&self, other: &Self) -> (equal: bool) {
        self.spec == other.spec
            && self.operation == other.operation
            && self.state == other.state
            && self.resource_version == other.resource_version
            && self.assignment == other.assignment
            && self.accepted == other.accepted
            && self.progress == other.progress
            && self.prepared == other.prepared
            && self.publication_candidate == other.publication_candidate
            && self.decision == other.decision
            && self.finalized == other.finalized
            && self.finalized_ack == other.finalized_ack
            && self.failure == other.failure
    }
}

impl Same for JobRecord {
    open spec fn same(self, other: Self) -> bool {
        &&& self.spec.same(other.spec)
        &&& self.operation == other.operation
        &&& self.state == other.state
        &&& self.resource_version == other.resource_version
        &&& self.assignment.same(other.assignment)
        &&& self.accepted.same(other.accepted)
        &&& self.progress.same(other.progress)
        &&& self.prepared.same(other.prepared)
        &&& self.publication_candidate.same(other.publication_candidate)
        &&& self.decision.same(other.decision)
        &&& self.finalized.same(other.finalized)
        &&& self.finalized_ack.same(other.finalized_ack)
        &&& self.failure.same(other.failure)
    }
}

impl vstd::std_specs::cmp::PartialEqSpecImpl for JobRecord {
    open spec fn obeys_eq_spec() -> bool {
        true
    }

    open spec fn eq_spec(&self, other: &Self) -> bool {
        self.same(*other)
    }
}

impl Clone for JobRecord {
    fn clone(&self) -> (copy: Self)
        ensures
            copy.same(*self),
    {
        Self {
            spec: self.spec.clone(),
            operation: self.operation,
            state: self.state,
            resource_version: self.resource_version,
            assignment: self.assignment.clone(),
            accepted: self.accepted.clone(),
            progress: self.progress.clone(),
            prepared: self.prepared.clone(),
            publication_candidate: self.publication_candidate.clone(),
            decision: self.decision.clone(),
            finalized: self.finalized.clone(),
            finalized_ack: self.finalized_ack.clone(),
            failure: self.failure.clone(),
        }
    }
}

impl Replicate for JobRecord {
    fn replica(&self) -> (copy: Self) {
        self.clone()
    }
}

impl JobRecord {
    /// The name of this job in a store.
    pub open spec fn key_name(self) -> (Seq<char>, Seq<char>) {
        (self.spec.tenant_id@, self.spec.job_id@)
    }

    #[must_use]
    pub fn key(&self) -> (key: JobKey)
        ensures
            key.tenant_id == self.spec.tenant_id,
            key.job_id == self.spec.job_id,
            key.name() == self.key_name(),
    {
        JobKey::new(self.spec.tenant_id.clone(), self.spec.job_id.clone())
    }

    #[must_use]
    pub fn index_key(&self) -> (key: IndexKey)
        ensures
            key.tenant_id == self.spec.tenant_id,
            key.artifact_id == self.spec.artifact_id,
            key.playground_id == self.spec.playground_id,
    {
        IndexKey {
            tenant_id: self.spec.tenant_id.clone(),
            artifact_id: self.spec.artifact_id.clone(),
            playground_id: self.spec.playground_id.clone(),
        }
    }
}

/// Who asks for an action.
#[derive(Debug, Eq)]
pub enum Actor {
    Principal(PrincipalRef),
    Agent(AgentId),
}

impl PartialEq for Actor {
    fn eq(&self, other: &Self) -> (equal: bool) {
        match (self, other) {
            (Self::Principal(value), Self::Principal(other_value)) => *value == *other_value,
            (Self::Agent(value), Self::Agent(other_value)) => *value == *other_value,
            _ => false,
        }
    }
}

impl Same for Actor {
    open spec fn same(self, other: Self) -> bool {
        match (self, other) {
            (Self::Principal(value), Self::Principal(other_value)) => value.same(other_value),
            (Self::Agent(value), Self::Agent(other_value)) => value.same(other_value),
            _ => false,
        }
    }
}

impl vstd::std_specs::cmp::PartialEqSpecImpl for Actor {
    open spec fn obeys_eq_spec() -> bool {
        true
    }

    open spec fn eq_spec(&self, other: &Self) -> bool {
        self.same(*other)
    }
}

impl Clone for Actor {
    fn clone(&self) -> (copy: Self)
        ensures
            copy.same(*self),
            copy == *self,
    {
        match self {
            Self::Principal(value) => Self::Principal(value.clone()),
            Self::Agent(value) => Self::Agent(value.clone()),
        }
    }
}

/// What an actor asks for.
#[derive(Debug, Clone, Copy, PartialEq, Eq, Structural)]
pub enum Action {
    CreateAddJob,
    QueryJob,
    AssignJob,
    ReceiveReport,
    StageMetadataBatch,
    ExpireAddJob,
    FinalizeAdd,
}

/// One question to the authorizer.
#[derive(Debug, Eq)]
pub struct AuthorizationRequest {
    pub actor: Actor,
    pub action: Action,
    pub tenant_id: TenantId,
    pub artifact_id: ArtifactId,
    pub playground_id: PlaygroundId,
    pub job_id: JobId,
}

impl PartialEq for AuthorizationRequest {
    fn eq(&self, other: &Self) -> (equal: bool) {
        self.actor == other.actor
            && self.action == other.action
            && self.tenant_id == other.tenant_id
            && self.artifact_id == other.artifact_id
            && self.playground_id == other.playground_id
            && self.job_id == other.job_id
    }
}

impl Same for AuthorizationRequest {
    open spec fn same(self, other: Self) -> bool {
        &&& self.actor.same(other.actor)
        &&& self.action == other.action
        &&& self.tenant_id.same(other.tenant_id)
        &&& self.artifact_id.same(other.artifact_id)
        &&& self.playground_id.same(other.playground_id)
        &&& self.job_id.same(other.job_id)
    }
}

impl vstd::std_specs::cmp::PartialEqSpecImpl for AuthorizationRequest {
    open spec fn obeys_eq_spec() -> bool {
        true
    }

    open spec fn eq_spec(&self, other: &Self) -> bool {
        self.same(*other)
    }
}

impl Clone for AuthorizationRequest {
    fn clone(&self) -> (copy: Self)
        ensures
            copy.same(*self),
            copy == *self,
    {
        Self {
            actor: self.actor.clone(),
            action: self.action,
            tenant_id: self.tenant_id.clone(),
            artifact_id: self.artifact_id.clone(),
            playground_id: self.playground_id.clone(),
            job_id: self.job_id.clone(),
        }
    }
}

pub struct CreateAddJobRequest {
    pub actor: PrincipalRef,
    pub spec: AddJobSpec,
}

pub struct CreateAddJobResult {
    pub job: JobRecord,
    pub replayed: bool,
}

pub struct QueryJobRequest {
    pub actor: PrincipalRef,
    pub tenant_id: TenantId,
    pub job_id: JobId,
}

pub struct QueryJobResult {
    pub job: JobRecord,
}

pub struct AssignJobRequest {
    pub actor: PrincipalRef,
    pub tenant_id: TenantId,
    pub job_id: JobId,
    pub target: AssignmentTarget,
}

pub struct AssignJobResult {
    pub job: JobRecord,
    pub assignment: JobAssignment,
    pub replayed: bool,
}

/// What an Agent reports about its assignment.
pub enum AgentReport {
    Accepted(JobAccepted),
    Progress(JobProgress),
    Prepared(JobPrepared),
    Finalized(JobFinalized),
    Failed(JobFailed),
}

impl AgentReport {
    /// The job that a report names.
    pub open spec fn job_name(self) -> Seq<char> {
        match self {
            Self::Accepted(report) => report.job_id@,
            Self::Progress(report) => report.job_id@,
            Self::Prepared(report) => report.job_id@,
            Self::Finalized(report) => report.job_id@,
            Self::Failed(report) => report.job_id@,
        }
    }

    #[must_use]
    pub fn job_id(&self) -> (job_id: &JobId)
        ensures
            job_id@ == self.job_name(),
    {
        match self {
            Self::Accepted(report) => &report.job_id,
            Self::Progress(report) => &report.job_id,
            Self::Prepared(report) => &report.job_id,
            Self::Finalized(report) => &report.job_id,
            Self::Failed(report) => &report.job_id,
        }
    }
}

pub struct ReceiveReportRequest {
    pub tenant_id: TenantId,
    pub agent_id: AgentId,
    pub report: AgentReport,
}

pub struct ReceiveReportResult {
    pub job: JobRecord,
    pub replayed: bool,
}

/// A descriptor or a page of a metadata batch.
pub enum MetadataBatchSubmission {
    Descriptor(MetadataBatchDescriptor),
    Page(MetadataBatchPage),
}

impl MetadataBatchSubmission {
    /// The batch that a submission names.
    pub open spec fn batch_name(self) -> Seq<char> {
        match self {
            Self::Descriptor(descriptor) => descriptor.batch_id@,
            Self::Page(page) => page.batch_id@,
        }
    }

    #[must_use]
    pub fn batch_id(&self) -> (batch_id: &MetadataBatchId)
        ensures
            batch_id@ == self.batch_name(),
    {
        match self {
            Self::Descriptor(descriptor) => &descriptor.batch_id,
            Self::Page(page) => &page.batch_id,
        }
    }
}

pub struct StageMetadataBatchRequest {
    pub tenant_id: TenantId,
    pub job_id: JobId,
    pub agent_id: AgentId,
    pub submission: MetadataBatchSubmission,
}

pub struct StageMetadataBatchResult {
    pub batch_id: MetadataBatchId,
    pub complete: bool,
    pub replayed: bool,
}

pub struct ExpireAddJobRequest {
    pub actor: PrincipalRef,
    pub tenant_id: TenantId,
    pub job_id: JobId,
}

pub struct ExpireAddJobResult {
    pub job: JobRecord,
    pub decision: Option<JobDecision>,
    pub finalized: Option<JobFinalized>,
    pub replayed: bool,
}

pub struct FinalizeAddRequest {
    pub actor: PrincipalRef,
    pub tenant_id: TenantId,
    pub job_id: JobId,
}

pub struct ResumePublicationRequest {
    pub tenant_id: TenantId,
    pub job_id: JobId,
}

pub struct FinalizeAddResult {
    pub job: JobRecord,
    pub decision: JobDecision,
    pub finalized: JobFinalized,
    pub replayed: bool,
}

/// A metadata batch while its pages come in.
pub struct StagedMetadataBatch {
    pub descriptor: MetadataBatchDescriptor,
    pub pages: Table<u32, MetadataBatchPage>,
}

impl StagedMetadataBatch {
    #[must_use]
    pub fn is_complete(&self) -> (complete: bool)
        ensures
            complete == (self.pages.entries().len() == self.descriptor.page_count),
    {
        self.pages.len() as u64 == self.descriptor.page_count as u64
    }

    /// Another batch with the same descriptor and the same pages.
    #[must_use]
    pub fn copied(&self) -> (copy: Self)
        requires
            self.pages.well_formed(),
        ensures
            copy.descriptor == self.descriptor,
            copy.pages.entries() == self.pages.entries(),
    {
        let ghost entries = self.pages.entries();
        let mut pages: Table<u32, MetadataBatchPage> = Table::new();
        let mut index: usize = 0;
        while index < self.pages.len()
            invariant
                index <= entries.len(),
                entries == self.pages.entries(),
                is_ordered(entries),
                pages.well_formed(),
                pages.entries() == entries.take(index as int),
            decreases entries.len() - index,
        {
            let entry = self.pages.entry_at(index);
            pages.append(entry.0, entry.1.clone());
            index += 1;
        }
        proof {
            assert(entries.take(index as int) =~= entries);
        }
        Self { descriptor: self.descriptor.clone(), pages }
    }
}

/// An object that a store holds durably.
#[derive(Debug, Eq)]
pub struct DurableObject {
    pub object_id: ObjectId,
    pub size: u64,
    pub verified_digest: ContentDigest,
    pub storage_version: String,
}

impl PartialEq for DurableObject {
    fn eq(&self, other: &Self) -> (equal: bool) {
        self.object_id == other.object_id
            && self.size == other.size
            && self.verified_digest == other.verified_digest
            && text_equals(self.storage_version.as_str(), other.storage_version.as_str())
    }
}

impl Same for DurableObject {
    open spec fn same(self, other: Self) -> bool {
        &&& self.object_id == other.object_id
        &&& self.size == other.size
        &&& self.verified_digest == other.verified_digest
        &&& self.storage_version@ == other.storage_version@
    }
}

impl vstd::std_specs::cmp::PartialEqSpecImpl for DurableObject {
    open spec fn obeys_eq_spec() -> bool {
        true
    }

    open spec fn eq_spec(&self, other: &Self) -> bool {
        self.same(*other)
    }
}

impl Clone for DurableObject {
    fn clone(&self) -> (copy: Self)
        ensures
            copy.same(*self),
            copy == *self,
    {
        Self {
            object_id: self.object_id,
            size: self.size,
            verified_digest: self.verified_digest,
            storage_version: self.storage_version.clone(),
        }
    }
}

/// One attempt to publish an Index.
#[derive(Debug, Eq)]
pub struct IndexPublishRequest {
    pub job_key: JobKey,
    pub index_key: IndexKey,
    pub expected_index_version: WireIndexVersion,
    pub expected_result_digest: ContentDigest,
    pub manifests: Vec<Manifest>,
    pub mutations: Vec<IndexDeltaRecord>,
}

impl PartialEq for IndexPublishRequest {
    fn eq(&self, other: &Self) -> (equal: bool) {
        self.job_key == other.job_key
            && self.index_key == other.index_key
            && self.expected_index_version == other.expected_index_version
            && self.expected_result_digest == other.expected_result_digest
            && self.manifests == other.manifests
            && self.mutations == other.mutations
    }
}

impl Same for IndexPublishRequest {
    open spec fn same(self, other: Self) -> bool {
        &&& self.job_key.same(other.job_key)
        &&& self.index_key.same(other.index_key)
        &&& self.expected_index_version.same(other.expected_index_version)
        &&& self.expected_result_digest == other.expected_result_digest
        &&& self.manifests.same(other.manifests)
        &&& self.mutations.same(other.mutations)
    }
}

impl vstd::std_specs::cmp::PartialEqSpecImpl for IndexPublishRequest {
    open spec fn obeys_eq_spec() -> bool {
        true
    }

    open spec fn eq_spec(&self, other: &Self) -> bool {
        self.same(*other)
    }
}

impl Clone for IndexPublishRequest {
    fn clone(&self) -> (copy: Self)
        ensures
            copy.same(*self),
    {
        Self {
            job_key: self.job_key.clone(),
            index_key: self.index_key.clone(),
            expected_index_version: self.expected_index_version.clone(),
            expected_result_digest: self.expected_result_digest,
            manifests: self.manifests.clone(),
            mutations: self.mutations.clone(),
        }
    }
}

/// Why a publication can never succeed.
#[derive(Debug, Eq)]
pub enum IndexPublishRejection {
    InvalidMetadata {
        message: String,
    },
    ResultDigestMismatch {
        expected_digest: ContentDigest,
        observed_digest: ContentDigest,
    },
    RevisionExhausted,
}

impl PartialEq for IndexPublishRejection {
    fn eq(&self, other: &Self) -> (equal: bool) {
        match (self, other) {
            (Self::InvalidMetadata { message }, Self::InvalidMetadata { message: other_message }) => text_equals(message.as_str(), other_message.as_str()),
            (Self::ResultDigestMismatch { expected_digest, observed_digest }, Self::ResultDigestMismatch { expected_digest: other_expected_digest, observed_digest: other_observed_digest }) => *expected_digest == *other_expected_digest
                && *observed_digest == *other_observed_digest,
            (Self::RevisionExhausted, Self::RevisionExhausted) => true,
            _ => false,
        }
    }
}

impl Same for IndexPublishRejection {
    open spec fn same(self, other: Self) -> bool {
        match (self, other) {
            (Self::InvalidMetadata { message }, Self::InvalidMetadata { message: other_message }) => message@ == other_message@,
            (Self::ResultDigestMismatch { expected_digest, observed_digest }, Self::ResultDigestMismatch { expected_digest: other_expected_digest, observed_digest: other_observed_digest }) => {
                &&& expected_digest == other_expected_digest
                &&& observed_digest == other_observed_digest
            },
            (Self::RevisionExhausted, Self::RevisionExhausted) => true,
            _ => false,
        }
    }
}

impl vstd::std_specs::cmp::PartialEqSpecImpl for IndexPublishRejection {
    open spec fn obeys_eq_spec() -> bool {
        true
    }

    open spec fn eq_spec(&self, other: &Self) -> bool {
        self.same(*other)
    }
}

impl Clone for IndexPublishRejection {
    fn clone(&self) -> (copy: Self)
        ensures
            copy.same(*self),
            copy == *self,
    {
        match self {
            Self::InvalidMetadata { message } => Self::InvalidMetadata {
                message: message.clone(),
            },
            Self::ResultDigestMismatch { expected_digest, observed_digest } => Self::ResultDigestMismatch {
                expected_digest: *expected_digest,
                observed_digest: *observed_digest,
            },
            Self::RevisionExhausted => Self::RevisionExhausted,
        }
    }
}

/// What came of a publication.
#[derive(Debug, Eq)]
pub enum IndexPublishOutcome {
    Published(WireIndexVersion),
    Conflict(WireIndexVersion),
    Rejected(IndexPublishRejection),
}

impl PartialEq for IndexPublishOutcome {
    fn eq(&self, other: &Self) -> (equal: bool) {
        match (self, other) {
            (Self::Published(value), Self::Published(other_value)) => *value == *other_value,
            (Self::Conflict(value), Self::Conflict(other_value)) => *value == *other_value,
            (Self::Rejected(value), Self::Rejected(other_value)) => *value == *other_value,
            _ => false,
        }
    }
}

impl Same for IndexPublishOutcome {
    open spec fn same(self, other: Self) -> bool {
        match (self, other) {
            (Self::Published(value), Self::Published(other_value)) => value.same(other_value),
            (Self::Conflict(value), Self::Conflict(other_value)) => value.same(other_value),
            (Self::Rejected(value), Self::Rejected(other_value)) => value.same(other_value),
            _ => false,
        }
    }
}

impl vstd::std_specs::cmp::PartialEqSpecImpl for IndexPublishOutcome {
    open spec fn obeys_eq_spec() -> bool {
        true
    }

    open spec fn eq_spec(&self, other: &Self) -> bool {
        self.same(*other)
    }
}

impl Clone for IndexPublishOutcome {
    fn clone(&self) -> (copy: Self)
        ensures
            copy.same(*self),
            copy == *self,
    {
        match self {
            Self::Published(value) => Self::Published(value.clone()),
            Self::Conflict(value) => Self::Conflict(value.clone()),
            Self::Rejected(value) => Self::Rejected(value.clone()),
        }
    }
}

/// Kind of a job audit event.
#[derive(Debug, Clone, Copy, PartialEq, Eq, Structural)]
pub enum AuditKind {
    JobCreated,
    AssignmentQueued,
    ReportReceived,
    MetadataStaged,
    AddExpired,
    AddFinalized,
}

/// One immutable job audit event.
#[derive(Debug, Eq)]
pub struct AuditEvent {
    pub event_id: String,
    pub kind: AuditKind,
    pub job_key: JobKey,
    pub state: JobState,
    pub occurred_at_unix_ms: UnixMillis,
}

impl PartialEq for AuditEvent {
    fn eq(&self, other: &Self) -> (equal: bool) {
        text_equals(self.event_id.as_str(), other.event_id.as_str())
            && self.kind == other.kind
            && self.job_key == other.job_key
            && self.state == other.state
            && self.occurred_at_unix_ms == other.occurred_at_unix_ms
    }
}

impl Same for AuditEvent {
    open spec fn same(self, other: Self) -> bool {
        &&& self.event_id@ == other.event_id@
        &&& self.kind == other.kind
        &&& self.job_key.same(other.job_key)
        &&& self.state == other.state
        &&& self.occurred_at_unix_ms == other.occurred_at_unix_ms
    }
}

impl vstd::std_specs::cmp::PartialEqSpecImpl for AuditEvent {
    open spec fn obeys_eq_spec() -> bool {
        true
    }

    open spec fn eq_spec(&self, other: &Self) -> bool {
        self.same(*other)
    }
}

impl Clone for AuditEvent {
    fn clone(&self) -> (copy: Self)
        ensures
            copy.same(*self),
            copy == *self,
    {
        Self {
            event_id: self.event_id.clone(),
            kind: self.kind,
            job_key: self.job_key.clone(),
            state: self.state,
            occurred_at_unix_ms: self.occurred_at_unix_ms,
        }
    }
}

impl Replicate for AuditEvent {
    fn replica(&self) -> (copy: Self) {
        self.clone()
    }
}

/// Staged metadata that passed every check.
pub struct ValidatedMetadata {
    pub manifests: Vec<Manifest>,
    pub mutations: Vec<IndexDeltaRecord>,
}

/// The last authoritative logical Index of a Playground.
#[derive(Debug, Eq)]
pub struct PublishedIndex {
    pub version: WireIndexVersion,
    pub records: Vec<FileRecord>,
}

impl PartialEq for PublishedIndex {
    fn eq(&self, other: &Self) -> (equal: bool) {
        self.version == other.version
            && self.records == other.records
    }
}

impl Same for PublishedIndex {
    open spec fn same(self, other: Self) -> bool {
        &&& self.version.same(other.version)
        &&& self.records.same(other.records)
    }
}

impl vstd::std_specs::cmp::PartialEqSpecImpl for PublishedIndex {
    open spec fn obeys_eq_spec() -> bool {
        true
    }

    open spec fn eq_spec(&self, other: &Self) -> bool {
        self.same(*other)
    }
}

impl Clone for PublishedIndex {
    fn clone(&self) -> (copy: Self)
        ensures
            copy.same(*self),
    {
        Self {
            version: self.version.clone(),
            records: self.records.clone(),
        }
    }
}

/// The first Index of a Playground.
pub struct InitializeIndexSnapshotRequest {
    pub index_key: IndexKey,
    pub version: WireIndexVersion,
    pub records: Vec<FileRecord>,
}

} // verus!
