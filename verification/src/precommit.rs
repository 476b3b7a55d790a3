//! Pre-commits: frozen attempts at a Commit, and the Commits that they become.
//!
//! What a Pre-commit keeps beyond its identity and lifecycle is carried as one opaque text.
use vstd::prelude::*;

use crate::digest::CommitId;
use crate::equality::Same;
use crate::error::{final_failure, final_fault, CentralError, CentralErrorCode, Fault};
use crate::identifier::{
    ArtifactId, JobId, OpaqueText, PlaygroundId, PreCommitId, ProjectId, RequestId,
    ResourceVersion, TenantId, UnixMillis,
};
use crate::protocol::FileRecord;
use crate::table::Replicate;

verus! {

/// Lifecycle of a Pre-commit.
#[derive(Debug, Clone, Copy, PartialEq, Eq, Structural)]
pub enum PreCommitState {
    Running,
    Ready,
    Abnormal,
    Cancelled,
    Committed,
}

/// The tenant-scoped identity of a Pre-commit.
#[derive(Debug, Eq)]
pub struct PreCommitKey {
    pub tenant_id: TenantId,
    pub precommit_id: PreCommitId,
}

impl PartialEq for PreCommitKey {
    fn eq(&self, other: &Self) -> (equal: bool) {
        self.tenant_id == other.tenant_id
            && self.precommit_id == other.precommit_id
    }
}

impl Same for PreCommitKey {
    open spec fn same(self, other: Self) -> bool {
        &&& self.tenant_id.same(other.tenant_id)
        &&& self.precommit_id.same(other.precommit_id)
    }
}

impl vstd::std_specs::cmp::PartialEqSpecImpl for PreCommitKey {
    open spec fn obeys_eq_spec() -> bool {
        true
    }

    open spec fn eq_spec(&self, other: &Self) -> bool {
        self.same(*other)
    }
}

impl Clone for PreCommitKey {
    fn clone(&self) -> (copy: Self)
        ensures
            copy.same(*self),
            copy == *self,
    {
        Self {
            tenant_id: self.tenant_id.clone(),
            precommit_id: self.precommit_id.clone(),
        }
    }
}

/// A frozen attempt at a Commit.
#[derive(Debug, Eq)]
pub struct PreCommitRecord {
    pub tenant_id: TenantId,
    pub precommit_id: PreCommitId,
    pub precommit_request_id: RequestId,
    pub project_id: ProjectId,
    pub artifact_id: ArtifactId,
    pub playground_id: PlaygroundId,
    pub job_id: JobId,
    pub state: PreCommitState,
    pub attempt: u32,
    pub resource_version: ResourceVersion,
    /// The Head that the attempt was frozen on.
    pub frozen_head_commit_id: Option<CommitId>,
    /// When the Commit became the Head of its Artifact.
    pub head_published_at_unix_ms: Option<UnixMillis>,
    pub detail: OpaqueText,
}

impl PartialEq for PreCommitRecord {
    fn eq(&self, other: &Self) -> (equal: bool) {
        self.tenant_id == other.tenant_id
            && self.precommit_id == other.precommit_id
            && self.precommit_request_id == other.precommit_request_id
            && self.project_id == other.project_id
            && self.artifact_id == other.artifact_id
            && self.playground_id == other.playground_id
            && self.job_id == other.job_id
            && self.state == other.state
            && self.attempt == other.attempt
            && self.resource_version == other.resource_version
            && self.frozen_head_commit_id == other.frozen_head_commit_id
            && self.head_published_at_unix_ms == other.head_published_at_unix_ms
            && self.detail == other.detail
    }
}

impl Same for PreCommitRecord {
    open spec fn same(self, other: Self) -> bool {
        &&& self.tenant_id.same(other.tenant_id)
        &&& self.precommit_id.same(other.precommit_id)
        &&& self.precommit_request_id.same(other.precommit_request_id)
        &&& self.project_id.same(other.project_id)
        &&& self.artifact_id.same(other.artifact_id)
        &&& self.playground_id.same(other.playground_id)
        &&& self.job_id.same(other.job_id)
        &&& self.state == other.state
        &&& self.attempt == other.attempt
        &&& self.resource_version == other.resource_version
        &&& self.frozen_head_commit_id == other.frozen_head_commit_id
        &&& self.head_published_at_unix_ms == other.head_published_at_unix_ms
        &&& self.detail.same(other.detail)
    }
}

impl vstd::std_specs::cmp::PartialEqSpecImpl for PreCommitRecord {
    open spec fn obeys_eq_spec() -> bool {
        true
    }

    open spec fn eq_spec(&self, other: &Self) -> bool {
        self.same(*other)
    }
}

impl Clone for PreCommitRecord {
    fn clone(&self) -> (copy: Self)
        ensures
            copy.same(*self),
            copy == *self,
    {
        Self {
            tenant_id: self.tenant_id.clone(),
            precommit_id: self.precommit_id.clone(),
            precommit_request_id: self.precommit_request_id.clone(),
            project_id: self.project_id.clone(),
            artifact_id: self.artifact_id.clone(),
            playground_id: self.playground_id.clone(),
            job_id: self.job_id.clone(),
            state: self.state,
            attempt: self.attempt,
            resource_version: self.resource_version,
            frozen_head_commit_id: self.frozen_head_commit_id,
            head_published_at_unix_ms: self.head_published_at_unix_ms,
            detail: self.detail.clone(),
        }
    }
}

impl Replicate for PreCommitRecord {
    fn replica(&self) -> (copy: Self) {
        self.clone()
    }
}

/// An immutable Commit.
#[derive(Debug, Eq)]
pub struct CommitRecord {
    pub tenant_id: TenantId,
    pub project_id: ProjectId,
    pub artifact_id: ArtifactId,
    pub commit_id: CommitId,
    pub commit_request_id: RequestId,
    pub source_precommit_id: PreCommitId,
    pub records: Vec<FileRecord>,
    pub detail: OpaqueText,
}

impl PartialEq for CommitRecord {
    fn eq(&self, other: &Self) -> (equal: bool) {
        self.tenant_id == other.tenant_id
            && self.project_id == other.project_id
            && self.artifact_id == other.artifact_id
            && self.commit_id == other.commit_id
            && self.commit_request_id == other.commit_request_id
            && self.source_precommit_id == other.source_precommit_id
            && self.records == other.records
            && self.detail == other.detail
    }
}

impl Same for CommitRecord {
    open spec fn same(self, other: Self) -> bool {
        &&& self.tenant_id.same(other.tenant_id)
        &&& self.project_id.same(other.project_id)
        &&& self.artifact_id.same(other.artifact_id)
        &&& self.commit_id == other.commit_id
        &&& self.commit_request_id.same(other.commit_request_id)
        &&& self.source_precommit_id.same(other.source_precommit_id)
        &&& self.records.same(other.records)
        &&& self.detail.same(other.detail)
    }
}

impl vstd::std_specs::cmp::PartialEqSpecImpl for CommitRecord {
    open spec fn obeys_eq_spec() -> bool {
        true
    }

    open spec fn eq_spec(&self, other: &Self) -> bool {
        self.same(*other)
    }
}

impl Clone for CommitRecord {
    fn clone(&self) -> (copy: Self)
        ensures
            copy.same(*self),
    {
        Self {
            tenant_id: self.tenant_id.clone(),
            project_id: self.project_id.clone(),
            artifact_id: self.artifact_id.clone(),
            commit_id: self.commit_id,
            commit_request_id: self.commit_request_id.clone(),
            source_precommit_id: self.source_precommit_id.clone(),
            records: self.records.clone(),
            detail: self.detail.clone(),
        }
    }
}

/// A Commit, and the Pre-commit that it consumed.
#[derive(Debug, Eq)]
pub struct PreCommitCommitSnapshot {
    pub commit: CommitRecord,
    pub consumed_precommit: PreCommitRecord,
}

impl PartialEq for PreCommitCommitSnapshot {
    fn eq(&self, other: &Self) -> (equal: bool) {
        self.commit == other.commit
            && self.consumed_precommit == other.consumed_precommit
    }
}

impl Same for PreCommitCommitSnapshot {
    open spec fn same(self, other: Self) -> bool {
        &&& self.commit.same(other.commit)
        &&& self.consumed_precommit.same(other.consumed_precommit)
    }
}

impl vstd::std_specs::cmp::PartialEqSpecImpl for PreCommitCommitSnapshot {
    open spec fn obeys_eq_spec() -> bool {
        true
    }

    open spec fn eq_spec(&self, other: &Self) -> bool {
        self.same(*other)
    }
}

impl Clone for PreCommitCommitSnapshot {
    fn clone(&self) -> (copy: Self)
        ensures
            copy.same(*self),
    {
        Self {
            commit: self.commit.clone(),
            consumed_precommit: self.consumed_precommit.clone(),
        }
    }
}

/// Freezes a new attempt.
#[derive(Debug, Eq)]
pub struct PreCommitStartRequest {
    pub tenant_id: TenantId,
    pub precommit_request_id: RequestId,
    /// What else two attempts at the same mutation must agree on.
    pub detail: OpaqueText,
}

impl PartialEq for PreCommitStartRequest {
    fn eq(&self, other: &Self) -> (equal: bool) {
        self.tenant_id == other.tenant_id
            && self.precommit_request_id == other.precommit_request_id
            && self.detail == other.detail
    }
}

impl Same for PreCommitStartRequest {
    open spec fn same(self, other: Self) -> bool {
        &&& self.tenant_id.same(other.tenant_id)
        &&& self.precommit_request_id.same(other.precommit_request_id)
        &&& self.detail.same(other.detail)
    }
}

impl vstd::std_specs::cmp::PartialEqSpecImpl for PreCommitStartRequest {
    open spec fn obeys_eq_spec() -> bool {
        true
    }

    open spec fn eq_spec(&self, other: &Self) -> bool {
        self.same(*other)
    }
}

impl Clone for PreCommitStartRequest {
    fn clone(&self) -> (copy: Self)
        ensures
            copy.same(*self),
            copy == *self,
    {
        Self {
            tenant_id: self.tenant_id.clone(),
            precommit_request_id: self.precommit_request_id.clone(),
            detail: self.detail.clone(),
        }
    }
}

/// Starts an abnormal attempt over.
#[derive(Debug, Eq)]
pub struct PreCommitRestartRequest {
    pub key: PreCommitKey,
    pub restart_request_id: RequestId,
    /// What else two attempts at the same mutation must agree on.
    pub detail: OpaqueText,
}

impl PartialEq for PreCommitRestartRequest {
    fn eq(&self, other: &Self) -> (equal: bool) {
        self.key == other.key
            && self.restart_request_id == other.restart_request_id
            && self.detail == other.detail
    }
}

impl Same for PreCommitRestartRequest {
    open spec fn same(self, other: Self) -> bool {
        &&& self.key.same(other.key)
        &&& self.restart_request_id.same(other.restart_request_id)
        &&& self.detail.same(other.detail)
    }
}

impl vstd::std_specs::cmp::PartialEqSpecImpl for PreCommitRestartRequest {
    open spec fn obeys_eq_spec() -> bool {
        true
    }

    open spec fn eq_spec(&self, other: &Self) -> bool {
        self.same(*other)
    }
}

impl Clone for PreCommitRestartRequest {
    fn clone(&self) -> (copy: Self)
        ensures
            copy.same(*self),
            copy == *self,
    {
        Self {
            key: self.key.clone(),
            restart_request_id: self.restart_request_id.clone(),
            detail: self.detail.clone(),
        }
    }
}

/// Gives an attempt up.
#[derive(Debug, Eq)]
pub struct PreCommitCancelRequest {
    pub key: PreCommitKey,
    pub cancel_request_id: RequestId,
    /// What else two attempts at the same mutation must agree on.
    pub detail: OpaqueText,
}

impl PartialEq for PreCommitCancelRequest {
    fn eq(&self, other: &Self) -> (equal: bool) {
        self.key == other.key
            && self.cancel_request_id == other.cancel_request_id
            && self.detail == other.detail
    }
}

impl Same for PreCommitCancelRequest {
    open spec fn same(self, other: Self) -> bool {
        &&& self.key.same(other.key)
        &&& self.cancel_request_id.same(other.cancel_request_id)
        &&& self.detail.same(other.detail)
    }
}

impl vstd::std_specs::cmp::PartialEqSpecImpl for PreCommitCancelRequest {
    open spec fn obeys_eq_spec() -> bool {
        true
    }

    open spec fn eq_spec(&self, other: &Self) -> bool {
        self.same(*other)
    }
}

impl Clone for PreCommitCancelRequest {
    fn clone(&self) -> (copy: Self)
        ensures
            copy.same(*self),
            copy == *self,
    {
        Self {
            key: self.key.clone(),
            cancel_request_id: self.cancel_request_id.clone(),
            detail: self.detail.clone(),
        }
    }
}

/// Makes a ready attempt a Commit.
#[derive(Debug, Eq)]
pub struct PreCommitCommitRequest {
    pub key: PreCommitKey,
    pub commit_request_id: RequestId,
    /// What else two attempts at the same mutation must agree on.
    pub detail: OpaqueText,
}

impl PartialEq for PreCommitCommitRequest {
    fn eq(&self, other: &Self) -> (equal: bool) {
        self.key == other.key
            && self.commit_request_id == other.commit_request_id
            && self.detail == other.detail
    }
}

impl Same for PreCommitCommitRequest {
    open spec fn same(self, other: Self) -> bool {
        &&& self.key.same(other.key)
        &&& self.commit_request_id.same(other.commit_request_id)
        &&& self.detail.same(other.detail)
    }
}

impl vstd::std_specs::cmp::PartialEqSpecImpl for PreCommitCommitRequest {
    open spec fn obeys_eq_spec() -> bool {
        true
    }

    open spec fn eq_spec(&self, other: &Self) -> bool {
        self.same(*other)
    }
}

impl Clone for PreCommitCommitRequest {
    fn clone(&self) -> (copy: Self)
        ensures
            copy.same(*self),
            copy == *self,
    {
        Self {
            key: self.key.clone(),
            commit_request_id: self.commit_request_id.clone(),
            detail: self.detail.clone(),
        }
    }
}

/// A Pre-commit that was changed, or the one that an earlier attempt at the same mutation left.
pub struct PreCommitMutationOutcome {
    pub precommit: PreCommitRecord,
    pub replayed: bool,
}

/// A Commit that was made, or the one that an earlier attempt at the same mutation left.
pub struct PreCommitCommitOutcome {
    pub commit: CommitRecord,
    pub consumed_precommit: PreCommitRecord,
    pub replayed: bool,
}

impl PreCommitCommitOutcome {
    #[must_use]
    pub fn from_snapshot(snapshot: PreCommitCommitSnapshot, replayed: bool) -> (outcome: Self)
        ensures
            outcome.commit == snapshot.commit,
            outcome.consumed_precommit == snapshot.consumed_precommit,
            outcome.replayed == replayed,
    {
        Self {
            commit: snapshot.commit,
            consumed_precommit: snapshot.consumed_precommit,
            replayed,
        }
    }
}

impl PreCommitKey {
    #[must_use]
    pub fn new(tenant_id: TenantId, precommit_id: PreCommitId) -> (key: Self)
        ensures
            key.tenant_id == tenant_id,
            key.precommit_id == precommit_id,
    {
        Self { tenant_id, precommit_id }
    }

    /// The name of a Pre-commit.
    pub open spec fn name(self) -> (Seq<char>, Seq<char>) {
        (self.tenant_id@, self.precommit_id@)
    }
}

impl PreCommitRecord {
    /// The name of a Pre-commit.
    pub open spec fn key_name(self) -> (Seq<char>, Seq<char>) {
        (self.tenant_id@, self.precommit_id@)
    }

    #[must_use]
    pub fn key(&self) -> (key: PreCommitKey)
        ensures
            key.name() == self.key_name(),
    {
        PreCommitKey::new(self.tenant_id.clone(), self.precommit_id.clone())
    }
}

/// A Pre-commit that still holds its Playground.
pub open spec fn is_active(state: PreCommitState) -> bool {
    state is Running || state is Ready || state is Abnormal
}

pub fn precommit_is_active(record: &PreCommitRecord) -> (active: bool)
    ensures
        active == is_active(record.state),
{
    matches!(
        record.state,
        PreCommitState::Running | PreCommitState::Ready | PreCommitState::Abnormal
    )
}

/// A Pre-commit that is not there.
pub open spec fn not_found_fault() -> Fault {
    final_fault(CentralErrorCode::JobNotFound, "tenant-scoped Pre-commit was not found"@)
}

pub fn precommit_not_found() -> (failure: CentralError)
    ensures
        failure@ == not_found_fault(),
{
    final_failure(CentralErrorCode::JobNotFound, "tenant-scoped Pre-commit was not found")
}

/// A mutation that conflicts with an earlier one.
pub open spec fn request_conflict_fault() -> Fault {
    final_fault(
        CentralErrorCode::ConcurrentUpdate,
        "Pre-commit mutation identity was reused with another payload"@,
    )
}

pub fn precommit_request_conflict() -> (failure: CentralError)
    ensures
        failure@ == request_conflict_fault(),
{
    final_failure(
        CentralErrorCode::ConcurrentUpdate,
        "Pre-commit mutation identity was reused with another payload",
    )
}

} // verus!
