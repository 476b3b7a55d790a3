//! Catalog records: tenants, Artifacts, Volumes, Playgrounds and Snapshots.
use vstd::prelude::*;

use crate::digest::CommitId;
use crate::equality::Same;
use crate::identifier::{
    ArtifactId, EdgeClusterId, OpaqueText, PlaygroundId, ProjectId, RequestId, ResourceVersion,
    SnapshotId, StorageVolumeId, TenantId, UnixMillis,
};
use crate::protocol::WireIndexVersion;
use crate::table::Replicate;
use crate::text::text_equals;

verus! {

/// Publicly selectable storage backend family.
#[derive(Debug, Clone, Copy, PartialEq, Eq, Structural)]
pub enum StorageBackendType {
    Pvc,
    Nfs,
}

/// Access semantics frozen when a Volume is registered.
#[derive(Debug, Clone, Copy, PartialEq, Eq, Structural)]
pub enum StorageAccessMode {
    ReadWriteOnce,
    ReadWriteMany,
    ReadOnlyMany,
}

/// Placement health exposed by the catalog.
#[derive(Debug, Clone, Copy, PartialEq, Eq, Structural)]
pub enum StorageVolumeState {
    Ready,
    Degraded,
    Unavailable,
}

/// Lifecycle of a Playground.
#[derive(Debug, Clone, Copy, PartialEq, Eq, Structural)]
pub enum PlaygroundState {
    Creating,
    Ready,
    Abnormal,
}

/// Delivery state of a Snapshot, as the catalog stores and compares it.
pub type SnapshotState = OpaqueText;

/// Delivery phase of a Snapshot, as the catalog stores and compares it.
pub type SnapshotPhase = OpaqueText;

/// PVC locator which is safe to expose in administrative responses.
#[derive(Debug, Eq)]
pub struct CatalogPvcReference {
    pub namespace: String,
    pub claim_name: String,
}

impl PartialEq for CatalogPvcReference {
    fn eq(&self, other: &Self) -> (equal: bool) {
        text_equals(self.namespace.as_str(), other.namespace.as_str())
            && text_equals(self.claim_name.as_str(), other.claim_name.as_str())
    }
}

impl Same for CatalogPvcReference {
    open spec fn same(self, other: Self) -> bool {
        &&& self.namespace@ == other.namespace@
        &&& self.claim_name@ == other.claim_name@
    }
}

impl vstd::std_specs::cmp::PartialEqSpecImpl for CatalogPvcReference {
    open spec fn obeys_eq_spec() -> bool {
        true
    }

    open spec fn eq_spec(&self, other: &Self) -> bool {
        self.same(*other)
    }
}

impl Clone for CatalogPvcReference {
    fn clone(&self) -> (copy: Self)
        ensures
            copy.same(*self),
            copy == *self,
    {
        Self {
            namespace: self.namespace.clone(),
            claim_name: self.claim_name.clone(),
        }
    }
}

/// Private NFS locator. It must never be projected by the public API.
#[derive(Debug, Eq)]
pub struct CatalogNfsReference {
    pub server: String,
    pub export_path: String,
}

impl PartialEq for CatalogNfsReference {
    fn eq(&self, other: &Self) -> (equal: bool) {
        text_equals(self.server.as_str(), other.server.as_str())
            && text_equals(self.export_path.as_str(), other.export_path.as_str())
    }
}

impl Same for CatalogNfsReference {
    open spec fn same(self, other: Self) -> bool {
        &&& self.server@ == other.server@
        &&& self.export_path@ == other.export_path@
    }
}

impl vstd::std_specs::cmp::PartialEqSpecImpl for CatalogNfsReference {
    open spec fn obeys_eq_spec() -> bool {
        true
    }

    open spec fn eq_spec(&self, other: &Self) -> bool {
        self.same(*other)
    }
}

impl Clone for CatalogNfsReference {
    fn clone(&self) -> (copy: Self)
        ensures
            copy.same(*self),
            copy == *self,
    {
        Self {
            server: self.server.clone(),
            export_path: self.export_path.clone(),
        }
    }
}

/// Authoritative Tenant catalog record.
#[derive(Debug, Eq)]
pub struct TenantRecord {
    pub tenant_id: TenantId,
    pub display_name: String,
    pub description: Option<OpaqueText>,
    pub resource_version: ResourceVersion,
    pub created_at_unix_ms: UnixMillis,
    pub updated_at_unix_ms: UnixMillis,
}

impl PartialEq for TenantRecord {
    fn eq(&self, other: &Self) -> (equal: bool) {
        self.tenant_id == other.tenant_id
            && text_equals(self.display_name.as_str(), other.display_name.as_str())
            && self.description == other.description
            && self.resource_version == other.resource_version
            && self.created_at_unix_ms == other.created_at_unix_ms
            && self.updated_at_unix_ms == other.updated_at_unix_ms
    }
}

impl Same for TenantRecord {
    open spec fn same(self, other: Self) -> bool {
        &&& self.tenant_id.same(other.tenant_id)
        &&& self.display_name@ == other.display_name@
        &&& self.description.same(other.description)
        &&& self.resource_version == other.resource_version
        &&& self.created_at_unix_ms == other.created_at_unix_ms
        &&& self.updated_at_unix_ms == other.updated_at_unix_ms
    }
}

impl vstd::std_specs::cmp::PartialEqSpecImpl for TenantRecord {
    open spec fn obeys_eq_spec() -> bool {
        true
    }

    open spec fn eq_spec(&self, other: &Self) -> bool {
        self.same(*other)
    }
}

impl Clone for TenantRecord {
    fn clone(&self) -> (copy: Self)
        ensures
            copy.same(*self),
            copy == *self,
    {
        Self {
            tenant_id: self.tenant_id.clone(),
            display_name: self.display_name.clone(),
            description: self.description.clone(),
            resource_version: self.resource_version,
            created_at_unix_ms: self.created_at_unix_ms,
            updated_at_unix_ms: self.updated_at_unix_ms,
        }
    }
}

impl Replicate for TenantRecord {
    fn replica(&self) -> (copy: Self) {
        self.clone()
    }
}

/// Where the content of a new Artifact comes from.
#[derive(Debug, Eq)]
pub enum ArtifactInitialization {
    Empty,
    Derived {
        source_project_id: ProjectId,
        source_artifact_id: ArtifactId,
        source_commit_id: CommitId,
    },
}

impl PartialEq for ArtifactInitialization {
    fn eq(&self, other: &Self) -> (equal: bool) {
        match (self, other) {
            (Self::Empty, Self::Empty) => true,
            (Self::Derived { source_project_id, source_artifact_id, source_commit_id }, Self::Derived { source_project_id: other_source_project_id, source_artifact_id: other_source_artifact_id, source_commit_id: other_source_commit_id }) => *source_project_id == *other_source_project_id
                && *source_artifact_id == *other_source_artifact_id
                && *source_commit_id == *other_source_commit_id,
            _ => false,
        }
    }
}

impl Same for ArtifactInitialization {
    open spec fn same(self, other: Self) -> bool {
        match (self, other) {
            (Self::Empty, Self::Empty) => true,
            (Self::Derived { source_project_id, source_artifact_id, source_commit_id }, Self::Derived { source_project_id: other_source_project_id, source_artifact_id: other_source_artifact_id, source_commit_id: other_source_commit_id }) => {
                &&& source_project_id.same(other_source_project_id)
                &&& source_artifact_id.same(other_source_artifact_id)
                &&& source_commit_id == other_source_commit_id
            },
            _ => false,
        }
    }
}

impl vstd::std_specs::cmp::PartialEqSpecImpl for ArtifactInitialization {
    open spec fn obeys_eq_spec() -> bool {
        true
    }

    open spec fn eq_spec(&self, other: &Self) -> bool {
        self.same(*other)
    }
}

impl Clone for ArtifactInitialization {
    fn clone(&self) -> (copy: Self)
        ensures
            copy.same(*self),
            copy == *self,
    {
        match self {
            Self::Empty => Self::Empty,
            Self::Derived { source_project_id, source_artifact_id, source_commit_id } => Self::Derived {
                source_project_id: source_project_id.clone(),
                source_artifact_id: source_artifact_id.clone(),
                source_commit_id: *source_commit_id,
            },
        }
    }
}

/// Authoritative Artifact catalog record.
#[derive(Debug, Eq)]
pub struct ArtifactRecord {
    pub tenant_id: TenantId,
    pub project_id: ProjectId,
    pub artifact_id: ArtifactId,
    pub display_name: String,
    pub description: Option<OpaqueText>,
    pub initialization: ArtifactInitialization,
    pub head_commit_id: Option<CommitId>,
    pub resource_version: ResourceVersion,
    pub created_at_unix_ms: UnixMillis,
    pub updated_at_unix_ms: UnixMillis,
}

impl PartialEq for ArtifactRecord {
    fn eq(&self, other: &Self) -> (equal: bool) {
        self.tenant_id == other.tenant_id
            && self.project_id == other.project_id
            && self.artifact_id == other.artifact_id
            && text_equals(self.display_name.as_str(), other.display_name.as_str())
            && self.description == other.description
            && self.initialization == other.initialization
            && self.head_commit_id == other.head_commit_id
            && self.resource_version == other.resource_version
            && self.created_at_unix_ms == other.created_at_unix_ms
            && self.updated_at_unix_ms == other.updated_at_unix_ms
    }
}

impl Same for ArtifactRecord {
    open spec fn same(self, other: Self) -> bool {
        &&& self.tenant_id.same(other.tenant_id)
        &&& self.project_id.same(other.project_id)
        &&& self.artifact_id.same(other.artifact_id)
        &&& self.display_name@ == other.display_name@
        &&& self.description.same(other.description)
        &&& self.initialization.same(other.initialization)
        &&& self.head_commit_id == other.head_commit_id
        &&& self.resource_version == other.resource_version
        &&& self.created_at_unix_ms == other.created_at_unix_ms
        &&& self.updated_at_unix_ms == other.updated_at_unix_ms
    }
}

impl vstd::std_specs::cmp::PartialEqSpecImpl for ArtifactRecord {
    open spec fn obeys_eq_spec() -> bool {
        true
    }

    open spec fn eq_spec(&self, other: &Self) -> bool {
        self.same(*other)
    }
}

impl Clone for ArtifactRecord {
    fn clone(&self) -> (copy: Self)
        ensures
            copy.same(*self),
            copy == *self,
    {
        Self {
            tenant_id: self.tenant_id.clone(),
            project_id: self.project_id.clone(),
            artifact_id: self.artifact_id.clone(),
            display_name: self.display_name.clone(),
            description: self.description.clone(),
            initialization: self.initialization.clone(),
            head_commit_id: self.head_commit_id,
            resource_version: self.resource_version,
            created_at_unix_ms: self.created_at_unix_ms,
            updated_at_unix_ms: self.updated_at_unix_ms,
        }
    }
}

impl Replicate for ArtifactRecord {
    fn replica(&self) -> (copy: Self) {
        self.clone()
    }
}

/// Authoritative logical Volume catalog record.
#[derive(Debug, Eq)]
pub struct StorageVolumeRecord {
    pub tenant_id: TenantId,
    pub storage_volume_id: StorageVolumeId,
    pub display_name: String,
    pub edge_cluster_id: EdgeClusterId,
    pub region: String,
    pub backend_type: StorageBackendType,
    pub access_mode: StorageAccessMode,
    pub pvc_reference: Option<CatalogPvcReference>,
    pub nfs_reference: Option<CatalogNfsReference>,
    pub state: StorageVolumeState,
    pub resource_version: ResourceVersion,
    pub created_at_unix_ms: UnixMillis,
    pub updated_at_unix_ms: UnixMillis,
}

impl PartialEq for StorageVolumeRecord {
    fn eq(&self, other: &Self) -> (equal: bool) {
        self.tenant_id == other.tenant_id
            && self.storage_volume_id == other.storage_volume_id
            && text_equals(self.display_name.as_str(), other.display_name.as_str())
            && self.edge_cluster_id == other.edge_cluster_id
            && text_equals(self.region.as_str(), other.region.as_str())
            && self.backend_type == other.backend_type
            && self.access_mode == other.access_mode
            && self.pvc_reference == other.pvc_reference
            && self.nfs_reference == other.nfs_reference
            && self.state == other.state
            && self.resource_version == other.resource_version
            && self.created_at_unix_ms == other.created_at_unix_ms
            && self.updated_at_unix_ms == other.updated_at_unix_ms
    }
}

impl Same for StorageVolumeRecord {
    open spec fn same(self, other: Self) -> bool {
        &&& self.tenant_id.same(other.tenant_id)
        &&& self.storage_volume_id.same(other.storage_volume_id)
        &&& self.display_name@ == other.display_name@
        &&& self.edge_cluster_id.same(other.edge_cluster_id)
        &&& self.region@ == other.region@
        &&& self.backend_type == other.backend_type
        &&& self.access_mode == other.access_mode
        &&& self.pvc_reference.same(other.pvc_reference)
        &&& self.nfs_reference.same(other.nfs_reference)
        &&& self.state == other.state
        &&& self.resource_version == other.resource_version
        &&& self.created_at_unix_ms == other.created_at_unix_ms
        &&& self.updated_at_unix_ms == other.updated_at_unix_ms
    }
}

impl vstd::std_specs::cmp::PartialEqSpecImpl for StorageVolumeRecord {
    open spec fn obeys_eq_spec() -> bool {
        true
    }

    open spec fn eq_spec(&self, other: &Self) -> bool {
        self.same(*other)
    }
}

impl Clone for StorageVolumeRecord {
    fn clone(&self) -> (copy: Self)
        ensures
            copy.same(*self),
            copy == *self,
    {
        Self {
            tenant_id: self.tenant_id.clone(),
            storage_volume_id: self.storage_volume_id.clone(),
            display_name: self.display_name.clone(),
            edge_cluster_id: self.edge_cluster_id.clone(),
            region: self.region.clone(),
            backend_type: self.backend_type,
            access_mode: self.access_mode,
            pvc_reference: self.pvc_reference.clone(),
            nfs_reference: self.nfs_reference.clone(),
            state: self.state,
            resource_version: self.resource_version,
            created_at_unix_ms: self.created_at_unix_ms,
            updated_at_unix_ms: self.updated_at_unix_ms,
        }
    }
}

impl Replicate for StorageVolumeRecord {
    fn replica(&self) -> (copy: Self) {
        self.clone()
    }
}

/// Minimal authoritative Playground placement used by scheduling and the Web flow.
#[derive(Debug, Eq)]
pub struct PlaygroundRecord {
    pub tenant_id: TenantId,
    pub project_id: ProjectId,
    pub artifact_id: ArtifactId,
    pub playground_id: PlaygroundId,
    pub storage_volume_id: StorageVolumeId,
    pub region: String,
    pub display_name: String,
    pub base_commit_id: Option<CommitId>,
    pub head_commit_id: Option<CommitId>,
    pub index_version: WireIndexVersion,
    pub state: PlaygroundState,
    /// Relative to the Agent's approved Volume mount; never an absolute host path.
    pub relative_root: String,
    pub created_at_unix_ms: UnixMillis,
    pub updated_at_unix_ms: UnixMillis,
}

impl PartialEq for PlaygroundRecord {
    fn eq(&self, other: &Self) -> (equal: bool) {
        self.tenant_id == other.tenant_id
            && self.project_id == other.project_id
            && self.artifact_id == other.artifact_id
            && self.playground_id == other.playground_id
            && self.storage_volume_id == other.storage_volume_id
            && text_equals(self.region.as_str(), other.region.as_str())
            && text_equals(self.display_name.as_str(), other.display_name.as_str())
            && self.base_commit_id == other.base_commit_id
            && self.head_commit_id == other.head_commit_id
            && self.index_version == other.index_version
            && self.state == other.state
            && text_equals(self.relative_root.as_str(), other.relative_root.as_str())
            && self.created_at_unix_ms == other.created_at_unix_ms
            && self.updated_at_unix_ms == other.updated_at_unix_ms
    }
}

impl Same for PlaygroundRecord {
    open spec fn same(self, other: Self) -> bool {
        &&& self.tenant_id.same(other.tenant_id)
        &&& self.project_id.same(other.project_id)
        &&& self.artifact_id.same(other.artifact_id)
        &&& self.playground_id.same(other.playground_id)
        &&& self.storage_volume_id.same(other.storage_volume_id)
        &&& self.region@ == other.region@
        &&& self.display_name@ == other.display_name@
        &&& self.base_commit_id == other.base_commit_id
        &&& self.head_commit_id == other.head_commit_id
        &&& self.index_version.same(other.index_version)
        &&& self.state == other.state
        &&& self.relative_root@ == other.relative_root@
        &&& self.created_at_unix_ms == other.created_at_unix_ms
        &&& self.updated_at_unix_ms == other.updated_at_unix_ms
    }
}

impl vstd::std_specs::cmp::PartialEqSpecImpl for PlaygroundRecord {
    open spec fn obeys_eq_spec() -> bool {
        true
    }

    open spec fn eq_spec(&self, other: &Self) -> bool {
        self.same(*other)
    }
}

impl Clone for PlaygroundRecord {
    fn clone(&self) -> (copy: Self)
        ensures
            copy.same(*self),
            copy == *self,
    {
        Self {
            tenant_id: self.tenant_id.clone(),
            project_id: self.project_id.clone(),
            artifact_id: self.artifact_id.clone(),
            playground_id: self.playground_id.clone(),
            storage_volume_id: self.storage_volume_id.clone(),
            region: self.region.clone(),
            display_name: self.display_name.clone(),
            base_commit_id: self.base_commit_id,
            head_commit_id: self.head_commit_id,
            index_version: self.index_version.clone(),
            state: self.state,
            relative_root: self.relative_root.clone(),
            created_at_unix_ms: self.created_at_unix_ms,
            updated_at_unix_ms: self.updated_at_unix_ms,
        }
    }
}

impl Replicate for PlaygroundRecord {
    fn replica(&self) -> (copy: Self) {
        self.clone()
    }
}

/// Authoritative Snapshot catalog record.
#[derive(Debug, Eq)]
pub struct SnapshotRecord {
    pub tenant_id: TenantId,
    pub project_id: ProjectId,
    pub artifact_id: ArtifactId,
    pub snapshot_id: SnapshotId,
    pub snapshot_request_id: RequestId,
    pub commit_id: CommitId,
    pub storage_volume_id: StorageVolumeId,
    pub region: String,
    pub relative_root: String,
    pub state: SnapshotState,
    pub phase: SnapshotPhase,
    pub created_at_unix_ms: UnixMillis,
    pub updated_at_unix_ms: UnixMillis,
}

impl PartialEq for SnapshotRecord {
    fn eq(&self, other: &Self) -> (equal: bool) {
        self.tenant_id == other.tenant_id
            && self.project_id == other.project_id
            && self.artifact_id == other.artifact_id
            && self.snapshot_id == other.snapshot_id
            && self.snapshot_request_id == other.snapshot_request_id
            && self.commit_id == other.commit_id
            && self.storage_volume_id == other.storage_volume_id
            && text_equals(self.region.as_str(), other.region.as_str())
            && text_equals(self.relative_root.as_str(), other.relative_root.as_str())
            && self.state == other.state
            && self.phase == other.phase
            && self.created_at_unix_ms == other.created_at_unix_ms
            && self.updated_at_unix_ms == other.updated_at_unix_ms
    }
}

impl Same for SnapshotRecord {
    open spec fn same(self, other: Self) -> bool {
        &&& self.tenant_id.same(other.tenant_id)
        &&& self.project_id.same(other.project_id)
        &&& self.artifact_id.same(other.artifact_id)
        &&& self.snapshot_id.same(other.snapshot_id)
        &&& self.snapshot_request_id.same(other.snapshot_request_id)
        &&& self.commit_id == other.commit_id
        &&& self.storage_volume_id.same(other.storage_volume_id)
        &&& self.region@ == other.region@
        &&& self.relative_root@ == other.relative_root@
        &&& self.state.same(other.state)
        &&& self.phase.same(other.phase)
        &&& self.created_at_unix_ms == other.created_at_unix_ms
        &&& self.updated_at_unix_ms == other.updated_at_unix_ms
    }
}

impl vstd::std_specs::cmp::PartialEqSpecImpl for SnapshotRecord {
    open spec fn obeys_eq_spec() -> bool {
        true
    }

    open spec fn eq_spec(&self, other: &Self) -> bool {
        self.same(*other)
    }
}

impl Clone for SnapshotRecord {
    fn clone(&self) -> (copy: Self)
        ensures
            copy.same(*self),
            copy == *self,
    {
        Self {
            tenant_id: self.tenant_id.clone(),
            project_id: self.project_id.clone(),
            artifact_id: self.artifact_id.clone(),
            snapshot_id: self.snapshot_id.clone(),
            snapshot_request_id: self.snapshot_request_id.clone(),
            commit_id: self.commit_id,
            storage_volume_id: self.storage_volume_id.clone(),
            region: self.region.clone(),
            relative_root: self.relative_root.clone(),
            state: self.state.clone(),
            phase: self.phase.clone(),
            created_at_unix_ms: self.created_at_unix_ms,
            updated_at_unix_ms: self.updated_at_unix_ms,
        }
    }
}

impl Replicate for SnapshotRecord {
    fn replica(&self) -> (copy: Self) {
        self.clone()
    }
}

/// What an insert into the catalog found.
pub enum CatalogInsertOutcome<T> {
    Inserted(T),
    Existing(T),
}

/// What inserting a Snapshot found.
pub enum SnapshotInsertOutcome {
    Inserted(SnapshotRecord),
    /// The request was made before.
    ExistingRequest(SnapshotRecord),
    /// Another request placed the same Commit on the same Volume.
    ExistingPlacement(SnapshotRecord),
}

/// What an insert expects of the Head of its Artifact.
#[derive(Debug, Clone, Copy)]
pub enum ArtifactHeadExpectation {
    Any,
    /// The Head that the caller observed.
    Exact(Option<CommitId>),
}

pub struct PlaygroundInsertRequest {
    pub record: PlaygroundRecord,
    pub artifact_head: ArtifactHeadExpectation,
}

pub struct SnapshotInsertRequest {
    pub record: SnapshotRecord,
    pub artifact_head: ArtifactHeadExpectation,
}

pub struct TenantListCursor {
    pub created_at_unix_ms: UnixMillis,
    pub tenant_id: TenantId,
}

pub struct TenantListRequest {
    /// `None` is an explicit wildcard grant; `Some([])` means no visibility.
    pub visible_tenant_ids: Option<Vec<TenantId>>,
    pub query: Option<String>,
    pub after: Option<TenantListCursor>,
    pub limit: u16,
}

pub struct TenantListPage {
    pub records: Vec<TenantRecord>,
    pub next: Option<TenantListCursor>,
}

pub struct ArtifactListCursor {
    pub created_at_unix_ms: UnixMillis,
    pub project_id: ProjectId,
    pub artifact_id: ArtifactId,
}

pub struct ArtifactListRequest {
    pub tenant_id: TenantId,
    pub project_id: Option<ProjectId>,
    pub query: Option<String>,
    pub after: Option<ArtifactListCursor>,
    pub limit: u16,
}

pub struct ArtifactListPage {
    pub records: Vec<ArtifactRecord>,
    pub next: Option<ArtifactListCursor>,
}

pub struct StorageVolumeListCursor {
    pub created_at_unix_ms: UnixMillis,
    pub storage_volume_id: StorageVolumeId,
}

pub struct StorageVolumeListRequest {
    pub tenant_id: TenantId,
    pub region: Option<String>,
    pub backend_type: Option<StorageBackendType>,
    pub query: Option<String>,
    pub after: Option<StorageVolumeListCursor>,
    pub limit: u16,
}

pub struct StorageVolumeListPage {
    pub records: Vec<StorageVolumeRecord>,
    pub next: Option<StorageVolumeListCursor>,
}

pub struct PlaygroundListCursor {
    pub created_at_unix_ms: UnixMillis,
    pub project_id: ProjectId,
    pub artifact_id: ArtifactId,
    pub playground_id: PlaygroundId,
}

pub struct PlaygroundListRequest {
    pub tenant_id: TenantId,
    pub project_id: Option<ProjectId>,
    pub artifact_id: Option<ArtifactId>,
    pub region: Option<String>,
    pub state: Option<PlaygroundState>,
    pub query: Option<String>,
    pub after: Option<PlaygroundListCursor>,
    pub limit: u16,
}

pub struct PlaygroundListPage {
    pub records: Vec<PlaygroundRecord>,
    pub next: Option<PlaygroundListCursor>,
}

pub struct SnapshotListCursor {
    pub created_at_unix_ms: UnixMillis,
    pub snapshot_id: SnapshotId,
}

pub struct SnapshotListRequest {
    pub tenant_id: TenantId,
    pub project_id: Option<ProjectId>,
    pub artifact_id: Option<ArtifactId>,
    pub commit_id: Option<CommitId>,
    pub storage_volume_id: Option<StorageVolumeId>,
    pub region: Option<String>,
    pub state: Option<SnapshotState>,
    pub after: Option<SnapshotListCursor>,
    pub limit: u16,
}

pub struct SnapshotListPage {
    pub records: Vec<SnapshotRecord>,
    pub next: Option<SnapshotListCursor>,
}

pub struct AdvancePlaygroundCommitRequest {
    pub tenant_id: TenantId,
    pub project_id: ProjectId,
    pub artifact_id: ArtifactId,
    pub playground_id: PlaygroundId,
    pub expected_head_commit_id: Option<CommitId>,
    pub commit_id: CommitId,
    pub updated_at_unix_ms: UnixMillis,
}

pub struct AdvancePlaygroundCommitOutcome {
    pub artifact: ArtifactRecord,
    pub playground: PlaygroundRecord,
    pub replayed: bool,
}

} // verus!
