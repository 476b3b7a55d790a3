//! The control catalog in memory.
use vstd::prelude::*;

use crate::catalog::listing::{
    is_listing_of, is_page, limit_fault, list_page, place, validate_limit,
};
use crate::catalog::records::{
    AdvancePlaygroundCommitOutcome, AdvancePlaygroundCommitRequest, ArtifactInitialization,
    ArtifactListCursor, ArtifactListPage, ArtifactListRequest, ArtifactRecord,
    CatalogInsertOutcome, PlaygroundInsertRequest, PlaygroundListCursor, PlaygroundListPage,
    PlaygroundListRequest, PlaygroundRecord, PlaygroundState, SnapshotInsertOutcome,
    SnapshotInsertRequest, SnapshotListCursor, SnapshotListPage, SnapshotListRequest,
    SnapshotPhase, SnapshotRecord, SnapshotState, StorageBackendType, StorageVolumeListCursor,
    StorageVolumeListPage, StorageVolumeListRequest, StorageVolumeRecord, TenantListCursor,
    TenantListPage, TenantListRequest, TenantRecord,
};
use crate::catalog::rules::{
    artifact_cursor, artifact_matches, catalog_parent_error, conflict, is_same_artifact,
    is_same_playground, is_same_snapshot_request, is_same_tenant, is_same_volume,
    is_wanted_artifact, is_wanted_playground, is_wanted_snapshot, is_wanted_tenant,
    is_wanted_volume, playground_cursor, playground_fault, playground_matches_insert,
    playground_state_name_of, playground_state_text, snapshot_cursor, snapshot_fault,
    snapshot_request_matches, tenant_create_matches, tenant_cursor, transition_failure,
    transition_fault, validate_playground_insert, validate_snapshot_insert, volume_cursor,
    volume_matches, wants_artifact, wants_playground, wants_snapshot, wants_tenant, wants_volume,
};
use crate::equality::Same;
use crate::error::{
    failure, fault, fault_of, final_failure, final_fault, CentralErrorCode, CentralResult, Fault,
};
use crate::identifier::{
    ArtifactId, PlaygroundId, ProjectId, SnapshotId, StorageVolumeId, TenantId, UnixMillis,
};
use crate::table::{
    at_most, lemma_entry_is_mapped, lemma_mapped_is_entry, lemma_names_differ, Named, Table,
};

verus! {

/// The name of a Playground: tenant, Project, Artifact, Playground.
pub type PlaygroundName = (Seq<char>, (Seq<char>, (Seq<char>, Seq<char>)));

/// Everything that a catalog holds, as a mathematical value.
#[verifier::ext_equal]
pub ghost struct CatalogView {
    pub tenants: Map<Seq<char>, TenantRecord>,
    /// By tenant and Artifact: an Artifact identity belongs to one Project of its tenant.
    pub artifacts: Map<(Seq<char>, Seq<char>), ArtifactRecord>,
    pub volumes: Map<(Seq<char>, Seq<char>), StorageVolumeRecord>,
    pub playgrounds: Map<PlaygroundName, PlaygroundRecord>,
    pub snapshots: Map<(Seq<char>, Seq<char>), SnapshotRecord>,
}

pub open spec fn artifact_name(record: ArtifactRecord) -> (Seq<char>, Seq<char>) {
    (record.tenant_id@, record.artifact_id@)
}

pub open spec fn volume_name(record: StorageVolumeRecord) -> (Seq<char>, Seq<char>) {
    (record.tenant_id@, record.storage_volume_id@)
}

pub open spec fn playground_name(record: PlaygroundRecord) -> PlaygroundName {
    (record.tenant_id@, (record.project_id@, (record.artifact_id@, record.playground_id@)))
}

pub open spec fn snapshot_name(record: SnapshotRecord) -> (Seq<char>, Seq<char>) {
    (record.tenant_id@, record.snapshot_id@)
}

/// What a map holds under a name, if anything.
pub open spec fn lookup<N, V>(records: Map<N, V>, name: N) -> Option<V> {
    if records.contains_key(name) {
        Some(records[name])
    } else {
        None
    }
}

/// Two Snapshots of one tenant that carry the same request.
pub open spec fn shares_request(left: SnapshotRecord, right: SnapshotRecord) -> bool {
    left.tenant_id@ == right.tenant_id@ && left.snapshot_request_id@ == right.snapshot_request_id@
}

/// Two Snapshots that place one Commit on one Volume.
pub open spec fn shares_placement(left: SnapshotRecord, right: SnapshotRecord) -> bool {
    &&& left.tenant_id@ == right.tenant_id@
    &&& left.project_id@ == right.project_id@
    &&& left.artifact_id@ == right.artifact_id@
    &&& left.commit_id == right.commit_id
    &&& left.storage_volume_id@ == right.storage_volume_id@
}

/// The stored Snapshot under `name` carries the request of `record`.
pub open spec fn has_request(
    snapshots: Map<(Seq<char>, Seq<char>), SnapshotRecord>,
    record: SnapshotRecord,
    name: (Seq<char>, Seq<char>),
) -> bool {
    snapshots.contains_key(name) && shares_request(snapshots[name], record)
}

/// The stored Snapshot under `name` has the placement of `record`.
pub open spec fn has_placement(
    snapshots: Map<(Seq<char>, Seq<char>), SnapshotRecord>,
    record: SnapshotRecord,
    name: (Seq<char>, Seq<char>),
) -> bool {
    snapshots.contains_key(name) && shares_placement(snapshots[name], record)
}

/// Every record stands under its own name, and no two Snapshots share a request or a placement.
pub open spec fn is_catalog(catalog: CatalogView) -> bool {
    &&& forall|name: Seq<char>| #[trigger]
        catalog.tenants.contains_key(name) ==> catalog.tenants[name].tenant_id@ == name
    &&& forall|name: (Seq<char>, Seq<char>)| #[trigger]
        catalog.artifacts.contains_key(name) ==> artifact_name(catalog.artifacts[name]) == name
    &&& forall|name: (Seq<char>, Seq<char>)| #[trigger]
        catalog.volumes.contains_key(name) ==> volume_name(catalog.volumes[name]) == name
    &&& forall|name: PlaygroundName| #[trigger]
        catalog.playgrounds.contains_key(name) ==> playground_name(catalog.playgrounds[name])
            == name
    &&& forall|name: (Seq<char>, Seq<char>)| #[trigger]
        catalog.snapshots.contains_key(name) ==> snapshot_name(catalog.snapshots[name]) == name
    &&& forall|left: (Seq<char>, Seq<char>), right: (Seq<char>, Seq<char>)|
        #![trigger catalog.snapshots[left], catalog.snapshots[right]]
        catalog.snapshots.contains_key(left) && catalog.snapshots.contains_key(right) && (
        shares_request(catalog.snapshots[left], catalog.snapshots[right]) || shares_placement(
            catalog.snapshots[left],
            catalog.snapshots[right],
        )) ==> left == right
}

/// Why an Artifact is not inserted.
pub open spec fn insert_artifact_fault(
    catalog: CatalogView,
    record: ArtifactRecord,
) -> Option<Fault> {
    if !catalog.tenants.contains_key(record.tenant_id@) {
        Some(final_fault(CentralErrorCode::InvalidState, "Artifact Tenant does not exist"@))
    } else if catalog.artifacts.contains_key(artifact_name(record)) {
        if is_same_artifact(catalog.artifacts[artifact_name(record)], record) {
            None
        } else {
            Some(final_fault(CentralErrorCode::InvalidState, "Artifact ID is already used"@))
        }
    } else if record.initialization matches ArtifactInitialization::Derived {
        source_project_id,
        source_artifact_id,
        ..
    } && !(catalog.artifacts.contains_key((record.tenant_id@, source_artifact_id@))
        && catalog.artifacts[(record.tenant_id@, source_artifact_id@)].project_id@
        == source_project_id@) {
        Some(
            final_fault(
                CentralErrorCode::InvalidState,
                "Artifact initialization source does not exist"@,
            ),
        )
    } else {
        None
    }
}

/// Another Volume of the same cluster has the same claim.
pub open spec fn claim_is_taken(
    volumes: Map<(Seq<char>, Seq<char>), StorageVolumeRecord>,
    record: StorageVolumeRecord,
) -> bool {
    exists|name: (Seq<char>, Seq<char>)| #[trigger]
        volumes.contains_key(name) && volumes[name].edge_cluster_id@ == record.edge_cluster_id@
            && volumes[name].pvc_reference.same(record.pvc_reference)
}

/// Why a Volume is not inserted.
pub open spec fn insert_volume_fault(
    volumes: Map<(Seq<char>, Seq<char>), StorageVolumeRecord>,
    record: StorageVolumeRecord,
) -> Option<Fault> {
    if volumes.contains_key(volume_name(record)) {
        if is_same_volume(volumes[volume_name(record)], record) {
            None
        } else {
            Some(final_fault(CentralErrorCode::InvalidState, "StorageVolume ID is already used"@))
        }
    } else if record.backend_type is Pvc && claim_is_taken(volumes, record) {
        Some(
            final_fault(
                CentralErrorCode::VolumeOwnerConflict,
                "PVC identity is already registered"@,
            ),
        )
    } else {
        None
    }
}

/// Why a Playground is not inserted.
pub open spec fn insert_playground_fault(
    catalog: CatalogView,
    request: PlaygroundInsertRequest,
) -> Option<Fault> {
    let record = request.record;
    let name = playground_name(record);
    if catalog.playgrounds.contains_key(name) {
        if is_same_playground(catalog.playgrounds[name], record, request.artifact_head) {
            None
        } else {
            Some(final_fault(CentralErrorCode::InvalidState, "Playground ID is already used"@))
        }
    } else {
        playground_fault(
            record,
            request.artifact_head,
            lookup(catalog.artifacts, (record.tenant_id@, record.artifact_id@)),
            lookup(catalog.volumes, (record.tenant_id@, record.storage_volume_id@)),
        )
    }
}

/// Why the state of a Playground does not change.
pub open spec fn playground_transition_fault(
    playgrounds: Map<PlaygroundName, PlaygroundRecord>,
    name: PlaygroundName,
    expected: PlaygroundState,
    next: PlaygroundState,
) -> Option<Fault> {
    if !playgrounds.contains_key(name) {
        Some(final_fault(CentralErrorCode::ArtifactNotFound, "Playground does not exist"@))
    } else if playgrounds[name].state != next && playgrounds[name].state != expected {
        Some(
            transition_fault(
                "Playground is in "@,
                playground_state_text(playgrounds[name].state),
                playground_state_text(expected),
            ),
        )
    } else {
        None
    }
}

/// The name of the Artifact that a Commit is published to.
pub open spec fn commit_artifact(request: AdvancePlaygroundCommitRequest) -> (
    Seq<char>,
    Seq<char>,
) {
    (request.tenant_id@, request.artifact_id@)
}

/// The name of the Playground that a Commit is published from.
pub open spec fn commit_playground(request: AdvancePlaygroundCommitRequest) -> PlaygroundName {
    (request.tenant_id@, (request.project_id@, (request.artifact_id@, request.playground_id@)))
}

/// Both Heads are at the Commit already.
pub open spec fn is_advanced(
    catalog: CatalogView,
    request: AdvancePlaygroundCommitRequest,
) -> bool {
    &&& catalog.artifacts[commit_artifact(request)].head_commit_id == Some(request.commit_id)
    &&& catalog.playgrounds[commit_playground(request)].head_commit_id == Some(request.commit_id)
}

/// Why a Commit is not published.
pub open spec fn advance_fault(
    catalog: CatalogView,
    request: AdvancePlaygroundCommitRequest,
) -> Option<Fault> {
    let artifact = catalog.artifacts[commit_artifact(request)];
    let playground = catalog.playgrounds[commit_playground(request)];
    if !catalog.artifacts.contains_key(commit_artifact(request)) || artifact.project_id@
        != request.project_id@ {
        Some(final_fault(CentralErrorCode::ArtifactNotFound, "Commit Artifact does not exist"@))
    } else if !catalog.playgrounds.contains_key(commit_playground(request)) {
        Some(final_fault(CentralErrorCode::ArtifactNotFound, "Commit Playground does not exist"@))
    } else if is_advanced(catalog, request) {
        None
    } else if artifact.head_commit_id != request.expected_head_commit_id
        || playground.head_commit_id != request.expected_head_commit_id {
        Some(
            final_fault(
                CentralErrorCode::ArtifactHeadMismatch,
                "Artifact or Playground Head changed after Pre-commit"@,
            ),
        )
    } else if !(playground.state is Ready) {
        Some(
            final_fault(
                CentralErrorCode::InvalidState,
                "only a Ready Playground can publish a Commit"@,
            ),
        )
    } else if artifact.resource_version == u64::MAX {
        Some(
            fault(
                CentralErrorCode::ConcurrentUpdate,
                "Artifact ResourceVersion is exhausted"@,
            ),
        )
    } else {
        None
    }
}

/// The catalog after a Commit was published: both Heads move together.
pub open spec fn advanced(
    catalog: CatalogView,
    request: AdvancePlaygroundCommitRequest,
) -> CatalogView {
    let artifact = catalog.artifacts[commit_artifact(request)];
    let playground = catalog.playgrounds[commit_playground(request)];
    CatalogView {
        artifacts: catalog.artifacts.insert(
            commit_artifact(request),
            ArtifactRecord {
                head_commit_id: Some(request.commit_id),
                resource_version: (artifact.resource_version + 1) as u64,
                updated_at_unix_ms: request.updated_at_unix_ms,
                ..artifact
            },
        ),
        playgrounds: catalog.playgrounds.insert(
            commit_playground(request),
            PlaygroundRecord {
                head_commit_id: Some(request.commit_id),
                updated_at_unix_ms: request.updated_at_unix_ms,
                ..playground
            },
        ),
        ..catalog
    }
}

/// Why a Snapshot is not inserted.
pub open spec fn insert_snapshot_fault(
    catalog: CatalogView,
    request: SnapshotInsertRequest,
) -> Option<Fault> {
    let record = request.record;
    if exists|name: (Seq<char>, Seq<char>)| has_request(catalog.snapshots, record, name) {
        let name = choose|name: (Seq<char>, Seq<char>)| has_request(catalog.snapshots, record, name);
        if is_same_snapshot_request(catalog.snapshots[name], record) {
            None
        } else {
            Some(
                final_fault(CentralErrorCode::InvalidState, "Snapshot request ID is already used"@),
            )
        }
    } else if catalog.snapshots.contains_key(snapshot_name(record)) {
        Some(final_fault(CentralErrorCode::InvalidState, "Snapshot ID is already used"@))
    } else if exists|name: (Seq<char>, Seq<char>)| has_placement(catalog.snapshots, record, name) {
        None
    } else {
        snapshot_fault(
            record,
            request.artifact_head,
            lookup(catalog.artifacts, (record.tenant_id@, record.artifact_id@)),
            lookup(catalog.volumes, (record.tenant_id@, record.storage_volume_id@)),
        )
    }
}

/// A Snapshot is where a transition would bring it.
pub open spec fn is_in_phase(record: SnapshotRecord, state: Seq<char>, phase: Seq<char>) -> bool {
    record.state@ == state && record.phase@ == phase
}

/// Why the state of a Snapshot does not change.
pub open spec fn snapshot_transition_fault(
    snapshots: Map<(Seq<char>, Seq<char>), SnapshotRecord>,
    name: (Seq<char>, Seq<char>),
    expected: Seq<char>,
    next_state: Seq<char>,
    next_phase: Seq<char>,
) -> Option<Fault> {
    if !snapshots.contains_key(name) {
        Some(final_fault(CentralErrorCode::ArtifactNotFound, "Snapshot does not exist"@))
    } else if !is_in_phase(snapshots[name], next_state, next_phase) && snapshots[name].state@
        != expected {
        Some(transition_fault("Snapshot is in "@, snapshots[name].state@, expected))
    } else {
        None
    }
}

/// The Snapshot after a transition. A replay only moves its time on.
pub open spec fn transitioned(
    before: SnapshotRecord,
    state: SnapshotState,
    phase: SnapshotPhase,
    at: UnixMillis,
) -> SnapshotRecord {
    if is_in_phase(before, state@, phase@) {
        SnapshotRecord {
            updated_at_unix_ms: if at > before.updated_at_unix_ms {
                at
            } else {
                before.updated_at_unix_ms
            },
            ..before
        }
    } else {
        SnapshotRecord { state, phase, updated_at_unix_ms: at, ..before }
    }
}

/// The records that a list request asks for.
pub open spec fn wanted_tenants(request: TenantListRequest) -> spec_fn(TenantRecord) -> bool {
    |record: TenantRecord| is_wanted_tenant(record, request)
}

/// The records that a list request asks for.
pub open spec fn wanted_artifacts(request: ArtifactListRequest) -> spec_fn(ArtifactRecord) -> bool {
    |record: ArtifactRecord| is_wanted_artifact(record, request)
}

/// The records that a list request asks for.
pub open spec fn wanted_volumes(request: StorageVolumeListRequest) -> spec_fn(StorageVolumeRecord) -> bool {
    |record: StorageVolumeRecord| is_wanted_volume(record, request)
}

/// The records that a list request asks for.
pub open spec fn wanted_playgrounds(request: PlaygroundListRequest) -> spec_fn(PlaygroundRecord) -> bool {
    |record: PlaygroundRecord| is_wanted_playground(record, request)
}

/// The records that a list request asks for.
pub open spec fn wanted_snapshots(request: SnapshotListRequest) -> spec_fn(SnapshotRecord) -> bool {
    |record: SnapshotRecord| is_wanted_snapshot(record, request)
}

pub struct InMemoryControlCatalog {
    tenants: Table<TenantId, TenantRecord>,
    artifacts: Table<(TenantId, ArtifactId), ArtifactRecord>,
    volumes: Table<(TenantId, StorageVolumeId), StorageVolumeRecord>,
    playgrounds: Table<(TenantId, (ProjectId, (ArtifactId, PlaygroundId))), PlaygroundRecord>,
    snapshots: Table<(TenantId, SnapshotId), SnapshotRecord>,
}

impl View for InMemoryControlCatalog {
    type V = CatalogView;

    closed spec fn view(&self) -> CatalogView {
        CatalogView {
            tenants: self.tenants@,
            artifacts: self.artifacts@,
            volumes: self.volumes@,
            playgrounds: self.playgrounds@,
            snapshots: self.snapshots@,
        }
    }
}

impl InMemoryControlCatalog {
    pub closed spec fn well_formed(self) -> bool {
        &&& self.tenants.well_formed()
        &&& self.artifacts.well_formed()
        &&& self.volumes.well_formed()
        &&& self.playgrounds.well_formed()
        &&& self.snapshots.well_formed()
        &&& is_catalog(self@)
    }

    /// In a catalog that was built by its operations every record stands under its own name.
    pub proof fn lemma_consistent(&self)
        requires
            self.well_formed(),
        ensures
            is_catalog(self@),
    {
    }

    #[must_use]
    pub fn new() -> (catalog: Self)
        ensures
            catalog.well_formed(),
            catalog@ == (CatalogView {
                tenants: Map::empty(),
                artifacts: Map::empty(),
                volumes: Map::empty(),
                playgrounds: Map::empty(),
                snapshots: Map::empty(),
            }),
    {
        Self {
            tenants: Table::new(),
            artifacts: Table::new(),
            volumes: Table::new(),
            playgrounds: Table::new(),
            snapshots: Table::new(),
        }
    }

    #[must_use]
    pub fn get_tenant(&self, tenant_id: &TenantId) -> (record: Option<TenantRecord>)
        requires
            self.well_formed(),
        ensures
            record == lookup(self@.tenants, tenant_id@),
    {
        match self.tenants.get(tenant_id) {
            Some(record) => Some(record.clone()),
            None => None,
        }
    }

    pub fn insert_tenant(&mut self, record: TenantRecord) -> (result: CentralResult<
        CatalogInsertOutcome<TenantRecord>,
    >)
        requires
            old(self).well_formed(),
        ensures
            final(self).well_formed(),
            fault_of(result) == if old(self)@.tenants.contains_key(record.tenant_id@)
                && !is_same_tenant(old(self)@.tenants[record.tenant_id@], record) {
                Some(final_fault(CentralErrorCode::InvalidState, "Tenant ID is already used"@))
            } else {
                None
            },
            result is Err ==> final(self)@ == old(self)@,
            result matches Ok(CatalogInsertOutcome::Existing(existing)) ==> final(self)@ == old(
                self,
            )@ && lookup(old(self)@.tenants, record.tenant_id@) == Some(existing),
            result matches Ok(CatalogInsertOutcome::Inserted(inserted)) ==> {
                &&& !old(self)@.tenants.contains_key(record.tenant_id@)
                &&& inserted == record
                &&& final(self)@ == (CatalogView {
                    tenants: old(self)@.tenants.insert(record.tenant_id@, record),
                    ..old(self)@
                })
            },
    {
        if let Some(existing) = self.tenants.get(&record.tenant_id) {
            if tenant_create_matches(existing, &record) {
                return Ok(CatalogInsertOutcome::Existing(existing.clone()));
            }
            return Err(conflict("Tenant ID is already used"));
        }
        self.tenants.insert(record.tenant_id.clone(), record.clone());
        Ok(CatalogInsertOutcome::Inserted(record))
    }

    /// The Artifact of that identity, where it belongs to that Project.
    #[must_use]
    pub fn get_artifact(
        &self,
        tenant_id: &TenantId,
        project_id: &ProjectId,
        artifact_id: &ArtifactId,
    ) -> (record: Option<ArtifactRecord>)
        requires
            self.well_formed(),
        ensures
            record == match lookup(self@.artifacts, (tenant_id@, artifact_id@)) {
                Some(found) => if found.project_id@ == project_id@ {
                    Some(found)
                } else {
                    None
                },
                None => None,
            },
    {
        match self.artifacts.get(&(tenant_id.clone(), artifact_id.clone())) {
            Some(record) => if record.project_id == *project_id {
                Some(record.clone())
            } else {
                None
            },
            None => None,
        }
    }

    pub fn insert_artifact(&mut self, record: ArtifactRecord) -> (result: CentralResult<
        CatalogInsertOutcome<ArtifactRecord>,
    >)
        requires
            old(self).well_formed(),
        ensures
            final(self).well_formed(),
            fault_of(result) == insert_artifact_fault(old(self)@, record),
            result is Err ==> final(self)@ == old(self)@,
            result matches Ok(CatalogInsertOutcome::Existing(existing)) ==> final(self)@ == old(
                self,
            )@ && lookup(old(self)@.artifacts, artifact_name(record)) == Some(existing),
            result matches Ok(CatalogInsertOutcome::Inserted(inserted)) ==> {
                &&& !old(self)@.artifacts.contains_key(artifact_name(record))
                &&& inserted == record
                &&& final(self)@ == (CatalogView {
                    artifacts: old(self)@.artifacts.insert(artifact_name(record), record),
                    ..old(self)@
                })
            },
    {
        if !self.tenants.contains(&record.tenant_id) {
            return Err(conflict("Artifact Tenant does not exist"));
        }
        let key = (record.tenant_id.clone(), record.artifact_id.clone());
        if let Some(existing) = self.artifacts.get(&key) {
            if artifact_matches(existing, &record) {
                return Ok(CatalogInsertOutcome::Existing(existing.clone()));
            }
            return Err(conflict("Artifact ID is already used"));
        }
        if let ArtifactInitialization::Derived { source_project_id, source_artifact_id, .. } =
            &record.initialization {
            let source = (record.tenant_id.clone(), source_artifact_id.clone());
            let found = match self.artifacts.get(&source) {
                Some(source) => source.project_id == *source_project_id,
                None => false,
            };
            if !found {
                return Err(conflict("Artifact initialization source does not exist"));
            }
        }
        self.artifacts.insert(key, record.clone());
        Ok(CatalogInsertOutcome::Inserted(record))
    }

    #[must_use]
    pub fn get_storage_volume(
        &self,
        tenant_id: &TenantId,
        storage_volume_id: &StorageVolumeId,
    ) -> (record: Option<StorageVolumeRecord>)
        requires
            self.well_formed(),
        ensures
            record == lookup(self@.volumes, (tenant_id@, storage_volume_id@)),
    {
        match self.volumes.get(&(tenant_id.clone(), storage_volume_id.clone())) {
            Some(record) => Some(record.clone()),
            None => None,
        }
    }

    fn finds_claim(&self, record: &StorageVolumeRecord) -> (taken: bool)
        requires
            self.well_formed(),
        ensures
            taken == claim_is_taken(self@.volumes, *record),
    {
        let ghost entries = self.volumes.entries();
        let mut index: usize = 0;
        while index < self.volumes.len()
            invariant
                entries == self.volumes.entries(),
                self.volumes.well_formed(),
                index <= entries.len(),
                forall|i: int|
                    0 <= i < index ==> !((#[trigger] entries[i]).1.edge_cluster_id@
                        == record.edge_cluster_id@ && entries[i].1.pvc_reference.same(
                        record.pvc_reference,
                    )),
            decreases entries.len() - index,
        {
            let existing = &self.volumes.entry_at(index).1;
            if existing.edge_cluster_id == record.edge_cluster_id && existing.pvc_reference
                == record.pvc_reference {
                proof {
                    lemma_entry_is_mapped(entries, index as int);
                }
                return true;
            }
            index += 1;
        }
        proof {
            if claim_is_taken(self@.volumes, *record) {
                let name = choose|name: (Seq<char>, Seq<char>)| #[trigger]
                    self@.volumes.contains_key(name) && self@.volumes[name].edge_cluster_id@
                        == record.edge_cluster_id@ && self@.volumes[name].pvc_reference.same(
                        record.pvc_reference,
                    );
                let at = lemma_mapped_is_entry(entries, name);
                assert(false);
            }
        }
        false
    }

    pub fn insert_storage_volume(&mut self, record: StorageVolumeRecord) -> (result: CentralResult<
        CatalogInsertOutcome<StorageVolumeRecord>,
    >)
        requires
            old(self).well_formed(),
        ensures
            final(self).well_formed(),
            fault_of(result) == insert_volume_fault(old(self)@.volumes, record),
            result is Err ==> final(self)@ == old(self)@,
            result matches Ok(CatalogInsertOutcome::Existing(existing)) ==> final(self)@ == old(
                self,
            )@ && lookup(old(self)@.volumes, volume_name(record)) == Some(existing),
            result matches Ok(CatalogInsertOutcome::Inserted(inserted)) ==> {
                &&& !old(self)@.volumes.contains_key(volume_name(record))
                &&& inserted == record
                &&& final(self)@ == (CatalogView {
                    volumes: old(self)@.volumes.insert(volume_name(record), record),
                    ..old(self)@
                })
            },
    {
        let key = (record.tenant_id.clone(), record.storage_volume_id.clone());
        if let Some(existing) = self.volumes.get(&key) {
            if volume_matches(existing, &record) {
                return Ok(CatalogInsertOutcome::Existing(existing.clone()));
            }
            return Err(conflict("StorageVolume ID is already used"));
        }
        if record.backend_type == StorageBackendType::Pvc && self.finds_claim(&record) {
            return Err(
                final_failure(
                    CentralErrorCode::VolumeOwnerConflict,
                    "PVC identity is already registered",
                ),
            );
        }
        self.volumes.insert(key, record.clone());
        Ok(CatalogInsertOutcome::Inserted(record))
    }

    #[must_use]
    pub fn get_playground(
        &self,
        tenant_id: &TenantId,
        project_id: &ProjectId,
        artifact_id: &ArtifactId,
        playground_id: &PlaygroundId,
    ) -> (record: Option<PlaygroundRecord>)
        requires
            self.well_formed(),
        ensures
            record == lookup(
                self@.playgrounds,
                (tenant_id@, (project_id@, (artifact_id@, playground_id@))),
            ),
    {
        let key = (
            tenant_id.clone(),
            (project_id.clone(), (artifact_id.clone(), playground_id.clone())),
        );
        match self.playgrounds.get(&key) {
            Some(record) => Some(record.clone()),
            None => None,
        }
    }

    /// Inserts a Playground, fenced by the Head that was observed. A replay is recognised before
    /// the fence is looked at.
    pub fn insert_playground_fenced(&mut self, request: PlaygroundInsertRequest) -> (result:
        CentralResult<CatalogInsertOutcome<PlaygroundRecord>>)
        requires
            old(self).well_formed(),
        ensures
            final(self).well_formed(),
            fault_of(result) == insert_playground_fault(old(self)@, request),
            result is Err ==> final(self)@ == old(self)@,
            result matches Ok(CatalogInsertOutcome::Existing(existing)) ==> final(self)@ == old(
                self,
            )@ && lookup(old(self)@.playgrounds, playground_name(request.record)) == Some(existing),
            result matches Ok(CatalogInsertOutcome::Inserted(inserted)) ==> {
                &&& !old(self)@.playgrounds.contains_key(playground_name(request.record))
                &&& inserted == request.record
                &&& final(self)@ == (CatalogView {
                    playgrounds: old(self)@.playgrounds.insert(
                        playground_name(request.record),
                        request.record,
                    ),
                    ..old(self)@
                })
            },
    {
        let record = request.record;
        let key = (
            record.tenant_id.clone(),
            (record.project_id.clone(), (record.artifact_id.clone(), record.playground_id.clone())),
        );
        if let Some(existing) = self.playgrounds.get(&key) {
            if playground_matches_insert(existing, &record, &request.artifact_head) {
                return Ok(CatalogInsertOutcome::Existing(existing.clone()));
            }
            return Err(conflict("Playground ID is already used"));
        }
        validate_playground_insert(
            &record,
            &request.artifact_head,
            self.artifacts.get(&(record.tenant_id.clone(), record.artifact_id.clone())),
            self.volumes.get(&(record.tenant_id.clone(), record.storage_volume_id.clone())),
        )?;
        self.playgrounds.insert(key, record.clone());
        Ok(CatalogInsertOutcome::Inserted(record))
    }

    /// Moves a Playground from one state to the next. A replay is idempotent.
    pub fn transition_playground_state(
        &mut self,
        tenant_id: &TenantId,
        project_id: &ProjectId,
        artifact_id: &ArtifactId,
        playground_id: &PlaygroundId,
        expected: PlaygroundState,
        next: PlaygroundState,
        updated_at_unix_ms: UnixMillis,
    ) -> (result: CentralResult<PlaygroundRecord>)
        requires
            old(self).well_formed(),
        ensures
            final(self).well_formed(),
            ({
                let name = (tenant_id@, (project_id@, (artifact_id@, playground_id@)));
                let before = old(self)@.playgrounds[name];
                &&& fault_of(result) == playground_transition_fault(
                    old(self)@.playgrounds,
                    name,
                    expected,
                    next,
                )
                &&& result is Err ==> final(self)@ == old(self)@
                &&& result matches Ok(after) ==> {
                    &&& after == if before.state == next {
                        before
                    } else {
                        PlaygroundRecord { state: next, updated_at_unix_ms, ..before }
                    }
                    &&& final(self)@ == (CatalogView {
                        playgrounds: old(self)@.playgrounds.insert(name, after),
                        ..old(self)@
                    })
                }
            }),
    {
        let key = (
            tenant_id.clone(),
            (project_id.clone(), (artifact_id.clone(), playground_id.clone())),
        );
        let ghost before = self.playgrounds@;
        let record = match self.playgrounds.get(&key) {
            Some(record) => record,
            None => return Err(
                catalog_parent_error(
                    CentralErrorCode::ArtifactNotFound,
                    "Playground does not exist",
                ),
            ),
        };
        if record.state == next {
            assert(before.insert(key.name(), before[key.name()]) =~= before);
            return Ok(record.clone());
        }
        if record.state != expected {
            return Err(
                transition_failure(
                    "Playground is in ",
                    playground_state_name_of(record.state),
                    playground_state_name_of(expected),
                ),
            );
        }
        let mut record = record.clone();
        record.state = next;
        record.updated_at_unix_ms = updated_at_unix_ms;
        self.playgrounds.insert(key, record.clone());
        Ok(record)
    }

    /// Moves the Heads of an Artifact and of one of its Playgrounds to a Commit, together. A replay
    /// is idempotent.
    pub fn advance_playground_commit(&mut self, request: AdvancePlaygroundCommitRequest) -> (result:
        CentralResult<AdvancePlaygroundCommitOutcome>)
        requires
            old(self).well_formed(),
        ensures
            final(self).well_formed(),
            fault_of(result) == advance_fault(old(self)@, request),
            result is Err ==> final(self)@ == old(self)@,
            result matches Ok(outcome) ==> {
                &&& outcome.replayed == is_advanced(old(self)@, request)
                &&& final(self)@ == if outcome.replayed {
                    old(self)@
                } else {
                    advanced(old(self)@, request)
                }
                &&& outcome.artifact == final(self)@.artifacts[commit_artifact(request)]
                &&& outcome.playground == final(self)@.playgrounds[commit_playground(request)]
            },
    {
        let artifact_key = (request.tenant_id.clone(), request.artifact_id.clone());
        let playground_key = (
            request.tenant_id.clone(),
            (
                request.project_id.clone(),
                (request.artifact_id.clone(), request.playground_id.clone()),
            ),
        );
        let missing = "Commit Artifact does not exist";
        let artifact = match self.artifacts.get(&artifact_key) {
            Some(artifact) => artifact,
            None => return Err(catalog_parent_error(CentralErrorCode::ArtifactNotFound, missing)),
        };
        if artifact.project_id != request.project_id {
            return Err(catalog_parent_error(CentralErrorCode::ArtifactNotFound, missing));
        }
        let playground = match self.playgrounds.get(&playground_key) {
            Some(playground) => playground,
            None => return Err(
                catalog_parent_error(
                    CentralErrorCode::ArtifactNotFound,
                    "Commit Playground does not exist",
                ),
            ),
        };
        if artifact.head_commit_id == Some(request.commit_id) && playground.head_commit_id == Some(
            request.commit_id,
        ) {
            return Ok(
                AdvancePlaygroundCommitOutcome {
                    artifact: artifact.clone(),
                    playground: playground.clone(),
                    replayed: true,
                },
            );
        }
        if artifact.head_commit_id != request.expected_head_commit_id || playground.head_commit_id
            != request.expected_head_commit_id {
            return Err(
                catalog_parent_error(
                    CentralErrorCode::ArtifactHeadMismatch,
                    "Artifact or Playground Head changed after Pre-commit",
                ),
            );
        }
        if playground.state != PlaygroundState::Ready {
            return Err(
                catalog_parent_error(
                    CentralErrorCode::InvalidState,
                    "only a Ready Playground can publish a Commit",
                ),
            );
        }
        let mut artifact = artifact.clone();
        let mut playground = playground.clone();
        artifact.resource_version = match artifact.resource_version.checked_add(1) {
            Some(next) => next,
            None => return Err(
                failure(
                    CentralErrorCode::ConcurrentUpdate,
                    "Artifact ResourceVersion is exhausted",
                ),
            ),
        };
        artifact.head_commit_id = Some(request.commit_id);
        artifact.updated_at_unix_ms = request.updated_at_unix_ms;
        playground.head_commit_id = Some(request.commit_id);
        playground.updated_at_unix_ms = request.updated_at_unix_ms;
        proof {
            assert(self@.artifacts.contains_key(artifact_key.name()));
            assert(self@.playgrounds.contains_key(playground_key.name()));
        }
        self.artifacts.insert(artifact_key, artifact.clone());
        self.playgrounds.insert(playground_key, playground.clone());
        assert(self@.volumes == old(self)@.volumes && self@.snapshots == old(self)@.snapshots);
        Ok(AdvancePlaygroundCommitOutcome { artifact, playground, replayed: false })
    }

    #[must_use]
    pub fn get_snapshot(&self, tenant_id: &TenantId, snapshot_id: &SnapshotId) -> (record: Option<
        SnapshotRecord,
    >)
        requires
            self.well_formed(),
        ensures
            record == lookup(self@.snapshots, (tenant_id@, snapshot_id@)),
    {
        match self.snapshots.get(&(tenant_id.clone(), snapshot_id.clone())) {
            Some(record) => Some(record.clone()),
            None => None,
        }
    }

    fn find_request(&self, record: &SnapshotRecord) -> (found: Option<&SnapshotRecord>)
        requires
            self.well_formed(),
        ensures
            match found {
                None => forall|name: (Seq<char>, Seq<char>)| !#[trigger]
                    has_request(self@.snapshots, *record, name),
                Some(existing) => has_request(
                    self@.snapshots,
                    *record,
                    snapshot_name(*existing),
                ) && self@.snapshots[snapshot_name(*existing)] == *existing,
            },
    {
        let ghost entries = self.snapshots.entries();
        let mut index: usize = 0;
        while index < self.snapshots.len()
            invariant
                self.well_formed(),
                entries == self.snapshots.entries(),
                index <= entries.len(),
                forall|i: int| 0 <= i < index ==> !shares_request((#[trigger] entries[i]).1, *record),
            decreases entries.len() - index,
        {
            let existing = &self.snapshots.entry_at(index).1;
            if existing.tenant_id == record.tenant_id && existing.snapshot_request_id
                == record.snapshot_request_id {
                proof {
                    lemma_entry_is_mapped(entries, index as int);
                    assert(self@.snapshots.contains_key(entries[index as int].0.name()));
                }
                return Some(existing);
            }
            index += 1;
        }
        proof {
            assert forall|name: (Seq<char>, Seq<char>)| !#[trigger]
                has_request(self@.snapshots, *record, name) by {
                if self@.snapshots.contains_key(name) {
                    let at = lemma_mapped_is_entry(entries, name);
                }
            }
        }
        None
    }

    fn find_placement(&self, record: &SnapshotRecord) -> (found: Option<&SnapshotRecord>)
        requires
            self.well_formed(),
        ensures
            match found {
                None => forall|name: (Seq<char>, Seq<char>)| !#[trigger]
                    has_placement(self@.snapshots, *record, name),
                Some(existing) => has_placement(
                    self@.snapshots,
                    *record,
                    snapshot_name(*existing),
                ) && self@.snapshots[snapshot_name(*existing)] == *existing,
            },
    {
        let ghost entries = self.snapshots.entries();
        let mut index: usize = 0;
        while index < self.snapshots.len()
            invariant
                self.well_formed(),
                entries == self.snapshots.entries(),
                index <= entries.len(),
                forall|i: int|
                    0 <= i < index ==> !shares_placement((#[trigger] entries[i]).1, *record),
            decreases entries.len() - index,
        {
            let existing = &self.snapshots.entry_at(index).1;
            if existing.tenant_id == record.tenant_id && existing.project_id == record.project_id
                && existing.artifact_id == record.artifact_id && existing.commit_id
                == record.commit_id && existing.storage_volume_id == record.storage_volume_id {
                proof {
                    lemma_entry_is_mapped(entries, index as int);
                    assert(self@.snapshots.contains_key(entries[index as int].0.name()));
                }
                return Some(existing);
            }
            index += 1;
        }
        proof {
            assert forall|name: (Seq<char>, Seq<char>)| !#[trigger]
                has_placement(self@.snapshots, *record, name) by {
                if self@.snapshots.contains_key(name) {
                    let at = lemma_mapped_is_entry(entries, name);
                }
            }
        }
        None
    }

    /// Inserts a Snapshot, fenced by the Head that was observed. A replayed request and a placement
    /// that another request made are recognised before the fence is looked at.
    pub fn insert_snapshot_fenced(&mut self, request: SnapshotInsertRequest) -> (result:
        CentralResult<SnapshotInsertOutcome>)
        requires
            old(self).well_formed(),
        ensures
            final(self).well_formed(),
            fault_of(result) == insert_snapshot_fault(old(self)@, request),
            !(result matches Ok(SnapshotInsertOutcome::Inserted(_))) ==> final(self)@ == old(self)@,
            result matches Ok(SnapshotInsertOutcome::ExistingRequest(existing)) ==> has_request(
                old(self)@.snapshots,
                request.record,
                snapshot_name(existing),
            ) && old(self)@.snapshots[snapshot_name(existing)] == existing,
            result matches Ok(SnapshotInsertOutcome::ExistingPlacement(existing)) ==> {
                &&& forall|name: (Seq<char>, Seq<char>)| !#[trigger]
                    has_request(old(self)@.snapshots, request.record, name)
                &&& has_placement(old(self)@.snapshots, request.record, snapshot_name(existing))
                &&& old(self)@.snapshots[snapshot_name(existing)] == existing
            },
            result matches Ok(SnapshotInsertOutcome::Inserted(inserted)) ==> {
                &&& forall|name: (Seq<char>, Seq<char>)| #[trigger]
                    old(self)@.snapshots.contains_key(name) ==> !has_request(
                        old(self)@.snapshots,
                        request.record,
                        name,
                    ) && !has_placement(old(self)@.snapshots, request.record, name)
                &&& inserted == request.record
                &&& final(self)@ == (CatalogView {
                    snapshots: old(self)@.snapshots.insert(
                        snapshot_name(request.record),
                        request.record,
                    ),
                    ..old(self)@
                })
            },
    {
        let record = request.record;
        if let Some(existing) = self.find_request(&record) {
            proof {
                let chosen = choose|name: (Seq<char>, Seq<char>)|
                    has_request(self@.snapshots, record, name);
                let found = snapshot_name(*existing);
                assert(has_request(self@.snapshots, record, found));
                assert(shares_request(self@.snapshots[chosen], self@.snapshots[found]));
                assert(chosen == found);
            }
            if snapshot_request_matches(existing, &record) {
                return Ok(SnapshotInsertOutcome::ExistingRequest(existing.clone()));
            }
            return Err(conflict("Snapshot request ID is already used"));
        }
        let key = (record.tenant_id.clone(), record.snapshot_id.clone());
        if self.snapshots.contains(&key) {
            return Err(conflict("Snapshot ID is already used"));
        }
        if let Some(existing) = self.find_placement(&record) {
            return Ok(SnapshotInsertOutcome::ExistingPlacement(existing.clone()));
        }
        validate_snapshot_insert(
            &record,
            &request.artifact_head,
            self.artifacts.get(&(record.tenant_id.clone(), record.artifact_id.clone())),
            self.volumes.get(&(record.tenant_id.clone(), record.storage_volume_id.clone())),
        )?;
        let ghost before = self.snapshots@;
        self.snapshots.insert(key, record.clone());
        proof {
            assert forall|left: (Seq<char>, Seq<char>), right: (Seq<char>, Seq<char>)|
                #![trigger self@.snapshots[left], self@.snapshots[right]]
                self@.snapshots.contains_key(left) && self@.snapshots.contains_key(right) && (
                shares_request(self@.snapshots[left], self@.snapshots[right]) || shares_placement(
                    self@.snapshots[left],
                    self@.snapshots[right],
                )) implies left == right by {
                assert(!has_request(before, record, left) && !has_request(before, record, right));
                assert(!has_placement(before, record, left) && !has_placement(
                    before,
                    record,
                    right,
                ));
            }
        }
        Ok(SnapshotInsertOutcome::Inserted(record))
    }

    /// Moves the delivery of a Snapshot on. A replay may move its time on, nothing else.
    pub fn transition_snapshot_state(
        &mut self,
        tenant_id: &TenantId,
        snapshot_id: &SnapshotId,
        expected_state: &SnapshotState,
        next_state: &SnapshotState,
        next_phase: &SnapshotPhase,
        updated_at_unix_ms: UnixMillis,
    ) -> (result: CentralResult<SnapshotRecord>)
        requires
            old(self).well_formed(),
        ensures
            final(self).well_formed(),
            fault_of(result) == snapshot_transition_fault(
                old(self)@.snapshots,
                (tenant_id@, snapshot_id@),
                expected_state@,
                next_state@,
                next_phase@,
            ),
            result is Err ==> final(self)@ == old(self)@,
            result matches Ok(after) ==> {
                &&& after == transitioned(
                    old(self)@.snapshots[(tenant_id@, snapshot_id@)],
                    *next_state,
                    *next_phase,
                    updated_at_unix_ms,
                )
                &&& final(self)@ == (CatalogView {
                    snapshots: old(self)@.snapshots.insert((tenant_id@, snapshot_id@), after),
                    ..old(self)@
                })
            },
    {
        let key = (tenant_id.clone(), snapshot_id.clone());
        let stored = match self.snapshots.get(&key) {
            Some(stored) => stored,
            None => return Err(
                catalog_parent_error(CentralErrorCode::ArtifactNotFound, "Snapshot does not exist"),
            ),
        };
        let mut record = stored.clone();
        if record.state == *next_state && record.phase == *next_phase {
            if updated_at_unix_ms > record.updated_at_unix_ms {
                record.updated_at_unix_ms = updated_at_unix_ms;
            }
        } else {
            if record.state != *expected_state {
                return Err(
                    transition_failure(
                        "Snapshot is in ",
                        record.state.as_str(),
                        expected_state.as_str(),
                    ),
                );
            }
            record.state = next_state.clone();
            record.phase = next_phase.clone();
            record.updated_at_unix_ms = updated_at_unix_ms;
        }
        let ghost before = self.snapshots@;
        self.snapshots.insert(key, record.clone());
        proof {
            assert forall|left: (Seq<char>, Seq<char>), right: (Seq<char>, Seq<char>)|
                #![trigger self@.snapshots[left], self@.snapshots[right]]
                self@.snapshots.contains_key(left) && self@.snapshots.contains_key(right) && (
                shares_request(self@.snapshots[left], self@.snapshots[right]) || shares_placement(
                    self@.snapshots[left],
                    self@.snapshots[right],
                )) implies left == right by {
                assert(before.contains_key(left) && before.contains_key(right));
                assert(shares_request(before[left], before[right]) == shares_request(
                    self@.snapshots[left],
                    self@.snapshots[right],
                ));
            }
        }
        Ok(record)
    }

    /// The tenants that a request asks for, newest first.
    pub fn list_tenants(&self, request: &TenantListRequest) -> (result: CentralResult<TenantListPage>)
        requires
            self.well_formed(),
        ensures
            fault_of(result) == limit_fault(request.limit),
            result matches Ok(page) ==> is_page(
                page.records@,
                tenant_cursor(page.next),
                self@.tenants,
                wanted_tenants(*request),
                request.limit as nat,
            ),
    {
        validate_limit(request.limit)?;
        let ghost kept = wanted_tenants(*request);
        let ghost entries = self.tenants.entries();
        proof {
            assert forall|i: int, j: int|
                0 <= i < j < entries.len() && kept((#[trigger] entries[i]).1) && kept(
                    (#[trigger] entries[j]).1,
                ) implies place(entries[i].1) != place(entries[j].1) by {
                lemma_names_differ(entries, i, j);
                lemma_entry_is_mapped(entries, i);
                lemma_entry_is_mapped(entries, j);
                assert(self@.tenants.contains_key(entries[i].0.name()));
                assert(self@.tenants.contains_key(entries[j].0.name()));
            }
        }
        let keep = |record: &TenantRecord| -> (verdict: bool)
            ensures
                verdict == is_wanted_tenant(*record, *request),
            { wants_tenant(record, request) };
        let (records, more) = list_page(&self.tenants, keep, Ghost(kept), request.limit as usize);
        let ghost listing = choose|listing: Seq<TenantRecord>|
            {
                &&& #[trigger] is_listing_of(listing, self.tenants@, kept)
                &&& records@.same(at_most(listing, request.limit as nat))
                &&& more == (listing.len() > request.limit)
            };
        assert(is_listing_of(listing, self@.tenants, kept));
        let next = if more {
            let last = &records[records.len() - 1];
            Some(
                TenantListCursor {
                    created_at_unix_ms: last.created_at_unix_ms,
                    tenant_id: last.tenant_id.clone(),
                },
            )
        } else {
            None
        };
        Ok(TenantListPage { records, next })
    }

    /// The Artifacts that a request asks for, newest first.
    pub fn list_artifacts(&self, request: &ArtifactListRequest) -> (result: CentralResult<ArtifactListPage>)
        requires
            self.well_formed(),
        ensures
            fault_of(result) == limit_fault(request.limit),
            result matches Ok(page) ==> is_page(
                page.records@,
                artifact_cursor(page.next),
                self@.artifacts,
                wanted_artifacts(*request),
                request.limit as nat,
            ),
    {
        validate_limit(request.limit)?;
        let ghost kept = wanted_artifacts(*request);
        let ghost entries = self.artifacts.entries();
        proof {
            assert forall|i: int, j: int|
                0 <= i < j < entries.len() && kept((#[trigger] entries[i]).1) && kept(
                    (#[trigger] entries[j]).1,
                ) implies place(entries[i].1) != place(entries[j].1) by {
                lemma_names_differ(entries, i, j);
                lemma_entry_is_mapped(entries, i);
                lemma_entry_is_mapped(entries, j);
                assert(self@.artifacts.contains_key(entries[i].0.name()));
                assert(self@.artifacts.contains_key(entries[j].0.name()));
            }
        }
        let keep = |record: &ArtifactRecord| -> (verdict: bool)
            ensures
                verdict == is_wanted_artifact(*record, *request),
            { wants_artifact(record, request) };
        let (records, more) = list_page(&self.artifacts, keep, Ghost(kept), request.limit as usize);
        let ghost listing = choose|listing: Seq<ArtifactRecord>|
            {
                &&& #[trigger] is_listing_of(listing, self.artifacts@, kept)
                &&& records@.same(at_most(listing, request.limit as nat))
                &&& more == (listing.len() > request.limit)
            };
        assert(is_listing_of(listing, self@.artifacts, kept));
        let next = if more {
            let last = &records[records.len() - 1];
            Some(
                ArtifactListCursor {
                    created_at_unix_ms: last.created_at_unix_ms,
                    project_id: last.project_id.clone(),
                    artifact_id: last.artifact_id.clone(),
                },
            )
        } else {
            None
        };
        Ok(ArtifactListPage { records, next })
    }

    /// The Volumes that a request asks for, newest first.
    pub fn list_storage_volumes(&self, request: &StorageVolumeListRequest) -> (result: CentralResult<StorageVolumeListPage>)
        requires
            self.well_formed(),
        ensures
            fault_of(result) == limit_fault(request.limit),
            result matches Ok(page) ==> is_page(
                page.records@,
                volume_cursor(page.next),
                self@.volumes,
                wanted_volumes(*request),
                request.limit as nat,
            ),
    {
        validate_limit(request.limit)?;
        let ghost kept = wanted_volumes(*request);
        let ghost entries = self.volumes.entries();
        proof {
            assert forall|i: int, j: int|
                0 <= i < j < entries.len() && kept((#[trigger] entries[i]).1) && kept(
                    (#[trigger] entries[j]).1,
                ) implies place(entries[i].1) != place(entries[j].1) by {
                lemma_names_differ(entries, i, j);
                lemma_entry_is_mapped(entries, i);
                lemma_entry_is_mapped(entries, j);
                assert(self@.volumes.contains_key(entries[i].0.name()));
                assert(self@.volumes.contains_key(entries[j].0.name()));
            }
        }
        let keep = |record: &StorageVolumeRecord| -> (verdict: bool)
            ensures
                verdict == is_wanted_volume(*record, *request),
            { wants_volume(record, request) };
        let (records, more) = list_page(&self.volumes, keep, Ghost(kept), request.limit as usize);
        let ghost listing = choose|listing: Seq<StorageVolumeRecord>|
            {
                &&& #[trigger] is_listing_of(listing, self.volumes@, kept)
                &&& records@.same(at_most(listing, request.limit as nat))
                &&& more == (listing.len() > request.limit)
            };
        assert(is_listing_of(listing, self@.volumes, kept));
        let next = if more {
            let last = &records[records.len() - 1];
            Some(
                StorageVolumeListCursor {
                    created_at_unix_ms: last.created_at_unix_ms,
                    storage_volume_id: last.storage_volume_id.clone(),
                },
            )
        } else {
            None
        };
        Ok(StorageVolumeListPage { records, next })
    }

    /// The Playgrounds that a request asks for, newest first.
    pub fn list_playgrounds(&self, request: &PlaygroundListRequest) -> (result: CentralResult<PlaygroundListPage>)
        requires
            self.well_formed(),
        ensures
            fault_of(result) == limit_fault(request.limit),
            result matches Ok(page) ==> is_page(
                page.records@,
                playground_cursor(page.next),
                self@.playgrounds,
                wanted_playgrounds(*request),
                request.limit as nat,
            ),
    {
        validate_limit(request.limit)?;
        let ghost kept = wanted_playgrounds(*request);
        let ghost entries = self.playgrounds.entries();
        proof {
            assert forall|i: int, j: int|
                0 <= i < j < entries.len() && kept((#[trigger] entries[i]).1) && kept(
                    (#[trigger] entries[j]).1,
                ) implies place(entries[i].1) != place(entries[j].1) by {
                lemma_names_differ(entries, i, j);
                lemma_entry_is_mapped(entries, i);
                lemma_entry_is_mapped(entries, j);
                assert(self@.playgrounds.contains_key(entries[i].0.name()));
                assert(self@.playgrounds.contains_key(entries[j].0.name()));
            }
        }
        let keep = |record: &PlaygroundRecord| -> (verdict: bool)
            ensures
                verdict == is_wanted_playground(*record, *request),
            { wants_playground(record, request) };
        let (records, more) = list_page(&self.playgrounds, keep, Ghost(kept), request.limit as usize);
        let ghost listing = choose|listing: Seq<PlaygroundRecord>|
            {
                &&& #[trigger] is_listing_of(listing, self.playgrounds@, kept)
                &&& records@.same(at_most(listing, request.limit as nat))
                &&& more == (listing.len() > request.limit)
            };
        assert(is_listing_of(listing, self@.playgrounds, kept));
        let next = if more {
            let last = &records[records.len() - 1];
            Some(
                PlaygroundListCursor {
                    created_at_unix_ms: last.created_at_unix_ms,
                    project_id: last.project_id.clone(),
                    artifact_id: last.artifact_id.clone(),
                    playground_id: last.playground_id.clone(),
                },
            )
        } else {
            None
        };
        Ok(PlaygroundListPage { records, next })
    }

    /// The Snapshots that a request asks for, newest first.
    pub fn list_snapshots(&self, request: &SnapshotListRequest) -> (result: CentralResult<SnapshotListPage>)
        requires
            self.well_formed(),
        ensures
            fault_of(result) == limit_fault(request.limit),
            result matches Ok(page) ==> is_page(
                page.records@,
                snapshot_cursor(page.next),
                self@.snapshots,
                wanted_snapshots(*request),
                request.limit as nat,
            ),
    {
        validate_limit(request.limit)?;
        let ghost kept = wanted_snapshots(*request);
        let ghost entries = self.snapshots.entries();
        proof {
            assert forall|i: int, j: int|
                0 <= i < j < entries.len() && kept((#[trigger] entries[i]).1) && kept(
                    (#[trigger] entries[j]).1,
                ) implies place(entries[i].1) != place(entries[j].1) by {
                lemma_names_differ(entries, i, j);
                lemma_entry_is_mapped(entries, i);
                lemma_entry_is_mapped(entries, j);
                assert(self@.snapshots.contains_key(entries[i].0.name()));
                assert(self@.snapshots.contains_key(entries[j].0.name()));
            }
        }
        let keep = |record: &SnapshotRecord| -> (verdict: bool)
            ensures
                verdict == is_wanted_snapshot(*record, *request),
            { wants_snapshot(record, request) };
        let (records, more) = list_page(&self.snapshots, keep, Ghost(kept), request.limit as usize);
        let ghost listing = choose|listing: Seq<SnapshotRecord>|
            {
                &&& #[trigger] is_listing_of(listing, self.snapshots@, kept)
                &&& records@.same(at_most(listing, request.limit as nat))
                &&& more == (listing.len() > request.limit)
            };
        assert(is_listing_of(listing, self@.snapshots, kept));
        let next = if more {
            let last = &records[records.len() - 1];
            Some(
                SnapshotListCursor {
                    created_at_unix_ms: last.created_at_unix_ms,
                    snapshot_id: last.snapshot_id.clone(),
                },
            )
        } else {
            None
        };
        Ok(SnapshotListPage { records, next })
    }
}

} // verus!
