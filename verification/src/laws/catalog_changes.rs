//! What reading and changing the catalog promises.
use vstd::prelude::*;

use crate::catalog::memory::{
    has_placement, has_request, shares_request, CatalogView, InMemoryControlCatalog,
};
use crate::catalog::records::{
    AdvancePlaygroundCommitOutcome, AdvancePlaygroundCommitRequest, ArtifactHeadExpectation,
    ArtifactInitialization, ArtifactRecord, CatalogInsertOutcome, PlaygroundInsertRequest,
    PlaygroundRecord, PlaygroundState, SnapshotInsertOutcome, SnapshotInsertRequest, SnapshotPhase,
    SnapshotRecord, SnapshotState, StorageVolumeRecord, TenantRecord,
};
use crate::catalog::rules::{
    playground_create_matches, validate_playground_insert, validate_snapshot_insert,
    validate_volume_shape,
};
use crate::equality::Same;
use crate::error::{CentralError, CentralErrorCode, CentralResult};
use crate::identifier::{
    ArtifactId, PlaygroundId, ProjectId, SnapshotId, StorageVolumeId, TenantId, UnixMillis,
};
use crate::laws::jobs::fails_with;

verus! {

/// Every record is read back under its own identity, and an Artifact only under its own Project.
pub proof fn lemma_records_are_read_back(
    catalog: InMemoryControlCatalog,
    tenant_id: &TenantId,
    project_id: &ProjectId,
    artifact_id: &ArtifactId,
    playground_id: &PlaygroundId,
    storage_volume_id: &StorageVolumeId,
    snapshot_id: &SnapshotId,
    tenant: Option<TenantRecord>,
    artifact: Option<ArtifactRecord>,
    volume: Option<StorageVolumeRecord>,
    playground: Option<PlaygroundRecord>,
    snapshot: Option<SnapshotRecord>,
)
    requires
        call_ensures(InMemoryControlCatalog::get_tenant, (&catalog, tenant_id), tenant),
        call_ensures(
            InMemoryControlCatalog::get_artifact,
            (&catalog, tenant_id, project_id, artifact_id),
            artifact,
        ),
        call_ensures(
            InMemoryControlCatalog::get_storage_volume,
            (&catalog, tenant_id, storage_volume_id),
            volume,
        ),
        call_ensures(
            InMemoryControlCatalog::get_playground,
            (&catalog, tenant_id, project_id, artifact_id, playground_id),
            playground,
        ),
        call_ensures(
            InMemoryControlCatalog::get_snapshot,
            (&catalog, tenant_id, snapshot_id),
            snapshot,
        ),
    ensures
        match tenant {
            Some(record) => catalog@.tenants.contains_key(tenant_id@) && record
                == catalog@.tenants[tenant_id@],
            None => !catalog@.tenants.contains_key(tenant_id@),
        },
        match artifact {
            Some(record) => {
                &&& catalog@.artifacts.contains_key((tenant_id@, artifact_id@))
                &&& record == catalog@.artifacts[(tenant_id@, artifact_id@)]
                &&& record.project_id@ == project_id@
            },
            None => !catalog@.artifacts.contains_key((tenant_id@, artifact_id@))
                || catalog@.artifacts[(tenant_id@, artifact_id@)].project_id@ != project_id@,
        },
        match volume {
            Some(record) => catalog@.volumes.contains_key((tenant_id@, storage_volume_id@))
                && record == catalog@.volumes[(tenant_id@, storage_volume_id@)],
            None => !catalog@.volumes.contains_key((tenant_id@, storage_volume_id@)),
        },
        match playground {
            Some(record) => catalog@.playgrounds.contains_key(
                (tenant_id@, (project_id@, (artifact_id@, playground_id@))),
            ) && record == catalog@.playgrounds[(
                tenant_id@,
                (project_id@, (artifact_id@, playground_id@)),
            )],
            None => !catalog@.playgrounds.contains_key(
                (tenant_id@, (project_id@, (artifact_id@, playground_id@))),
            ),
        },
        match snapshot {
            Some(record) => catalog@.snapshots.contains_key((tenant_id@, snapshot_id@)) && record
                == catalog@.snapshots[(tenant_id@, snapshot_id@)],
            None => !catalog@.snapshots.contains_key((tenant_id@, snapshot_id@)),
        },
{
}

/// Two optional descriptions say the same.
pub open spec fn says_the_same(
    left: Option<crate::identifier::OpaqueText>,
    right: Option<crate::identifier::OpaqueText>,
) -> bool {
    match (left, right) {
        (None, None) => true,
        (Some(left), Some(right)) => left@ == right@,
        _ => false,
    }
}

/// A tenant is created once: a new identity is stored, the same name and description again give
/// the stored record back, anything else under the identity is refused.
pub proof fn lemma_tenant_is_created_once(
    record: TenantRecord,
    result: CentralResult<CatalogInsertOutcome<TenantRecord>>,
)
    ensures
        forall|catalog: &mut InMemoryControlCatalog|
            #[trigger] call_ensures(
                InMemoryControlCatalog::insert_tenant,
                (catalog, record),
                result,
            ) ==> {
                let before = (*catalog)@;
                let after = final(catalog)@;
                let name = record.tenant_id@;
                if !before.tenants.contains_key(name) {
                    &&& result == Ok::<CatalogInsertOutcome<TenantRecord>, CentralError>(
                        CatalogInsertOutcome::Inserted(record),
                    )
                    &&& after == CatalogView { tenants: before.tenants.insert(name, record), ..before }
                } else {
                    let stored = before.tenants[name];
                    &&& after == before
                    &&& if stored.tenant_id@ == record.tenant_id@ && stored.display_name@
                        == record.display_name@ && says_the_same(
                        stored.description,
                        record.description,
                    ) {
                        result == Ok::<CatalogInsertOutcome<TenantRecord>, CentralError>(
                            CatalogInsertOutcome::Existing(stored),
                        )
                    } else {
                        fails_with(result, CentralErrorCode::InvalidState)
                    }
                }
            },
{
}

/// Two Artifacts begin in the same way.
pub open spec fn begins_the_same(left: ArtifactInitialization, right: ArtifactInitialization) -> bool {
    match (left, right) {
        (ArtifactInitialization::Empty, ArtifactInitialization::Empty) => true,
        (
            ArtifactInitialization::Derived {
                source_project_id,
                source_artifact_id,
                source_commit_id,
            },
            ArtifactInitialization::Derived {
                source_project_id: other_project_id,
                source_artifact_id: other_artifact_id,
                source_commit_id: other_commit_id,
            },
        ) => {
            &&& source_project_id@ == other_project_id@
            &&& source_artifact_id@ == other_artifact_id@
            &&& source_commit_id == other_commit_id
        },
        _ => false,
    }
}

/// What an Artifact derives from is there: an Artifact of the same tenant in the named Project.
pub open spec fn source_is_there(catalog: CatalogView, record: ArtifactRecord) -> bool {
    match record.initialization {
        ArtifactInitialization::Empty => true,
        ArtifactInitialization::Derived { source_project_id, source_artifact_id, .. } => {
            &&& catalog.artifacts.contains_key((record.tenant_id@, source_artifact_id@))
            &&& catalog.artifacts[(record.tenant_id@, source_artifact_id@)].project_id@
                == source_project_id@
        },
    }
}

/// An Artifact is created once, in a tenant that is there and from a source that is there: a new
/// identity is stored, the same content again gives the stored record back, anything else under
/// the identity is refused.
pub proof fn lemma_artifact_is_created_once(
    record: ArtifactRecord,
    result: CentralResult<CatalogInsertOutcome<ArtifactRecord>>,
)
    ensures
        forall|catalog: &mut InMemoryControlCatalog|
            #[trigger] call_ensures(
                InMemoryControlCatalog::insert_artifact,
                (catalog, record),
                result,
            ) ==> {
                let before = (*catalog)@;
                let after = final(catalog)@;
                let name = (record.tenant_id@, record.artifact_id@);
                let stored = before.artifacts[name];
                if !before.tenants.contains_key(record.tenant_id@) {
                    fails_with(result, CentralErrorCode::InvalidState) && after == before
                } else if before.artifacts.contains_key(name) {
                    &&& after == before
                    &&& if stored.tenant_id@ == record.tenant_id@ && stored.project_id@
                        == record.project_id@ && stored.artifact_id@ == record.artifact_id@
                        && stored.display_name@ == record.display_name@ && says_the_same(
                        stored.description,
                        record.description,
                    ) && begins_the_same(stored.initialization, record.initialization) {
                        result == Ok::<CatalogInsertOutcome<ArtifactRecord>, CentralError>(
                            CatalogInsertOutcome::Existing(stored),
                        )
                    } else {
                        fails_with(result, CentralErrorCode::InvalidState)
                    }
                } else if !source_is_there(before, record) {
                    fails_with(result, CentralErrorCode::InvalidState) && after == before
                } else {
                    &&& result == Ok::<CatalogInsertOutcome<ArtifactRecord>, CentralError>(
                        CatalogInsertOutcome::Inserted(record),
                    )
                    &&& after == CatalogView {
                        artifacts: before.artifacts.insert(name, record),
                        ..before
                    }
                }
            },
{
}

/// Two StorageVolumes point to the same claim.
pub open spec fn claims_the_same(left: StorageVolumeRecord, right: StorageVolumeRecord) -> bool {
    match (left.pvc_reference, right.pvc_reference) {
        (None, None) => true,
        (Some(left), Some(right)) => left.namespace@ == right.namespace@ && left.claim_name@
            == right.claim_name@,
        _ => false,
    }
}

/// Two StorageVolumes point to the same export.
pub open spec fn exports_the_same(left: StorageVolumeRecord, right: StorageVolumeRecord) -> bool {
    match (left.nfs_reference, right.nfs_reference) {
        (None, None) => true,
        (Some(left), Some(right)) => left.server@ == right.server@ && left.export_path@
            == right.export_path@,
        _ => false,
    }
}

/// A StorageVolume is registered once, and so is a claim of an edge cluster, over all tenants: a new
/// volume is stored, the same content again gives the stored record back, anything else under the
/// identity is refused, and a claim that another volume has is refused as a conflict of owners.
pub proof fn lemma_volume_is_registered_once(
    record: StorageVolumeRecord,
    result: CentralResult<CatalogInsertOutcome<StorageVolumeRecord>>,
)
    ensures
        forall|catalog: &mut InMemoryControlCatalog|
            #[trigger] call_ensures(
                InMemoryControlCatalog::insert_storage_volume,
                (catalog, record),
                result,
            ) ==> {
                let before = (*catalog)@;
                let after = final(catalog)@;
                let name = (record.tenant_id@, record.storage_volume_id@);
                let stored = before.volumes[name];
                if before.volumes.contains_key(name) {
                    &&& after == before
                    &&& if stored.tenant_id@ == record.tenant_id@ && stored.storage_volume_id@
                        == record.storage_volume_id@ && stored.display_name@
                        == record.display_name@ && stored.edge_cluster_id@
                        == record.edge_cluster_id@ && stored.region@ == record.region@
                        && stored.backend_type == record.backend_type && stored.access_mode
                        == record.access_mode && claims_the_same(stored, record)
                        && exports_the_same(stored, record) {
                        result == Ok::<CatalogInsertOutcome<StorageVolumeRecord>, CentralError>(
                            CatalogInsertOutcome::Existing(stored),
                        )
                    } else {
                        fails_with(result, CentralErrorCode::InvalidState)
                    }
                } else if record.backend_type is Pvc && exists|other: (Seq<char>, Seq<char>)|
                    #[trigger]
                    before.volumes.contains_key(other) && before.volumes[other].edge_cluster_id@
                        == record.edge_cluster_id@ && claims_the_same(
                        before.volumes[other],
                        record,
                    ) {
                    fails_with(result, CentralErrorCode::VolumeOwnerConflict) && after == before
                } else {
                    &&& result == Ok::<CatalogInsertOutcome<StorageVolumeRecord>, CentralError>(
                        CatalogInsertOutcome::Inserted(record),
                    )
                    &&& after == CatalogView {
                        volumes: before.volumes.insert(name, record),
                        ..before
                    }
                }
            },
{
    assert forall|catalog: &mut InMemoryControlCatalog|
        #[trigger] call_ensures(InMemoryControlCatalog::insert_storage_volume, (catalog, record), result)
        implies (exists|other: (Seq<char>, Seq<char>)| #[trigger]
        (*catalog)@.volumes.contains_key(other) && (*catalog)@.volumes[other].edge_cluster_id@
            == record.edge_cluster_id@ && claims_the_same((*catalog)@.volumes[other], record))
        == crate::catalog::memory::claim_is_taken((*catalog)@.volumes, record) by {}
}

/// A StorageVolume carries the reference of its backend and no other.
pub proof fn lemma_volume_has_one_locator(
    record: &StorageVolumeRecord,
    result: CentralResult<()>,
)
    requires
        call_ensures(validate_volume_shape, (record,), result),
    ensures
        result is Ok <==> if record.backend_type is Pvc {
            record.pvc_reference is Some && record.nfs_reference is None
        } else {
            record.pvc_reference is None && record.nfs_reference is Some
        },
{
}

/// A Head is the one that was expected, where one was.
pub open spec fn is_expected_head(
    expectation: ArtifactHeadExpectation,
    head: Option<crate::digest::CommitId>,
) -> bool {
    match expectation {
        ArtifactHeadExpectation::Any => true,
        ArtifactHeadExpectation::Exact(expected) => head == expected,
    }
}

/// A Playground may be created in an Artifact of its own Project, from the Head that it starts with
/// and that was observed, on a ready StorageVolume of its own region; each failure tells which of
/// these did not hold.
pub proof fn lemma_playground_needs_its_parents(
    record: &PlaygroundRecord,
    artifact_head: &ArtifactHeadExpectation,
    artifact: Option<&ArtifactRecord>,
    volume: Option<&StorageVolumeRecord>,
    result: CentralResult<()>,
)
    requires
        call_ensures(
            validate_playground_insert,
            (record, artifact_head, artifact, volume),
            result,
        ),
    ensures
        result is Ok <==> {
            &&& artifact is Some && artifact->0.project_id@ == record.project_id@
            &&& record.base_commit_id == record.head_commit_id
            &&& is_expected_head(*artifact_head, record.base_commit_id)
            &&& is_expected_head(*artifact_head, artifact->0.head_commit_id)
            &&& volume is Some && volume->0.state is Ready && volume->0.region@ == record.region@
        },
        artifact is None || artifact->0.project_id@ != record.project_id@ ==> fails_with(
            result,
            CentralErrorCode::ArtifactNotFound,
        ),
        artifact is Some && artifact->0.project_id@ == record.project_id@ && record.base_commit_id
            != record.head_commit_id ==> fails_with(result, CentralErrorCode::ArtifactHeadMismatch),
        artifact is Some && artifact->0.project_id@ == record.project_id@ && record.base_commit_id
            == record.head_commit_id && !is_expected_head(*artifact_head, record.base_commit_id)
            ==> fails_with(result, CentralErrorCode::ProtocolInvalid),
        artifact is Some && artifact->0.project_id@ == record.project_id@ && record.base_commit_id
            == record.head_commit_id && is_expected_head(*artifact_head, record.base_commit_id)
            && !is_expected_head(*artifact_head, artifact->0.head_commit_id) ==> fails_with(
            result,
            CentralErrorCode::ArtifactHeadMismatch,
        ),
        artifact is Some && artifact->0.project_id@ == record.project_id@ && record.base_commit_id
            == record.head_commit_id && is_expected_head(*artifact_head, record.base_commit_id)
            && is_expected_head(*artifact_head, artifact->0.head_commit_id) ==> match volume {
            None => fails_with(result, CentralErrorCode::StorageVolumeNotFound),
            Some(volume) => {
                &&& !(volume.state is Ready) ==> fails_with(
                    result,
                    CentralErrorCode::StorageVolumeNotReady,
                )
                &&& volume.state is Ready && volume.region@ != record.region@ ==> fails_with(
                    result,
                    CentralErrorCode::StorageVolumeRegionMismatch,
                )
            },
        },
{
}

/// A Snapshot may be placed from an Artifact of its own Project, of the Commit that was observed as
/// its Head, on a ready StorageVolume of its own region; each failure tells which of these did not
/// hold.
pub proof fn lemma_snapshot_needs_its_parents(
    record: &SnapshotRecord,
    artifact_head: &ArtifactHeadExpectation,
    artifact: Option<&ArtifactRecord>,
    volume: Option<&StorageVolumeRecord>,
    result: CentralResult<()>,
)
    requires
        call_ensures(validate_snapshot_insert, (record, artifact_head, artifact, volume), result),
    ensures
        result is Ok <==> {
            &&& artifact is Some && artifact->0.project_id@ == record.project_id@
            &&& is_expected_head(*artifact_head, Some(record.commit_id))
            &&& is_expected_head(*artifact_head, artifact->0.head_commit_id)
            &&& volume is Some && volume->0.state is Ready && volume->0.region@ == record.region@
        },
        artifact is None || artifact->0.project_id@ != record.project_id@ ==> fails_with(
            result,
            CentralErrorCode::ArtifactNotFound,
        ),
        artifact is Some && artifact->0.project_id@ == record.project_id@ && !is_expected_head(
            *artifact_head,
            Some(record.commit_id),
        ) ==> fails_with(result, CentralErrorCode::ProtocolInvalid),
        artifact is Some && artifact->0.project_id@ == record.project_id@ && is_expected_head(
            *artifact_head,
            Some(record.commit_id),
        ) && !is_expected_head(*artifact_head, artifact->0.head_commit_id) ==> fails_with(
            result,
            CentralErrorCode::ArtifactHeadMismatch,
        ),
        artifact is Some && artifact->0.project_id@ == record.project_id@ && is_expected_head(
            *artifact_head,
            Some(record.commit_id),
        ) && is_expected_head(*artifact_head, artifact->0.head_commit_id) ==> match volume {
            None => fails_with(result, CentralErrorCode::StorageVolumeNotFound),
            Some(volume) => {
                &&& !(volume.state is Ready) ==> fails_with(
                    result,
                    CentralErrorCode::StorageVolumeNotReady,
                )
                &&& volume.state is Ready && volume.region@ != record.region@ ==> fails_with(
                    result,
                    CentralErrorCode::StorageVolumeRegionMismatch,
                )
            },
        },
{
}

/// The parents of a Playground or a Snapshot are there and agree.
pub open spec fn parents_agree(
    catalog: CatalogView,
    tenant_id: Seq<char>,
    project_id: Seq<char>,
    artifact_id: Seq<char>,
    storage_volume_id: Seq<char>,
    region: Seq<char>,
    expectation: ArtifactHeadExpectation,
) -> bool {
    &&& catalog.artifacts.contains_key((tenant_id, artifact_id))
    &&& catalog.artifacts[(tenant_id, artifact_id)].project_id@ == project_id
    &&& is_expected_head(
        expectation,
        catalog.artifacts[(tenant_id, artifact_id)].head_commit_id,
    )
    &&& catalog.volumes.contains_key((tenant_id, storage_volume_id))
    &&& catalog.volumes[(tenant_id, storage_volume_id)].state is Ready
    &&& catalog.volumes[(tenant_id, storage_volume_id)].region@ == region
}

/// A Playground is created once: a new one is stored where its parents in the catalog agree with it,
/// the same content again gives the stored record back whatever became of the parents since, and
/// anything else under the identity is refused. Where no Head was fenced, the content includes the
/// Commits that the Playground stands on.
pub proof fn lemma_playground_is_created_once(
    request: PlaygroundInsertRequest,
    result: CentralResult<CatalogInsertOutcome<PlaygroundRecord>>,
)
    ensures
        forall|catalog: &mut InMemoryControlCatalog|
            #[trigger] call_ensures(
                InMemoryControlCatalog::insert_playground_fenced,
                (catalog, request),
                result,
            ) ==> {
                let before = (*catalog)@;
                let after = final(catalog)@;
                let record = request.record;
                let name = (
                    record.tenant_id@,
                    (record.project_id@, (record.artifact_id@, record.playground_id@)),
                );
                let stored = before.playgrounds[name];
                if before.playgrounds.contains_key(name) {
                    &&& after == before
                    &&& if stored.tenant_id@ == record.tenant_id@ && stored.project_id@
                        == record.project_id@ && stored.artifact_id@ == record.artifact_id@
                        && stored.playground_id@ == record.playground_id@
                        && stored.storage_volume_id@ == record.storage_volume_id@
                        && stored.region@ == record.region@ && stored.display_name@
                        == record.display_name@ && stored.relative_root@ == record.relative_root@
                        && (request.artifact_head is Any ==> stored.base_commit_id
                        == record.base_commit_id && stored.head_commit_id == record.head_commit_id) {
                        result == Ok::<CatalogInsertOutcome<PlaygroundRecord>, CentralError>(
                            CatalogInsertOutcome::Existing(stored),
                        )
                    } else {
                        fails_with(result, CentralErrorCode::InvalidState)
                    }
                } else if record.base_commit_id == record.head_commit_id && is_expected_head(
                    request.artifact_head,
                    record.base_commit_id,
                ) && parents_agree(
                    before,
                    record.tenant_id@,
                    record.project_id@,
                    record.artifact_id@,
                    record.storage_volume_id@,
                    record.region@,
                    request.artifact_head,
                ) {
                    &&& result == Ok::<CatalogInsertOutcome<PlaygroundRecord>, CentralError>(
                        CatalogInsertOutcome::Inserted(record),
                    )
                    &&& after == CatalogView {
                        playgrounds: before.playgrounds.insert(name, record),
                        ..before
                    }
                } else {
                    result is Err && after == before
                }
            },
{
}

/// The replay of a Playground's creation compares what its creator chose.
pub proof fn lemma_playground_creation_is_recognised(
    left: &PlaygroundRecord,
    right: &PlaygroundRecord,
    matches: bool,
)
    requires
        call_ensures(playground_create_matches, (left, right), matches),
    ensures
        matches <==> {
            &&& left.tenant_id@ == right.tenant_id@
            &&& left.project_id@ == right.project_id@
            &&& left.artifact_id@ == right.artifact_id@
            &&& left.playground_id@ == right.playground_id@
            &&& left.storage_volume_id@ == right.storage_volume_id@
            &&& left.display_name@ == right.display_name@
            &&& left.base_commit_id == right.base_commit_id
            &&& left.relative_root@ == right.relative_root@
        },
{
}

/// A Playground moves from the expected state to the next one and carries the time of the move; one
/// that is in the next state already stays as it is; any other state is refused.
pub proof fn lemma_playground_moves_from_the_expected_state(
    tenant_id: &TenantId,
    project_id: &ProjectId,
    artifact_id: &ArtifactId,
    playground_id: &PlaygroundId,
    expected: PlaygroundState,
    next: PlaygroundState,
    updated_at_unix_ms: UnixMillis,
    result: CentralResult<PlaygroundRecord>,
)
    ensures
        forall|catalog: &mut InMemoryControlCatalog|
            #[trigger] call_ensures(
                InMemoryControlCatalog::transition_playground_state,
                (
                    catalog,
                    tenant_id,
                    project_id,
                    artifact_id,
                    playground_id,
                    expected,
                    next,
                    updated_at_unix_ms,
                ),
                result,
            ) ==> {
                let before = (*catalog)@;
                let after = final(catalog)@;
                let name = (tenant_id@, (project_id@, (artifact_id@, playground_id@)));
                let stored = before.playgrounds[name];
                if !before.playgrounds.contains_key(name) {
                    fails_with(result, CentralErrorCode::ArtifactNotFound) && after == before
                } else if stored.state == next {
                    result == Ok::<PlaygroundRecord, CentralError>(stored) && after.playgrounds
                        == before.playgrounds.insert(name, stored)
                } else if stored.state == expected {
                    &&& result matches Ok(moved)
                    &&& moved == PlaygroundRecord { state: next, updated_at_unix_ms, ..stored }
                    &&& after == CatalogView {
                        playgrounds: before.playgrounds.insert(name, moved),
                        ..before
                    }
                } else {
                    fails_with(result, CentralErrorCode::ConcurrentUpdate) && after == before
                }
            },
{
}

/// A Commit becomes the Head of its Artifact and its Playground together, where both stand on the
/// Head that it was made from and the Playground is ready: the Artifact moves on by one version and
/// both carry the time. Where both have it already nothing changes; a Head that moved, a Playground
/// that is not ready and parents that are not there are refused.
pub proof fn lemma_commit_becomes_the_head_of_both(
    request: AdvancePlaygroundCommitRequest,
    result: CentralResult<AdvancePlaygroundCommitOutcome>,
)
    ensures
        forall|catalog: &mut InMemoryControlCatalog|
            #[trigger] call_ensures(
                InMemoryControlCatalog::advance_playground_commit,
                (catalog, request),
                result,
            ) ==> {
                let before = (*catalog)@;
                let after = final(catalog)@;
                let artifact_name = (request.tenant_id@, request.artifact_id@);
                let name = (
                    request.tenant_id@,
                    (request.project_id@, (request.artifact_id@, request.playground_id@)),
                );
                let artifact = before.artifacts[artifact_name];
                let playground = before.playgrounds[name];
                if !before.artifacts.contains_key(artifact_name) || artifact.project_id@
                    != request.project_id@ || !before.playgrounds.contains_key(name) {
                    fails_with(result, CentralErrorCode::ArtifactNotFound) && after == before
                } else if artifact.head_commit_id == Some(request.commit_id)
                    && playground.head_commit_id == Some(request.commit_id) {
                    &&& after == before
                    &&& result matches Ok(outcome)
                    &&& outcome.replayed
                    &&& outcome.artifact == artifact
                    &&& outcome.playground == playground
                } else if artifact.head_commit_id != request.expected_head_commit_id
                    || playground.head_commit_id != request.expected_head_commit_id {
                    fails_with(result, CentralErrorCode::ArtifactHeadMismatch) && after == before
                } else if !(playground.state is Ready) {
                    fails_with(result, CentralErrorCode::InvalidState) && after == before
                } else if artifact.resource_version == u64::MAX {
                    fails_with(result, CentralErrorCode::ConcurrentUpdate) && after == before
                } else {
                    &&& result matches Ok(outcome)
                    &&& !outcome.replayed
                    &&& outcome.artifact.head_commit_id == Some(request.commit_id)
                    &&& outcome.artifact.resource_version == artifact.resource_version + 1
                    &&& outcome.artifact.updated_at_unix_ms == request.updated_at_unix_ms
                    &&& outcome.artifact == ArtifactRecord {
                        head_commit_id: outcome.artifact.head_commit_id,
                        resource_version: outcome.artifact.resource_version,
                        updated_at_unix_ms: outcome.artifact.updated_at_unix_ms,
                        ..artifact
                    }
                    &&& outcome.playground.head_commit_id == Some(request.commit_id)
                    &&& outcome.playground.updated_at_unix_ms == request.updated_at_unix_ms
                    &&& outcome.playground == PlaygroundRecord {
                        head_commit_id: outcome.playground.head_commit_id,
                        updated_at_unix_ms: outcome.playground.updated_at_unix_ms,
                        ..playground
                    }
                    &&& after == CatalogView {
                        artifacts: before.artifacts.insert(artifact_name, outcome.artifact),
                        playgrounds: before.playgrounds.insert(name, outcome.playground),
                        ..before
                    }
                }
            },
{
}

/// Two Snapshots were asked for in the same way.
pub open spec fn asks_for_the_same_snapshot(left: SnapshotRecord, right: SnapshotRecord) -> bool {
    &&& left.tenant_id@ == right.tenant_id@
    &&& left.project_id@ == right.project_id@
    &&& left.artifact_id@ == right.artifact_id@
    &&& left.snapshot_request_id@ == right.snapshot_request_id@
    &&& left.commit_id == right.commit_id
    &&& left.storage_volume_id@ == right.storage_volume_id@
    &&& left.region@ == right.region@
    &&& left.relative_root@ == right.relative_root@
}

/// Two Snapshots place the same Commit of an Artifact on the same StorageVolume.
pub open spec fn places_the_same_commit(left: SnapshotRecord, right: SnapshotRecord) -> bool {
    &&& left.tenant_id@ == right.tenant_id@
    &&& left.project_id@ == right.project_id@
    &&& left.artifact_id@ == right.artifact_id@
    &&& left.commit_id == right.commit_id
    &&& left.storage_volume_id@ == right.storage_volume_id@
}

/// A Snapshot request is made once per tenant: where a stored Snapshot came from a request of that
/// identity, it is given back if the request asks for the same, and refused otherwise.
pub proof fn lemma_snapshot_request_is_made_once(
    request: SnapshotInsertRequest,
    first: (Seq<char>, Seq<char>),
    result: CentralResult<SnapshotInsertOutcome>,
)
    ensures
        forall|catalog: &mut InMemoryControlCatalog|
            #[trigger] call_ensures(
                InMemoryControlCatalog::insert_snapshot_fenced,
                (catalog, request),
                result,
            ) && (*catalog).well_formed() && (*catalog)@.snapshots.contains_key(first) && (
            *catalog)@.snapshots[first].tenant_id@ == request.record.tenant_id@ && (
            *catalog)@.snapshots[first].snapshot_request_id@ == request.record.snapshot_request_id@
                ==> final(catalog)@ == (*catalog)@ && if asks_for_the_same_snapshot(
                (*catalog)@.snapshots[first],
                request.record,
            ) {
                result == Ok::<SnapshotInsertOutcome, CentralError>(
                    SnapshotInsertOutcome::ExistingRequest((*catalog)@.snapshots[first]),
                )
            } else {
                fails_with(result, CentralErrorCode::InvalidState)
            },
{
    assert forall|catalog: &mut InMemoryControlCatalog|
        #[trigger] call_ensures(
            InMemoryControlCatalog::insert_snapshot_fenced,
            (catalog, request),
            result,
        ) && (*catalog).well_formed() && (*catalog)@.snapshots.contains_key(first) && (
        *catalog)@.snapshots[first].tenant_id@ == request.record.tenant_id@ && (
        *catalog)@.snapshots[first].snapshot_request_id@ == request.record.snapshot_request_id@
        implies final(catalog)@ == (*catalog)@ && if asks_for_the_same_snapshot(
        (*catalog)@.snapshots[first],
        request.record,
    ) {
        result == Ok::<SnapshotInsertOutcome, CentralError>(
            SnapshotInsertOutcome::ExistingRequest((*catalog)@.snapshots[first]),
        )
    } else {
        fails_with(result, CentralErrorCode::InvalidState)
    } by {
        (*catalog).lemma_consistent();
        let snapshots = (*catalog)@.snapshots;
        assert(has_request(snapshots, request.record, first));
        let name = choose|name: (Seq<char>, Seq<char>)|
            has_request(snapshots, request.record, name);
        assert(shares_request(snapshots[name], snapshots[first]));
        assert(name == first);
    }
}

/// A first Snapshot request is refused where the Snapshot identity is taken. Otherwise a stored
/// Snapshot of the same placement is given back; where there is none the Snapshot is stored if its
/// parents in the catalog agree with it, and refused if they do not.
pub proof fn lemma_snapshot_is_placed_once(
    request: SnapshotInsertRequest,
    result: CentralResult<SnapshotInsertOutcome>,
)
    ensures
        forall|catalog: &mut InMemoryControlCatalog|
            #[trigger] call_ensures(
                InMemoryControlCatalog::insert_snapshot_fenced,
                (catalog, request),
                result,
            ) && (forall|name: (Seq<char>, Seq<char>)| #[trigger]
                (*catalog)@.snapshots.contains_key(name) ==> (
                *catalog)@.snapshots[name].tenant_id@ != request.record.tenant_id@ || (
                *catalog)@.snapshots[name].snapshot_request_id@
                    != request.record.snapshot_request_id@) ==> {
                let before = (*catalog)@;
                let after = final(catalog)@;
                let record = request.record;
                let name = (record.tenant_id@, record.snapshot_id@);
                if before.snapshots.contains_key(name) {
                    fails_with(result, CentralErrorCode::InvalidState) && after == before
                } else if exists|other: (Seq<char>, Seq<char>)| #[trigger]
                    before.snapshots.contains_key(other) && places_the_same_commit(
                        before.snapshots[other],
                        record,
                    ) {
                    &&& after == before
                    &&& result matches Ok(SnapshotInsertOutcome::ExistingPlacement(stored))
                    &&& places_the_same_commit(stored, record)
                    &&& exists|other: (Seq<char>, Seq<char>)| #[trigger]
                        before.snapshots.contains_key(other) && before.snapshots[other] == stored
                } else if is_expected_head(request.artifact_head, Some(record.commit_id))
                    && parents_agree(
                    before,
                    record.tenant_id@,
                    record.project_id@,
                    record.artifact_id@,
                    record.storage_volume_id@,
                    record.region@,
                    request.artifact_head,
                ) {
                    &&& result == Ok::<SnapshotInsertOutcome, CentralError>(
                        SnapshotInsertOutcome::Inserted(record),
                    )
                    &&& after == CatalogView {
                        snapshots: before.snapshots.insert(name, record),
                        ..before
                    }
                } else {
                    result is Err && after == before
                }
            },
{
    assert forall|catalog: &mut InMemoryControlCatalog|
        #[trigger] call_ensures(
            InMemoryControlCatalog::insert_snapshot_fenced,
            (catalog, request),
            result,
        ) && (forall|name: (Seq<char>, Seq<char>)| #[trigger]
            (*catalog)@.snapshots.contains_key(name) ==> (*catalog)@.snapshots[name].tenant_id@
                != request.record.tenant_id@ || (*catalog)@.snapshots[name].snapshot_request_id@
                != request.record.snapshot_request_id@) implies {
        let snapshots = (*catalog)@.snapshots;
        &&& forall|name: (Seq<char>, Seq<char>)| !#[trigger]
            has_request(snapshots, request.record, name)
        &&& (exists|name: (Seq<char>, Seq<char>)| has_placement(snapshots, request.record, name))
            == (exists|other: (Seq<char>, Seq<char>)| #[trigger]
            snapshots.contains_key(other) && places_the_same_commit(
                snapshots[other],
                request.record,
            ))
    } by {
        let snapshots = (*catalog)@.snapshots;
        if exists|other: (Seq<char>, Seq<char>)| #[trigger]
            snapshots.contains_key(other) && places_the_same_commit(
                snapshots[other],
                request.record,
            ) {
            let other = choose|other: (Seq<char>, Seq<char>)| #[trigger]
                snapshots.contains_key(other) && places_the_same_commit(
                    snapshots[other],
                    request.record,
                );
            assert(has_placement(snapshots, request.record, other));
        }
    }
}

/// A Snapshot moves from the expected state to the next state and phase and carries the time; one
/// that is in both already keeps them, and its time never moves back; any other state is refused.
pub proof fn lemma_snapshot_moves_from_the_expected_state(
    tenant_id: &TenantId,
    snapshot_id: &SnapshotId,
    expected: &SnapshotState,
    next_state: &SnapshotState,
    next_phase: &SnapshotPhase,
    updated_at_unix_ms: UnixMillis,
    result: CentralResult<SnapshotRecord>,
)
    ensures
        forall|catalog: &mut InMemoryControlCatalog|
            #[trigger] call_ensures(
                InMemoryControlCatalog::transition_snapshot_state,
                (
                    catalog,
                    tenant_id,
                    snapshot_id,
                    expected,
                    next_state,
                    next_phase,
                    updated_at_unix_ms,
                ),
                result,
            ) ==> {
                let before = (*catalog)@;
                let after = final(catalog)@;
                let name = (tenant_id@, snapshot_id@);
                let stored = before.snapshots[name];
                if !before.snapshots.contains_key(name) {
                    fails_with(result, CentralErrorCode::ArtifactNotFound) && after == before
                } else if stored.state@ == next_state@ && stored.phase@ == next_phase@ {
                    &&& result matches Ok(moved)
                    &&& moved == SnapshotRecord {
                        updated_at_unix_ms: moved.updated_at_unix_ms,
                        ..stored
                    }
                    &&& moved.updated_at_unix_ms >= stored.updated_at_unix_ms
                    &&& moved.updated_at_unix_ms >= updated_at_unix_ms
                    &&& moved.updated_at_unix_ms == stored.updated_at_unix_ms
                        || moved.updated_at_unix_ms == updated_at_unix_ms
                    &&& after == CatalogView {
                        snapshots: before.snapshots.insert(name, moved),
                        ..before
                    }
                } else if stored.state@ == expected@ {
                    &&& result matches Ok(moved)
                    &&& moved.state@ == next_state@
                    &&& moved.phase@ == next_phase@
                    &&& moved.updated_at_unix_ms == updated_at_unix_ms
                    &&& moved == SnapshotRecord {
                        state: moved.state,
                        phase: moved.phase,
                        updated_at_unix_ms: moved.updated_at_unix_ms,
                        ..stored
                    }
                    &&& after == CatalogView {
                        snapshots: before.snapshots.insert(name, moved),
                        ..before
                    }
                } else {
                    fails_with(result, CentralErrorCode::ConcurrentUpdate) && after == before
                }
            },
{
}

} // verus!
