//! What makes two catalog records the same request, and what a new record needs.
use vstd::prelude::*;

use crate::catalog::listing::{is_listed_before, is_match, matches_query, place, Dated, Newest, Paged};
use crate::catalog::records::{
    ArtifactHeadExpectation, ArtifactListCursor, ArtifactListRequest, ArtifactRecord,
    PlaygroundListCursor, PlaygroundListRequest, PlaygroundRecord, PlaygroundState,
    SnapshotListCursor, SnapshotListRequest, SnapshotRecord, StorageBackendType,
    StorageVolumeListCursor, StorageVolumeListRequest, StorageVolumeRecord, StorageVolumeState,
    TenantListCursor, TenantListRequest, TenantRecord,
};
use crate::equality::Same;
use crate::error::{
    fault_of, final_failure, final_fault, CentralError, CentralErrorCode, CentralResult, Fault,
};
use crate::identifier::{
    ArtifactId, Identifier, PlaygroundId, ProjectId, SnapshotId, StorageVolumeId, TenantId,
};
use crate::table::{Named, OrderedKey};
use crate::text::text_equals;

verus! {

impl Dated for TenantRecord {
    type Id = TenantId;

    open spec fn created(self) -> u64 {
        self.created_at_unix_ms
    }

    open spec fn listed_id(self) -> Seq<char> {
        self.tenant_id@
    }
}

impl Paged for TenantRecord {
    fn page_key(&self) -> (key: (Newest, TenantId)) {
        (Newest(self.created_at_unix_ms), self.tenant_id.clone())
    }
}

impl Dated for ArtifactRecord {
    type Id = (ProjectId, ArtifactId);

    open spec fn created(self) -> u64 {
        self.created_at_unix_ms
    }

    open spec fn listed_id(self) -> (Seq<char>, Seq<char>) {
        (self.project_id@, self.artifact_id@)
    }
}

impl Paged for ArtifactRecord {
    fn page_key(&self) -> (key: (Newest, (ProjectId, ArtifactId))) {
        (Newest(self.created_at_unix_ms), (self.project_id.clone(), self.artifact_id.clone()))
    }
}

impl Dated for StorageVolumeRecord {
    type Id = StorageVolumeId;

    open spec fn created(self) -> u64 {
        self.created_at_unix_ms
    }

    open spec fn listed_id(self) -> Seq<char> {
        self.storage_volume_id@
    }
}

impl Paged for StorageVolumeRecord {
    fn page_key(&self) -> (key: (Newest, StorageVolumeId)) {
        (Newest(self.created_at_unix_ms), self.storage_volume_id.clone())
    }
}

impl Dated for PlaygroundRecord {
    type Id = (ProjectId, (ArtifactId, PlaygroundId));

    open spec fn created(self) -> u64 {
        self.created_at_unix_ms
    }

    open spec fn listed_id(self) -> (Seq<char>, (Seq<char>, Seq<char>)) {
        (self.project_id@, (self.artifact_id@, self.playground_id@))
    }
}

impl Paged for PlaygroundRecord {
    fn page_key(&self) -> (key: (Newest, (ProjectId, (ArtifactId, PlaygroundId)))) {
        (
            Newest(self.created_at_unix_ms),
            (self.project_id.clone(), (self.artifact_id.clone(), self.playground_id.clone())),
        )
    }
}

impl Dated for SnapshotRecord {
    type Id = SnapshotId;

    open spec fn created(self) -> u64 {
        self.created_at_unix_ms
    }

    open spec fn listed_id(self) -> Seq<char> {
        self.snapshot_id@
    }
}

impl Paged for SnapshotRecord {
    fn page_key(&self) -> (key: (Newest, SnapshotId)) {
        (Newest(self.created_at_unix_ms), self.snapshot_id.clone())
    }
}

/// A tenant comes after a cursor.
pub fn tenant_after(record: &TenantRecord, after: &TenantListCursor) -> (passed: bool)
    ensures
        passed == is_listed_before::<TenantRecord>(
            (after.created_at_unix_ms, after.tenant_id@),
            place(*record),
        ),
{
    record.created_at_unix_ms < after.created_at_unix_ms || (record.created_at_unix_ms
        == after.created_at_unix_ms && after.tenant_id.is_before(&record.tenant_id))
}

/// A Volume comes after a cursor.
pub fn volume_after(record: &StorageVolumeRecord, after: &StorageVolumeListCursor) -> (passed: bool)
    ensures
        passed == is_listed_before::<StorageVolumeRecord>(
            (after.created_at_unix_ms, after.storage_volume_id@),
            place(*record),
        ),
{
    record.created_at_unix_ms < after.created_at_unix_ms || (record.created_at_unix_ms
        == after.created_at_unix_ms && after.storage_volume_id.is_before(
        &record.storage_volume_id,
    ))
}

/// An Artifact comes after a cursor.
pub fn artifact_after(record: &ArtifactRecord, after: &ArtifactListCursor) -> (passed: bool)
    ensures
        passed == is_listed_before::<ArtifactRecord>(
            (after.created_at_unix_ms, (after.project_id@, after.artifact_id@)),
            place(*record),
        ),
{
    record.created_at_unix_ms < after.created_at_unix_ms || (record.created_at_unix_ms
        == after.created_at_unix_ms && (after.project_id.is_before(&record.project_id) || (
    after.project_id == record.project_id && after.artifact_id.is_before(&record.artifact_id))))
}

/// A Playground comes after a cursor.
pub fn playground_after(record: &PlaygroundRecord, after: &PlaygroundListCursor) -> (passed: bool)
    ensures
        passed == is_listed_before::<PlaygroundRecord>(
            (
                after.created_at_unix_ms,
                (after.project_id@, (after.artifact_id@, after.playground_id@)),
            ),
            place(*record),
        ),
{
    record.created_at_unix_ms < after.created_at_unix_ms || (record.created_at_unix_ms
        == after.created_at_unix_ms && (after.project_id.is_before(&record.project_id) || (
    after.project_id == record.project_id && (after.artifact_id.is_before(&record.artifact_id) || (
    after.artifact_id == record.artifact_id && after.playground_id.is_before(
        &record.playground_id,
    ))))))
}

/// A Snapshot comes after a cursor.
pub fn snapshot_after(record: &SnapshotRecord, after: &SnapshotListCursor) -> (passed: bool)
    ensures
        passed == is_listed_before::<SnapshotRecord>(
            (after.created_at_unix_ms, after.snapshot_id@),
            place(*record),
        ),
{
    record.created_at_unix_ms < after.created_at_unix_ms || (record.created_at_unix_ms
        == after.created_at_unix_ms && after.snapshot_id.is_before(&record.snapshot_id))
}

/// An optional identity that is absent or the given one.
pub open spec fn admits(wanted: Option<Identifier>, id: Identifier) -> bool {
    wanted matches Some(wanted) ==> wanted@ == id@
}

fn admits_id(wanted: &Option<Identifier>, id: &Identifier) -> (admitted: bool)
    ensures
        admitted == admits(*wanted, *id),
{
    match wanted {
        Some(wanted) => *wanted == *id,
        None => true,
    }
}

/// An optional text that is absent or the given one.
pub open spec fn admits_text(wanted: Option<String>, text: Seq<char>) -> bool {
    wanted matches Some(wanted) ==> wanted@ == text
}

fn admits_str(wanted: &Option<String>, text: &str) -> (admitted: bool)
    ensures
        admitted == admits_text(*wanted, text@),
{
    match wanted {
        Some(wanted) => text_equals(wanted.as_str(), text),
        None => true,
    }
}

/// The place in a listing that a cursor tells.
pub open spec fn tenant_cursor(cursor: Option<TenantListCursor>) -> Option<(u64, Seq<char>)> {
    match cursor {
        Some(cursor) => Some((cursor.created_at_unix_ms, cursor.tenant_id@)),
        None => None,
    }
}

/// The place in a listing that a cursor tells.
pub open spec fn artifact_cursor(cursor: Option<ArtifactListCursor>) -> Option<(u64, (Seq<char>, Seq<char>))> {
    match cursor {
        Some(cursor) => Some(
            (
                cursor.created_at_unix_ms,
                (cursor.project_id@, cursor.artifact_id@),
            ),
        ),
        None => None,
    }
}

/// The place in a listing that a cursor tells.
pub open spec fn volume_cursor(cursor: Option<StorageVolumeListCursor>) -> Option<(u64, Seq<char>)> {
    match cursor {
        Some(cursor) => Some((cursor.created_at_unix_ms, cursor.storage_volume_id@)),
        None => None,
    }
}

/// The place in a listing that a cursor tells.
pub open spec fn playground_cursor(cursor: Option<PlaygroundListCursor>) -> Option<(u64, (Seq<char>, (Seq<char>, Seq<char>)))> {
    match cursor {
        Some(cursor) => Some(
            (
                cursor.created_at_unix_ms,
                (cursor.project_id@, (cursor.artifact_id@, cursor.playground_id@)),
            ),
        ),
        None => None,
    }
}

/// The place in a listing that a cursor tells.
pub open spec fn snapshot_cursor(cursor: Option<SnapshotListCursor>) -> Option<(u64, Seq<char>)> {
    match cursor {
        Some(cursor) => Some((cursor.created_at_unix_ms, cursor.snapshot_id@)),
        None => None,
    }
}

/// A tenant that a list request asks for.
pub open spec fn is_wanted_tenant(record: TenantRecord, request: TenantListRequest) -> bool {
    &&& request.visible_tenant_ids matches Some(ids) ==> exists|i: int|
        0 <= i < ids@.len() && (#[trigger] ids@[i])@ == record.tenant_id@
    &&& is_match(record.tenant_id@, record.display_name@, request.query)
    &&& request.after matches Some(after) ==> is_listed_before::<TenantRecord>(
        (after.created_at_unix_ms, after.tenant_id@),
        place(record),
    )
}

fn is_visible(ids: &Vec<TenantId>, tenant_id: &TenantId) -> (visible: bool)
    ensures
        visible == exists|i: int| 0 <= i < ids@.len() && (#[trigger] ids@[i])@ == tenant_id@,
{
    let mut index: usize = 0;
    while index < ids.len()
        invariant
            index <= ids@.len(),
            forall|i: int| 0 <= i < index ==> (#[trigger] ids@[i])@ != tenant_id@,
        decreases ids@.len() - index,
    {
        if ids[index] == *tenant_id {
            return true;
        }
        index += 1;
    }
    false
}

pub(crate) fn wants_tenant(record: &TenantRecord, request: &TenantListRequest) -> (wanted: bool)
    ensures
        wanted == is_wanted_tenant(*record, *request),
{
    let visible = match &request.visible_tenant_ids {
        Some(ids) => is_visible(ids, &record.tenant_id),
        None => true,
    };
    visible && matches_query(
        record.tenant_id.as_str(),
        record.display_name.as_str(),
        &request.query,
    ) && match &request.after {
        Some(after) => tenant_after(record, after),
        None => true,
    }
}

/// An Artifact that a list request asks for.
pub open spec fn is_wanted_artifact(record: ArtifactRecord, request: ArtifactListRequest) -> bool {
    &&& record.tenant_id@ == request.tenant_id@
    &&& admits(request.project_id, record.project_id)
    &&& is_match(record.artifact_id@, record.display_name@, request.query)
    &&& request.after matches Some(after) ==> is_listed_before::<ArtifactRecord>(
        (after.created_at_unix_ms, (after.project_id@, after.artifact_id@)),
        place(record),
    )
}

pub(crate) fn wants_artifact(record: &ArtifactRecord, request: &ArtifactListRequest) -> (wanted: bool)
    ensures
        wanted == is_wanted_artifact(*record, *request),
{
    record.tenant_id == request.tenant_id && admits_id(&request.project_id, &record.project_id)
        && matches_query(
        record.artifact_id.as_str(),
        record.display_name.as_str(),
        &request.query,
    ) && match &request.after {
        Some(after) => artifact_after(record, after),
        None => true,
    }
}

/// A Volume that a list request asks for.
pub open spec fn is_wanted_volume(
    record: StorageVolumeRecord,
    request: StorageVolumeListRequest,
) -> bool {
    &&& record.tenant_id@ == request.tenant_id@
    &&& admits_text(request.region, record.region@)
    &&& request.backend_type matches Some(backend) ==> record.backend_type == backend
    &&& is_match(record.storage_volume_id@, record.display_name@, request.query)
    &&& request.after matches Some(after) ==> is_listed_before::<StorageVolumeRecord>(
        (after.created_at_unix_ms, after.storage_volume_id@),
        place(record),
    )
}

pub(crate) fn wants_volume(
    record: &StorageVolumeRecord,
    request: &StorageVolumeListRequest,
) -> (wanted: bool)
    ensures
        wanted == is_wanted_volume(*record, *request),
{
    let backend = match request.backend_type {
        Some(backend) => record.backend_type == backend,
        None => true,
    };
    record.tenant_id == request.tenant_id && admits_str(&request.region, record.region.as_str())
        && backend && matches_query(
        record.storage_volume_id.as_str(),
        record.display_name.as_str(),
        &request.query,
    ) && match &request.after {
        Some(after) => volume_after(record, after),
        None => true,
    }
}

/// A Playground that a list request asks for.
pub open spec fn is_wanted_playground(
    record: PlaygroundRecord,
    request: PlaygroundListRequest,
) -> bool {
    &&& record.tenant_id@ == request.tenant_id@
    &&& admits(request.project_id, record.project_id)
    &&& admits(request.artifact_id, record.artifact_id)
    &&& admits_text(request.region, record.region@)
    &&& request.state matches Some(state) ==> record.state == state
    &&& is_match(record.playground_id@, record.display_name@, request.query)
    &&& request.after matches Some(after) ==> is_listed_before::<PlaygroundRecord>(
        (after.created_at_unix_ms, (after.project_id@, (after.artifact_id@, after.playground_id@))),
        place(record),
    )
}

pub(crate) fn wants_playground(
    record: &PlaygroundRecord,
    request: &PlaygroundListRequest,
) -> (wanted: bool)
    ensures
        wanted == is_wanted_playground(*record, *request),
{
    let state = match request.state {
        Some(state) => record.state == state,
        None => true,
    };
    record.tenant_id == request.tenant_id && admits_id(&request.project_id, &record.project_id)
        && admits_id(&request.artifact_id, &record.artifact_id) && admits_str(
        &request.region,
        record.region.as_str(),
    ) && state && matches_query(
        record.playground_id.as_str(),
        record.display_name.as_str(),
        &request.query,
    ) && match &request.after {
        Some(after) => playground_after(record, after),
        None => true,
    }
}

/// A Snapshot that a list request asks for.
pub open spec fn is_wanted_snapshot(record: SnapshotRecord, request: SnapshotListRequest) -> bool {
    &&& record.tenant_id@ == request.tenant_id@
    &&& admits(request.project_id, record.project_id)
    &&& admits(request.artifact_id, record.artifact_id)
    &&& request.commit_id matches Some(commit_id) ==> record.commit_id == commit_id
    &&& admits(request.storage_volume_id, record.storage_volume_id)
    &&& admits_text(request.region, record.region@)
    &&& admits(request.state, record.state)
    &&& request.after matches Some(after) ==> is_listed_before::<SnapshotRecord>(
        (after.created_at_unix_ms, after.snapshot_id@),
        place(record),
    )
}

pub(crate) fn wants_snapshot(record: &SnapshotRecord, request: &SnapshotListRequest) -> (wanted: bool)
    ensures
        wanted == is_wanted_snapshot(*record, *request),
{
    let commit = match request.commit_id {
        Some(commit_id) => record.commit_id == commit_id,
        None => true,
    };
    record.tenant_id == request.tenant_id && admits_id(&request.project_id, &record.project_id)
        && admits_id(&request.artifact_id, &record.artifact_id) && commit && admits_id(
        &request.storage_volume_id,
        &record.storage_volume_id,
    ) && admits_str(&request.region, record.region.as_str()) && admits_id(
        &request.state,
        &record.state,
    ) && match &request.after {
        Some(after) => snapshot_after(record, after),
        None => true,
    }
}

/// Two Tenants of one create request.
pub open spec fn is_same_tenant(left: TenantRecord, right: TenantRecord) -> bool {
    &&& left.tenant_id@ == right.tenant_id@
    &&& left.display_name@ == right.display_name@
    &&& left.description.same(right.description)
}

#[must_use]
pub fn tenant_create_matches(left: &TenantRecord, right: &TenantRecord) -> (matches: bool)
    ensures
        matches == is_same_tenant(*left, *right),
{
    left.tenant_id == right.tenant_id && text_equals(
        left.display_name.as_str(),
        right.display_name.as_str(),
    ) && left.description == right.description
}

/// Two Volumes of one create request.
pub open spec fn is_same_volume(left: StorageVolumeRecord, right: StorageVolumeRecord) -> bool {
    &&& left.tenant_id@ == right.tenant_id@
    &&& left.storage_volume_id@ == right.storage_volume_id@
    &&& left.display_name@ == right.display_name@
    &&& left.edge_cluster_id@ == right.edge_cluster_id@
    &&& left.region@ == right.region@
    &&& left.backend_type == right.backend_type
    &&& left.access_mode == right.access_mode
    &&& left.pvc_reference.same(right.pvc_reference)
    &&& left.nfs_reference.same(right.nfs_reference)
}

#[must_use]
pub fn volume_matches(left: &StorageVolumeRecord, right: &StorageVolumeRecord) -> (matches: bool)
    ensures
        matches == is_same_volume(*left, *right),
{
    left.tenant_id == right.tenant_id && left.storage_volume_id == right.storage_volume_id
        && text_equals(left.display_name.as_str(), right.display_name.as_str())
        && left.edge_cluster_id == right.edge_cluster_id && text_equals(
        left.region.as_str(),
        right.region.as_str(),
    ) && left.backend_type == right.backend_type && left.access_mode == right.access_mode
        && left.pvc_reference == right.pvc_reference && left.nfs_reference == right.nfs_reference
}

/// Two Artifacts of one create request.
pub open spec fn is_same_artifact(left: ArtifactRecord, right: ArtifactRecord) -> bool {
    &&& left.tenant_id@ == right.tenant_id@
    &&& left.project_id@ == right.project_id@
    &&& left.artifact_id@ == right.artifact_id@
    &&& left.display_name@ == right.display_name@
    &&& left.description.same(right.description)
    &&& left.initialization.same(right.initialization)
}

#[must_use]
pub fn artifact_matches(left: &ArtifactRecord, right: &ArtifactRecord) -> (matches: bool)
    ensures
        matches == is_same_artifact(*left, *right),
{
    left.tenant_id == right.tenant_id && left.project_id == right.project_id && left.artifact_id
        == right.artifact_id && text_equals(
        left.display_name.as_str(),
        right.display_name.as_str(),
    ) && left.description == right.description && left.initialization == right.initialization
}

/// Two Playgrounds of one create request. Where the request left the base Commit to the Head that
/// was observed, the Commits are not part of it.
pub open spec fn is_same_playground(
    existing: PlaygroundRecord,
    requested: PlaygroundRecord,
    artifact_head: ArtifactHeadExpectation,
) -> bool {
    &&& existing.tenant_id@ == requested.tenant_id@
    &&& existing.project_id@ == requested.project_id@
    &&& existing.artifact_id@ == requested.artifact_id@
    &&& existing.playground_id@ == requested.playground_id@
    &&& existing.storage_volume_id@ == requested.storage_volume_id@
    &&& existing.region@ == requested.region@
    &&& existing.display_name@ == requested.display_name@
    &&& existing.relative_root@ == requested.relative_root@
    &&& artifact_head is Any ==> existing.base_commit_id == requested.base_commit_id
        && existing.head_commit_id == requested.head_commit_id
}

#[must_use]
pub fn playground_matches_insert(
    existing: &PlaygroundRecord,
    requested: &PlaygroundRecord,
    artifact_head: &ArtifactHeadExpectation,
) -> (matches: bool)
    ensures
        matches == is_same_playground(*existing, *requested, *artifact_head),
{
    let commits = match artifact_head {
        ArtifactHeadExpectation::Any => existing.base_commit_id == requested.base_commit_id
            && existing.head_commit_id == requested.head_commit_id,
        ArtifactHeadExpectation::Exact(_) => true,
    };
    existing.tenant_id == requested.tenant_id && existing.project_id == requested.project_id
        && existing.artifact_id == requested.artifact_id && existing.playground_id
        == requested.playground_id && existing.storage_volume_id == requested.storage_volume_id
        && text_equals(existing.region.as_str(), requested.region.as_str()) && text_equals(
        existing.display_name.as_str(),
        requested.display_name.as_str(),
    ) && text_equals(existing.relative_root.as_str(), requested.relative_root.as_str()) && commits
}

/// Two Playgrounds of one create request, as the SQLite catalog compares them.
pub open spec fn is_same_playground_create(left: PlaygroundRecord, right: PlaygroundRecord) -> bool {
    &&& left.tenant_id@ == right.tenant_id@
    &&& left.project_id@ == right.project_id@
    &&& left.artifact_id@ == right.artifact_id@
    &&& left.playground_id@ == right.playground_id@
    &&& left.storage_volume_id@ == right.storage_volume_id@
    &&& left.display_name@ == right.display_name@
    &&& left.base_commit_id == right.base_commit_id
    &&& left.relative_root@ == right.relative_root@
}

#[must_use]
pub fn playground_create_matches(left: &PlaygroundRecord, right: &PlaygroundRecord) -> (matches:
    bool)
    ensures
        matches == is_same_playground_create(*left, *right),
{
    left.tenant_id == right.tenant_id && left.project_id == right.project_id && left.artifact_id
        == right.artifact_id && left.playground_id == right.playground_id && left.storage_volume_id
        == right.storage_volume_id && text_equals(
        left.display_name.as_str(),
        right.display_name.as_str(),
    ) && left.base_commit_id == right.base_commit_id && text_equals(
        left.relative_root.as_str(),
        right.relative_root.as_str(),
    )
}

/// Two Snapshots of one request.
pub open spec fn is_same_snapshot_request(
    existing: SnapshotRecord,
    requested: SnapshotRecord,
) -> bool {
    &&& existing.tenant_id@ == requested.tenant_id@
    &&& existing.project_id@ == requested.project_id@
    &&& existing.artifact_id@ == requested.artifact_id@
    &&& existing.snapshot_request_id@ == requested.snapshot_request_id@
    &&& existing.commit_id == requested.commit_id
    &&& existing.storage_volume_id@ == requested.storage_volume_id@
    &&& existing.region@ == requested.region@
    &&& existing.relative_root@ == requested.relative_root@
}

#[must_use]
pub fn snapshot_request_matches(existing: &SnapshotRecord, requested: &SnapshotRecord) -> (matches:
    bool)
    ensures
        matches == is_same_snapshot_request(*existing, *requested),
{
    existing.tenant_id == requested.tenant_id && existing.project_id == requested.project_id
        && existing.artifact_id == requested.artifact_id && existing.snapshot_request_id
        == requested.snapshot_request_id && existing.commit_id == requested.commit_id
        && existing.storage_volume_id == requested.storage_volume_id && text_equals(
        existing.region.as_str(),
        requested.region.as_str(),
    ) && text_equals(existing.relative_root.as_str(), requested.relative_root.as_str())
}

/// A Volume names the locator of its backend, and no other.
pub open spec fn has_its_locator(record: StorageVolumeRecord) -> bool {
    match record.backend_type {
        StorageBackendType::Pvc => record.pvc_reference is Some && record.nfs_reference is None,
        StorageBackendType::Nfs => record.pvc_reference is None && record.nfs_reference is Some,
    }
}

pub fn validate_volume_shape(record: &StorageVolumeRecord) -> (result: CentralResult<()>)
    ensures
        fault_of(result) == if has_its_locator(*record) {
            None::<Fault>
        } else {
            Some(
                final_fault(
                    CentralErrorCode::ProtocolInvalid,
                    "StorageVolume backend locator does not match backend type"@,
                ),
            )
        },
{
    let valid = match record.backend_type {
        StorageBackendType::Pvc => record.pvc_reference.is_some() && record.nfs_reference.is_none(),
        StorageBackendType::Nfs => record.pvc_reference.is_none() && record.nfs_reference.is_some(),
    };
    if !valid {
        return Err(
            final_failure(
                CentralErrorCode::ProtocolInvalid,
                "StorageVolume backend locator does not match backend type",
            ),
        );
    }
    Ok(())
}

/// An identity that stands for another create request.
#[must_use]
pub fn conflict(message: &str) -> (failure: CentralError)
    ensures
        failure@ == final_fault(CentralErrorCode::InvalidState, message@),
{
    final_failure(CentralErrorCode::InvalidState, message)
}

/// Something that a record depends on does not allow it.
#[must_use]
pub fn catalog_parent_error(code: CentralErrorCode, message: &str) -> (failure: CentralError)
    ensures
        failure@ == final_fault(code, message@),
{
    final_failure(code, message)
}

/// The Head of an Artifact moved since it was observed; observing it again may help.
pub open spec fn head_changed() -> Fault {
    Fault {
        code: CentralErrorCode::ArtifactHeadMismatch,
        message: "Artifact Head changed before Playground creation"@,
        retryable: true,
    }
}

#[must_use]
pub fn artifact_head_changed() -> (failure: CentralError)
    ensures
        failure@ == head_changed(),
{
    CentralError::new(
        CentralErrorCode::ArtifactHeadMismatch,
        String::from_str("Artifact Head changed before Playground creation"),
    ).with_retryable(true)
}

/// What a placement on a Volume needs of it. `missing`, `unready` and `elsewhere` say what is
/// wrong.
pub open spec fn volume_fault(
    volume: Option<StorageVolumeRecord>,
    region: Seq<char>,
    missing: Seq<char>,
    unready: Seq<char>,
    elsewhere: Seq<char>,
) -> Option<Fault> {
    match volume {
        None => Some(final_fault(CentralErrorCode::StorageVolumeNotFound, missing)),
        Some(volume) => if !(volume.state is Ready) {
            Some(final_fault(CentralErrorCode::StorageVolumeNotReady, unready))
        } else if region != volume.region@ {
            Some(final_fault(CentralErrorCode::StorageVolumeRegionMismatch, elsewhere))
        } else {
            None
        },
    }
}

fn require_volume(
    volume: Option<&StorageVolumeRecord>,
    region: &str,
    missing: &str,
    unready: &str,
    elsewhere: &str,
) -> (result: CentralResult<()>)
    ensures
        fault_of(result) == volume_fault(
            match volume {
                Some(volume) => Some(*volume),
                None => None,
            },
            region@,
            missing@,
            unready@,
            elsewhere@,
        ),
{
    match volume {
        None => Err(catalog_parent_error(CentralErrorCode::StorageVolumeNotFound, missing)),
        Some(volume) => {
            if volume.state != StorageVolumeState::Ready {
                return Err(catalog_parent_error(CentralErrorCode::StorageVolumeNotReady, unready));
            }
            if !text_equals(region, volume.region.as_str()) {
                return Err(
                    catalog_parent_error(CentralErrorCode::StorageVolumeRegionMismatch, elsewhere),
                );
            }
            Ok(())
        },
    }
}

/// Why a new Playground is refused. `artifact` is the Artifact of that identity, `volume` the
/// Volume that the Playground is placed on.
pub open spec fn playground_fault(
    record: PlaygroundRecord,
    artifact_head: ArtifactHeadExpectation,
    artifact: Option<ArtifactRecord>,
    volume: Option<StorageVolumeRecord>,
) -> Option<Fault> {
    if !(artifact matches Some(artifact) && artifact.project_id@ == record.project_id@) {
        Some(
            final_fault(
                CentralErrorCode::ArtifactNotFound,
                "Playground Artifact does not exist"@,
            ),
        )
    } else if record.base_commit_id != record.head_commit_id {
        Some(
            final_fault(
                CentralErrorCode::ArtifactHeadMismatch,
                "Playground base Commit must match its initial head Commit"@,
            ),
        )
    } else if artifact_head matches ArtifactHeadExpectation::Exact(expected)
        && record.base_commit_id != expected {
        Some(
            final_fault(
                CentralErrorCode::ProtocolInvalid,
                "fenced Playground base Commit does not match the observed Artifact Head"@,
            ),
        )
    } else if artifact_head matches ArtifactHeadExpectation::Exact(expected)
        && artifact->0.head_commit_id != expected {
        Some(head_changed())
    } else {
        volume_fault(
            volume,
            record.region@,
            "Playground StorageVolume does not exist"@,
            "Playground StorageVolume is not ready"@,
            "Playground region must match the StorageVolume region"@,
        )
    }
}

/// Checks what a new Playground depends on.
pub fn validate_playground_insert(
    record: &PlaygroundRecord,
    artifact_head: &ArtifactHeadExpectation,
    artifact: Option<&ArtifactRecord>,
    volume: Option<&StorageVolumeRecord>,
) -> (result: CentralResult<()>)
    ensures
        fault_of(result) == playground_fault(
            *record,
            *artifact_head,
            match artifact {
                Some(artifact) => Some(*artifact),
                None => None,
            },
            match volume {
                Some(volume) => Some(*volume),
                None => None,
            },
        ),
{
    let missing = "Playground Artifact does not exist";
    let artifact = match artifact {
        Some(artifact) => artifact,
        None => return Err(catalog_parent_error(CentralErrorCode::ArtifactNotFound, missing)),
    };
    if artifact.project_id != record.project_id {
        return Err(catalog_parent_error(CentralErrorCode::ArtifactNotFound, missing));
    }
    if record.base_commit_id != record.head_commit_id {
        return Err(
            catalog_parent_error(
                CentralErrorCode::ArtifactHeadMismatch,
                "Playground base Commit must match its initial head Commit",
            ),
        );
    }
    if let ArtifactHeadExpectation::Exact(expected) = artifact_head {
        if record.base_commit_id != *expected {
            return Err(
                final_failure(
                    CentralErrorCode::ProtocolInvalid,
                    "fenced Playground base Commit does not match the observed Artifact Head",
                ),
            );
        }
        if artifact.head_commit_id != *expected {
            return Err(artifact_head_changed());
        }
    }
    require_volume(
        volume,
        record.region.as_str(),
        "Playground StorageVolume does not exist",
        "Playground StorageVolume is not ready",
        "Playground region must match the StorageVolume region",
    )
}

/// Why a new Snapshot is refused. `artifact` is the Artifact of that identity, `volume` the Volume
/// that the Snapshot is placed on.
pub open spec fn snapshot_fault(
    record: SnapshotRecord,
    artifact_head: ArtifactHeadExpectation,
    artifact: Option<ArtifactRecord>,
    volume: Option<StorageVolumeRecord>,
) -> Option<Fault> {
    if !(artifact matches Some(artifact) && artifact.project_id@ == record.project_id@) {
        Some(
            final_fault(CentralErrorCode::ArtifactNotFound, "Snapshot Artifact does not exist"@),
        )
    } else if artifact_head matches ArtifactHeadExpectation::Exact(expected) && expected != Some(
        record.commit_id,
    ) {
        Some(
            final_fault(
                CentralErrorCode::ProtocolInvalid,
                "fenced Snapshot Commit does not match the observed Artifact Head"@,
            ),
        )
    } else if artifact_head matches ArtifactHeadExpectation::Exact(expected)
        && artifact->0.head_commit_id != expected {
        Some(head_changed())
    } else {
        volume_fault(
            volume,
            record.region@,
            "Snapshot StorageVolume does not exist"@,
            "Snapshot StorageVolume is not ready"@,
            "Snapshot region must match the StorageVolume region"@,
        )
    }
}

/// Checks what a new Snapshot depends on.
pub fn validate_snapshot_insert(
    record: &SnapshotRecord,
    artifact_head: &ArtifactHeadExpectation,
    artifact: Option<&ArtifactRecord>,
    volume: Option<&StorageVolumeRecord>,
) -> (result: CentralResult<()>)
    ensures
        fault_of(result) == snapshot_fault(
            *record,
            *artifact_head,
            match artifact {
                Some(artifact) => Some(*artifact),
                None => None,
            },
            match volume {
                Some(volume) => Some(*volume),
                None => None,
            },
        ),
{
    let missing = "Snapshot Artifact does not exist";
    let artifact = match artifact {
        Some(artifact) => artifact,
        None => return Err(catalog_parent_error(CentralErrorCode::ArtifactNotFound, missing)),
    };
    if artifact.project_id != record.project_id {
        return Err(catalog_parent_error(CentralErrorCode::ArtifactNotFound, missing));
    }
    if let ArtifactHeadExpectation::Exact(expected) = artifact_head {
        if *expected != Some(record.commit_id) {
            return Err(
                final_failure(
                    CentralErrorCode::ProtocolInvalid,
                    "fenced Snapshot Commit does not match the observed Artifact Head",
                ),
            );
        }
        if artifact.head_commit_id != *expected {
            return Err(artifact_head_changed());
        }
    }
    require_volume(
        volume,
        record.region.as_str(),
        "Snapshot StorageVolume does not exist",
        "Snapshot StorageVolume is not ready",
        "Snapshot region must match the StorageVolume region",
    )
}

/// The name of a Playground state, as operators read it.
pub open spec fn playground_state_text(state: PlaygroundState) -> Seq<char> {
    match state {
        PlaygroundState::Creating => "Creating"@,
        PlaygroundState::Ready => "Ready"@,
        PlaygroundState::Abnormal => "Abnormal"@,
    }
}

/// A state transition that starts from another state than expected.
pub open spec fn transition_fault(
    what: Seq<char>,
    found: Seq<char>,
    expected: Seq<char>,
) -> Fault {
    crate::error::fault(
        CentralErrorCode::ConcurrentUpdate,
        what + found + ", expected "@ + expected + " for state transition"@,
    )
}

pub(crate) fn transition_failure(what: &str, found: &str, expected: &str) -> (failure: CentralError)
    ensures
        failure@ == transition_fault(what@, found@, expected@),
{
    let mut message = String::from_str(what);
    message.append(found);
    message.append(", expected ");
    message.append(expected);
    message.append(" for state transition");
    CentralError::new(CentralErrorCode::ConcurrentUpdate, message)
}

pub(crate) fn playground_state_name_of(state: PlaygroundState) -> (text: &'static str)
    ensures
        text@ == playground_state_text(state),
{
    match state {
        PlaygroundState::Creating => "Creating",
        PlaygroundState::Ready => "Ready",
        PlaygroundState::Abnormal => "Abnormal",
    }
}

} // verus!
