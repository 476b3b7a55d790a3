//! What a durable authority store reads back: a payload is believed only where every column beside
//! it says the same, and a replacement is exactly one version ahead.
use vstd::prelude::*;

use crate::digest::{ContentDigest, ManifestId};
use crate::equality::Same;
use crate::error::{CentralErrorCode, CentralResult};
use crate::identifier::{
    ArtifactId, AssignmentId, MetadataBatchId, PreCommitId, ProjectId, ResourceVersion, TenantId,
};
use crate::laws::jobs::fails_with;
use crate::memory::objects::PlacementQuery;
use crate::memory::outbox::AssignmentReservation;
use crate::model::{JobKey, JobRecord};
use crate::ports::{AssignmentPublishOutcome, AssignmentReserveOutcome, AssignmentRetireOutcome};
use crate::precommit::{
    CommitRecord, PreCommitCommitOutcome, PreCommitCommitRequest, PreCommitCommitSnapshot,
    PreCommitKey, PreCommitRecord, PreCommitState,
};
use crate::protocol::{
    FileRecord, JobAssignment, MetadataBatchDescriptor, MetadataBatchPage, ObjectPlacementEvidence,
};
use crate::storage::authority_rows::{
    decode_commit_row, decode_descriptor_row, decode_index_record, decode_job_row, decode_page_row,
    decode_placement_row, decode_precommit_row, is_held_by_another, job_write_missed,
    precommit_state_name, resolve_existing_reservation, resolve_ignored_placement, resolve_publish,
    resolve_reactivate, resolve_retire, resolve_stored_mutation, validate_active_rows,
    validate_index_digest, validate_job_replace, validate_manifest_identity,
    validate_precommit_replace, IndexRecordColumns, JobColumns, MetadataDescriptorColumns,
    PreCommitColumns,
};
use crate::storage::codec::parse_canonical_u64;
use crate::storage::commits::{begin_commit, conclude_commit, CommitStep, StoredCommit};
use crate::storage::names::job_state_name;

verus! {

/// A stored job is believed exactly where it is the job that was asked for and its columns hold the
/// name of its state and its version.
pub proof fn lemma_job_row_is_believed(
    key: &JobKey,
    job: JobRecord,
    columns: &JobColumns,
    state: &'static str,
    version: &str,
    field: &str,
    number: CentralResult<u64>,
    result: CentralResult<JobRecord>,
)
    requires
        call_ensures(decode_job_row, (key, job, columns), result),
        call_ensures(job_state_name, (job.state,), state),
        call_ensures(parse_canonical_u64, (version, field), number),
        version@ == columns.resource_version@,
    ensures
        result is Ok <==> {
            &&& job.spec.tenant_id@ == key.tenant_id@
            &&& job.spec.job_id@ == key.job_id@
            &&& columns.state@ == state@
            &&& number == CentralResult::<u64>::Ok(job.resource_version)
        },
        result is Ok ==> result->Ok_0 == job,
        result is Err ==> fails_with(result, CentralErrorCode::StorageFailure),
{
}

/// The state of a Pre-commit is stored under the name of its variant, and no two share a name.
pub proof fn lemma_precommit_state_is_named(state: PreCommitState, name: &'static str)
    requires
        call_ensures(precommit_state_name, (state,), name),
    ensures
        name@ == "running"@ <==> state is Running,
        name@ == "ready"@ <==> state is Ready,
        name@ == "abnormal"@ <==> state is Abnormal,
        name@ == "cancelled"@ <==> state is Cancelled,
        name@ == "committed"@ <==> state is Committed,
{
    reveal_strlit("running");
    reveal_strlit("ready");
    reveal_strlit("abnormal");
    reveal_strlit("cancelled");
    reveal_strlit("committed");
    assert("running"@.len() == 7);
    assert("ready"@.len() == 5);
    assert("abnormal"@.len() == 8);
    assert("cancelled"@.len() == 9);
    assert("committed"@.len() == 9);
    assert("cancelled"@[1] != "committed"@[1]);
}

/// A stored Pre-commit is believed exactly where its own rules are met, it is the one that was asked
/// for, and every column holds what its payload says.
pub proof fn lemma_precommit_row_is_believed(
    key: &PreCommitKey,
    record: PreCommitRecord,
    validity: CentralResult<()>,
    columns: &PreCommitColumns,
    state: &'static str,
    version: &str,
    field: &str,
    number: CentralResult<u64>,
    result: CentralResult<PreCommitRecord>,
)
    requires
        call_ensures(decode_precommit_row, (key, record, validity, columns), result),
        call_ensures(precommit_state_name, (record.state,), state),
        call_ensures(parse_canonical_u64, (version, field), number),
        version@ == columns.resource_version@,
    ensures
        result is Ok <==> {
            &&& validity is Ok
            &&& record.tenant_id@ == key.tenant_id@
            &&& record.precommit_id@ == key.precommit_id@
            &&& columns.project_id@ == record.project_id@
            &&& columns.artifact_id@ == record.artifact_id@
            &&& columns.playground_id@ == record.playground_id@
            &&& columns.precommit_request_id@ == record.precommit_request_id@
            &&& columns.current_job_id@ == record.job_id@
            &&& columns.state@ == state@
            &&& columns.attempt == record.attempt
            &&& number == CentralResult::<u64>::Ok(record.resource_version)
        },
        result is Ok ==> result->Ok_0 == record,
        result is Err && validity is Ok ==> fails_with(result, CentralErrorCode::StorageFailure),
        result is Err && validity is Err ==> result->Err_0@ == validity->Err_0@,
{
}

/// A job or a Pre-commit replaces another version of itself exactly where it is one version ahead; at
/// the last version, where the count stays.
pub proof fn lemma_replacement_is_one_ahead(
    expected: u64,
    job: &JobRecord,
    record: &PreCommitRecord,
    validity: CentralResult<()>,
    replaced: CentralResult<()>,
    renewed: CentralResult<()>,
)
    requires
        call_ensures(validate_job_replace, (expected, job), replaced),
        call_ensures(validate_precommit_replace, (expected, record, validity), renewed),
        expected < u64::MAX,
    ensures
        replaced is Ok <==> job.resource_version == expected + 1,
        replaced is Err ==> fails_with(replaced, CentralErrorCode::ConcurrentUpdate),
        renewed is Ok <==> validity is Ok && record.resource_version == expected + 1,
        renewed is Err && validity is Ok ==> fails_with(
            renewed,
            CentralErrorCode::ConcurrentUpdate,
        ),
{
}

/// A write of a job that changed nothing missed its version where the job is there, and else the job.
pub proof fn lemma_missed_job_write(exists: bool, problem: crate::error::CentralError)
    requires
        call_ensures(job_write_missed, (exists,), problem),
    ensures
        exists <==> problem@.code is ConcurrentUpdate,
        !exists <==> problem@.code is JobNotFound,
{
}

/// A stored mutation answers a request exactly where it is of the same kind and asked for the same.
pub proof fn lemma_mutation_is_replayed(
    stored_kind: &str,
    kind: &str,
    same_request: bool,
    result: CentralResult<()>,
)
    requires
        call_ensures(resolve_stored_mutation, (stored_kind, kind, same_request), result),
    ensures
        result is Ok <==> same_request && stored_kind@ == kind@,
        result is Err ==> fails_with(result, CentralErrorCode::ConcurrentUpdate),
{
}

/// A Playground is held by another Pre-commit exactly where some Pre-commit holds it and that is not
/// the one that asks; two holders at once are corrupt.
pub proof fn lemma_playground_holder(
    holder: Option<&str>,
    except: Option<&PreCommitId>,
    rows: usize,
    held: bool,
    result: CentralResult<()>,
)
    requires
        call_ensures(is_held_by_another, (holder, except), held),
        call_ensures(validate_active_rows, (rows,), result),
    ensures
        held <==> holder is Some && (except is Some ==> holder->0@ != except->0@),
        result is Ok <==> rows == 0 || rows == 1,
        result is Err ==> fails_with(result, CentralErrorCode::StorageFailure),
{
}

/// A stored Commit is believed exactly where its own rules are met and it is the one asked for.
pub proof fn lemma_commit_row_is_believed(
    record: CommitRecord,
    validity: CentralResult<()>,
    tenant_id: &TenantId,
    project_id: &ProjectId,
    artifact_id: &ArtifactId,
    commit_id: ContentDigest,
    result: CentralResult<CommitRecord>,
)
    requires
        call_ensures(
            decode_commit_row,
            (record, validity, tenant_id, project_id, artifact_id, commit_id),
            result,
        ),
    ensures
        result is Ok <==> {
            &&& validity is Ok
            &&& record.tenant_id@ == tenant_id@
            &&& record.project_id@ == project_id@
            &&& record.artifact_id@ == artifact_id@
            &&& record.commit_id == commit_id
        },
        result is Ok ==> result->Ok_0 == record,
        result is Err && validity is Ok ==> fails_with(result, CentralErrorCode::StorageFailure),
{
}

/// A reserved assignment is made visible once: only under its own payload, and not again while it is
/// visible; one that was retired can be made visible again, but only by a reactivation.
pub proof fn lemma_reservation_is_published(
    stored: Option<&AssignmentReservation>,
    assignment: &JobAssignment,
    published: CentralResult<AssignmentPublishOutcome>,
    reactivated: CentralResult<AssignmentPublishOutcome>,
)
    requires
        call_ensures(resolve_publish, (stored, assignment), published),
        call_ensures(resolve_reactivate, (stored, assignment), reactivated),
    ensures
        stored is None ==> {
            &&& fails_with(published, CentralErrorCode::Internal)
            &&& fails_with(reactivated, CentralErrorCode::Internal)
        },
        stored matches Some(reservation) ==> if reservation.assignment.same(*assignment) {
            &&& published is Ok && reactivated is Ok
            &&& published->Ok_0 is AlreadyPublished <==> reservation.published
            &&& reservation.published && !reservation.retired
                <==> reactivated->Ok_0 is AlreadyPublished
        } else {
            &&& fails_with(published, CentralErrorCode::JobIdReused)
            &&& fails_with(reactivated, CentralErrorCode::JobIdReused)
        },
{
}

/// An identity that is reserved answers only the assignment that it was reserved for; a visible
/// assignment is retired once.
pub proof fn lemma_reservation_is_kept(
    existing: &JobAssignment,
    assignment: &JobAssignment,
    stored: Option<&AssignmentReservation>,
    assignment_id: &AssignmentId,
    reserved: CentralResult<AssignmentReserveOutcome>,
    retired: CentralResult<AssignmentRetireOutcome>,
)
    requires
        call_ensures(resolve_existing_reservation, (existing, assignment), reserved),
        call_ensures(resolve_retire, (stored, assignment_id), retired),
    ensures
        existing.same(*assignment) <==> reserved is Ok,
        reserved is Ok ==> reserved->Ok_0 is Existing,
        reserved is Err ==> fails_with(reserved, CentralErrorCode::JobIdReused),
        stored is None ==> fails_with(retired, CentralErrorCode::Internal),
        stored matches Some(reservation) ==> {
            &&& reservation.published <==> retired is Ok
            &&& !reservation.published ==> fails_with(retired, CentralErrorCode::InvalidState)
            &&& reservation.published ==> (retired->Ok_0 is AlreadyRetired <==> reservation.retired)
        },
{
}

/// A stored metadata descriptor is believed exactly where it is the one asked for and each column
/// holds what its scope says.
pub proof fn lemma_descriptor_row_is_believed(
    descriptor: MetadataBatchDescriptor,
    tenant_id: &TenantId,
    batch_id: &MetadataBatchId,
    columns: &MetadataDescriptorColumns,
    result: CentralResult<MetadataBatchDescriptor>,
)
    requires
        call_ensures(decode_descriptor_row, (descriptor, tenant_id, batch_id, columns), result),
    ensures
        result is Ok <==> {
            &&& descriptor.scope.tenant_id@ == tenant_id@
            &&& descriptor.batch_id@ == batch_id@
            &&& descriptor.scope.job_id@ == columns.job_id@
            &&& descriptor.scope.artifact_id@ == columns.artifact_id@
            &&& descriptor.scope.playground_id@ == columns.playground_id@
        },
        result is Ok ==> result->Ok_0 == descriptor,
        result is Err ==> fails_with(result, CentralErrorCode::StorageFailure),
{
}

/// A stored metadata page is believed exactly where it is the page of its batch that its number says
/// and its descriptor admits it.
pub proof fn lemma_page_row_is_believed(
    page: MetadataBatchPage,
    batch_id: &MetadataBatchId,
    stored_number: i64,
    validity: CentralResult<()>,
    result: CentralResult<MetadataBatchPage>,
)
    requires
        call_ensures(decode_page_row, (page, batch_id, stored_number, validity), result),
    ensures
        result is Ok <==> {
            &&& page.batch_id@ == batch_id@
            &&& page.page_number == stored_number
            &&& validity is Ok
        },
        result is Ok ==> result->Ok_0 == page,
        result is Err && validity is Ok ==> fails_with(result, CentralErrorCode::StorageFailure),
{
}

/// Stored evidence is believed exactly where it proves what was asked.
pub proof fn lemma_placement_row_is_believed(
    evidence: ObjectPlacementEvidence,
    query: &PlacementQuery,
    result: CentralResult<ObjectPlacementEvidence>,
)
    requires
        call_ensures(decode_placement_row, (evidence, query), result),
    ensures
        result is Ok <==> {
            &&& evidence.receipt.tenant_id@ == query.tenant_id@
            &&& evidence.receipt.artifact_id@ == query.artifact_id@
            &&& evidence.receipt.storage_volume_id@ == query.storage_volume_id@
            &&& evidence.receipt.artifact_placement_id@ == query.artifact_placement_id@
            &&& evidence.placement_generation == query.placement_generation
            &&& evidence.receipt.object_id == query.object_id
        },
        result is Ok ==> result->Ok_0 == evidence,
        result is Err ==> fails_with(result, CentralErrorCode::StorageFailure),
{
}

/// Evidence that was not inserted is no failure exactly where the same evidence is stored already.
pub proof fn lemma_ignored_placement(
    evidence: &ObjectPlacementEvidence,
    same_receipt: Option<&ObjectPlacementEvidence>,
    conflicting: bool,
    object_text: &str,
    result: CentralResult<()>,
)
    requires
        call_ensures(
            resolve_ignored_placement,
            (evidence, same_receipt, conflicting, object_text),
            result,
        ),
    ensures
        result is Ok <==> same_receipt is Some && (*same_receipt->0).same(*evidence),
        same_receipt is Some && result is Err ==> fails_with(
            result,
            CentralErrorCode::MetadataInvalid,
        ),
        same_receipt is None && conflicting ==> fails_with(
            result,
            CentralErrorCode::MetadataInvalid,
        ),
        same_receipt is None && !conflicting ==> fails_with(
            result,
            CentralErrorCode::StorageFailure,
        ),
{
}

/// An Index record is read exactly where each of its columns is, and holds what they hold.
pub proof fn lemma_index_record_is_read(
    columns: &IndexRecordColumns,
    size_text: &str,
    count_text: &str,
    field: &str,
    size: CentralResult<u64>,
    count: CentralResult<u64>,
    result: CentralResult<FileRecord>,
)
    requires
        call_ensures(decode_index_record, (columns,), result),
        call_ensures(parse_canonical_u64, (size_text, field), size),
        call_ensures(parse_canonical_u64, (count_text, field), count),
        size_text@ == columns.total_size@,
        count_text@ == columns.chunk_count@,
    ensures
        result is Ok <==> {
            &&& columns.path is Ok
            &&& columns.manifest_id@.len() == 32
            &&& size is Ok
            &&& count is Ok
        },
        result matches Ok(record) ==> {
            &&& record.path@ == columns.path->Ok_0@
            &&& record.manifest_id@ == columns.manifest_id@
            &&& record.total_size == size->Ok_0
            &&& record.chunk_count == count->Ok_0
        },
        result is Err ==> fails_with(result, CentralErrorCode::StorageFailure),
{
}

/// A stored Index or Manifest is believed exactly where its content gives the digest it is stored
/// under.
pub proof fn lemma_content_gives_its_digest(
    stored: ContentDigest,
    computed: &Result<ContentDigest, String>,
    manifest_id: ManifestId,
    identity: &Result<ManifestId, String>,
    index: CentralResult<()>,
    manifest: CentralResult<()>,
)
    requires
        call_ensures(validate_index_digest, (stored, computed), index),
        call_ensures(validate_manifest_identity, (manifest_id, identity), manifest),
    ensures
        index is Ok <==> *computed == Result::<ContentDigest, String>::Ok(stored),
        index is Err ==> fails_with(index, CentralErrorCode::StorageFailure),
        manifest is Ok <==> *identity == Result::<ManifestId, String>::Ok(manifest_id),
        manifest is Err ==> fails_with(manifest, CentralErrorCode::StorageFailure),
{
}

/// A commit that was made before is answered with what came of it, exactly where the same was asked;
/// one that names no Pre-commit is refused.
pub proof fn lemma_commit_is_recognised<
    F: Fn(PreCommitRecord) -> CentralResult<PreCommitCommitSnapshot>,
>(
    earlier: Option<StoredCommit>,
    stored: Option<PreCommitRecord>,
    request: &PreCommitCommitRequest,
    apply: F,
    result: CentralResult<CommitStep>,
)
    requires
        call_ensures(begin_commit::<F>, (earlier, stored, request, apply), result),
    ensures
        earlier matches Some(made) ==> if made.kind@ == "commit"@ && made.request.same(*request) {
            result == CentralResult::<CommitStep>::Ok(CommitStep::Replay(made.result))
        } else {
            fails_with(result, CentralErrorCode::ConcurrentUpdate)
        },
        earlier is None && stored is None ==> fails_with(result, CentralErrorCode::JobNotFound),
        result is Ok && result->Ok_0 is Replay ==> earlier is Some,
{
}

/// What a commit would write is what the request makes of the stored Pre-commit, in place of the
/// version that was read.
pub proof fn lemma_commit_applies_the_request<
    F: Fn(PreCommitRecord) -> CentralResult<PreCommitCommitSnapshot>,
>(
    record: PreCommitRecord,
    request: &PreCommitCommitRequest,
    apply: F,
    snapshot: PreCommitCommitSnapshot,
    previous: ResourceVersion,
    result: CentralResult<CommitStep>,
)
    requires
        call_ensures(begin_commit::<F>, (None::<StoredCommit>, Some(record), request, apply), result),
        result == CentralResult::<CommitStep>::Ok(CommitStep::Candidate { previous, snapshot }),
    ensures
        previous == record.resource_version,
        call_ensures(apply, (record,), Ok::<PreCommitCommitSnapshot, crate::error::CentralError>(snapshot)),
{
}

/// A commit is written exactly where no Commit has its name, the consumed Pre-commit obeys its rules
/// and is one version ahead, and it is answered with what was written.
pub proof fn lemma_commit_is_written(
    previous: ResourceVersion,
    snapshot: PreCommitCommitSnapshot,
    taken: bool,
    validity: CentralResult<()>,
    result: CentralResult<PreCommitCommitOutcome>,
)
    requires
        call_ensures(conclude_commit, (previous, snapshot, taken, validity), result),
        previous < u64::MAX,
    ensures
        result is Ok <==> {
            &&& !taken
            &&& validity is Ok
            &&& snapshot.consumed_precommit.resource_version == previous + 1
        },
        result matches Ok(outcome) ==> {
            &&& outcome.commit == snapshot.commit
            &&& outcome.consumed_precommit == snapshot.consumed_precommit
            &&& !outcome.replayed
        },
        taken ==> fails_with(result, CentralErrorCode::ConcurrentUpdate),
        !taken && validity is Ok && result is Err ==> fails_with(
            result,
            CentralErrorCode::ConcurrentUpdate,
        ),
{
}

} // verus!
