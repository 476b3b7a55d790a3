//! Authority records as rows: what a stored payload is held against, and what a write that changed
//! no row means.
use vstd::prelude::*;

use crate::digest::{ContentDigest, ManifestId};
use crate::equality::Same;
use crate::error::{
    corruption, corruption_fault, failure, fault, fault_of, CentralError, CentralErrorCode,
    CentralResult, Fault,
};
use crate::identifier::{
    ArtifactId, AssignmentId, LogicalPath, MetadataBatchId, PreCommitId, ProjectId,
    ResourceVersion, TenantId,
};
use crate::memory::objects::{answers, evidence_answers, PlacementQuery};
use crate::memory::outbox::AssignmentReservation;
use crate::model::{JobKey, JobRecord};
use crate::ports::{AssignmentPublishOutcome, AssignmentReserveOutcome, AssignmentRetireOutcome};
use crate::precommit::{
    precommit_request_conflict, request_conflict_fault, CommitRecord, PreCommitKey,
    PreCommitRecord, PreCommitState,
};
use crate::protocol::{
    FileRecord, JobAssignment, MetadataBatchDescriptor, MetadataBatchPage, ObjectPlacementEvidence,
};
use crate::storage::codec::{
    blob_fault, lemma_decimal_reads_back, manifest_id_from_blob, numeral_fault, numeral_value,
    parse_canonical_u64,
};
use crate::storage::names::{job_state_name, job_state_text};
use crate::table::Named;
use crate::text::{decimal, text_equals};

verus! {

/// The columns of a job beside its payload.
pub struct JobColumns {
    pub state: String,
    pub resource_version: String,
}

/// Why a stored job is refused.
pub open spec fn job_row_fault(key: JobKey, job: JobRecord, columns: JobColumns) -> Option<Fault> {
    let numeral = numeral_fault(
        columns.resource_version@,
        "Job ResourceVersion"@,
        " is outside the u64 range"@,
    );
    if numeral is Some {
        numeral
    } else if job.key_name() != key.name() || columns.state@ != job_state_text(job.state)
        || numeral_value(columns.resource_version@) != job.resource_version {
        Some(corruption_fault("Job relational identity differs from its payload"@))
    } else {
        None
    }
}

/// Holds the payload of a stored job against its columns.
pub fn decode_job_row(key: &JobKey, job: JobRecord, columns: &JobColumns) -> (result: CentralResult<
    JobRecord,
>)
    ensures
        fault_of(result) == job_row_fault(*key, job, *columns),
        result matches Ok(read) ==> read == job,
{
    let resource_version: u64 = parse_canonical_u64(
        columns.resource_version.as_str(),
        "Job ResourceVersion",
    )?;
    if job.spec.tenant_id != key.tenant_id || job.spec.job_id != key.job_id || !text_equals(
        columns.state.as_str(),
        job_state_name(job.state),
    ) || resource_version != job.resource_version {
        return Err(corruption("Job relational identity differs from its payload"));
    }
    Ok(job)
}

/// A job is accepted when it is read back with the columns that were written for it.
pub proof fn lemma_written_job_is_accepted(key: JobKey, job: JobRecord, columns: JobColumns)
    requires
        job.key_name() == key.name(),
        columns.state@ == job_state_text(job.state),
        columns.resource_version@ == decimal(job.resource_version as nat),
    ensures
        job_row_fault(key, job, columns) is None,
{
    lemma_decimal_reads_back(job.resource_version as nat);
}

/// A replacement is one version ahead of what it replaces; the last version has no successor.
pub open spec fn advances_by_one(expected: u64, version: ResourceVersion) -> bool {
    version == if expected == u64::MAX {
        expected as int
    } else {
        expected + 1
    }
}

/// Checks that a job is one version ahead of the one that it replaces.
pub fn validate_job_replace(expected: u64, job: &JobRecord) -> (result: CentralResult<()>)
    ensures
        fault_of(result) == (if advances_by_one(expected, job.resource_version) {
            None
        } else {
            Some(
                fault(
                    CentralErrorCode::ConcurrentUpdate,
                    "replacement Job does not advance ResourceVersion by one"@,
                ),
            )
        }),
{
    if job.resource_version != expected.saturating_add(1) {
        return Err(
            failure(
                CentralErrorCode::ConcurrentUpdate,
                "replacement Job does not advance ResourceVersion by one",
            ),
        );
    }
    Ok(())
}

/// What a write of a job that changed no row means.
pub fn job_write_missed(exists: bool) -> (problem: CentralError)
    ensures
        problem@ == fault(
            if exists {
                CentralErrorCode::ConcurrentUpdate
            } else {
                CentralErrorCode::JobNotFound
            },
            "Job ResourceVersion changed during authority CAS"@,
        ),
{
    failure(
        if exists {
            CentralErrorCode::ConcurrentUpdate
        } else {
            CentralErrorCode::JobNotFound
        },
        "Job ResourceVersion changed during authority CAS",
    )
}

/// The name of a Pre-commit state, as it is stored.
pub open spec fn precommit_state_text(state: PreCommitState) -> Seq<char> {
    match state {
        PreCommitState::Running => "running"@,
        PreCommitState::Ready => "ready"@,
        PreCommitState::Abnormal => "abnormal"@,
        PreCommitState::Cancelled => "cancelled"@,
        PreCommitState::Committed => "committed"@,
    }
}

pub fn precommit_state_name(state: PreCommitState) -> (name: &'static str)
    ensures
        name@ == precommit_state_text(state),
{
    match state {
        PreCommitState::Running => "running",
        PreCommitState::Ready => "ready",
        PreCommitState::Abnormal => "abnormal",
        PreCommitState::Cancelled => "cancelled",
        PreCommitState::Committed => "committed",
    }
}

/// The columns of a Pre-commit beside its payload.
pub struct PreCommitColumns {
    pub project_id: String,
    pub artifact_id: String,
    pub playground_id: String,
    pub precommit_request_id: String,
    pub current_job_id: String,
    pub state: String,
    pub attempt: i64,
    pub resource_version: String,
}

/// The columns are those of the Pre-commit.
pub open spec fn is_precommit_row(columns: PreCommitColumns, record: PreCommitRecord) -> bool {
    &&& columns.project_id@ == record.project_id@
    &&& columns.artifact_id@ == record.artifact_id@
    &&& columns.playground_id@ == record.playground_id@
    &&& columns.precommit_request_id@ == record.precommit_request_id@
    &&& columns.current_job_id@ == record.job_id@
    &&& columns.state@ == precommit_state_text(record.state)
    &&& columns.attempt == record.attempt
    &&& columns.resource_version@ == decimal(record.resource_version as nat)
}

/// Why a stored Pre-commit is refused. `validity` is what its own rules say.
pub open spec fn precommit_row_fault(
    key: PreCommitKey,
    record: PreCommitRecord,
    validity: CentralResult<()>,
    columns: PreCommitColumns,
) -> Option<Fault> {
    let numeral = numeral_fault(
        columns.resource_version@,
        "Pre-commit ResourceVersion"@,
        " is outside the u64 range"@,
    );
    if validity is Err {
        fault_of(validity)
    } else if numeral is Some {
        numeral
    } else if record.key_name() != key.name() || columns.project_id@ != record.project_id@
        || columns.artifact_id@ != record.artifact_id@ || columns.playground_id@
        != record.playground_id@ || columns.precommit_request_id@ != record.precommit_request_id@
        || columns.current_job_id@ != record.job_id@ || columns.state@ != precommit_state_text(
        record.state,
    ) || columns.attempt != record.attempt || numeral_value(columns.resource_version@)
        != record.resource_version {
        Some(corruption_fault("Pre-commit relational identity differs from its payload"@))
    } else {
        None
    }
}

/// Holds the payload of a stored Pre-commit against its rules and its columns.
pub fn decode_precommit_row(
    key: &PreCommitKey,
    record: PreCommitRecord,
    validity: CentralResult<()>,
    columns: &PreCommitColumns,
) -> (result: CentralResult<PreCommitRecord>)
    ensures
        fault_of(result) == precommit_row_fault(*key, record, validity, *columns),
        result matches Ok(read) ==> read == record,
{
    validity?;
    let resource_version: u64 = parse_canonical_u64(
        columns.resource_version.as_str(),
        "Pre-commit ResourceVersion",
    )?;
    if record.tenant_id != key.tenant_id || record.precommit_id != key.precommit_id || !text_equals(
        columns.project_id.as_str(),
        record.project_id.as_str(),
    ) || !text_equals(columns.artifact_id.as_str(), record.artifact_id.as_str()) || !text_equals(
        columns.playground_id.as_str(),
        record.playground_id.as_str(),
    ) || !text_equals(
        columns.precommit_request_id.as_str(),
        record.precommit_request_id.as_str(),
    ) || !text_equals(columns.current_job_id.as_str(), record.job_id.as_str()) || !text_equals(
        columns.state.as_str(),
        precommit_state_name(record.state),
    ) || columns.attempt != record.attempt as i64 || resource_version != record.resource_version {
        return Err(corruption("Pre-commit relational identity differs from its payload"));
    }
    Ok(record)
}

/// A Pre-commit that obeys its rules is accepted when it is read back with the columns that were
/// written for it.
pub proof fn lemma_written_precommit_is_accepted(
    key: PreCommitKey,
    record: PreCommitRecord,
    columns: PreCommitColumns,
)
    requires
        record.key_name() == key.name(),
        is_precommit_row(columns, record),
    ensures
        precommit_row_fault(key, record, Ok(()), columns) is None,
{
    lemma_decimal_reads_back(record.resource_version as nat);
}

/// Why a Pre-commit does not replace another version of itself.
pub open spec fn precommit_replace_fault(
    expected: u64,
    record: PreCommitRecord,
    validity: CentralResult<()>,
) -> Option<Fault> {
    if validity is Err {
        fault_of(validity)
    } else if advances_by_one(expected, record.resource_version) {
        None
    } else {
        Some(
            fault(
                CentralErrorCode::ConcurrentUpdate,
                "replacement Pre-commit does not advance ResourceVersion by one"@,
            ),
        )
    }
}

/// Checks a Pre-commit that replaces another version of itself. `validity` is what its own rules
/// say.
pub fn validate_precommit_replace(
    expected: u64,
    record: &PreCommitRecord,
    validity: CentralResult<()>,
) -> (result: CentralResult<()>)
    ensures
        fault_of(result) == precommit_replace_fault(expected, *record, validity),
{
    validity?;
    if record.resource_version != expected.saturating_add(1) {
        return Err(
            failure(
                CentralErrorCode::ConcurrentUpdate,
                "replacement Pre-commit does not advance ResourceVersion by one",
            ),
        );
    }
    Ok(())
}

/// What a write of a Pre-commit that changed no row means.
pub fn precommit_write_missed() -> (problem: CentralError)
    ensures
        problem@ == fault(
            CentralErrorCode::ConcurrentUpdate,
            "Pre-commit ResourceVersion changed during authority CAS"@,
        ),
{
    failure(
        CentralErrorCode::ConcurrentUpdate,
        "Pre-commit ResourceVersion changed during authority CAS",
    )
}

/// Accepts the replay of a stored mutation: one of the same kind that asks for the same.
pub fn resolve_stored_mutation(stored_kind: &str, kind: &str, same_request: bool) -> (result:
    CentralResult<()>)
    ensures
        fault_of(result) == (if stored_kind@ == kind@ && same_request {
            None
        } else {
            Some(request_conflict_fault())
        }),
{
    if text_equals(stored_kind, kind) && same_request {
        Ok(())
    } else {
        Err(precommit_request_conflict())
    }
}

/// Tells whether a Pre-commit that holds something is in the way of another one.
pub fn is_held_by_another(holder: Option<&str>, except: Option<&PreCommitId>) -> (held: bool)
    ensures
        held == (match (holder, except) {
            (None, _) => false,
            (Some(_), None) => true,
            (Some(holder), Some(own)) => holder@ != own@,
        }),
{
    match (holder, except) {
        (None, _) => false,
        (Some(_), None) => true,
        (Some(holder), Some(own)) => !text_equals(holder, own.as_str()),
    }
}

/// Refuses a Playground that two active Pre-commits hold.
pub fn validate_active_rows(rows: usize) -> (result: CentralResult<()>)
    ensures
        fault_of(result) == (if rows > 1 {
            Some(corruption_fault("more than one active Pre-commit exists for a Playground"@))
        } else {
            None
        }),
{
    if rows > 1 {
        return Err(corruption("more than one active Pre-commit exists for a Playground"));
    }
    Ok(())
}

/// Why a stored Commit is refused. `validity` is what its own rules say.
pub open spec fn commit_row_fault(
    record: CommitRecord,
    validity: CentralResult<()>,
    tenant_id: Seq<char>,
    project_id: Seq<char>,
    artifact_id: Seq<char>,
    commit_id: ContentDigest,
) -> Option<Fault> {
    if validity is Err {
        fault_of(validity)
    } else if record.tenant_id@ != tenant_id || record.project_id@ != project_id
        || record.artifact_id@ != artifact_id || record.commit_id != commit_id {
        Some(corruption_fault("Commit relational identity differs from its payload"@))
    } else {
        None
    }
}

/// Holds the payload of a stored Commit against its rules and the identity that it was found by.
pub fn decode_commit_row(
    record: CommitRecord,
    validity: CentralResult<()>,
    tenant_id: &TenantId,
    project_id: &ProjectId,
    artifact_id: &ArtifactId,
    commit_id: ContentDigest,
) -> (result: CentralResult<CommitRecord>)
    ensures
        fault_of(result) == commit_row_fault(
            record,
            validity,
            tenant_id@,
            project_id@,
            artifact_id@,
            commit_id,
        ),
        result matches Ok(read) ==> read == record,
{
    validity?;
    if record.tenant_id != *tenant_id || record.project_id != *project_id || record.artifact_id
        != *artifact_id || record.commit_id != commit_id {
        return Err(corruption("Commit relational identity differs from its payload"));
    }
    Ok(record)
}

/// An assignment identity that stands for another payload.
pub open spec fn reused_assignment_fault() -> Fault {
    fault(CentralErrorCode::JobIdReused, "AssignmentId was reused with another payload"@)
}

fn reused_assignment() -> (problem: CentralError)
    ensures
        problem@ == reused_assignment_fault(),
{
    failure(CentralErrorCode::JobIdReused, "AssignmentId was reused with another payload")
}

/// Answers a reservation whose identity is taken.
pub fn resolve_existing_reservation(existing: &JobAssignment, assignment: &JobAssignment) -> (result:
    CentralResult<AssignmentReserveOutcome>)
    ensures
        fault_of(result) == (if existing.same(*assignment) {
            None
        } else {
            Some(reused_assignment_fault())
        }),
        result matches Ok(outcome) ==> outcome is Existing,
{
    if *existing == *assignment {
        Ok(AssignmentReserveOutcome::Existing)
    } else {
        Err(reused_assignment())
    }
}

/// Why a stored reservation does not let its assignment be made visible.
pub open spec fn visibility_fault(
    stored: Option<AssignmentReservation>,
    assignment: JobAssignment,
    unreserved: Seq<char>,
) -> Option<Fault> {
    match stored {
        None => Some(fault(CentralErrorCode::Internal, unreserved)),
        Some(reservation) => if reservation.assignment.same(assignment) {
            None
        } else {
            Some(reused_assignment_fault())
        },
    }
}

/// Decides whether a reserved assignment is still to be made visible.
pub fn resolve_publish(
    stored: Option<&AssignmentReservation>,
    assignment: &JobAssignment,
) -> (result: CentralResult<AssignmentPublishOutcome>)
    ensures
        fault_of(result) == visibility_fault(
            match stored {
                Some(reservation) => Some(*reservation),
                None => None,
            },
            *assignment,
            "Assignment must be reserved first"@,
        ),
        result matches Ok(outcome) ==> stored matches Some(reservation) && (
        outcome is AlreadyPublished <==> reservation.published),
{
    let reservation = match stored {
        Some(reservation) => reservation,
        None => return Err(
            failure(CentralErrorCode::Internal, "Assignment must be reserved first"),
        ),
    };
    if reservation.assignment != *assignment {
        return Err(reused_assignment());
    }
    if reservation.published {
        Ok(AssignmentPublishOutcome::AlreadyPublished)
    } else {
        Ok(AssignmentPublishOutcome::Published)
    }
}

/// Decides whether a retired assignment is to be made visible again.
pub fn resolve_reactivate(
    stored: Option<&AssignmentReservation>,
    assignment: &JobAssignment,
) -> (result: CentralResult<AssignmentPublishOutcome>)
    ensures
        fault_of(result) == visibility_fault(
            match stored {
                Some(reservation) => Some(*reservation),
                None => None,
            },
            *assignment,
            "Assignment must be reserved before reactivation"@,
        ),
        result matches Ok(outcome) ==> stored matches Some(reservation) && (
        outcome is AlreadyPublished <==> reservation.published && !reservation.retired),
{
    let reservation = match stored {
        Some(reservation) => reservation,
        None => return Err(
            failure(CentralErrorCode::Internal, "Assignment must be reserved before reactivation"),
        ),
    };
    if reservation.assignment != *assignment {
        return Err(reused_assignment());
    }
    if reservation.published && !reservation.retired {
        Ok(AssignmentPublishOutcome::AlreadyPublished)
    } else {
        Ok(AssignmentPublishOutcome::Published)
    }
}

/// Why a stored reservation cannot be retired.
pub open spec fn retirement_fault(
    stored: Option<AssignmentReservation>,
    assignment_id: Seq<char>,
) -> Option<Fault> {
    match stored {
        None => Some(
            fault(
                CentralErrorCode::Internal,
                "assignment "@ + assignment_id + " is not reserved"@,
            ),
        ),
        Some(reservation) => if !reservation.published {
            Some(
                fault(
                    CentralErrorCode::InvalidState,
                    "assignment "@ + assignment_id + " is not published"@,
                ),
            )
        } else {
            None
        },
    }
}

/// Decides whether an assignment is still to be retired.
pub fn resolve_retire(stored: Option<&AssignmentReservation>, assignment_id: &AssignmentId) -> (result:
    CentralResult<AssignmentRetireOutcome>)
    ensures
        fault_of(result) == retirement_fault(
            match stored {
                Some(reservation) => Some(*reservation),
                None => None,
            },
            assignment_id@,
        ),
        result matches Ok(outcome) ==> stored matches Some(reservation) && (
        outcome is AlreadyRetired <==> reservation.retired),
{
    let mut message = String::from_str("assignment ");
    message.append(assignment_id.as_str());
    let reservation = match stored {
        Some(reservation) => reservation,
        None => {
            message.append(" is not reserved");
            return Err(CentralError::new(CentralErrorCode::Internal, message));
        },
    };
    if !reservation.published {
        message.append(" is not published");
        return Err(CentralError::new(CentralErrorCode::InvalidState, message));
    }
    if reservation.retired {
        Ok(AssignmentRetireOutcome::AlreadyRetired)
    } else {
        Ok(AssignmentRetireOutcome::Retired)
    }
}

/// The columns of a metadata batch beside its payload.
pub struct MetadataDescriptorColumns {
    pub job_id: String,
    pub artifact_id: String,
    pub playground_id: String,
}

/// Why a stored metadata descriptor is refused.
pub open spec fn descriptor_row_fault(
    descriptor: MetadataBatchDescriptor,
    tenant_id: Seq<char>,
    batch_id: Seq<char>,
    columns: MetadataDescriptorColumns,
) -> Option<Fault> {
    if descriptor.scope.tenant_id@ != tenant_id || descriptor.batch_id@ != batch_id
        || columns.job_id@ != descriptor.scope.job_id@ || columns.artifact_id@
        != descriptor.scope.artifact_id@ || columns.playground_id@
        != descriptor.scope.playground_id@ {
        Some(corruption_fault("metadata descriptor relational identity differs from payload"@))
    } else {
        None
    }
}

/// Holds the payload of a stored metadata descriptor against its columns.
pub fn decode_descriptor_row(
    descriptor: MetadataBatchDescriptor,
    tenant_id: &TenantId,
    batch_id: &MetadataBatchId,
    columns: &MetadataDescriptorColumns,
) -> (result: CentralResult<MetadataBatchDescriptor>)
    ensures
        fault_of(result) == descriptor_row_fault(descriptor, tenant_id@, batch_id@, *columns),
        result matches Ok(read) ==> read == descriptor,
{
    if descriptor.scope.tenant_id != *tenant_id || descriptor.batch_id != *batch_id || !text_equals(
        columns.job_id.as_str(),
        descriptor.scope.job_id.as_str(),
    ) || !text_equals(columns.artifact_id.as_str(), descriptor.scope.artifact_id.as_str())
        || !text_equals(columns.playground_id.as_str(), descriptor.scope.playground_id.as_str()) {
        return Err(corruption("metadata descriptor relational identity differs from payload"));
    }
    Ok(descriptor)
}

/// Why a stored metadata page is refused. `validity` is what its descriptor says of it.
pub open spec fn page_row_fault(
    page: MetadataBatchPage,
    batch_id: Seq<char>,
    stored_number: i64,
    validity: CentralResult<()>,
) -> Option<Fault> {
    if !(0 <= stored_number <= u32::MAX) {
        Some(corruption_fault("metadata page number is outside u32"@))
    } else if page.batch_id@ != batch_id || page.page_number != stored_number {
        Some(corruption_fault("metadata page relational identity differs from payload"@))
    } else {
        fault_of(validity)
    }
}

/// Holds the payload of a stored metadata page against its columns and its descriptor.
pub fn decode_page_row(
    page: MetadataBatchPage,
    batch_id: &MetadataBatchId,
    stored_number: i64,
    validity: CentralResult<()>,
) -> (result: CentralResult<MetadataBatchPage>)
    ensures
        fault_of(result) == page_row_fault(page, batch_id@, stored_number, validity),
        result matches Ok(read) ==> read == page,
{
    if stored_number < 0 || stored_number > u32::MAX as i64 {
        return Err(corruption("metadata page number is outside u32"));
    }
    if page.batch_id != *batch_id || page.page_number as i64 != stored_number {
        return Err(corruption("metadata page relational identity differs from payload"));
    }
    validity?;
    Ok(page)
}

/// Holds stored placement evidence against the query that found it.
pub fn decode_placement_row(evidence: ObjectPlacementEvidence, query: &PlacementQuery) -> (result:
    CentralResult<ObjectPlacementEvidence>)
    ensures
        fault_of(result) == (if answers(evidence, *query) {
            None
        } else {
            Some(corruption_fault("object placement payload differs from its lookup columns"@))
        }),
        result matches Ok(read) ==> read == evidence,
{
    if !evidence_answers(&evidence, query) {
        return Err(corruption("object placement payload differs from its lookup columns"));
    }
    Ok(evidence)
}

/// Why a placement that was not inserted is refused. `same_receipt` is the evidence stored under
/// its receipt, and `conflicting` tells whether other evidence for its place is stored.
pub open spec fn ignored_placement_fault(
    evidence: ObjectPlacementEvidence,
    same_receipt: Option<ObjectPlacementEvidence>,
    conflicting: bool,
    object_text: Seq<char>,
) -> Option<Fault> {
    match same_receipt {
        Some(existing) => if existing.same(evidence) {
            None
        } else {
            Some(
                fault(
                    CentralErrorCode::MetadataInvalid,
                    "object placement receipt "@ + evidence.receipt.receipt_id@
                        + " has conflicting evidence"@,
                ),
            )
        },
        None => if conflicting {
            Some(
                fault(
                    CentralErrorCode::MetadataInvalid,
                    "object "@ + object_text + " has conflicting placement metadata"@,
                ),
            )
        } else {
            Some(
                corruption_fault("object placement insert was ignored without a stored conflict"@),
            )
        },
    }
}

/// Decides what a placement that was not inserted means. `object_text` names the object.
pub fn resolve_ignored_placement(
    evidence: &ObjectPlacementEvidence,
    same_receipt: Option<&ObjectPlacementEvidence>,
    conflicting: bool,
    object_text: &str,
) -> (result: CentralResult<()>)
    ensures
        fault_of(result) == ignored_placement_fault(
            *evidence,
            match same_receipt {
                Some(existing) => Some(*existing),
                None => None,
            },
            conflicting,
            object_text@,
        ),
{
    if let Some(existing) = same_receipt {
        if *existing == *evidence {
            return Ok(());
        }
        let mut message = String::from_str("object placement receipt ");
        message.append(evidence.receipt.receipt_id.as_str());
        message.append(" has conflicting evidence");
        return Err(CentralError::new(CentralErrorCode::MetadataInvalid, message));
    }
    if conflicting {
        let mut message = String::from_str("object ");
        message.append(object_text);
        message.append(" has conflicting placement metadata");
        return Err(CentralError::new(CentralErrorCode::MetadataInvalid, message));
    }
    Err(corruption("object placement insert was ignored without a stored conflict"))
}

/// The columns of an Index record.
pub struct IndexRecordColumns {
    pub path: Result<LogicalPath, String>,
    pub manifest_id: Vec<u8>,
    pub total_size: String,
    pub chunk_count: String,
}

/// Why a stored Index record is refused.
pub open spec fn index_record_fault(columns: IndexRecordColumns) -> Option<Fault> {
    let size = numeral_fault(
        columns.total_size@,
        "Index record total size"@,
        " is outside the u64 range"@,
    );
    let chunks = numeral_fault(
        columns.chunk_count@,
        "Index record chunk count"@,
        " is outside the u64 range"@,
    );
    match columns.path {
        Err(problem) => Some(corruption_fault("invalid stored Index path: "@ + problem@)),
        Ok(_) => if blob_fault(columns.manifest_id@, "ManifestId"@) is Some {
            blob_fault(columns.manifest_id@, "ManifestId"@)
        } else if size is Some {
            size
        } else {
            chunks
        },
    }
}

/// Reads an Index record.
pub fn decode_index_record(columns: &IndexRecordColumns) -> (result: CentralResult<FileRecord>)
    ensures
        fault_of(result) == index_record_fault(*columns),
        result matches Ok(record) ==> {
            &&& columns.path matches Ok(path) && record.path@ == path@
            &&& record.manifest_id@ == columns.manifest_id@
            &&& record.total_size == numeral_value(columns.total_size@)
            &&& record.chunk_count == numeral_value(columns.chunk_count@)
        },
{
    let path = match &columns.path {
        Ok(path) => path.clone(),
        Err(problem) => {
            let mut message = String::from_str("invalid stored Index path: ");
            message.append(problem.as_str());
            return Err(corruption(message.as_str()));
        },
    };
    let manifest_id = manifest_id_from_blob(&columns.manifest_id)?;
    let total_size: u64 = parse_canonical_u64(
        columns.total_size.as_str(),
        "Index record total size",
    )?;
    let chunk_count: u64 = parse_canonical_u64(
        columns.chunk_count.as_str(),
        "Index record chunk count",
    )?;
    Ok(FileRecord { path, manifest_id, total_size, chunk_count })
}

/// Holds the digest of a stored Index against the one that its records give. `computed` is that
/// digest, or why the records form no Index.
pub fn validate_index_digest(stored: ContentDigest, computed: &Result<ContentDigest, String>) -> (result:
    CentralResult<()>)
    ensures
        fault_of(result) == (match *computed {
            Err(problem) => Some(corruption_fault("invalid stored Index: "@ + problem@)),
            Ok(digest) => if digest == stored {
                None
            } else {
                Some(corruption_fault("stored Index digest differs from its canonical records"@))
            },
        }),
{
    match computed {
        Err(problem) => {
            let mut message = String::from_str("invalid stored Index: ");
            message.append(problem.as_str());
            Err(corruption(message.as_str()))
        },
        Ok(digest) => if *digest == stored {
            Ok(())
        } else {
            Err(corruption("stored Index digest differs from its canonical records"))
        },
    }
}

/// Holds the identity of a stored Manifest against the one that its content gives. `computed` is
/// that identity, or why the content is no Manifest.
pub fn validate_manifest_identity(
    manifest_id: ManifestId,
    computed: &Result<ManifestId, String>,
) -> (result: CentralResult<()>)
    ensures
        fault_of(result) == (match *computed {
            Err(problem) => Some(corruption_fault("invalid stored Manifest: "@ + problem@)),
            Ok(identity) => if identity == manifest_id {
                None
            } else {
                Some(corruption_fault("stored Manifest identity differs from its payload"@))
            },
        }),
{
    match computed {
        Err(problem) => {
            let mut message = String::from_str("invalid stored Manifest: ");
            message.append(problem.as_str());
            Err(corruption(message.as_str()))
        },
        Ok(identity) => if *identity == manifest_id {
            Ok(())
        } else {
            Err(corruption("stored Manifest identity differs from its payload"))
        },
    }
}

} // verus!
