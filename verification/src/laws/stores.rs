//! What the authority stores promise.
use vstd::prelude::*;

use crate::agent_registry::records::AgentEnrollmentAuditEvent;
use crate::equality::Same;
use crate::error::{CentralError, CentralErrorCode, CentralResult};
use crate::identifier::{AgentId, AssignmentId, ResourceVersion, TenantId, UnixMillis};
use crate::laws::jobs::fails_with;
use crate::laws::listing::{is_reached, lemma_kept_names, lemma_listing, shows};
use crate::memory::audit::InMemoryAuditSink;
use crate::memory::clock::InMemoryClock;
use crate::memory::jobs::{is_after, is_pending_for, is_recoverable, InMemoryJobRepository};
use crate::memory::objects::{is_latest, InMemoryObjectCatalog, PlacementQuery};
use crate::memory::outbox::{is_deliverable, AssignmentReservation, InMemoryAssignmentOutbox};
use crate::memory::stager::InMemoryMetadataBatchStager;
use crate::model::{AuditEvent, JobKey, JobRecord};
use crate::ports::{
    AssignmentPublishOutcome, AssignmentReserveOutcome, AssignmentRetireOutcome, JobInsertOutcome,
};
use crate::protocol::{
    AssignmentOperation, JobAssignment, JobOperation, JobState, MetadataBatchDescriptor,
    MetadataBatchPage, ObjectPlacementEvidence,
};
use crate::table::{first_kept, lemma_mapped_is_entry, lemma_walk_meets_every_value, Named};
use crate::text::text_before;

verus! {

/// The tenant and the identity of a job.
pub type JobName = (Seq<char>, Seq<char>);

/// A name comes after a cursor, by tenant and then by identity; without a cursor every name does.
pub open spec fn follows(name: JobName, after: Option<&JobKey>) -> bool {
    match after {
        None => true,
        Some(cursor) => text_before(cursor.tenant_id@, name.0) || (cursor.tenant_id@ == name.0
            && text_before(cursor.job_id@, name.1)),
    }
}

/// A job that must be picked up again after an interruption. A managed Add waits for its Agent while
/// its deadline lies ahead; a mount or a materialization has no Agent that would come back on its
/// own, so it is picked up as long as it has not ended.
pub open spec fn must_be_picked_up(job: JobRecord, now: UnixMillis) -> bool {
    match job.operation {
        JobOperation::Add => match job.state {
            JobState::Queued | JobState::Prepared | JobState::Publishing => true,
            JobState::Assigned
            | JobState::Accepted
            | JobState::Running
            | JobState::CancelRequested => job.spec.deadline_unix_ms <= now,
            _ => false,
        },
        JobOperation::WorkspaceMaterialize | JobOperation::SnapshotMount => match job.state {
            JobState::Queued | JobState::Assigned | JobState::Accepted | JobState::Running => true,
            _ => false,
        },
    }
}

/// The jobs to pick up again are listed in order after the cursor: only those, and every one of
/// those that fits.
pub proof fn lemma_recoverable_jobs_are_listed(
    repository: InMemoryJobRepository,
    after: Option<&JobKey>,
    now: UnixMillis,
    limit: usize,
    jobs: Vec<JobRecord>,
) -> (names: Seq<JobName>)
    requires
        call_ensures(
            InMemoryJobRepository::list_recoverable,
            (&repository, after, now, limit),
            jobs,
        ),
    ensures
        shows::<JobKey, JobRecord>(jobs@, names, repository@, limit as nat),
        forall|i: int|
            0 <= i < names.len() ==> follows(#[trigger] names[i], after) && must_be_picked_up(
                repository@[names[i]],
                now,
            ),
        forall|name: JobName| #[trigger]
            repository@.contains_key(name) && follows(name, after) && must_be_picked_up(
                repository@[name],
                now,
            ) ==> is_reached::<JobKey>(names, name, limit as nat),
{
    lemma_listing(
        repository.entries(),
        repository@,
        |entry: (JobKey, JobRecord)|
            is_after(entry.0.name(), after) && is_recoverable(entry.1, now),
        |name: JobName, job: JobRecord| follows(name, after) && must_be_picked_up(job, now),
        limit as nat,
        jobs@,
    )
}

/// An Agent is shown every decision on its assignments that it has not acknowledged, and no other
/// job.
pub proof fn lemma_unacknowledged_decisions_are_listed(
    repository: InMemoryJobRepository,
    agent_id: &AgentId,
    limit: usize,
    jobs: Vec<JobRecord>,
) -> (names: Seq<JobName>)
    requires
        call_ensures(
            InMemoryJobRepository::list_pending_decisions_for_agent,
            (&repository, agent_id, limit),
            jobs,
        ),
    ensures
        shows::<JobKey, JobRecord>(jobs@, names, repository@, limit as nat),
        forall|i: int|
            0 <= i < names.len() ==> {
                let job = repository@[#[trigger] names[i]];
                &&& job.assignment is Some && job.assignment->0.agent_id@ == agent_id@
                &&& job.decision is Some
                &&& job.finalized_ack is None
            },
        forall|name: JobName| #[trigger]
            repository@.contains_key(name) && repository@[name].assignment is Some
                && repository@[name].assignment->0.agent_id@ == agent_id@
                && repository@[name].decision is Some && repository@[name].finalized_ack is None
                ==> is_reached::<JobKey>(names, name, limit as nat),
{
    lemma_listing(
        repository.entries(),
        repository@,
        |entry: (JobKey, JobRecord)| is_pending_for(entry.1, agent_id@),
        |name: JobName, job: JobRecord|
            {
                &&& job.assignment is Some && job.assignment->0.agent_id@ == agent_id@
                &&& job.decision is Some
                &&& job.finalized_ack is None
            },
        limit as nat,
        jobs@,
    )
}

/// A job is read back under its tenant and identity, and not under any other.
pub proof fn lemma_job_is_read_back(
    repository: InMemoryJobRepository,
    key: &JobKey,
    found: Option<JobRecord>,
)
    requires
        call_ensures(InMemoryJobRepository::get, (&repository, key), found),
    ensures
        match found {
            Some(job) => repository@.contains_key((key.tenant_id@, key.job_id@)) && job.same(
                repository@[(key.tenant_id@, key.job_id@)],
            ),
            None => !repository@.contains_key((key.tenant_id@, key.job_id@)),
        },
{
}

/// A job is inserted once under its tenant and identity: the first insert stores it, every later one
/// gives the stored job back and changes nothing.
pub proof fn lemma_job_is_inserted_once(job: JobRecord, outcome: JobInsertOutcome)
    ensures
        forall|repository: &mut InMemoryJobRepository|
            #[trigger] call_ensures(
                InMemoryJobRepository::insert_or_load,
                (repository, job),
                outcome,
            ) ==> {
                let name = (job.spec.tenant_id@, job.spec.job_id@);
                if (*repository)@.contains_key(name) {
                    &&& final(repository)@ == (*repository)@
                    &&& outcome matches JobInsertOutcome::Existing(stored)
                    &&& stored.same((*repository)@[name])
                } else {
                    &&& final(repository)@ == (*repository)@.insert(name, job)
                    &&& outcome matches JobInsertOutcome::Inserted(stored)
                    &&& stored.same(job)
                }
            },
{
}

/// A job is replaced only at the version that was read, by the version that follows it: anything
/// else is refused and changes nothing, so of two writers that read the same version one wins.
pub proof fn lemma_job_is_replaced_at_its_version(
    expected: ResourceVersion,
    job: JobRecord,
    result: CentralResult<JobRecord>,
)
    requires
        expected < u64::MAX,
    ensures
        forall|repository: &mut InMemoryJobRepository|
            #[trigger] call_ensures(
                InMemoryJobRepository::replace,
                (repository, expected, job),
                result,
            ) ==> {
                let name = (job.spec.tenant_id@, job.spec.job_id@);
                if !(*repository)@.contains_key(name) {
                    fails_with(result, CentralErrorCode::JobNotFound) && final(repository)@
                        == (*repository)@
                } else if (*repository)@[name].resource_version != expected
                    || job.resource_version != expected + 1 {
                    fails_with(result, CentralErrorCode::ConcurrentUpdate) && final(repository)@
                        == (*repository)@
                } else {
                    &&& result matches Ok(stored)
                    &&& stored.same(job)
                    &&& final(repository)@ == (*repository)@.insert(name, job)
                }
            },
{
}

/// What an assignment goes by in the outbox: its tenant and its own identity.
pub open spec fn claims(assignment: JobAssignment, name: (Seq<char>, Seq<char>)) -> bool {
    match assignment.assignment {
        AssignmentOperation::Add { input, .. } => name == (input.tenant_id@, input.assignment_id@),
        AssignmentOperation::Other { identity, .. } => name == (
            identity.tenant_id@,
            identity.assignment_id@,
        ),
    }
}

/// An assignment is meant for an Agent.
pub open spec fn is_meant_for(assignment: JobAssignment, agent_id: Seq<char>) -> bool {
    match assignment.assignment {
        AssignmentOperation::Add { input, .. } => input.agent_id@ == agent_id,
        AssignmentOperation::Other { identity, .. } => identity.agent_id@ == agent_id,
    }
}

/// Reserving claims an identity for one payload, not yet visible: the same payload again changes
/// nothing, another one is refused.
pub proof fn lemma_reservation_claims_an_identity(
    assignment: JobAssignment,
    name: (Seq<char>, Seq<char>),
    result: CentralResult<AssignmentReserveOutcome>,
)
    requires
        claims(assignment, name),
    ensures
        forall|outbox: &mut InMemoryAssignmentOutbox|
            #[trigger] call_ensures(
                InMemoryAssignmentOutbox::reserve,
                (outbox, assignment),
                result,
            ) ==> if !(*outbox)@.contains_key(name) {
                &&& result == Ok::<AssignmentReserveOutcome, CentralError>(
                    AssignmentReserveOutcome::Reserved,
                )
                &&& final(outbox)@ == (*outbox)@.insert(
                    name,
                    AssignmentReservation { assignment, published: false, retired: false },
                )
            } else {
                &&& final(outbox)@ == (*outbox)@
                &&& if (*outbox)@[name].assignment.same(assignment) {
                    result == Ok::<AssignmentReserveOutcome, CentralError>(
                        AssignmentReserveOutcome::Existing,
                    )
                } else {
                    fails_with(result, CentralErrorCode::JobIdReused)
                }
            },
{
}

/// Publishing makes a reserved assignment visible and leaves a retired one retired; reactivating
/// makes it visible again. Both tell whether it was visible before, refuse what was never reserved,
/// and refuse another payload.
pub proof fn lemma_publication_makes_a_reservation_visible(
    assignment: JobAssignment,
    name: (Seq<char>, Seq<char>),
    result: CentralResult<AssignmentPublishOutcome>,
)
    requires
        claims(assignment, name),
    ensures
        forall|outbox: &mut InMemoryAssignmentOutbox|
            #[trigger] call_ensures(
                InMemoryAssignmentOutbox::publish,
                (outbox, assignment),
                result,
            ) ==> if !(*outbox)@.contains_key(name) {
                fails_with(result, CentralErrorCode::Internal) && final(outbox)@ == (*outbox)@
            } else if !(*outbox)@[name].assignment.same(assignment) {
                fails_with(result, CentralErrorCode::JobIdReused) && final(outbox)@ == (*outbox)@
            } else {
                &&& result == Ok::<AssignmentPublishOutcome, CentralError>(
                    if (*outbox)@[name].published {
                        AssignmentPublishOutcome::AlreadyPublished
                    } else {
                        AssignmentPublishOutcome::Published
                    },
                )
                &&& final(outbox)@ == (*outbox)@.insert(
                    name,
                    AssignmentReservation {
                        assignment: (*outbox)@[name].assignment,
                        published: true,
                        retired: (*outbox)@[name].retired,
                    },
                )
            },
        forall|outbox: &mut InMemoryAssignmentOutbox|
            #[trigger] call_ensures(
                InMemoryAssignmentOutbox::reactivate,
                (outbox, assignment),
                result,
            ) ==> if !(*outbox)@.contains_key(name) {
                fails_with(result, CentralErrorCode::Internal) && final(outbox)@ == (*outbox)@
            } else if !(*outbox)@[name].assignment.same(assignment) {
                fails_with(result, CentralErrorCode::JobIdReused) && final(outbox)@ == (*outbox)@
            } else {
                &&& result == Ok::<AssignmentPublishOutcome, CentralError>(
                    if (*outbox)@[name].published && !(*outbox)@[name].retired {
                        AssignmentPublishOutcome::AlreadyPublished
                    } else {
                        AssignmentPublishOutcome::Published
                    },
                )
                &&& final(outbox)@ == (*outbox)@.insert(
                    name,
                    AssignmentReservation {
                        assignment: (*outbox)@[name].assignment,
                        published: true,
                        retired: false,
                    },
                )
            },
{
}

/// Retiring hides a published assignment and keeps its claim; what was never reserved or is not
/// published yet is refused.
pub proof fn lemma_retirement_hides_a_published_assignment(
    tenant_id: &TenantId,
    assignment_id: &AssignmentId,
    result: CentralResult<AssignmentRetireOutcome>,
)
    ensures
        forall|outbox: &mut InMemoryAssignmentOutbox|
            #[trigger] call_ensures(
                InMemoryAssignmentOutbox::retire,
                (outbox, tenant_id, assignment_id),
                result,
            ) ==> {
                let name = (tenant_id@, assignment_id@);
                if !(*outbox)@.contains_key(name) {
                    fails_with(result, CentralErrorCode::Internal) && final(outbox)@ == (*outbox)@
                } else if !(*outbox)@[name].published {
                    fails_with(result, CentralErrorCode::InvalidState) && final(outbox)@
                        == (*outbox)@
                } else {
                    &&& result == Ok::<AssignmentRetireOutcome, CentralError>(
                        if (*outbox)@[name].retired {
                            AssignmentRetireOutcome::AlreadyRetired
                        } else {
                            AssignmentRetireOutcome::Retired
                        },
                    )
                    &&& final(outbox)@ == (*outbox)@.insert(
                        name,
                        AssignmentReservation {
                            assignment: (*outbox)@[name].assignment,
                            published: true,
                            retired: true,
                        },
                    )
                }
            },
{
}

/// A listing shows the payloads of the reservations of `names`, in the order of their keys.
pub open spec fn delivers(
    listed: Seq<JobAssignment>,
    names: Seq<(Seq<char>, Seq<char>)>,
    reservations: Map<(Seq<char>, Seq<char>), AssignmentReservation>,
    limit: nat,
) -> bool {
    &&& names.len() == listed.len() <= limit
    &&& forall|i: int|
        0 <= i < names.len() ==> reservations.contains_key(#[trigger] names[i])
            && listed[i].same(reservations[names[i]].assignment)
    &&& forall|i: int, j: int|
        0 <= i < j < names.len() ==> <(TenantId, AssignmentId)>::precedes(
            #[trigger] names[i],
            #[trigger] names[j],
        )
}

/// An Agent is handed the assignments that are meant for it, published and not retired: only those,
/// and every one of those that fits.
pub proof fn lemma_agent_is_handed_its_assignments(
    outbox: InMemoryAssignmentOutbox,
    agent_id: &AgentId,
    limit: usize,
    assignments: Vec<JobAssignment>,
) -> (names: Seq<(Seq<char>, Seq<char>)>)
    requires
        call_ensures(
            InMemoryAssignmentOutbox::pending_for_agent,
            (&outbox, agent_id, limit),
            assignments,
        ),
    ensures
        delivers(assignments@, names, outbox@, limit as nat),
        forall|i: int|
            0 <= i < names.len() ==> {
                let reservation = outbox@[#[trigger] names[i]];
                &&& reservation.published
                &&& !reservation.retired
                &&& is_meant_for(reservation.assignment, agent_id@)
            },
        forall|name: (Seq<char>, Seq<char>)| #[trigger]
            outbox@.contains_key(name) && outbox@[name].published && !outbox@[name].retired
                && is_meant_for(outbox@[name].assignment, agent_id@) ==> is_reached::<
                (TenantId, AssignmentId),
            >(names, name, limit as nat),
{
    let keep = |entry: ((TenantId, AssignmentId), AssignmentReservation)|
        is_deliverable(entry.1, agent_id@);
    let names = lemma_kept_names(
        outbox.entries(),
        outbox@,
        keep,
        |name: (Seq<char>, Seq<char>), reservation: AssignmentReservation|
            {
                &&& reservation.published
                &&& !reservation.retired
                &&& is_meant_for(reservation.assignment, agent_id@)
            },
        limit as nat,
    );
    lemma_payloads(assignments@, first_kept(outbox.entries(), keep, limit as nat), names, outbox@);
    names
}

/// Every published assignment, retired or not, is among the messages.
pub proof fn lemma_messages_are_what_was_published(
    outbox: InMemoryAssignmentOutbox,
    assignments: Vec<JobAssignment>,
) -> (names: Seq<(Seq<char>, Seq<char>)>)
    requires
        call_ensures(InMemoryAssignmentOutbox::messages, (&outbox,), assignments),
    ensures
        delivers(assignments@, names, outbox@, usize::MAX as nat),
        forall|i: int| 0 <= i < names.len() ==> outbox@[#[trigger] names[i]].published,
        forall|name: (Seq<char>, Seq<char>)| #[trigger]
            outbox@.contains_key(name) && outbox@[name].published ==> is_reached::<
                (TenantId, AssignmentId),
            >(names, name, usize::MAX as nat),
{
    let keep = |entry: ((TenantId, AssignmentId), AssignmentReservation)| entry.1.published;
    let names = lemma_kept_names(
        outbox.entries(),
        outbox@,
        keep,
        |name: (Seq<char>, Seq<char>), reservation: AssignmentReservation| reservation.published,
        usize::MAX as nat,
    );
    lemma_payloads(
        assignments@,
        first_kept(outbox.entries(), keep, usize::MAX as nat),
        names,
        outbox@,
    );
    names
}

proof fn lemma_payloads(
    listed: Seq<JobAssignment>,
    kept: Seq<AssignmentReservation>,
    names: Seq<(Seq<char>, Seq<char>)>,
    reservations: Map<(Seq<char>, Seq<char>), AssignmentReservation>,
)
    requires
        listed.same(
            kept.map_values(|reservation: AssignmentReservation| reservation.assignment),
        ),
        names.len() == kept.len(),
        forall|i: int| 0 <= i < names.len() ==> kept[i] == reservations[#[trigger] names[i]],
    ensures
        listed.len() == names.len(),
        forall|i: int|
            0 <= i < names.len() ==> listed[i].same(reservations[#[trigger] names[i]].assignment),
{
    let payloads = kept.map_values(|reservation: AssignmentReservation| reservation.assignment);
    assert forall|i: int| 0 <= i < names.len() implies listed[i].same(
        reservations[#[trigger] names[i]].assignment,
    ) by {
        assert(listed[i].same(payloads[i]));
    }
}

/// An event is recorded once under its tenant and identity: the same event again is a replay, one
/// that tells of another kind, job or state is refused.
pub proof fn lemma_job_event_is_recorded_once(event: AuditEvent, result: CentralResult<bool>)
    ensures
        forall|sink: &mut InMemoryAuditSink|
            #[trigger] call_ensures(InMemoryAuditSink::record, (sink, event), result) ==> {
                let name = (event.job_key.tenant_id@, event.event_id@);
                let before = (*sink).job_events();
                let after = final(sink).job_events();
                &&& final(sink).decisions() == (*sink).decisions()
                &&& if !before.contains_key(name) {
                    result == Ok::<bool, CentralError>(false) && after == before.insert(name, event)
                } else if before[name].kind == event.kind && before[name].job_key.tenant_id@
                    == event.job_key.tenant_id@ && before[name].job_key.job_id@
                    == event.job_key.job_id@ && before[name].state == event.state {
                    result == Ok::<bool, CentralError>(true) && after == before
                } else {
                    fails_with(result, CentralErrorCode::Internal) && after == before
                }
            },
{
}

/// A decision on an enrollment is recorded once under its tenant and identity: the same decision
/// again is a replay, one that differs in what it decides, on what, at which version or by whom is
/// refused.
pub proof fn lemma_enrollment_decision_is_recorded_once(
    event: AgentEnrollmentAuditEvent,
    result: CentralResult<bool>,
)
    ensures
        forall|sink: &mut InMemoryAuditSink|
            #[trigger] call_ensures(
                InMemoryAuditSink::record_enrollment_decision,
                (sink, event),
                result,
            ) ==> {
                let name = (event.tenant_id@, event.event_id@);
                let before = (*sink).decisions();
                let after = final(sink).decisions();
                &&& final(sink).job_events() == (*sink).job_events()
                &&& if !before.contains_key(name) {
                    result == Ok::<bool, CentralError>(false) && after == before.insert(name, event)
                } else if before[name].kind == event.kind && before[name].enrollment_id@
                    == event.enrollment_id@ && before[name].storage_volume_id@
                    == event.storage_volume_id@ && before[name].decision_request_id@
                    == event.decision_request_id@ && before[name].resource_version
                    == event.resource_version && before[name].actor@ == event.actor@ {
                    result == Ok::<bool, CentralError>(true) && after == before
                } else {
                    fails_with(result, CentralErrorCode::Internal) && after == before
                }
            },
{
}

/// Two placements put the same object in the same place of the same generation.
pub open spec fn places_the_same(
    left: ObjectPlacementEvidence,
    right: ObjectPlacementEvidence,
) -> bool {
    &&& left.receipt.tenant_id@ == right.receipt.tenant_id@
    &&& left.receipt.artifact_id@ == right.receipt.artifact_id@
    &&& left.receipt.storage_volume_id@ == right.receipt.storage_volume_id@
    &&& left.receipt.artifact_placement_id@ == right.receipt.artifact_placement_id@
    &&& left.placement_generation == right.placement_generation
    &&& left.receipt.object_id == right.receipt.object_id
}

/// A placement is recorded once under its tenant and receipt: the same evidence again changes
/// nothing, other evidence is refused. A new receipt is refused only where the object is known in
/// that place with another size.
pub proof fn lemma_placement_is_recorded_once(
    evidence: &ObjectPlacementEvidence,
    result: CentralResult<()>,
)
    ensures
        forall|catalog: &mut InMemoryObjectCatalog|
            #[trigger] call_ensures(
                InMemoryObjectCatalog::record_placement,
                (catalog, evidence),
                result,
            ) ==> {
                let name = (evidence.receipt.tenant_id@, evidence.receipt.receipt_id@);
                let before = (*catalog)@;
                let after = final(catalog)@;
                if before.contains_key(name) {
                    &&& after == before
                    &&& result is Ok <==> before[name].same(*evidence)
                    &&& result is Err ==> fails_with(result, CentralErrorCode::MetadataInvalid)
                } else if exists|other: (Seq<char>, Seq<char>)| #[trigger]
                    before.contains_key(other) && places_the_same(before[other], *evidence)
                        && before[other].receipt.size != evidence.receipt.size {
                    fails_with(result, CentralErrorCode::MetadataInvalid) && after == before
                } else {
                    result is Ok && after == before.insert(name, *evidence)
                }
            },
{
    assert forall|catalog: &mut InMemoryObjectCatalog|
        #[trigger] call_ensures(
            InMemoryObjectCatalog::record_placement,
            (catalog, evidence),
            result,
        ) implies (exists|other: (Seq<char>, Seq<char>)| #[trigger]
        (*catalog)@.contains_key(other) && places_the_same((*catalog)@[other], *evidence)
            && (*catalog)@[other].receipt.size != evidence.receipt.size)
        == crate::memory::objects::has_other_size((*catalog)@, *evidence) by {}
}

/// Evidence answers a query.
pub open spec fn is_asked_for(evidence: ObjectPlacementEvidence, query: PlacementQuery) -> bool {
    &&& evidence.receipt.tenant_id@ == query.tenant_id@
    &&& evidence.receipt.artifact_id@ == query.artifact_id@
    &&& evidence.receipt.storage_volume_id@ == query.storage_volume_id@
    &&& evidence.receipt.artifact_placement_id@ == query.artifact_placement_id@
    &&& evidence.placement_generation == query.placement_generation
    &&& evidence.receipt.object_id == query.object_id
}

/// A query for an object gives stored evidence of it in that place, and of all such evidence one
/// that was verified last; it gives nothing only where there is none.
pub proof fn lemma_latest_placement_is_found(
    catalog: InMemoryObjectCatalog,
    query: &PlacementQuery,
    found: Option<ObjectPlacementEvidence>,
)
    requires
        call_ensures(InMemoryObjectCatalog::object_placement, (&catalog, query), found),
    ensures
        found matches Some(evidence) ==> {
            &&& is_asked_for(evidence, *query)
            &&& exists|name: (Seq<char>, Seq<char>)| #[trigger]
                catalog@.contains_key(name) && catalog@[name] == evidence
        },
        forall|name: (Seq<char>, Seq<char>)| #[trigger]
            catalog@.contains_key(name) && is_asked_for(catalog@[name], *query) ==> {
                &&& found is Some
                &&& catalog@[name].receipt.verified_at_unix_ms
                    <= found->0.receipt.verified_at_unix_ms
            },
{
    let entries = catalog.entries();
    lemma_walk_meets_every_value(entries, catalog@);
    if found is Some {
        let index = choose|index: int|
            is_latest(entries, *query, index) && found->0 == (#[trigger] entries[index]).1;
        assert(catalog@.contains_key(entries[index].0.name()));
    }
    assert forall|name: (Seq<char>, Seq<char>)| #[trigger]
        catalog@.contains_key(name) && is_asked_for(catalog@[name], *query) implies found is Some
        && catalog@[name].receipt.verified_at_unix_ms <= found->0.receipt.verified_at_unix_ms by {
        let at = lemma_mapped_is_entry(entries, name);
        assert(entries[at].1 == catalog@[name]);
    }
}

/// A descriptor is staged once under its tenant and batch, with no pages: the same descriptor again
/// is a replay, another one is refused as tampered with.
pub proof fn lemma_descriptor_is_staged_once(
    descriptor: MetadataBatchDescriptor,
    result: CentralResult<bool>,
)
    ensures
        forall|stager: &mut InMemoryMetadataBatchStager|
            #[trigger] call_ensures(
                InMemoryMetadataBatchStager::stage_descriptor,
                (stager, descriptor),
                result,
            ) ==> {
                let name = (descriptor.scope.tenant_id@, descriptor.batch_id@);
                let before = (*stager)@;
                let after = final(stager)@;
                if !before.contains_key(name) {
                    &&& result == Ok::<bool, CentralError>(false)
                    &&& after.contains_key(name)
                    &&& after[name].descriptor == descriptor
                    &&& after[name].pages == Map::<u32, MetadataBatchPage>::empty()
                    &&& after == before.insert(name, after[name])
                } else {
                    &&& after == before
                    &&& if before[name].descriptor.same(descriptor) {
                        result == Ok::<bool, CentralError>(true)
                    } else {
                        fails_with(result, CentralErrorCode::BatchTampered)
                    }
                }
            },
{
}

/// A page is staged once under its number, after its descriptor: without the descriptor it is
/// refused as incomplete, with another descriptor or other content as tampered with, and the same
/// page again is a replay. Nothing else of the batch changes.
pub proof fn lemma_page_is_staged_once(
    descriptor: &MetadataBatchDescriptor,
    page: MetadataBatchPage,
    result: CentralResult<bool>,
)
    ensures
        forall|stager: &mut InMemoryMetadataBatchStager|
            #[trigger] call_ensures(
                InMemoryMetadataBatchStager::stage_page,
                (stager, descriptor, page),
                result,
            ) ==> {
                let name = (descriptor.scope.tenant_id@, descriptor.batch_id@);
                let before = (*stager)@;
                let after = final(stager)@;
                if !before.contains_key(name) {
                    fails_with(result, CentralErrorCode::BatchIncomplete) && after == before
                } else if !before[name].descriptor.same(*descriptor) {
                    fails_with(result, CentralErrorCode::BatchTampered) && after == before
                } else if !before[name].pages.contains_key(page.page_number) {
                    &&& result == Ok::<bool, CentralError>(false)
                    &&& after.contains_key(name)
                    &&& after[name].descriptor == before[name].descriptor
                    &&& after[name].pages == before[name].pages.insert(page.page_number, page)
                    &&& after == before.insert(name, after[name])
                } else {
                    &&& after == before
                    &&& if before[name].pages[page.page_number].same(page) {
                        result == Ok::<bool, CentralError>(true)
                    } else {
                        fails_with(result, CentralErrorCode::BatchTampered)
                    }
                }
            },
{
}

/// The clock moves forward by what it is told, and stays where it is when that would run over.
pub proof fn lemma_clock_moves_forward(delta_ms: u64, result: CentralResult<u64>)
    ensures
        forall|clock: &mut InMemoryClock|
            #[trigger] call_ensures(InMemoryClock::advance, (clock, delta_ms), result) ==> if (
            *clock)@ + delta_ms <= u64::MAX {
                result matches Ok(now) && now == (*clock)@ + delta_ms && final(clock)@ == now
            } else {
                fails_with(result, CentralErrorCode::Internal) && final(clock)@ == (*clock)@
            },
{
}

} // verus!
