//! What holds across the operations of the authority stores: only a published Index changes
//! anything, of two publications onto one version only the first succeeds, what was decided stays
//! decided, a claimed assignment identity stays claimed, and a Pre-commit is consumed together with
//! the Commit that it becomes.
use vstd::prelude::*;

use crate::equality::Same;
use crate::error::{fault_of, CentralErrorCode, CentralResult};
use crate::identifier::IndexRevision;
use crate::memory::outbox::{
    is_deliverable, publish_fault as outbox_fault, reservation_name, AssignmentReservation,
};
use crate::memory::precommit::{
    answers_commit, commit_name, earlier, is_started, keeps_hold, same_job, same_playground,
    CommitName, PreCommitName, PreCommitView,
};
use crate::memory::publisher::{
    catalogued, current_index, decided, index_name, is_outcome, is_replay, publication_name,
    publish_fault, ManifestName, PublisherView,
};
use crate::model::{IndexKey, IndexPublishOutcome, IndexPublishRequest};
use crate::precommit::{
    is_active, request_conflict_fault, PreCommitCommitOutcome, PreCommitCommitRequest,
    PreCommitCommitSnapshot, PreCommitMutationOutcome, PreCommitRecord, PreCommitStartRequest,
};
use crate::protocol::{FileRecord, JobAssignment, Manifest, WireIndexVersion};
use crate::publication::{is_same_version, ManifestFacts};

verus! {

/// A publication that conflicts or is rejected changes no Index and no Manifest.
pub proof fn lemma_refused_publication_changes_nothing(
    state: PublisherView,
    request: IndexPublishRequest,
    facts: Seq<ManifestFacts>,
    outcome: IndexPublishOutcome,
)
    requires
        !(outcome is Published),
    ensures
        decided(state, request, facts, outcome).indexes == state.indexes,
        decided(state, request, facts, outcome).manifests == state.manifests,
{
}

proof fn lemma_catalog_only_grows(
    manifests: Map<ManifestName, Manifest>,
    request: IndexPublishRequest,
    facts: Seq<ManifestFacts>,
    count: int,
    name: ManifestName,
)
    requires
        manifests.contains_key(name),
    ensures
        catalogued(manifests, request, facts, count).contains_key(name),
        catalogued(manifests, request, facts, count)[name] == manifests[name],
    decreases count,
{
    if count > 0 {
        lemma_catalog_only_grows(manifests, request, facts, count - 1, name);
    }
}

/// A publication changes one Index and no other, and every Manifest that was stored stays as it
/// is.
pub proof fn lemma_publication_touches_one_index(
    state: PublisherView,
    request: IndexPublishRequest,
    facts: Seq<ManifestFacts>,
    outcome: IndexPublishOutcome,
    other: IndexKey,
    name: ManifestName,
)
    requires
        index_name(other) != index_name(request.index_key),
        state.manifests.contains_key(name),
    ensures
        current_index(decided(state, request, facts, outcome), other) == current_index(
            state,
            other,
        ),
        decided(state, request, facts, outcome).manifests.contains_key(name),
        decided(state, request, facts, outcome).manifests[name] == state.manifests[name],
{
    lemma_catalog_only_grows(state.manifests, request, facts, facts.len() as int, name);
}

/// What was decided about a request stays decided, whatever else is published: the same request is
/// accepted again with the same outcome.
pub proof fn lemma_decision_stands(
    state: PublisherView,
    first: IndexPublishRequest,
    first_facts: Seq<ManifestFacts>,
    outcome: IndexPublishOutcome,
    second: IndexPublishRequest,
    second_facts: Seq<ManifestFacts>,
    second_outcome: IndexPublishOutcome,
)
    requires
        publish_fault(state, first) is None,
        publication_name(second) != publication_name(first),
    ensures
        ({
            let after = decided(state, first, first_facts, outcome);
            let later = decided(after, second, second_facts, second_outcome);
            &&& publish_fault(after, first) is None
            &&& is_replay(after, first)
            &&& after.publications[publication_name(first)].1 == outcome
            &&& publish_fault(later, first) is None
            &&& is_replay(later, first)
            &&& later.publications[publication_name(first)].1 == outcome
        }),
{
}

/// Of two publications onto the same version of an Index only the first succeeds: the second one
/// conflicts with what the first one published. `compute` gives each revision its own version.
pub proof fn lemma_first_publication_wins<
    F: Fn(IndexRevision, &Vec<FileRecord>) -> Result<WireIndexVersion, String>,
>(
    state: PublisherView,
    first: IndexPublishRequest,
    first_facts: Seq<ManifestFacts>,
    first_errors: Seq<Option<String>>,
    published: WireIndexVersion,
    second: IndexPublishRequest,
    second_facts: Seq<ManifestFacts>,
    second_errors: Seq<Option<String>>,
    outcome: IndexPublishOutcome,
    compute: F,
)
    requires
        forall|revision: IndexRevision, listing: &Vec<FileRecord>, version: WireIndexVersion|
            #[trigger] call_ensures(compute, (revision, listing), Ok(version)) ==> version.revision
                == revision,
        is_outcome(
            state,
            first,
            first_facts,
            first_errors,
            compute,
            IndexPublishOutcome::Published(published),
        ),
        index_name(second.index_key) == index_name(first.index_key),
        is_same_version(second.expected_index_version, first.expected_index_version),
        is_outcome(
            decided(state, first, first_facts, IndexPublishOutcome::Published(published)),
            second,
            second_facts,
            second_errors,
            compute,
            outcome,
        ),
    ensures
        published.digest == first.expected_result_digest,
        published.revision == current_index(state, first.index_key).version.revision + 1,
        outcome == IndexPublishOutcome::Conflict(published),
{
    let after = decided(state, first, first_facts, IndexPublishOutcome::Published(published));
    assert(current_index(after, second.index_key).version == published);
}

/// A claimed assignment identity stays claimed when it is retired: another payload is refused, the
/// same payload can be made visible again, and only then is it delivered.
pub proof fn lemma_retired_assignment_stays_claimed(
    reservations: Map<(Seq<char>, Seq<char>), AssignmentReservation>,
    assignment: JobAssignment,
    other: JobAssignment,
    unreserved: Seq<char>,
    agent_id: Seq<char>,
)
    requires
        reservations.contains_key(reservation_name(assignment)),
        reservations[reservation_name(assignment)].assignment.same(assignment),
        reservation_name(other) == reservation_name(assignment),
        !reservations[reservation_name(assignment)].assignment.same(other),
    ensures
        ({
            let name = reservation_name(assignment);
            let retired = AssignmentReservation { retired: true, ..reservations[name] };
            let after = reservations.insert(name, retired);
            &&& outbox_fault(after, assignment, unreserved) is None
            &&& outbox_fault(after, other, unreserved) is Some
            &&& !is_deliverable(retired, agent_id)
        }),
{
}

/// No Playground has two active Pre-commits, and no job has two Pre-commits.
pub proof fn lemma_playground_has_one_active_precommit(
    view: PreCommitView,
    left: PreCommitName,
    right: PreCommitName,
)
    requires
        view.is_consistent(),
        view.precommits.contains_key(left),
        view.precommits.contains_key(right),
        same_job(view.precommits[left], view.precommits[right]) || (same_playground(
            view.precommits[left],
            view.precommits[right],
        ) && is_active(view.precommits[left].state) && is_active(view.precommits[right].state)),
    ensures
        left == right,
{
}

/// Starting a Pre-commit again with the same request gives what the first start gave and changes
/// nothing; another request of the same identity is refused.
pub proof fn lemma_start_replays(
    before: PreCommitView,
    after: PreCommitView,
    later: PreCommitView,
    request: PreCommitStartRequest,
    again: PreCommitStartRequest,
    started: CentralResult<PreCommitRecord>,
    restarted: CentralResult<PreCommitRecord>,
    first: PreCommitMutationOutcome,
    result: CentralResult<PreCommitMutationOutcome>,
)
    requires
        is_started(before, after, request, started, Ok(first)),
        !first.replayed,
        again.tenant_id@ == request.tenant_id@,
        again.precommit_request_id@ == request.precommit_request_id@,
        is_started(after, later, again, restarted, result),
    ensures
        later == after,
        request.same(again) ==> (result matches Ok(outcome) && outcome.replayed
            && outcome.precommit == first.precommit),
        !request.same(again) ==> result is Err,
{
}

/// A commit that fails changes neither the Pre-commit nor the Commits, whatever it fails on.
pub proof fn lemma_failed_commit_changes_nothing<
    F: Fn(PreCommitRecord) -> CentralResult<PreCommitCommitSnapshot>,
>(
    before: PreCommitView,
    after: PreCommitView,
    request: PreCommitCommitRequest,
    apply: F,
    result: CentralResult<PreCommitCommitOutcome>,
)
    requires
        answers_commit(before, after, request, apply, result),
        result is Err,
    ensures
        after == before,
{
}

/// A commit is one step: the consumed Pre-commit takes the place of the stored one and the Commit
/// is stored with it, where none of its name was. Where `apply` moves the version of a Pre-commit
/// by one, so does the commit. Every other Pre-commit and Commit stays as it is.
pub proof fn lemma_commit_stores_both<
    F: Fn(PreCommitRecord) -> CentralResult<PreCommitCommitSnapshot>,
>(
    before: PreCommitView,
    after: PreCommitView,
    request: PreCommitCommitRequest,
    apply: F,
    first: PreCommitCommitOutcome,
    other: PreCommitName,
    kept: CommitName,
)
    requires
        before.is_consistent(),
        forall|record: PreCommitRecord, applied: CentralResult<PreCommitCommitSnapshot>|
            #[trigger]
            call_ensures(apply, (record,), applied) ==> (applied matches Ok(consumed)
                ==> keeps_hold(record, consumed.consumed_precommit)),
        answers_commit(before, after, request, apply, Ok(first)),
        !first.replayed,
    ensures
        before.precommits.contains_key(request.key.name()),
        after.precommits.contains_key(request.key.name()),
        after.precommits[request.key.name()] == first.consumed_precommit,
        !before.commits.contains_key(commit_name(first.commit)),
        after.commits.contains_key(commit_name(first.commit)),
        after.commits[commit_name(first.commit)].same(first.commit),
        (forall|applied: CentralResult<PreCommitCommitSnapshot>| #[trigger]
            call_ensures(apply, (before.precommits[request.key.name()],), applied) ==> (
            applied matches Ok(consumed) ==> consumed.consumed_precommit.resource_version
                == before.precommits[request.key.name()].resource_version + 1))
            ==> after.precommits[request.key.name()].resource_version
            == before.precommits[request.key.name()].resource_version + 1,
        after.precommits.contains_key(other) == before.precommits.contains_key(other),
        before.precommits.contains_key(other) && other != request.key.name()
            ==> after.precommits[other] == before.precommits[other],
        kept != commit_name(first.commit) ==> after.commits.contains_key(kept)
            == before.commits.contains_key(kept),
        before.commits.contains_key(kept) ==> after.commits[kept] == before.commits[kept],
{
}

/// Committing again with the same request gives the same Commit and the same consumed Pre-commit,
/// marked as a replay, and writes nothing; another payload under the identity of the request is
/// refused for good and writes nothing either.
pub proof fn lemma_commit_replays<
    F: Fn(PreCommitRecord) -> CentralResult<PreCommitCommitSnapshot>,
    G: Fn(PreCommitRecord) -> CentralResult<PreCommitCommitSnapshot>,
>(
    before: PreCommitView,
    after: PreCommitView,
    later: PreCommitView,
    request: PreCommitCommitRequest,
    again: PreCommitCommitRequest,
    apply: F,
    apply_again: G,
    first: PreCommitCommitOutcome,
    result: CentralResult<PreCommitCommitOutcome>,
)
    requires
        answers_commit(before, after, request, apply, Ok(first)),
        !first.replayed,
        again.key.tenant_id@ == request.key.tenant_id@,
        again.commit_request_id@ == request.commit_request_id@,
        answers_commit(after, later, again, apply_again, result),
    ensures
        later == after,
        request.same(again) ==> (result matches Ok(outcome) && outcome.replayed
            && outcome.commit.same(first.commit) && outcome.consumed_precommit.same(
            first.consumed_precommit,
        )),
        !request.same(again) ==> fault_of(result) == Some(request_conflict_fault()),
        !request.same(again) ==> fault_of(result)->0.code == CentralErrorCode::ConcurrentUpdate
            && !fault_of(result)->0.retryable,
{
}

/// A commit is one transaction, for every `apply` that keeps the hold of a Pre-commit and moves its
/// version by one. A new one that succeeds stores both the consumed Pre-commit, one version ahead,
/// and the Commit; one that fails stores neither. A later one under the same identity gives the
/// same snapshot, marked as a replay, where it asks for the same, and is refused for good where it
/// does not; either way it writes nothing.
pub proof fn lemma_commit_is_one_transaction<
    F: Fn(PreCommitRecord) -> CentralResult<PreCommitCommitSnapshot>,
    G: Fn(PreCommitRecord) -> CentralResult<PreCommitCommitSnapshot>,
>(
    before: PreCommitView,
    after: PreCommitView,
    later: PreCommitView,
    request: PreCommitCommitRequest,
    again: PreCommitCommitRequest,
    apply: F,
    apply_again: G,
    result: CentralResult<PreCommitCommitOutcome>,
    result_again: CentralResult<PreCommitCommitOutcome>,
)
    requires
        before.is_consistent(),
        earlier(before, request.key.tenant_id@, request.commit_request_id@) is None,
        forall|record: PreCommitRecord, applied: CentralResult<PreCommitCommitSnapshot>|
            #[trigger]
            call_ensures(apply, (record,), applied) ==> (applied matches Ok(consumed)
                ==> keeps_hold(record, consumed.consumed_precommit)
                && consumed.consumed_precommit.resource_version == record.resource_version + 1),
        answers_commit(before, after, request, apply, result),
        again.key.tenant_id@ == request.key.tenant_id@,
        again.commit_request_id@ == request.commit_request_id@,
        answers_commit(after, later, again, apply_again, result_again),
    ensures
        result is Err ==> after == before,
        result matches Ok(first) ==> {
            let name = request.key.name();
            &&& !first.replayed
            &&& before.precommits.contains_key(name)
            &&& after.precommits.contains_key(name)
            &&& after.precommits[name] == first.consumed_precommit
            &&& after.precommits[name].resource_version == before.precommits[name].resource_version
                + 1
            &&& after.commits.contains_key(commit_name(first.commit))
            &&& after.commits[commit_name(first.commit)].same(first.commit)
            &&& later == after
            &&& if request.same(again) {
                &&& result_again matches Ok(second)
                &&& second.replayed
                &&& second.commit.same(first.commit)
                &&& second.consumed_precommit.same(first.consumed_precommit)
            } else {
                &&& result_again matches Err(refused)
                &&& refused@ == request_conflict_fault()
                &&& refused@.code == CentralErrorCode::ConcurrentUpdate
                &&& !refused@.retryable
            }
        },
{
    if let Ok(first) = result {
        let name = request.key.name();
        lemma_commit_stores_both(
            before,
            after,
            request,
            apply,
            first,
            name,
            commit_name(first.commit),
        );
        lemma_commit_replays(
            before,
            after,
            later,
            request,
            again,
            apply,
            apply_again,
            first,
            result_again,
        );
    } else {
        lemma_failed_commit_changes_nothing(before, after, request, apply, result);
    }
}

} // verus!
