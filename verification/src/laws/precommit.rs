//! What the Pre-commit store promises.
use vstd::prelude::*;

use crate::digest::CommitId;
use crate::equality::Same;
use crate::error::{CentralError, CentralErrorCode, CentralResult};
use crate::identifier::{ArtifactId, Identifier, JobId, PlaygroundId, ProjectId, TenantId};
use crate::laws::jobs::fails_with;
use crate::laws::listing::{is_reached, lemma_listing, shows};
use crate::memory::precommit::{
    running_after, unpublished_after, InMemoryPreCommitRepository, PreCommitMutation, PreCommitName,
};
use crate::precommit::{
    CommitRecord, PreCommitCancelRequest, PreCommitCommitOutcome, PreCommitCommitRequest,
    PreCommitCommitSnapshot, PreCommitKey, PreCommitMutationOutcome, PreCommitRecord,
    PreCommitRestartRequest, PreCommitStartRequest,
};
use crate::protocol::FileRecord;
use crate::table::Named;
use crate::text::text_before;

verus! {

/// A Pre-commit that was neither committed nor cancelled.
pub open spec fn is_open(record: PreCommitRecord) -> bool {
    !(record.state is Committed) && !(record.state is Cancelled)
}

/// A Pre-commit stands on a Playground.
pub open spec fn stands_on(
    record: PreCommitRecord,
    tenant_id: Seq<char>,
    project_id: Seq<char>,
    artifact_id: Seq<char>,
    playground_id: Seq<char>,
) -> bool {
    &&& record.tenant_id@ == tenant_id
    &&& record.project_id@ == project_id
    &&& record.artifact_id@ == artifact_id
    &&& record.playground_id@ == playground_id
}

/// Two Pre-commits stand on the same Playground.
pub open spec fn stand_together(left: PreCommitRecord, right: PreCommitRecord) -> bool {
    stands_on(
        left,
        right.tenant_id@,
        right.project_id@,
        right.artifact_id@,
        right.playground_id@,
    )
}

/// A stored Pre-commit holds its Playground in every state but committed and cancelled: no other
/// one starts there, and asking for the Playground gives that one.
pub proof fn lemma_open_precommit_holds_its_playground(
    name: PreCommitName,
    request: PreCommitStartRequest,
    started: PreCommitRecord,
    result: CentralResult<PreCommitMutationOutcome>,
)
    ensures
        forall|repository: &mut InMemoryPreCommitRepository|
            #[trigger] call_ensures(
                InMemoryPreCommitRepository::start,
                (repository, request, Ok(started)),
                result,
            ) && (*repository)@.precommits.contains_key(name) && is_open(
                (*repository)@.precommits[name],
            ) && stand_together((*repository)@.precommits[name], started)
                && !(*repository)@.mutations.contains_key(
                (request.tenant_id@, request.precommit_request_id@),
            ) ==> fails_with(result, CentralErrorCode::ConcurrentUpdate) && final(repository)@
                == (*repository)@,
{
}

/// Asking for a Playground gives the one Pre-commit that stands there and was neither committed nor
/// cancelled, and nothing where there is none.
pub proof fn lemma_playground_gives_its_open_precommit(
    repository: InMemoryPreCommitRepository,
    tenant_id: &TenantId,
    project_id: &ProjectId,
    artifact_id: &ArtifactId,
    playground_id: &PlaygroundId,
    found: Option<PreCommitRecord>,
)
    requires
        call_ensures(
            InMemoryPreCommitRepository::get_active,
            (&repository, tenant_id, project_id, artifact_id, playground_id),
            found,
        ),
    ensures
        forall|name: PreCommitName| #[trigger]
            repository@.precommits.contains_key(name) && is_open(repository@.precommits[name])
                && stands_on(
                repository@.precommits[name],
                tenant_id@,
                project_id@,
                artifact_id@,
                playground_id@,
            ) ==> found == Some(repository@.precommits[name]),
        found matches Some(record) ==> {
            &&& is_open(record)
            &&& stands_on(record, tenant_id@, project_id@, artifact_id@, playground_id@)
            &&& exists|name: PreCommitName| #[trigger]
                repository@.precommits.contains_key(name) && repository@.precommits[name] == record
        },
{
}

/// A first request starts a Pre-commit where its identity and its job are new and no open one
/// stands on its Playground: it is stored under its tenant and identity and given back, the
/// request is remembered, and nothing else changes.
pub proof fn lemma_free_playground_takes_a_precommit(
    request: PreCommitStartRequest,
    started: PreCommitRecord,
    result: CentralResult<PreCommitMutationOutcome>,
)
    ensures
        forall|repository: &mut InMemoryPreCommitRepository|
            #[trigger] call_ensures(
                InMemoryPreCommitRepository::start,
                (repository, request, Ok(started)),
                result,
            ) && !(*repository)@.mutations.contains_key(
                (request.tenant_id@, request.precommit_request_id@),
            ) && !(*repository)@.precommits.contains_key(
                (started.tenant_id@, started.precommit_id@),
            ) && (forall|name: PreCommitName| #[trigger]
                (*repository)@.precommits.contains_key(name) ==> {
                    let other = (*repository)@.precommits[name];
                    &&& is_open(other) ==> !stand_together(other, started)
                    &&& other.tenant_id@ != started.tenant_id@ || other.job_id@ != started.job_id@
                }) ==> {
                &&& result matches Ok(outcome)
                &&& outcome.precommit == started
                &&& !outcome.replayed
                &&& final(repository)@.precommits == (*repository)@.precommits.insert(
                    (started.tenant_id@, started.precommit_id@),
                    started,
                )
                &&& final(repository)@.commits == (*repository)@.commits
                &&& final(repository)@.mutations == (*repository)@.mutations.insert(
                    (request.tenant_id@, request.precommit_request_id@),
                    PreCommitMutation::Start { request, result: started },
                )
            },
{
}

/// A Pre-commit does not start twice: an identity or a job that another one has is refused, and
/// nothing changes.
pub proof fn lemma_identity_and_job_are_taken_once(
    name: PreCommitName,
    request: PreCommitStartRequest,
    started: PreCommitRecord,
    result: CentralResult<PreCommitMutationOutcome>,
)
    ensures
        forall|repository: &mut InMemoryPreCommitRepository|
            #[trigger] call_ensures(
                InMemoryPreCommitRepository::start,
                (repository, request, Ok(started)),
                result,
            ) && !(*repository)@.mutations.contains_key(
                (request.tenant_id@, request.precommit_request_id@),
            ) && (*repository)@.precommits.contains_key(name) && (name == (
                started.tenant_id@,
                started.precommit_id@,
            ) || ((*repository)@.precommits[name].tenant_id@ == started.tenant_id@
                && (*repository)@.precommits[name].job_id@ == started.job_id@)) ==> fails_with(
                result,
                CentralErrorCode::ConcurrentUpdate,
            ) && final(repository)@ == (*repository)@,
{
}

/// A request that was made before gives what it gave then, marked as a replay; another request
/// under its identity is refused for good; and a request that could not be built gives that
/// failure. None of them changes anything.
pub proof fn lemma_start_is_made_once(
    request: PreCommitStartRequest,
    started: CentralResult<PreCommitRecord>,
    result: CentralResult<PreCommitMutationOutcome>,
)
    ensures
        forall|repository: &mut InMemoryPreCommitRepository|
            #[trigger] call_ensures(
                InMemoryPreCommitRepository::start,
                (repository, request, started),
                result,
            ) ==> {
                let name = (request.tenant_id@, request.precommit_request_id@);
                if (*repository)@.mutations.contains_key(name) {
                    &&& final(repository)@ == (*repository)@
                    &&& match (*repository)@.mutations[name] {
                        PreCommitMutation::Start { request: first, result: made } => if first.same(
                            request,
                        ) {
                            result matches Ok(outcome) && outcome.replayed && outcome.precommit
                                == made
                        } else {
                            fails_with(result, CentralErrorCode::ConcurrentUpdate)
                                && !result->Err_0@.retryable
                        },
                        _ => fails_with(result, CentralErrorCode::ConcurrentUpdate)
                            && !result->Err_0@.retryable,
                    }
                } else {
                    started matches Err(problem) ==> final(repository)@ == (*repository)@ && (
                    result matches Err(error) && error@ == problem@)
                }
            },
{
}

/// A Pre-commit is read back under its tenant and identity.
pub proof fn lemma_precommit_is_read_back(
    repository: InMemoryPreCommitRepository,
    key: &PreCommitKey,
    found: Option<PreCommitRecord>,
)
    requires
        call_ensures(InMemoryPreCommitRepository::get, (&repository, key), found),
    ensures
        found == if repository@.precommits.contains_key((key.tenant_id@, key.precommit_id@)) {
            Some(repository@.precommits[(key.tenant_id@, key.precommit_id@)])
        } else {
            None
        },
{
}

/// A Commit is read back under its tenant, Project, Artifact and digest.
pub proof fn lemma_commit_is_read_back(
    repository: InMemoryPreCommitRepository,
    tenant_id: &TenantId,
    project_id: &ProjectId,
    artifact_id: &ArtifactId,
    commit_id: CommitId,
    found: Option<CommitRecord>,
)
    requires
        call_ensures(
            InMemoryPreCommitRepository::get_commit,
            (&repository, tenant_id, project_id, artifact_id, commit_id),
            found,
        ),
    ensures
        match found {
            Some(commit) => repository@.commits.contains_key(
                (tenant_id@, (project_id@, (artifact_id@, commit_id@))),
            ) && commit.same(
                repository@.commits[(tenant_id@, (project_id@, (artifact_id@, commit_id@)))],
            ),
            None => !repository@.commits.contains_key(
                (tenant_id@, (project_id@, (artifact_id@, commit_id@))),
            ),
        },
{
}

/// A name comes after a cursor, by tenant and then by identity; without a cursor every name does.
pub open spec fn comes_after(name: PreCommitName, after: Option<&PreCommitKey>) -> bool {
    match after {
        None => true,
        Some(cursor) => text_before(cursor.tenant_id@, name.0) || (cursor.tenant_id@ == name.0
            && text_before(cursor.precommit_id@, name.1)),
    }
}

/// The running Pre-commits are listed in order after the cursor: only running ones, and every
/// running one that fits.
pub proof fn lemma_running_precommits_are_listed(
    repository: InMemoryPreCommitRepository,
    after: Option<&PreCommitKey>,
    limit: usize,
    records: Vec<PreCommitRecord>,
) -> (names: Seq<PreCommitName>)
    requires
        call_ensures(InMemoryPreCommitRepository::list_running, (&repository, after, limit), records),
    ensures
        shows::<(Identifier, Identifier), PreCommitRecord>(
            records@,
            names,
            repository@.precommits,
            limit as nat,
        ),
        forall|i: int|
            0 <= i < names.len() ==> comes_after(#[trigger] names[i], after)
                && repository@.precommits[names[i]].state is Running,
        forall|name: PreCommitName| #[trigger]
            repository@.precommits.contains_key(name) && comes_after(name, after)
                && repository@.precommits[name].state is Running ==> is_reached::<
                (Identifier, Identifier),
            >(names, name, limit as nat),
{
    lemma_listing(
        repository.entries(),
        repository@.precommits,
        running_after(after),
        |name: PreCommitName, record: PreCommitRecord|
            comes_after(name, after) && record.state is Running,
        limit as nat,
        records@,
    )
}

/// The committed Pre-commits whose Commit is not the Head of its Artifact yet are listed in order
/// after the cursor: only those, and every one of those that fits.
pub proof fn lemma_unpublished_commits_are_listed(
    repository: InMemoryPreCommitRepository,
    after: Option<&PreCommitKey>,
    limit: usize,
    records: Vec<PreCommitRecord>,
) -> (names: Seq<PreCommitName>)
    requires
        call_ensures(
            InMemoryPreCommitRepository::list_unpublished_commits,
            (&repository, after, limit),
            records,
        ),
    ensures
        shows::<(Identifier, Identifier), PreCommitRecord>(
            records@,
            names,
            repository@.precommits,
            limit as nat,
        ),
        forall|i: int|
            0 <= i < names.len() ==> comes_after(#[trigger] names[i], after)
                && repository@.precommits[names[i]].state is Committed
                && repository@.precommits[names[i]].head_published_at_unix_ms is None,
        forall|name: PreCommitName| #[trigger]
            repository@.precommits.contains_key(name) && comes_after(name, after)
                && repository@.precommits[name].state is Committed
                && repository@.precommits[name].head_published_at_unix_ms is None ==> is_reached::<
                (Identifier, Identifier),
            >(names, name, limit as nat),
{
    lemma_listing(
        repository.entries(),
        repository@.precommits,
        unpublished_after(after),
        |name: PreCommitName, record: PreCommitRecord|
            comes_after(name, after) && record.state is Committed
                && record.head_published_at_unix_ms is None,
        limit as nat,
        records@,
    )
}

/// A restart that makes a new attempt of the stored Pre-commit stores exactly that attempt, where
/// no other open one stands on its Playground and no other one has its job; otherwise it is refused
/// and nothing changes.
pub proof fn lemma_restart_takes_the_playground_back<
    F: Fn(PreCommitRecord) -> CentralResult<PreCommitRecord>,
>(
    request: PreCommitRestartRequest,
    apply: F,
    restarted: PreCommitRecord,
    result: CentralResult<PreCommitMutationOutcome>,
)
    ensures
        forall|repository: &mut InMemoryPreCommitRepository|
            #[trigger] call_ensures(
                InMemoryPreCommitRepository::restart::<F>,
                (repository, request, apply),
                result,
            ) && !(*repository)@.mutations.contains_key(
                (request.key.tenant_id@, request.restart_request_id@),
            ) ==> {
                let name = (request.key.tenant_id@, request.key.precommit_id@);
                let before = (*repository)@;
                let after = final(repository)@;
                if !before.precommits.contains_key(name) {
                    fails_with(result, CentralErrorCode::JobNotFound) && after == before
                } else {
                    (forall|applied: CentralResult<PreCommitRecord>| #[trigger]
                        call_ensures(apply, (before.precommits[name],), applied) ==> applied == Ok::<
                            PreCommitRecord,
                            CentralError,
                        >(restarted)) ==> if exists|other: PreCommitName| #[trigger]
                        before.precommits.contains_key(other) && other != (
                            restarted.tenant_id@,
                            restarted.precommit_id@,
                        ) && ((is_open(before.precommits[other]) && stand_together(
                            before.precommits[other],
                            restarted,
                        )) || (before.precommits[other].tenant_id@ == restarted.tenant_id@
                            && before.precommits[other].job_id@ == restarted.job_id@)) {
                        fails_with(result, CentralErrorCode::ConcurrentUpdate) && after == before
                    } else {
                        &&& result matches Ok(outcome)
                        &&& outcome.precommit == restarted
                        &&& !outcome.replayed
                        &&& after.precommits == before.precommits.insert(
                            (restarted.tenant_id@, restarted.precommit_id@),
                            restarted,
                        )
                        &&& after.commits == before.commits
                        &&& after.mutations == before.mutations.insert(
                            (request.key.tenant_id@, request.restart_request_id@),
                            PreCommitMutation::Restart { request, result: restarted },
                        )
                    }
                }
            },
{
}

/// A cancellation stores exactly what it makes of the stored Pre-commit and remembers the request;
/// where it fails, or the Pre-commit is not there, nothing changes.
pub proof fn lemma_cancellation_is_stored<
    F: Fn(PreCommitRecord) -> CentralResult<PreCommitRecord>,
>(
    request: PreCommitCancelRequest,
    apply: F,
    cancelled: PreCommitRecord,
    result: CentralResult<PreCommitMutationOutcome>,
)
    ensures
        forall|repository: &mut InMemoryPreCommitRepository|
            #[trigger] call_ensures(
                InMemoryPreCommitRepository::cancel::<F>,
                (repository, request, apply),
                result,
            ) && !(*repository)@.mutations.contains_key(
                (request.key.tenant_id@, request.cancel_request_id@),
            ) ==> {
                let name = (request.key.tenant_id@, request.key.precommit_id@);
                let before = (*repository)@;
                let after = final(repository)@;
                if !before.precommits.contains_key(name) {
                    fails_with(result, CentralErrorCode::JobNotFound) && after == before
                } else {
                    (forall|applied: CentralResult<PreCommitRecord>| #[trigger]
                        call_ensures(apply, (before.precommits[name],), applied) ==> applied == Ok::<
                            PreCommitRecord,
                            CentralError,
                        >(cancelled)) ==> {
                        &&& result matches Ok(outcome)
                        &&& outcome.precommit == cancelled
                        &&& !outcome.replayed
                        &&& after.precommits == before.precommits.insert(
                            (cancelled.tenant_id@, cancelled.precommit_id@),
                            cancelled,
                        )
                        &&& after.commits == before.commits
                        &&& after.mutations == before.mutations.insert(
                            (request.key.tenant_id@, request.cancel_request_id@),
                            PreCommitMutation::Cancel { request, result: cancelled },
                        )
                    }
                }
            },
{
}

/// A restart, a cancellation or a commit that was made before gives what it gave then, marked as a
/// replay; anything else under its identity is refused. Neither changes anything.
pub proof fn lemma_mutations_are_made_once<
    F: Fn(PreCommitRecord) -> CentralResult<PreCommitRecord>,
    G: Fn(PreCommitRecord) -> CentralResult<PreCommitCommitSnapshot>,
>(
    restart: PreCommitRestartRequest,
    cancel: PreCommitCancelRequest,
    commit: PreCommitCommitRequest,
    apply: F,
    consume: G,
    result: CentralResult<PreCommitMutationOutcome>,
    committed: CentralResult<PreCommitCommitOutcome>,
)
    ensures
        forall|repository: &mut InMemoryPreCommitRepository|
            #[trigger] call_ensures(
                InMemoryPreCommitRepository::restart::<F>,
                (repository, restart, apply),
                result,
            ) && (*repository)@.mutations.contains_key(
                (restart.key.tenant_id@, restart.restart_request_id@),
            ) ==> final(repository)@ == (*repository)@ && match (*repository)@.mutations[(
                restart.key.tenant_id@,
                restart.restart_request_id@,
            )] {
                PreCommitMutation::Restart { request: first, result: made } if first.same(restart)
                    => result matches Ok(outcome) && outcome.replayed && outcome.precommit == made,
                _ => fails_with(result, CentralErrorCode::ConcurrentUpdate),
            },
        forall|repository: &mut InMemoryPreCommitRepository|
            #[trigger] call_ensures(
                InMemoryPreCommitRepository::cancel::<F>,
                (repository, cancel, apply),
                result,
            ) && (*repository)@.mutations.contains_key(
                (cancel.key.tenant_id@, cancel.cancel_request_id@),
            ) ==> final(repository)@ == (*repository)@ && match (*repository)@.mutations[(
                cancel.key.tenant_id@,
                cancel.cancel_request_id@,
            )] {
                PreCommitMutation::Cancel { request: first, result: made } if first.same(cancel)
                    => result matches Ok(outcome) && outcome.replayed && outcome.precommit == made,
                _ => fails_with(result, CentralErrorCode::ConcurrentUpdate),
            },
        forall|repository: &mut InMemoryPreCommitRepository|
            #[trigger] call_ensures(
                InMemoryPreCommitRepository::commit::<G>,
                (repository, commit, consume),
                committed,
            ) && (*repository)@.mutations.contains_key(
                (commit.key.tenant_id@, commit.commit_request_id@),
            ) ==> final(repository)@ == (*repository)@ && match (*repository)@.mutations[(
                commit.key.tenant_id@,
                commit.commit_request_id@,
            )] {
                PreCommitMutation::Commit { request: first, result: made } if first.same(commit)
                    => committed matches Ok(outcome) && outcome.replayed && outcome.commit.same(
                    made.commit,
                ) && outcome.consumed_precommit.same(made.consumed_precommit),
                _ => fails_with(committed, CentralErrorCode::ConcurrentUpdate),
            },
{
}

/// A commit stores the Commit under its own tenant, Project, Artifact and digest, and the consumed
/// Pre-commit in place of the stored one, both or neither: a digest that is taken there is refused.
pub proof fn lemma_commit_stores_the_pair<
    F: Fn(PreCommitRecord) -> CentralResult<PreCommitCommitSnapshot>,
>(
    request: PreCommitCommitRequest,
    apply: F,
    consumed: PreCommitCommitSnapshot,
    result: CentralResult<PreCommitCommitOutcome>,
)
    ensures
        forall|repository: &mut InMemoryPreCommitRepository|
            #[trigger] call_ensures(
                InMemoryPreCommitRepository::commit::<F>,
                (repository, request, apply),
                result,
            ) && !(*repository)@.mutations.contains_key(
                (request.key.tenant_id@, request.commit_request_id@),
            ) ==> {
                let name = (request.key.tenant_id@, request.key.precommit_id@);
                let before = (*repository)@;
                let after = final(repository)@;
                let commit_name = (
                    consumed.commit.tenant_id@,
                    (
                        consumed.commit.project_id@,
                        (consumed.commit.artifact_id@, consumed.commit.commit_id@),
                    ),
                );
                if !before.precommits.contains_key(name) {
                    fails_with(result, CentralErrorCode::JobNotFound) && after == before
                } else {
                    (forall|applied: CentralResult<PreCommitCommitSnapshot>| #[trigger]
                        call_ensures(apply, (before.precommits[name],), applied) ==> applied == Ok::<
                            PreCommitCommitSnapshot,
                            CentralError,
                        >(consumed)) ==> if before.commits.contains_key(commit_name) {
                        fails_with(result, CentralErrorCode::ConcurrentUpdate) && after == before
                    } else {
                        &&& result matches Ok(outcome)
                        &&& outcome.commit.same(consumed.commit)
                        &&& outcome.consumed_precommit == consumed.consumed_precommit
                        &&& !outcome.replayed
                        &&& after.precommits == before.precommits.insert(
                            (
                                consumed.consumed_precommit.tenant_id@,
                                consumed.consumed_precommit.precommit_id@,
                            ),
                            consumed.consumed_precommit,
                        )
                        &&& after.commits.contains_key(commit_name)
                        &&& after.commits[commit_name].same(consumed.commit)
                        &&& after.mutations == before.mutations.insert(
                            (request.key.tenant_id@, request.commit_request_id@),
                            PreCommitMutation::Commit { request, result: consumed },
                        )
                    }
                }
            },
{
}

/// A Head that was published is recorded at its Pre-commit: what that makes of the stored one is
/// stored in its place and answered, and nothing else changes. Where there is none, that is said.
pub proof fn lemma_published_head_is_recorded<
    F: Fn(PreCommitRecord) -> CentralResult<PreCommitRecord>,
>(
    key: &PreCommitKey,
    apply: F,
    updated: PreCommitRecord,
    result: CentralResult<PreCommitRecord>,
)
    ensures
        forall|repository: &mut InMemoryPreCommitRepository|
            #[trigger] call_ensures(
                InMemoryPreCommitRepository::acknowledge_head_publication::<F>,
                (repository, key, apply),
                result,
            ) ==> {
                let name = (key.tenant_id@, key.precommit_id@);
                let before = (*repository)@;
                let after = final(repository)@;
                let stored = before.precommits[name];
                if !before.precommits.contains_key(name) {
                    fails_with(result, CentralErrorCode::JobNotFound) && after == before
                } else {
                    (forall|applied: CentralResult<PreCommitRecord>| #[trigger]
                        call_ensures(apply, (stored,), applied) ==> applied == Ok::<
                            PreCommitRecord,
                            CentralError,
                        >(updated)) ==> {
                        &&& result == CentralResult::<PreCommitRecord>::Ok(updated)
                        &&& after.commits == before.commits
                        &&& after.mutations == before.mutations
                        &&& updated.same(stored) ==> after.precommits == before.precommits
                        &&& !updated.same(stored) ==> after.precommits == before.precommits.insert(
                            (stored.tenant_id@, stored.precommit_id@),
                            updated,
                        )
                    }
                }
            },
{
}

/// A Pre-commit works by a job of its tenant.
pub open spec fn works_by(record: PreCommitRecord, tenant_id: Seq<char>, job_id: Seq<char>) -> bool {
    record.tenant_id@ == tenant_id && record.job_id@ == job_id
}

/// A job that no Pre-commit works by changes none.
pub proof fn lemma_foreign_job_changes_no_precommit<
    F: Fn(PreCommitRecord, Option<&Vec<FileRecord>>) -> CentralResult<Option<PreCommitRecord>>,
>(
    tenant_id: &TenantId,
    job_id: &JobId,
    apply: F,
    result: CentralResult<Option<PreCommitRecord>>,
)
    ensures
        forall|repository: &mut InMemoryPreCommitRepository|
            #[trigger] call_ensures(
                InMemoryPreCommitRepository::sync_job::<F>,
                (repository, tenant_id, job_id, apply),
                result,
            ) && (forall|name: PreCommitName| #[trigger]
                (*repository)@.precommits.contains_key(name) ==> !works_by(
                    (*repository)@.precommits[name],
                    tenant_id@,
                    job_id@,
                )) ==> {
                &&& final(repository)@ == (*repository)@
                &&& result == CentralResult::<Option<PreCommitRecord>>::Ok(None)
            },
{
}

/// The Pre-commit that works by a job follows it: what the job makes of it is stored in its place and
/// answered, and nothing else changes.
pub proof fn lemma_precommit_follows_its_job<
    F: Fn(PreCommitRecord, Option<&Vec<FileRecord>>) -> CentralResult<Option<PreCommitRecord>>,
>(
    tenant_id: &TenantId,
    job_id: &JobId,
    apply: F,
    name: PreCommitName,
    updated: PreCommitRecord,
    result: CentralResult<Option<PreCommitRecord>>,
)
    ensures
        forall|repository: &mut InMemoryPreCommitRepository|
            #[trigger] call_ensures(
                InMemoryPreCommitRepository::sync_job::<F>,
                (repository, tenant_id, job_id, apply),
                result,
            ) && (*repository)@.precommits.contains_key(name) && works_by(
                (*repository)@.precommits[name],
                tenant_id@,
                job_id@,
            ) && (forall|other: PreCommitName| #[trigger]
                (*repository)@.precommits.contains_key(other) && works_by(
                    (*repository)@.precommits[other],
                    tenant_id@,
                    job_id@,
                ) ==> other == name) && (forall|
                base: Option<&Vec<FileRecord>>,
                applied: CentralResult<Option<PreCommitRecord>>,
            | #[trigger]
                call_ensures(apply, ((*repository)@.precommits[name], base), applied) ==> applied
                    == Ok::<Option<PreCommitRecord>, CentralError>(Some(updated))) ==> {
                let before = (*repository)@;
                let after = final(repository)@;
                let stored = before.precommits[name];
                &&& result == CentralResult::<Option<PreCommitRecord>>::Ok(Some(updated))
                &&& after.commits == before.commits
                &&& after.mutations == before.mutations
                &&& updated.same(stored) ==> after.precommits == before.precommits
                &&& !updated.same(stored) ==> after.precommits == before.precommits.insert(
                    (stored.tenant_id@, stored.precommit_id@),
                    updated,
                )
            },
{
}

} // verus!
