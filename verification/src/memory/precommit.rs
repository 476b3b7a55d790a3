//! Pre-commits and Commits, with a memory of every mutation that was made.
use vstd::prelude::*;

use crate::digest::CommitId;
use crate::equality::Same;
use crate::error::{fault_of, CentralError, CentralResult};
use crate::identifier::{ArtifactId, Identifier, JobId, PlaygroundId, ProjectId, TenantId};
use crate::model::job_precedes;
use crate::precommit::{
    is_active, not_found_fault, precommit_is_active, precommit_not_found,
    precommit_request_conflict, request_conflict_fault, CommitRecord, PreCommitCancelRequest,
    PreCommitCommitOutcome, PreCommitCommitRequest, PreCommitCommitSnapshot, PreCommitKey,
    PreCommitMutationOutcome, PreCommitRecord, PreCommitRestartRequest, PreCommitStartRequest,
    PreCommitState,
};
use crate::protocol::FileRecord;
use crate::table::{
    first_kept, is_walk, lemma_entry_is_mapped, lemma_mapped_is_entry, select, Named, Table,
};

verus! {

/// The name of a Pre-commit: its tenant and its identity.
pub type PreCommitName = (Seq<char>, Seq<char>);

/// The name of a Commit: its tenant, Project, Artifact and digest.
pub type CommitName = (Seq<char>, (Seq<char>, (Seq<char>, Seq<u8>)));

/// A mutation that was made, with what it asked for and what it gave.
#[allow(inconsistent_fields)]
pub enum PreCommitMutation {
    Start { request: PreCommitStartRequest, result: PreCommitRecord },
    Restart { request: PreCommitRestartRequest, result: PreCommitRecord },
    Cancel { request: PreCommitCancelRequest, result: PreCommitRecord },
    Commit { request: PreCommitCommitRequest, result: PreCommitCommitSnapshot },
}

/// What the repository holds.
#[verifier::ext_equal]
pub ghost struct PreCommitView {
    pub precommits: Map<PreCommitName, PreCommitRecord>,
    pub commits: Map<CommitName, CommitRecord>,
    /// Mutations by tenant and request.
    pub mutations: Map<(Seq<char>, Seq<char>), PreCommitMutation>,
}

/// Two Pre-commits of one Playground.
pub open spec fn same_playground(left: PreCommitRecord, right: PreCommitRecord) -> bool {
    &&& left.tenant_id@ == right.tenant_id@
    &&& left.project_id@ == right.project_id@
    &&& left.artifact_id@ == right.artifact_id@
    &&& left.playground_id@ == right.playground_id@
}

/// Two Pre-commits of one job.
pub open spec fn same_job(left: PreCommitRecord, right: PreCommitRecord) -> bool {
    left.tenant_id@ == right.tenant_id@ && left.job_id@ == right.job_id@
}

/// Another active Pre-commit holds the Playground of a candidate.
pub open spec fn playground_is_taken(
    precommits: Map<PreCommitName, PreCommitRecord>,
    candidate: PreCommitRecord,
    except: Option<PreCommitName>,
) -> bool {
    exists|name: PreCommitName| #[trigger]
        precommits.contains_key(name) && Some(name) != except && same_playground(
            precommits[name],
            candidate,
        ) && is_active(precommits[name].state)
}

/// Another Pre-commit has the job of a candidate.
pub open spec fn job_is_taken(
    precommits: Map<PreCommitName, PreCommitRecord>,
    candidate: PreCommitRecord,
) -> bool {
    exists|name: PreCommitName| #[trigger]
        precommits.contains_key(name) && name != candidate.key_name() && same_job(
            precommits[name],
            candidate,
        )
}

impl PreCommitView {
    /// Every Pre-commit goes by its own name; no Playground has two active ones, and no job has
    /// two.
    pub open spec fn is_consistent(self) -> bool {
        &&& forall|name: PreCommitName| #[trigger]
            self.precommits.contains_key(name) ==> self.precommits[name].key_name() == name
        &&& forall|left: PreCommitName, right: PreCommitName|
            left != right && #[trigger] self.precommits.contains_key(left)
                && #[trigger] self.precommits.contains_key(right) ==> {
                &&& !(same_playground(self.precommits[left], self.precommits[right]) && is_active(
                    self.precommits[left].state,
                ) && is_active(self.precommits[right].state))
                &&& !same_job(self.precommits[left], self.precommits[right])
            }
    }
}

/// A change that keeps the identity of a Pre-commit, its Playground and its job, and does not
/// reopen it.
pub open spec fn keeps_hold(before: PreCommitRecord, after: PreCommitRecord) -> bool {
    &&& after.key_name() == before.key_name()
    &&& same_playground(before, after)
    &&& same_job(before, after)
    &&& is_active(after.state) ==> is_active(before.state)
}

pub struct InMemoryPreCommitRepository {
    precommits: Table<(Identifier, Identifier), PreCommitRecord>,
    commits: Table<(Identifier, (Identifier, (Identifier, CommitId))), CommitRecord>,
    mutations: Table<(Identifier, Identifier), PreCommitMutation>,
}

impl View for InMemoryPreCommitRepository {
    type V = PreCommitView;

    closed spec fn view(&self) -> PreCommitView {
        PreCommitView {
            precommits: self.precommits@,
            commits: self.commits@,
            mutations: self.mutations@,
        }
    }
}

/// The mutation that a tenant's request was, where it was made.
pub open spec fn earlier(
    view: PreCommitView,
    tenant_id: Seq<char>,
    request_id: Seq<char>,
) -> Option<PreCommitMutation> {
    if view.mutations.contains_key((tenant_id, request_id)) {
        Some(view.mutations[(tenant_id, request_id)])
    } else {
        None
    }
}

/// What starting a Pre-commit gives and leaves behind. `started` is what the request builds.
pub open spec fn is_started(
    before: PreCommitView,
    after: PreCommitView,
    request: PreCommitStartRequest,
    started: CentralResult<PreCommitRecord>,
    result: CentralResult<PreCommitMutationOutcome>,
) -> bool {
    let mutation_name = (request.tenant_id@, request.precommit_request_id@);
    match earlier(before, mutation_name.0, mutation_name.1) {
        Some(PreCommitMutation::Start { request: stored, result: made }) if stored.same(
            request,
        ) => {
            &&& after == before
            &&& result matches Ok(outcome) && outcome.replayed && outcome.precommit == made
        },
        Some(_) => after == before && fault_of(result) == Some(request_conflict_fault()),
        None => match started {
            Err(problem) => after == before && fault_of(result) == Some(problem@),
            Ok(record) => if before.precommits.contains_key(record.key_name())
                || playground_is_taken(before.precommits, record, None) || job_is_taken(
                before.precommits,
                record,
            ) {
                after == before && fault_of(result) == Some(request_conflict_fault())
            } else {
                &&& result matches Ok(outcome)
                &&& !outcome.replayed
                &&& outcome.precommit == record
                &&& after.precommits == before.precommits.insert(record.key_name(), record)
                &&& after.commits == before.commits
                &&& after.mutations == before.mutations.insert(
                    mutation_name,
                    PreCommitMutation::Start { request, result: record },
                )
            },
        },
    }
}

/// What restarting a Pre-commit gives and leaves behind. `applied` is what the request makes of the
/// stored one.
pub open spec fn is_restarted(
    before: PreCommitView,
    after: PreCommitView,
    request: PreCommitRestartRequest,
    applied: CentralResult<PreCommitRecord>,
    result: CentralResult<PreCommitMutationOutcome>,
) -> bool {
    match applied {
        Err(problem) => after == before && fault_of(result) == Some(problem@),
        Ok(record) => if playground_is_taken(
            before.precommits,
            record,
            Some(record.key_name()),
        ) || job_is_taken(before.precommits, record) {
            after == before && fault_of(result) == Some(request_conflict_fault())
        } else {
            &&& result matches Ok(outcome)
            &&& !outcome.replayed
            &&& outcome.precommit == record
            &&& after.precommits == before.precommits.insert(record.key_name(), record)
            &&& after.commits == before.commits
            &&& after.mutations == before.mutations.insert(
                (request.key.tenant_id@, request.restart_request_id@),
                PreCommitMutation::Restart { request, result: record },
            )
        },
    }
}

/// What cancelling a Pre-commit gives and leaves behind.
pub open spec fn is_cancelled(
    before: PreCommitView,
    after: PreCommitView,
    request: PreCommitCancelRequest,
    applied: CentralResult<PreCommitRecord>,
    result: CentralResult<PreCommitMutationOutcome>,
) -> bool {
    match applied {
        Err(problem) => after == before && fault_of(result) == Some(problem@),
        Ok(record) => {
            &&& result matches Ok(outcome)
            &&& !outcome.replayed
            &&& outcome.precommit == record
            &&& after.precommits == before.precommits.insert(record.key_name(), record)
            &&& after.commits == before.commits
            &&& after.mutations == before.mutations.insert(
                (request.key.tenant_id@, request.cancel_request_id@),
                PreCommitMutation::Cancel { request, result: record },
            )
        },
    }
}

/// The name of a Commit.
pub open spec fn commit_name(commit: CommitRecord) -> CommitName {
    (commit.tenant_id@, (commit.project_id@, (commit.artifact_id@, commit.commit_id@)))
}

/// What committing a Pre-commit gives and leaves behind.
pub open spec fn is_committed(
    before: PreCommitView,
    after: PreCommitView,
    request: PreCommitCommitRequest,
    applied: CentralResult<PreCommitCommitSnapshot>,
    result: CentralResult<PreCommitCommitOutcome>,
) -> bool {
    match applied {
        Err(problem) => after == before && fault_of(result) == Some(problem@),
        Ok(consumed) => {
            let name = commit_name(consumed.commit);
            let mutation_name = (request.key.tenant_id@, request.commit_request_id@);
            if before.commits.contains_key(name) {
                after == before && fault_of(result) == Some(request_conflict_fault())
            } else {
                &&& result matches Ok(outcome)
                &&& !outcome.replayed
                &&& outcome.commit.same(consumed.commit)
                &&& outcome.consumed_precommit == consumed.consumed_precommit
                &&& after.precommits == before.precommits.insert(
                    consumed.consumed_precommit.key_name(),
                    consumed.consumed_precommit,
                )
                &&& after.commits.dom() == before.commits.dom().insert(name)
                &&& after.commits[name].same(consumed.commit)
                &&& forall|other: CommitName| #[trigger]
                    before.commits.contains_key(other) ==> after.commits[other]
                        == before.commits[other]
                &&& after.mutations == before.mutations.insert(
                    mutation_name,
                    PreCommitMutation::Commit { request, result: consumed },
                )
            }
        },
    }
}

/// How a request to commit is answered, and what it leaves behind: the same request again is
/// recognised, another one under its identity is refused, and a new one is applied to the stored
/// Pre-commit by `apply`.
pub open spec fn answers_commit<F: Fn(PreCommitRecord) -> CentralResult<PreCommitCommitSnapshot>>(
    before: PreCommitView,
    after: PreCommitView,
    request: PreCommitCommitRequest,
    apply: F,
    result: CentralResult<PreCommitCommitOutcome>,
) -> bool {
    match earlier(before, request.key.tenant_id@, request.commit_request_id@) {
        Some(PreCommitMutation::Commit { request: stored, result: made }) if stored.same(
            request,
        ) => {
            &&& after == before
            &&& result matches Ok(outcome)
            &&& outcome.replayed
            &&& outcome.commit.same(made.commit)
            &&& outcome.consumed_precommit.same(made.consumed_precommit)
        },
        Some(_) => after == before && fault_of(result) == Some(request_conflict_fault()),
        None => if !before.precommits.contains_key(request.key.name()) {
            after == before && fault_of(result) == Some(not_found_fault())
        } else {
            exists|applied: CentralResult<PreCommitCommitSnapshot>| #[trigger]
                call_ensures(apply, (before.precommits[request.key.name()],), applied)
                    && is_committed(before, after, request, applied, result)
        },
    }
}

impl InMemoryPreCommitRepository {
    /// The Pre-commits in the order of their names.
    pub closed spec fn entries(self) -> Seq<((Identifier, Identifier), PreCommitRecord)> {
        self.precommits.entries()
    }

    pub closed spec fn well_formed(self) -> bool {
        &&& self.precommits.well_formed()
        &&& self.commits.well_formed()
        &&& self.mutations.well_formed()
        &&& self@.is_consistent()
    }

    /// A repository that was built by its operations is consistent.
    pub proof fn lemma_consistent(&self)
        requires
            self.well_formed(),
        ensures
            self@.is_consistent(),
    {
    }

    #[must_use]
    pub fn new() -> (repository: Self)
        ensures
            repository.well_formed(),
            repository@.precommits == Map::<PreCommitName, PreCommitRecord>::empty(),
            repository@.commits == Map::<CommitName, CommitRecord>::empty(),
            repository@.mutations == Map::<(Seq<char>, Seq<char>), PreCommitMutation>::empty(),
    {
        Self { precommits: Table::new(), commits: Table::new(), mutations: Table::new() }
    }

    #[must_use]
    pub fn get(&self, key: &PreCommitKey) -> (found: Option<PreCommitRecord>)
        requires
            self.well_formed(),
        ensures
            found is Some <==> self@.precommits.contains_key(key.name()),
            found matches Some(record) ==> record == self@.precommits[key.name()],
    {
        let name = (key.tenant_id.clone(), key.precommit_id.clone());
        match self.precommits.get(&name) {
            Some(record) => Some(record.clone()),
            None => None,
        }
    }

    /// The Pre-commit that holds a Playground. There is never more than one.
    #[must_use]
    pub fn get_active(
        &self,
        tenant_id: &TenantId,
        project_id: &ProjectId,
        artifact_id: &ArtifactId,
        playground_id: &PlaygroundId,
    ) -> (found: Option<PreCommitRecord>)
        requires
            self.well_formed(),
        ensures
            match found {
                Some(record) => {
                    &&& self@.precommits.contains_key(record.key_name())
                    &&& self@.precommits[record.key_name()] == record
                    &&& holds_playground(
                        record,
                        tenant_id@,
                        project_id@,
                        artifact_id@,
                        playground_id@,
                    )
                    &&& forall|name: PreCommitName| #[trigger]
                        self@.precommits.contains_key(name) && holds_playground(
                            self@.precommits[name],
                            tenant_id@,
                            project_id@,
                            artifact_id@,
                            playground_id@,
                        ) ==> name == record.key_name()
                },
                None => forall|name: PreCommitName| #[trigger]
                    self@.precommits.contains_key(name) ==> !holds_playground(
                        self@.precommits[name],
                        tenant_id@,
                        project_id@,
                        artifact_id@,
                        playground_id@,
                    ),
            },
    {
        let ghost entries = self.precommits.entries();
        let mut index: usize = 0;
        while index < self.precommits.len()
            invariant
                self.well_formed(),
                entries == self.precommits.entries(),
                index <= entries.len(),
                forall|i: int|
                    0 <= i < index ==> !holds_playground(
                        (#[trigger] entries[i]).1,
                        tenant_id@,
                        project_id@,
                        artifact_id@,
                        playground_id@,
                    ),
            decreases entries.len() - index,
        {
            let record = &self.precommits.entry_at(index).1;
            if record.tenant_id == *tenant_id && record.project_id == *project_id
                && record.artifact_id == *artifact_id && record.playground_id == *playground_id
                && precommit_is_active(record) {
                proof {
                    lemma_entry_is_mapped(entries, index as int);
                    assert(self@.precommits.contains_key(entries[index as int].0.name()));
                }
                return Some(record.clone());
            }
            index += 1;
        }
        proof {
            assert forall|name: PreCommitName| #[trigger]
                self@.precommits.contains_key(name) implies !holds_playground(
                self@.precommits[name],
                tenant_id@,
                project_id@,
                artifact_id@,
                playground_id@,
            ) by {
                let at = lemma_mapped_is_entry(entries, name);
                assert(!holds_playground(
                    entries[at].1,
                    tenant_id@,
                    project_id@,
                    artifact_id@,
                    playground_id@,
                ));
            }
        }
        None
    }

    /// The first `limit` running Pre-commits after a cursor.
    #[must_use]
    pub fn list_running(&self, after: Option<&PreCommitKey>, limit: usize) -> (records: Vec<
        PreCommitRecord,
    >)
        requires
            self.well_formed(),
        ensures
            is_walk(self.entries(), self@.precommits),
            records@.same(first_kept(self.entries(), running_after(after), limit as nat)),
    {
        let keep = |key: &(Identifier, Identifier), record: &PreCommitRecord| -> (verdict: bool)
            ensures
                verdict == running_after(after)((*key, *record)),
            { is_past(key, after) && record.state == PreCommitState::Running };
        select(&self.precommits, keep, Ghost(running_after(after)), limit)
    }

    /// The first `limit` Commits after a cursor that are not the Head of their Artifact yet.
    #[must_use]
    pub fn list_unpublished_commits(&self, after: Option<&PreCommitKey>, limit: usize) -> (records:
        Vec<PreCommitRecord>)
        requires
            self.well_formed(),
        ensures
            is_walk(self.entries(), self@.precommits),
            records@.same(first_kept(self.entries(), unpublished_after(after), limit as nat)),
    {
        let keep = |key: &(Identifier, Identifier), record: &PreCommitRecord| -> (verdict: bool)
            ensures
                verdict == unpublished_after(after)((*key, *record)),
            {
                is_past(key, after) && record.state == PreCommitState::Committed
                    && record.head_published_at_unix_ms.is_none()
            };
        select(&self.precommits, keep, Ghost(unpublished_after(after)), limit)
    }

    #[must_use]
    pub fn get_commit(
        &self,
        tenant_id: &TenantId,
        project_id: &ProjectId,
        artifact_id: &ArtifactId,
        commit_id: CommitId,
    ) -> (found: Option<CommitRecord>)
        requires
            self.well_formed(),
        ensures
            ({
                let name = (tenant_id@, (project_id@, (artifact_id@, commit_id@)));
                &&& found is Some <==> self@.commits.contains_key(name)
                &&& found matches Some(commit) ==> commit.same(self@.commits[name])
            }),
    {
        let key = (tenant_id.clone(), (project_id.clone(), (artifact_id.clone(), commit_id)));
        match self.commits.get(&key) {
            Some(commit) => Some(commit.clone()),
            None => None,
        }
    }

    fn playground_taken(&self, candidate: &PreCommitRecord, except: bool) -> (taken: bool)
        requires
            self.well_formed(),
        ensures
            taken == playground_is_taken(
                self@.precommits,
                *candidate,
                if except {
                    Some(candidate.key_name())
                } else {
                    None
                },
            ),
    {
        let ghost entries = self.precommits.entries();
        let ghost left_out: Option<PreCommitName> = if except {
            Some(candidate.key_name())
        } else {
            None
        };
        let mut index: usize = 0;
        while index < self.precommits.len()
            invariant
                self.well_formed(),
                entries == self.precommits.entries(),
                index <= entries.len(),
                left_out == (if except {
                    Some(candidate.key_name())
                } else {
                    None
                }),
                forall|i: int|
                    0 <= i < index && Some((#[trigger] entries[i]).0.name()) != left_out ==> !(
                    same_playground(entries[i].1, *candidate) && is_active(entries[i].1.state)),
            decreases entries.len() - index,
        {
            let record = &self.precommits.entry_at(index).1;
            proof {
                lemma_entry_is_mapped(entries, index as int);
                assert(self@.precommits.contains_key(entries[index as int].0.name()));
            }
            let excepted = except && record.tenant_id == candidate.tenant_id && record.precommit_id
                == candidate.precommit_id;
            if !excepted && record.tenant_id == candidate.tenant_id && record.project_id
                == candidate.project_id && record.artifact_id == candidate.artifact_id
                && record.playground_id == candidate.playground_id && precommit_is_active(record) {
                return true;
            }
            index += 1;
        }
        proof {
            assert forall|name: PreCommitName| #[trigger]
                self@.precommits.contains_key(name) && Some(name) != left_out implies !(
            same_playground(self@.precommits[name], *candidate) && is_active(
                self@.precommits[name].state,
            )) by {
                let at = lemma_mapped_is_entry(entries, name);
                assert(entries[at].0.name() == name);
            }
        }
        false
    }

    fn job_taken(&self, candidate: &PreCommitRecord) -> (taken: bool)
        requires
            self.well_formed(),
        ensures
            taken == job_is_taken(self@.precommits, *candidate),
    {
        let ghost entries = self.precommits.entries();
        let mut index: usize = 0;
        while index < self.precommits.len()
            invariant
                self.well_formed(),
                entries == self.precommits.entries(),
                index <= entries.len(),
                forall|i: int|
                    0 <= i < index && (#[trigger] entries[i]).0.name() != candidate.key_name()
                        ==> !same_job(entries[i].1, *candidate),
            decreases entries.len() - index,
        {
            let record = &self.precommits.entry_at(index).1;
            proof {
                lemma_entry_is_mapped(entries, index as int);
                assert(self@.precommits.contains_key(entries[index as int].0.name()));
            }
            if record.tenant_id == candidate.tenant_id && record.job_id == candidate.job_id
                && record.precommit_id != candidate.precommit_id {
                return true;
            }
            index += 1;
        }
        proof {
            assert forall|name: PreCommitName| #[trigger]
                self@.precommits.contains_key(name) && name
                    != candidate.key_name() implies !same_job(
                self@.precommits[name],
                *candidate,
            ) by {
                let at = lemma_mapped_is_entry(entries, name);
                assert(entries[at].0.name() == name);
            }
        }
        false
    }

    /// Starts a Pre-commit, or recognises that this was done. `started` is what the request builds.
    pub fn start(
        &mut self,
        request: PreCommitStartRequest,
        started: CentralResult<PreCommitRecord>,
    ) -> (result: CentralResult<PreCommitMutationOutcome>)
        requires
            old(self).well_formed(),
        ensures
            final(self).well_formed(),
            is_started(old(self)@, final(self)@, request, started, result),
    {
        let mutation_key = (request.tenant_id.clone(), request.precommit_request_id.clone());
        if let Some(existing) = self.mutations.get(&mutation_key) {
            return match existing {
                PreCommitMutation::Start { request: stored, result } => if *stored == request {
                    Ok(PreCommitMutationOutcome { precommit: result.clone(), replayed: true })
                } else {
                    Err(precommit_request_conflict())
                },
                _ => Err(precommit_request_conflict()),
            };
        }
        let record = match started {
            Ok(record) => record,
            Err(problem) => return Err(problem),
        };
        let key = (record.tenant_id.clone(), record.precommit_id.clone());
        if self.precommits.contains(&key) || self.playground_taken(&record, false)
            || self.job_taken(&record) {
            return Err(precommit_request_conflict());
        }
        let outcome = PreCommitMutationOutcome { precommit: record.clone(), replayed: false };
        let kept = record.clone();
        self.precommits.insert(key, record);
        self.mutations.insert(mutation_key, PreCommitMutation::Start { request, result: kept });
        assert(self@.commits == old(self)@.commits);
        Ok(outcome)
    }

    /// Restarts a Pre-commit, or recognises that this was done. `apply` gives what the request makes
    /// of the stored one.
    pub fn restart<F: Fn(PreCommitRecord) -> CentralResult<PreCommitRecord>>(
        &mut self,
        request: PreCommitRestartRequest,
        apply: F,
    ) -> (result: CentralResult<PreCommitMutationOutcome>)
        requires
            old(self).well_formed(),
            forall|record: PreCommitRecord| #[trigger] call_requires(apply, (record,)),
            forall|record: PreCommitRecord, applied: CentralResult<PreCommitRecord>| #[trigger]
                call_ensures(apply, (record,), applied) ==> (applied matches Ok(restarted)
                    ==> restarted.key_name() == record.key_name()),
        ensures
            final(self).well_formed(),
            match earlier(old(self)@, request.key.tenant_id@, request.restart_request_id@) {
                Some(PreCommitMutation::Restart { request: stored, result: made }) if stored.same(
                    request,
                ) => {
                    &&& final(self)@ == old(self)@
                    &&& result matches Ok(outcome) && outcome.replayed && outcome.precommit == made
                },
                Some(_) => final(self)@ == old(self)@ && fault_of(result) == Some(
                    request_conflict_fault(),
                ),
                None => if !old(self)@.precommits.contains_key(request.key.name()) {
                    final(self)@ == old(self)@ && fault_of(result) == Some(not_found_fault())
                } else {
                    exists|applied: CentralResult<PreCommitRecord>| #[trigger]
                        call_ensures(
                            apply,
                            (old(self)@.precommits[request.key.name()],),
                            applied,
                        ) && is_restarted(old(self)@, final(self)@, request, applied, result)
                },
            },
    {
        let mutation_key = (request.key.tenant_id.clone(), request.restart_request_id.clone());
        if let Some(existing) = self.mutations.get(&mutation_key) {
            return match existing {
                PreCommitMutation::Restart { request: stored, result } => if *stored == request {
                    Ok(PreCommitMutationOutcome { precommit: result.clone(), replayed: true })
                } else {
                    Err(precommit_request_conflict())
                },
                _ => Err(precommit_request_conflict()),
            };
        }
        let key = (request.key.tenant_id.clone(), request.key.precommit_id.clone());
        let stored = match self.precommits.get(&key) {
            Some(stored) => stored.clone(),
            None => return Err(precommit_not_found()),
        };
        let ghost before = stored;
        let applied = apply(stored);
        let ghost made = applied;
        assert(call_ensures(apply, (before,), made));
        let restarted = match applied {
            Ok(restarted) => restarted,
            Err(problem) => {
                assert(is_restarted(
                    old(self)@,
                    self@,
                    request,
                    made,
                    Err::<PreCommitMutationOutcome, CentralError>(problem),
                ));
                return Err(problem);
            },
        };
        if self.playground_taken(&restarted, true) || self.job_taken(&restarted) {
            return Err(precommit_request_conflict());
        }
        let outcome = PreCommitMutationOutcome { precommit: restarted.clone(), replayed: false };
        let kept = restarted.clone();
        self.precommits.insert(key, restarted);
        self.mutations.insert(mutation_key, PreCommitMutation::Restart { request, result: kept });
        assert(self@.commits == old(self)@.commits);
        assert(is_restarted(
            old(self)@,
            self@,
            request,
            made,
            Ok::<PreCommitMutationOutcome, CentralError>(outcome),
        ));
        Ok(outcome)
    }
}

/// The records of the Commit that a Pre-commit was frozen on: none for the first one, and unknown
/// where the Commit is not stored.
pub open spec fn is_base(
    view: PreCommitView,
    stored: PreCommitRecord,
    base: Option<&Vec<FileRecord>>,
) -> bool {
    match stored.frozen_head_commit_id {
        None => base matches Some(records) && records@.len() == 0,
        Some(commit_id) => {
            let name = (
                stored.tenant_id@,
                (stored.project_id@, (stored.artifact_id@, commit_id@)),
            );
            &&& base is Some <==> view.commits.contains_key(name)
            &&& base matches Some(records) ==> *records == view.commits[name].records
        },
    }
}

/// A stored Pre-commit is replaced where it changed.
pub open spec fn is_refreshed(
    before: PreCommitView,
    after: PreCommitView,
    stored: PreCommitRecord,
    updated: PreCommitRecord,
) -> bool {
    if updated.same(stored) {
        after == before
    } else {
        &&& after.precommits == before.precommits.insert(stored.key_name(), updated)
        &&& after.commits == before.commits
        &&& after.mutations == before.mutations
    }
}

impl InMemoryPreCommitRepository {
    /// Cancels a Pre-commit, or recognises that this was done. `apply` gives what the request makes
    /// of the stored one.
    pub fn cancel<F: Fn(PreCommitRecord) -> CentralResult<PreCommitRecord>>(
        &mut self,
        request: PreCommitCancelRequest,
        apply: F,
    ) -> (result: CentralResult<PreCommitMutationOutcome>)
        requires
            old(self).well_formed(),
            forall|record: PreCommitRecord| #[trigger] call_requires(apply, (record,)),
            forall|record: PreCommitRecord, applied: CentralResult<PreCommitRecord>| #[trigger]
                call_ensures(apply, (record,), applied) ==> (applied matches Ok(cancelled)
                    ==> keeps_hold(record, cancelled)),
        ensures
            final(self).well_formed(),
            match earlier(old(self)@, request.key.tenant_id@, request.cancel_request_id@) {
                Some(PreCommitMutation::Cancel { request: stored, result: made }) if stored.same(
                    request,
                ) => {
                    &&& final(self)@ == old(self)@
                    &&& result matches Ok(outcome) && outcome.replayed && outcome.precommit == made
                },
                Some(_) => final(self)@ == old(self)@ && fault_of(result) == Some(
                    request_conflict_fault(),
                ),
                None => if !old(self)@.precommits.contains_key(request.key.name()) {
                    final(self)@ == old(self)@ && fault_of(result) == Some(not_found_fault())
                } else {
                    exists|applied: CentralResult<PreCommitRecord>| #[trigger]
                        call_ensures(
                            apply,
                            (old(self)@.precommits[request.key.name()],),
                            applied,
                        ) && is_cancelled(old(self)@, final(self)@, request, applied, result)
                },
            },
    {
        let mutation_key = (request.key.tenant_id.clone(), request.cancel_request_id.clone());
        if let Some(existing) = self.mutations.get(&mutation_key) {
            return match existing {
                PreCommitMutation::Cancel { request: stored, result } => if *stored == request {
                    Ok(PreCommitMutationOutcome { precommit: result.clone(), replayed: true })
                } else {
                    Err(precommit_request_conflict())
                },
                _ => Err(precommit_request_conflict()),
            };
        }
        let key = (request.key.tenant_id.clone(), request.key.precommit_id.clone());
        let stored = match self.precommits.get(&key) {
            Some(stored) => stored.clone(),
            None => return Err(precommit_not_found()),
        };
        let ghost before = stored;
        let applied = apply(stored);
        let ghost made = applied;
        assert(call_ensures(apply, (before,), made));
        let cancelled = match applied {
            Ok(cancelled) => cancelled,
            Err(problem) => {
                assert(is_cancelled(
                    old(self)@,
                    self@,
                    request,
                    made,
                    Err::<PreCommitMutationOutcome, CentralError>(problem),
                ));
                return Err(problem);
            },
        };
        let outcome = PreCommitMutationOutcome { precommit: cancelled.clone(), replayed: false };
        let kept = cancelled.clone();
        self.precommits.insert(key, cancelled);
        self.mutations.insert(mutation_key, PreCommitMutation::Cancel { request, result: kept });
        assert(self@.commits == old(self)@.commits);
        assert(is_cancelled(
            old(self)@,
            self@,
            request,
            made,
            Ok::<PreCommitMutationOutcome, CentralError>(outcome),
        ));
        Ok(outcome)
    }

    /// Makes a Pre-commit a Commit, or recognises that this was done. `apply` gives what the request
    /// makes of the stored one.
    pub fn commit<F: Fn(PreCommitRecord) -> CentralResult<PreCommitCommitSnapshot>>(
        &mut self,
        request: PreCommitCommitRequest,
        apply: F,
    ) -> (result: CentralResult<PreCommitCommitOutcome>)
        requires
            old(self).well_formed(),
            forall|record: PreCommitRecord| #[trigger] call_requires(apply, (record,)),
            forall|record: PreCommitRecord, applied: CentralResult<PreCommitCommitSnapshot>|
                #[trigger]
                call_ensures(apply, (record,), applied) ==> (applied matches Ok(consumed)
                    ==> keeps_hold(record, consumed.consumed_precommit)),
        ensures
            final(self).well_formed(),
            answers_commit(old(self)@, final(self)@, request, apply, result),
    {
        let mutation_key = (request.key.tenant_id.clone(), request.commit_request_id.clone());
        if let Some(existing) = self.mutations.get(&mutation_key) {
            return match existing {
                PreCommitMutation::Commit { request: stored, result } => if *stored == request {
                    Ok(PreCommitCommitOutcome::from_snapshot(result.clone(), true))
                } else {
                    Err(precommit_request_conflict())
                },
                _ => Err(precommit_request_conflict()),
            };
        }
        let key = (request.key.tenant_id.clone(), request.key.precommit_id.clone());
        let stored = match self.precommits.get(&key) {
            Some(stored) => stored.clone(),
            None => return Err(precommit_not_found()),
        };
        let ghost before = stored;
        let applied = apply(stored);
        let ghost made = applied;
        assert(call_ensures(apply, (before,), made));
        let consumed = match applied {
            Ok(consumed) => consumed,
            Err(problem) => {
                assert(is_committed(
                    old(self)@,
                    self@,
                    request,
                    made,
                    Err::<PreCommitCommitOutcome, CentralError>(problem),
                ));
                return Err(problem);
            },
        };
        let commit_key = (
            consumed.commit.tenant_id.clone(),
            (
                consumed.commit.project_id.clone(),
                (consumed.commit.artifact_id.clone(), consumed.commit.commit_id),
            ),
        );
        if self.commits.contains(&commit_key) {
            return Err(precommit_request_conflict());
        }
        let outcome = PreCommitCommitOutcome {
            commit: consumed.commit.clone(),
            consumed_precommit: consumed.consumed_precommit.clone(),
            replayed: false,
        };
        self.commits.insert(commit_key, consumed.commit.clone());
        self.precommits.insert(key, consumed.consumed_precommit.clone());
        self.mutations.insert(
            mutation_key,
            PreCommitMutation::Commit { request, result: consumed },
        );
        proof {
            let name = commit_name(consumed.commit);
            assert(self@.commits.dom() =~= old(self)@.commits.dom().insert(name));
            assert(is_committed(
                old(self)@,
                self@,
                request,
                made,
                Ok::<PreCommitCommitOutcome, CentralError>(outcome),
            ));
        }
        Ok(outcome)
    }

    /// Brings the Pre-commit of a job in step with it. `apply` gives what the job makes of the
    /// stored one, given the records that it was frozen on; nothing where the job is none of its
    /// business.
    pub fn sync_job<
        F: Fn(PreCommitRecord, Option<&Vec<FileRecord>>) -> CentralResult<Option<PreCommitRecord>>,
    >(&mut self, tenant_id: &TenantId, job_id: &JobId, apply: F) -> (result: CentralResult<
        Option<PreCommitRecord>,
    >)
        requires
            old(self).well_formed(),
            forall|record: PreCommitRecord, base: Option<&Vec<FileRecord>>| #[trigger]
                call_requires(apply, (record, base)),
            forall|
                record: PreCommitRecord,
                base: Option<&Vec<FileRecord>>,
                applied: CentralResult<Option<PreCommitRecord>>,
            | #[trigger]
                call_ensures(apply, (record, base), applied) ==> (applied matches Ok(Some(updated))
                    ==> keeps_hold(record, updated)),
        ensures
            final(self).well_formed(),
            if job_is_served(old(self)@, tenant_id@, job_id@) {
                exists|
                    name: PreCommitName,
                    base: Option<&Vec<FileRecord>>,
                    applied: CentralResult<Option<PreCommitRecord>>,
                |
                    {
                        let stored = old(self)@.precommits[name];
                        &&& old(self)@.precommits.contains_key(name)
                        &&& serves_job(stored, tenant_id@, job_id@)
                        &&& is_base(old(self)@, stored, base)
                        &&& #[trigger] call_ensures(
                            apply,
                            (old(self)@.precommits[name], base),
                            applied,
                        )
                        &&& match applied {
                            Err(problem) => final(self)@ == old(self)@ && fault_of(result) == Some(
                                problem@,
                            ),
                            Ok(None) => final(self)@ == old(self)@ && result == CentralResult::<
                                Option<PreCommitRecord>,
                            >::Ok(None),
                            Ok(Some(updated)) => {
                                &&& result == CentralResult::<Option<PreCommitRecord>>::Ok(
                                    Some(updated),
                                )
                                &&& is_refreshed(old(self)@, final(self)@, stored, updated)
                            },
                        }
                    }
            } else {
                final(self)@ == old(self)@ && result == CentralResult::<Option<PreCommitRecord>>::Ok(
                    None,
                )
            },
    {
        let place = match self.find_job(tenant_id, job_id) {
            Some(place) => place,
            None => return Ok(None),
        };
        let entry = self.precommits.entry_at(place);
        let stored = entry.1.clone();
        let key = (stored.tenant_id.clone(), stored.precommit_id.clone());
        let ghost name = stored.key_name();
        let ghost before = stored;
        proof {
            lemma_entry_is_mapped(self.precommits.entries(), place as int);
            assert(self@.precommits.contains_key(
                self.precommits.entries()[place as int].0.name(),
            ));
        }
        let nothing: Vec<FileRecord> = Vec::new();
        let base = match stored.frozen_head_commit_id {
            None => Some(&nothing),
            Some(commit_id) => {
                let commit_key = (
                    stored.tenant_id.clone(),
                    (stored.project_id.clone(), (stored.artifact_id.clone(), commit_id)),
                );
                match self.commits.get(&commit_key) {
                    Some(commit) => Some(&commit.records),
                    None => None,
                }
            },
        };
        assert(is_base(self@, before, base));
        let applied = apply(stored.clone(), base);
        let ghost ghost_base = base;
        let ghost made = applied;
        assert(call_ensures(apply, (before, ghost_base), made));
        match applied {
            Err(problem) => Err(problem),
            Ok(None) => Ok(None),
            Ok(Some(updated)) => {
                if updated != stored {
                    self.precommits.insert(key, updated.clone());
                    assert(self@.commits == old(self)@.commits);
                    assert(self@.mutations == old(self)@.mutations);
                }
                assert(is_refreshed(old(self)@, self@, before, updated));
                Ok(Some(updated))
            },
        }
    }

    fn find_job(&self, tenant_id: &TenantId, job_id: &JobId) -> (place: Option<usize>)
        requires
            self.well_formed(),
        ensures
            place is Some <==> exists|name: PreCommitName| #[trigger]
                self@.precommits.contains_key(name) && serves_job(
                    self@.precommits[name],
                    tenant_id@,
                    job_id@,
                ),
            place matches Some(index) ==> index < self.precommits.entries().len() && serves_job(
                self.precommits.entries()[index as int].1,
                tenant_id@,
                job_id@,
            ),
    {
        let ghost entries = self.precommits.entries();
        let mut index: usize = 0;
        while index < self.precommits.len()
            invariant
                self.well_formed(),
                entries == self.precommits.entries(),
                index <= entries.len(),
                forall|i: int|
                    0 <= i < index ==> !serves_job((#[trigger] entries[i]).1, tenant_id@, job_id@),
            decreases entries.len() - index,
        {
            let record = &self.precommits.entry_at(index).1;
            if record.tenant_id == *tenant_id && record.job_id == *job_id {
                proof {
                    lemma_entry_is_mapped(entries, index as int);
                    assert(self@.precommits.contains_key(entries[index as int].0.name()));
                }
                return Some(index);
            }
            index += 1;
        }
        proof {
            assert forall|name: PreCommitName| #[trigger]
                self@.precommits.contains_key(name) implies !serves_job(
                self@.precommits[name],
                tenant_id@,
                job_id@,
            ) by {
                let at = lemma_mapped_is_entry(entries, name);
                assert(!serves_job(entries[at].1, tenant_id@, job_id@));
            }
        }
        None
    }

    /// Records that a Commit became the Head of its Artifact. `apply` gives what that makes of the
    /// stored Pre-commit.
    pub fn acknowledge_head_publication<F: Fn(PreCommitRecord) -> CentralResult<PreCommitRecord>>(
        &mut self,
        key: &PreCommitKey,
        apply: F,
    ) -> (result: CentralResult<PreCommitRecord>)
        requires
            old(self).well_formed(),
            forall|record: PreCommitRecord| #[trigger] call_requires(apply, (record,)),
            forall|record: PreCommitRecord, applied: CentralResult<PreCommitRecord>| #[trigger]
                call_ensures(apply, (record,), applied) ==> (applied matches Ok(acknowledged)
                    ==> keeps_hold(record, acknowledged)),
        ensures
            final(self).well_formed(),
            if !old(self)@.precommits.contains_key(key.name()) {
                final(self)@ == old(self)@ && fault_of(result) == Some(not_found_fault())
            } else {
                exists|applied: CentralResult<PreCommitRecord>|
                    {
                        let stored = old(self)@.precommits[key.name()];
                        &&& #[trigger] call_ensures(
                            apply,
                            (old(self)@.precommits[key.name()],),
                            applied,
                        )
                        &&& match applied {
                            Err(problem) => final(self)@ == old(self)@ && fault_of(result) == Some(
                                problem@,
                            ),
                            Ok(updated) => {
                                &&& result == CentralResult::<PreCommitRecord>::Ok(updated)
                                &&& is_refreshed(old(self)@, final(self)@, stored, updated)
                            },
                        }
                    }
            },
    {
        let name = (key.tenant_id.clone(), key.precommit_id.clone());
        let stored = match self.precommits.get(&name) {
            Some(stored) => stored.clone(),
            None => return Err(precommit_not_found()),
        };
        let ghost before = stored;
        let applied = apply(stored.clone());
        let ghost made = applied;
        assert(call_ensures(apply, (before,), made));
        match applied {
            Err(problem) => Err(problem),
            Ok(acknowledged) => {
                if acknowledged != stored {
                    self.precommits.insert(name, acknowledged.clone());
                    assert(self@.commits == old(self)@.commits);
                    assert(self@.mutations == old(self)@.mutations);
                }
                assert(is_refreshed(old(self)@, self@, before, acknowledged));
                Ok(acknowledged)
            },
        }
    }
}

/// A Pre-commit that a job serves.
pub open spec fn serves_job(
    record: PreCommitRecord,
    tenant_id: Seq<char>,
    job_id: Seq<char>,
) -> bool {
    record.tenant_id@ == tenant_id && record.job_id@ == job_id
}

/// Some Pre-commit serves a job.
pub open spec fn job_is_served(
    view: PreCommitView,
    tenant_id: Seq<char>,
    job_id: Seq<char>,
) -> bool {
    exists|name: PreCommitName| #[trigger]
        view.precommits.contains_key(name) && serves_job(view.precommits[name], tenant_id, job_id)
}

/// A Pre-commit that holds a Playground.
pub open spec fn holds_playground(
    record: PreCommitRecord,
    tenant_id: Seq<char>,
    project_id: Seq<char>,
    artifact_id: Seq<char>,
    playground_id: Seq<char>,
) -> bool {
    &&& record.tenant_id@ == tenant_id
    &&& record.project_id@ == project_id
    &&& record.artifact_id@ == artifact_id
    &&& record.playground_id@ == playground_id
    &&& is_active(record.state)
}

/// A name that comes strictly after a cursor, if there is one.
pub open spec fn is_after(name: PreCommitName, after: Option<&PreCommitKey>) -> bool {
    after matches Some(cursor) ==> job_precedes(cursor.name(), name)
}

fn is_past(key: &(Identifier, Identifier), after: Option<&PreCommitKey>) -> (past: bool)
    ensures
        past == is_after(key.name(), after),
{
    match after {
        Some(cursor) => cursor.tenant_id.is_before(&key.0) || (cursor.tenant_id == key.0
            && cursor.precommit_id.is_before(&key.1)),
        None => true,
    }
}

/// Running Pre-commits after a cursor.
pub open spec fn running_after(after: Option<&PreCommitKey>) -> spec_fn(
    ((Identifier, Identifier), PreCommitRecord),
) -> bool {
    |entry: ((Identifier, Identifier), PreCommitRecord)|
        is_after(entry.0.name(), after) && entry.1.state is Running
}

/// Commits after a cursor that are not the Head of their Artifact yet.
pub open spec fn unpublished_after(after: Option<&PreCommitKey>) -> spec_fn(
    ((Identifier, Identifier), PreCommitRecord),
) -> bool {
    |entry: ((Identifier, Identifier), PreCommitRecord)|
        is_after(entry.0.name(), after) && entry.1.state is Committed
            && entry.1.head_published_at_unix_ms is None
}

} // verus!
