//! The jobs of every tenant, by tenant and job.
use vstd::prelude::*;

use crate::equality::Same;
use crate::error::{fault, fault_of, CentralError, CentralErrorCode, CentralResult, Fault};
use crate::identifier::{AgentId, ResourceVersion, UnixMillis};
use crate::model::{job_precedes, JobKey, JobRecord};
use crate::ports::JobInsertOutcome;
use crate::protocol::{JobOperation, JobState};
use crate::table::{first_kept, is_walk, select, Named, OrderedKey, Replicate, Table};

verus! {

/// A job that a scheduler, an expiry or a publication still has to move on.
pub open spec fn is_recoverable(job: JobRecord, now: UnixMillis) -> bool {
    let waits = job.state is Assigned || job.state is Accepted || job.state is Running;
    if job.operation is WorkspaceMaterialize || job.operation is SnapshotMount {
        job.state is Queued || waits
    } else {
        ||| job.state is Queued
        ||| job.state is Prepared
        ||| job.state is Publishing
        ||| job.spec.deadline_unix_ms <= now && (waits || job.state is CancelRequested)
    }
}

/// Tells whether a job still has to be moved on.
#[must_use]
pub fn mapper_recovery_predicate(job: &JobRecord, now: UnixMillis) -> (recoverable: bool)
    ensures
        recoverable == is_recoverable(*job, now),
{
    if job.operation == JobOperation::WorkspaceMaterialize || job.operation
        == JobOperation::SnapshotMount {
        return matches!(
            job.state,
            JobState::Queued | JobState::Assigned | JobState::Accepted | JobState::Running
        );
    }
    matches!(job.state, JobState::Queued | JobState::Prepared | JobState::Publishing) || (
    job.spec.deadline_unix_ms <= now && matches!(
        job.state,
        JobState::Assigned | JobState::Accepted | JobState::Running | JobState::CancelRequested
    ))
}

/// A decision that an Agent has not acknowledged.
pub open spec fn is_pending_for(job: JobRecord, agent_id: Seq<char>) -> bool {
    &&& job.decision is Some
    &&& job.finalized_ack is None
    &&& job.assignment matches Some(assignment)
    &&& assignment.agent_id@ == agent_id
}

/// Tells whether a job holds a decision that an Agent has not acknowledged.
#[must_use]
pub fn pending_decision_for_agent(job: &JobRecord, agent_id: &AgentId) -> (pending: bool)
    ensures
        pending == is_pending_for(*job, agent_id@),
{
    if job.decision.is_none() || job.finalized_ack.is_some() {
        return false;
    }
    match &job.assignment {
        Some(assignment) => assignment.agent_id == *agent_id,
        None => false,
    }
}

/// A name that comes strictly after a cursor, if there is one.
pub open spec fn is_after(name: (Seq<char>, Seq<char>), after: Option<&JobKey>) -> bool {
    after matches Some(cursor) ==> job_precedes(
        (cursor.tenant_id@, cursor.job_id@),
        name,
    )
}

/// Why a job does not replace the stored one.
pub open spec fn job_replace_fault(
    jobs: Map<(Seq<char>, Seq<char>), JobRecord>,
    expected: ResourceVersion,
    job: JobRecord,
) -> Option<Fault> {
    if !jobs.contains_key(job.key_name()) {
        Some(
            fault(
                CentralErrorCode::JobNotFound,
                "job "@ + job.spec.job_id@ + " disappeared during update"@,
            ),
        )
    } else if jobs[job.key_name()].resource_version != expected || job.resource_version != (if expected
        == u64::MAX {
        expected as int
    } else {
        expected + 1
    }) {
        Some(
            fault(
                CentralErrorCode::ConcurrentUpdate,
                "job "@ + job.spec.job_id@ + " ResourceVersion changed"@,
            ),
        )
    } else {
        None
    }
}

pub struct InMemoryJobRepository {
    jobs: Table<JobKey, JobRecord>,
}

impl View for InMemoryJobRepository {
    type V = Map<(Seq<char>, Seq<char>), JobRecord>;

    closed spec fn view(&self) -> Map<(Seq<char>, Seq<char>), JobRecord> {
        self.jobs@
    }
}

impl InMemoryJobRepository {
    /// The jobs in the order of their keys.
    pub closed spec fn entries(self) -> Seq<(JobKey, JobRecord)> {
        self.jobs.entries()
    }

    /// Every job is stored under its own key.
    pub closed spec fn well_formed(self) -> bool {
        &&& self.jobs.well_formed()
        &&& forall|name: (Seq<char>, Seq<char>)| #[trigger]
            self.jobs@.contains_key(name) ==> self.jobs@[name].key_name() == name
    }

    #[must_use]
    pub fn new() -> (repository: Self)
        ensures
            repository.well_formed(),
            repository@ == Map::<(Seq<char>, Seq<char>), JobRecord>::empty(),
    {
        Self { jobs: Table::new() }
    }

    /// Every job, in the order of their keys.
    #[must_use]
    pub fn all(&self) -> (jobs: Vec<JobRecord>)
        requires
            self.well_formed(),
        ensures
            is_walk(self.entries(), self@),
            jobs@.same(self.entries().map_values(|entry: (JobKey, JobRecord)| entry.1)),
    {
        let mut jobs: Vec<JobRecord> = Vec::new();
        let mut index: usize = 0;
        while index < self.jobs.len()
            invariant
                index <= self.entries().len(),
                jobs@.len() == index,
                forall|i: int|
                    0 <= i < index ==> (#[trigger] jobs@[i]).same(self.entries()[i].1),
            decreases self.entries().len() - index,
        {
            jobs.push(self.jobs.entry_at(index).1.replica());
            index += 1;
        }
        jobs
    }

    #[must_use]
    pub fn get(&self, key: &JobKey) -> (job: Option<JobRecord>)
        requires
            self.well_formed(),
        ensures
            job is Some <==> self@.contains_key(key.name()),
            job matches Some(found) ==> found.same(self@[key.name()]),
    {
        match self.jobs.get(key) {
            Some(job) => Some(job.replica()),
            None => None,
        }
    }

    /// The first `limit` jobs after a cursor that still have to be moved on.
    #[must_use]
    pub fn list_recoverable(&self, after: Option<&JobKey>, now: UnixMillis, limit: usize) -> (jobs:
        Vec<JobRecord>)
        requires
            self.well_formed(),
        ensures
            is_walk(self.entries(), self@),
            jobs@.same(
                first_kept(
                    self.entries(),
                    |entry: (JobKey, JobRecord)|
                        is_after(entry.0.name(), after) && is_recoverable(entry.1, now),
                    limit as nat,
                ),
            ),
    {
        let ghost kept = |entry: (JobKey, JobRecord)|
            is_after(entry.0.name(), after) && is_recoverable(entry.1, now);
        let keep = |key: &JobKey, job: &JobRecord| -> (verdict: bool)
            ensures
                verdict == (is_after(key.name(), after) && is_recoverable(*job, now)),
            {
                let passed = match after {
                    Some(cursor) => cursor.is_before(key),
                    None => true,
                };
                passed && mapper_recovery_predicate(job, now)
            };
        select(&self.jobs, keep, Ghost(kept), limit)
    }

    /// The first `limit` jobs whose decision an Agent has not acknowledged.
    #[must_use]
    pub fn list_pending_decisions_for_agent(&self, agent_id: &AgentId, limit: usize) -> (jobs: Vec<
        JobRecord,
    >)
        requires
            self.well_formed(),
        ensures
            is_walk(self.entries(), self@),
            jobs@.same(
                first_kept(
                    self.entries(),
                    |entry: (JobKey, JobRecord)| is_pending_for(entry.1, agent_id@),
                    limit as nat,
                ),
            ),
    {
        let ghost kept = |entry: (JobKey, JobRecord)| is_pending_for(entry.1, agent_id@);
        let keep = |key: &JobKey, job: &JobRecord| -> (verdict: bool)
            ensures
                verdict == is_pending_for(*job, agent_id@),
            { pending_decision_for_agent(job, agent_id) };
        select(&self.jobs, keep, Ghost(kept), limit)
    }

    /// Inserts a job, or loads the one already stored at its key.
    pub fn insert_or_load(&mut self, job: JobRecord) -> (outcome: JobInsertOutcome)
        requires
            old(self).well_formed(),
        ensures
            final(self).well_formed(),
            if old(self)@.contains_key(job.key_name()) {
                &&& final(self)@ == old(self)@
                &&& outcome matches JobInsertOutcome::Existing(existing)
                &&& existing.same(old(self)@[job.key_name()])
            } else {
                &&& final(self)@ == old(self)@.insert(job.key_name(), job)
                &&& outcome matches JobInsertOutcome::Inserted(inserted)
                &&& inserted.same(job)
            },
    {
        let key = job.key();
        if let Some(existing) = self.jobs.get(&key) {
            return JobInsertOutcome::Existing(existing.replica());
        }
        let inserted = job.replica();
        self.jobs.insert(key, job);
        JobInsertOutcome::Inserted(inserted)
    }

    /// Replaces a job that is still at the version it was read at.
    pub fn replace(&mut self, expected: ResourceVersion, job: JobRecord) -> (result: CentralResult<
        JobRecord,
    >)
        requires
            old(self).well_formed(),
        ensures
            final(self).well_formed(),
            fault_of(result) == job_replace_fault(old(self)@, expected, job),
            result is Err ==> final(self)@ == old(self)@,
            result matches Ok(stored) ==> stored.same(job) && final(self)@ == old(self)@.insert(
                job.key_name(),
                job,
            ),
    {
        let key = job.key();
        let persisted = match self.jobs.get(&key) {
            Some(persisted) => persisted,
            None => {
                let mut message = String::from_str("job ");
                message.append(key.job_id.as_str());
                message.append(" disappeared during update");
                return Err(CentralError::new(CentralErrorCode::JobNotFound, message));
            },
        };
        if persisted.resource_version != expected || job.resource_version
            != expected.saturating_add(1) {
            let mut message = String::from_str("job ");
            message.append(key.job_id.as_str());
            message.append(" ResourceVersion changed");
            return Err(CentralError::new(CentralErrorCode::ConcurrentUpdate, message));
        }
        let stored = job.replica();
        self.jobs.insert(key, job);
        Ok(stored)
    }
}

} // verus!
