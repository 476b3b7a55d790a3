//! Committing a Pre-commit in a durable store: what is decided before the write and what is written.
//! A store reads, decides and writes in one transaction, so a commit that is refused leaves nothing
//! behind.
use vstd::prelude::*;

use crate::equality::Same;
use crate::error::{fault_of, CentralErrorCode, CentralResult, Fault};
use crate::identifier::ResourceVersion;
use crate::precommit::{
    not_found_fault, precommit_not_found, precommit_request_conflict, request_conflict_fault,
    PreCommitCommitOutcome, PreCommitCommitRequest, PreCommitCommitSnapshot, PreCommitRecord,
};
use crate::storage::authority_rows::{
    advances_by_one, precommit_replace_fault, resolve_stored_mutation, validate_precommit_replace,
};

verus! {

/// The mutation that is stored under the identity of a request to commit.
pub struct StoredCommit {
    pub kind: String,
    pub request: PreCommitCommitRequest,
    pub result: PreCommitCommitSnapshot,
}

/// How a commit goes on.
pub enum CommitStep {
    /// It was made before, and this came of it.
    Replay(PreCommitCommitSnapshot),
    /// What is to be written, in place of version `previous` of the Pre-commit.
    Candidate { previous: ResourceVersion, snapshot: PreCommitCommitSnapshot },
}

/// How a commit begins: `earlier` is what is stored under the identity of its request, `stored` the
/// Pre-commit that it names, and `apply` what the request makes of that.
pub open spec fn begins_commit<F: Fn(PreCommitRecord) -> CentralResult<PreCommitCommitSnapshot>>(
    earlier: Option<StoredCommit>,
    stored: Option<PreCommitRecord>,
    request: PreCommitCommitRequest,
    apply: F,
    result: CentralResult<CommitStep>,
) -> bool {
    match (earlier, stored) {
        (Some(made), _) => if made.kind@ == "commit"@ && made.request.same(request) {
            result == CentralResult::<CommitStep>::Ok(CommitStep::Replay(made.result))
        } else {
            fault_of(result) == Some(request_conflict_fault())
        },
        (None, None) => fault_of(result) == Some(not_found_fault()),
        (None, Some(record)) => exists|applied: CentralResult<PreCommitCommitSnapshot>| #[trigger]
            call_ensures(apply, (record,), applied) && match applied {
                Err(problem) => fault_of(result) == Some(problem@),
                Ok(snapshot) => result == CentralResult::<CommitStep>::Ok(
                    CommitStep::Candidate { previous: record.resource_version, snapshot },
                ),
            },
    }
}

/// Begins a commit: recognises one that was made before, or applies the request to the stored
/// Pre-commit.
pub fn begin_commit<F: Fn(PreCommitRecord) -> CentralResult<PreCommitCommitSnapshot>>(
    earlier: Option<StoredCommit>,
    stored: Option<PreCommitRecord>,
    request: &PreCommitCommitRequest,
    apply: F,
) -> (result: CentralResult<CommitStep>)
    requires
        forall|record: PreCommitRecord| #[trigger] call_requires(apply, (record,)),
    ensures
        begins_commit(earlier, stored, *request, apply, result),
{
    if let Some(made) = earlier {
        let same_request = made.request == *request;
        resolve_stored_mutation(made.kind.as_str(), "commit", same_request)?;
        return Ok(CommitStep::Replay(made.result));
    }
    let record = match stored {
        Some(record) => record,
        None => return Err(precommit_not_found()),
    };
    let ghost given = record;
    let previous: ResourceVersion = record.resource_version;
    let applied = apply(record);
    let ghost made = applied;
    assert(call_ensures(apply, (given,), made));
    match applied {
        Ok(snapshot) => Ok(CommitStep::Candidate { previous, snapshot }),
        Err(problem) => Err(problem),
    }
}

/// Why a candidate is not written. `taken` tells whether a Commit of its name is stored, and
/// `validity` what the rules of a Pre-commit say of the consumed one.
pub open spec fn commit_write_fault(
    previous: ResourceVersion,
    snapshot: PreCommitCommitSnapshot,
    taken: bool,
    validity: CentralResult<()>,
) -> Option<Fault> {
    if taken {
        Some(request_conflict_fault())
    } else {
        precommit_replace_fault(previous, snapshot.consumed_precommit, validity)
    }
}

/// Admits a candidate to be written, and gives what the commit is answered with once it is.
pub fn conclude_commit(
    previous: ResourceVersion,
    snapshot: PreCommitCommitSnapshot,
    taken: bool,
    validity: CentralResult<()>,
) -> (result: CentralResult<PreCommitCommitOutcome>)
    ensures
        fault_of(result) == commit_write_fault(previous, snapshot, taken, validity),
        result matches Ok(outcome) ==> {
            &&& !outcome.replayed
            &&& outcome.commit == snapshot.commit
            &&& outcome.consumed_precommit == snapshot.consumed_precommit
        },
{
    if taken {
        return Err(precommit_request_conflict());
    }
    validate_precommit_replace(previous, &snapshot.consumed_precommit, validity)?;
    Ok(PreCommitCommitOutcome::from_snapshot(snapshot, false))
}

/// Whatever the request makes of a Pre-commit, what is written is one version ahead of what was
/// stored, and no Commit of its name was. The same request again gives what was written and writes
/// nothing; another payload under its identity is refused for good.
pub proof fn lemma_durable_commit_replays<
    F: Fn(PreCommitRecord) -> CentralResult<PreCommitCommitSnapshot>,
    G: Fn(PreCommitRecord) -> CentralResult<PreCommitCommitSnapshot>,
>(
    record: PreCommitRecord,
    request: PreCommitCommitRequest,
    apply: F,
    previous: ResourceVersion,
    snapshot: PreCommitCommitSnapshot,
    taken: bool,
    validity: CentralResult<()>,
    made: StoredCommit,
    stored: Option<PreCommitRecord>,
    again: PreCommitCommitRequest,
    apply_again: G,
    result: CentralResult<CommitStep>,
)
    requires
        record.resource_version < u64::MAX,
        begins_commit(
            None,
            Some(record),
            request,
            apply,
            Ok(CommitStep::Candidate { previous, snapshot }),
        ),
        commit_write_fault(previous, snapshot, taken, validity) is None,
        made.kind@ == "commit"@,
        made.request == request,
        made.result == snapshot,
        begins_commit(Some(made), stored, again, apply_again, result),
    ensures
        !taken,
        snapshot.consumed_precommit.resource_version == record.resource_version + 1,
        request.same(again) ==> result == CentralResult::<CommitStep>::Ok(
            CommitStep::Replay(snapshot),
        ),
        !request.same(again) ==> fault_of(result) == Some(request_conflict_fault()),
        !request.same(again) ==> fault_of(result)->0.code == CentralErrorCode::ConcurrentUpdate
            && !fault_of(result)->0.retryable,
{
    assert(advances_by_one(previous, snapshot.consumed_precommit.resource_version));
}

} // verus!
