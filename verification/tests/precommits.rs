use neoengramd::digest::ContentDigest;
use neoengramd::error::{CentralError, CentralErrorCode, CentralResult};
use neoengramd::identifier::Identifier;
use neoengramd::memory::precommit::InMemoryPreCommitRepository;
use neoengramd::precommit::{
    precommit_is_active, CommitRecord, PreCommitCancelRequest, PreCommitCommitRequest,
    PreCommitCommitSnapshot, PreCommitKey, PreCommitRecord, PreCommitRestartRequest,
    PreCommitStartRequest, PreCommitState,
};
use neoengramd::storage::commits::{begin_commit, conclude_commit, CommitStep, StoredCommit};

fn id(text: &str) -> Identifier {
    Identifier::new(text.to_owned())
}

fn digest(byte: u8) -> ContentDigest {
    ContentDigest::from_bytes([byte; 32])
}

fn code<T>(result: CentralResult<T>) -> CentralErrorCode {
    match result {
        Ok(_) => panic!("expected a failure"),
        Err(error) => error.code(),
    }
}

fn request(name: &str, detail: &str) -> PreCommitStartRequest {
    PreCommitStartRequest {
        tenant_id: id("tenant-1"),
        precommit_request_id: id(name),
        detail: id(detail),
    }
}

fn record(name: &str, job: &str, playground: &str) -> PreCommitRecord {
    PreCommitRecord {
        tenant_id: id("tenant-1"),
        precommit_id: id(name),
        precommit_request_id: id("start-1"),
        project_id: id("project-1"),
        artifact_id: id("artifact-1"),
        playground_id: id(playground),
        job_id: id(job),
        state: PreCommitState::Running,
        attempt: 1,
        resource_version: 1,
        frozen_head_commit_id: None,
        head_published_at_unix_ms: None,
        detail: id(""),
    }
}

fn key(name: &str) -> PreCommitKey {
    PreCommitKey::new(id("tenant-1"), id(name))
}

fn started() -> InMemoryPreCommitRepository {
    let mut repository = InMemoryPreCommitRepository::new();
    let outcome = repository.start(
        request("start-1", ""),
        Ok(record("pre-1", "job-1", "playground-1")),
    );
    assert!(outcome.is_ok_and(|outcome| !outcome.replayed));
    repository
}

fn with_state(mut record: PreCommitRecord, state: PreCommitState) -> PreCommitRecord {
    record.state = state;
    record.resource_version += 1;
    record
}

#[test]
fn starting_again_replays_the_same_request_only() {
    let mut repository = started();
    let again = repository.start(
        request("start-1", ""),
        Ok(record("pre-9", "job-9", "playground-9")),
    );
    assert!(again.is_ok_and(|outcome| outcome.replayed
        && outcome.precommit == record("pre-1", "job-1", "playground-1")));
    assert!(repository
        .start(
            request("start-1", "other"),
            Ok(record("pre-9", "job-9", "playground-9"))
        )
        .is_err());
    let refused = CentralError::new(CentralErrorCode::InvalidState, "no".to_owned());
    assert_eq!(
        code(repository.start(request("start-2", ""), Err(refused))),
        CentralErrorCode::InvalidState
    );
}

#[test]
fn a_playground_has_one_active_precommit_and_a_job_has_one() {
    let mut repository = started();
    assert!(repository
        .start(
            request("start-2", ""),
            Ok(record("pre-2", "job-2", "playground-1"))
        )
        .is_err());
    assert!(repository
        .start(
            request("start-3", ""),
            Ok(record("pre-3", "job-1", "playground-2"))
        )
        .is_err());
    assert!(repository
        .start(
            request("start-4", ""),
            Ok(record("pre-4", "job-4", "playground-2"))
        )
        .is_ok());
    let active = repository.get_active(
        &id("tenant-1"),
        &id("project-1"),
        &id("artifact-1"),
        &id("playground-1"),
    );
    assert!(active.is_some_and(|found| found.precommit_id == id("pre-1")));
    assert_eq!(repository.list_running(None, 10).len(), 2);
    assert_eq!(repository.list_running(Some(&key("pre-1")), 10).len(), 1);
    assert!(repository.list_running(None, 0).is_empty());
}

#[test]
fn cancelling_frees_the_playground_and_replays() {
    let mut repository = started();
    let cancel = || PreCommitCancelRequest {
        key: key("pre-1"),
        cancel_request_id: id("cancel-1"),
        detail: id(""),
    };
    let cancelled = repository.cancel(cancel(), |record: PreCommitRecord| {
        Ok(with_state(record, PreCommitState::Cancelled))
    });
    assert!(cancelled.is_ok_and(|outcome| !precommit_is_active(&outcome.precommit)));
    let again = repository.cancel(cancel(), |_: PreCommitRecord| {
        Err(CentralError::new(CentralErrorCode::Internal, "asked".to_owned()))
    });
    assert!(again.is_ok_and(|outcome| outcome.replayed));
    assert!(repository
        .start(
            request("start-2", ""),
            Ok(record("pre-2", "job-2", "playground-1"))
        )
        .is_ok());
    let restarted = repository.restart(
        PreCommitRestartRequest {
            key: key("pre-1"),
            restart_request_id: id("restart-1"),
            detail: id(""),
        },
        |record: PreCommitRecord| Ok(with_state(record, PreCommitState::Running)),
    );
    assert!(restarted.is_err());
}

#[test]
fn restarting_takes_a_new_job() {
    let mut repository = started();
    let restart = |repository: &mut InMemoryPreCommitRepository, name: &str, job: &'static str| {
        repository.restart(
            PreCommitRestartRequest {
                key: key(name),
                restart_request_id: id("restart-1"),
                detail: id(""),
            },
            move |record: PreCommitRecord| {
                let mut record = with_state(record, PreCommitState::Running);
                record.job_id = id(job);
                record.attempt += 1;
                Ok(record)
            },
        )
    };
    assert!(restart(&mut repository, "pre-9", "job-2").is_err());
    assert!(restart(&mut repository, "pre-1", "job-2").is_ok_and(|outcome| {
        outcome.precommit.attempt == 2 && outcome.precommit.job_id == id("job-2")
    }));
    assert!(restart(&mut repository, "pre-1", "job-3").is_ok_and(|outcome| outcome.replayed));
}

#[test]
fn a_commit_consumes_its_precommit_and_is_published_once() {
    let mut repository = started();
    let ready = repository.sync_job(&id("tenant-1"), &id("job-1"), |record, base| {
        assert!(base.is_some_and(|files| files.is_empty()));
        Ok(Some(with_state(record, PreCommitState::Ready)))
    });
    assert!(ready.is_ok_and(|found| found.is_some_and(|found| found.resource_version == 2)));
    assert!(repository
        .sync_job(&id("tenant-1"), &id("job-9"), |record, _| Ok(Some(record)))
        .is_ok_and(|found| found.is_none()));
    let commit = |repository: &mut InMemoryPreCommitRepository| {
        repository.commit(
            PreCommitCommitRequest {
                key: key("pre-1"),
                commit_request_id: id("commit-1"),
                detail: id(""),
            },
            |record: PreCommitRecord| {
                let consumed = with_state(record, PreCommitState::Committed);
                Ok(PreCommitCommitSnapshot {
                    commit: CommitRecord {
                        tenant_id: consumed.tenant_id.clone(),
                        project_id: consumed.project_id.clone(),
                        artifact_id: consumed.artifact_id.clone(),
                        commit_id: digest(7),
                        commit_request_id: id("commit-1"),
                        source_precommit_id: consumed.precommit_id.clone(),
                        records: vec![],
                        detail: id(""),
                    },
                    consumed_precommit: consumed,
                })
            },
        )
    };
    assert!(commit(&mut repository).is_ok_and(|outcome| !outcome.replayed));
    assert!(commit(&mut repository).is_ok_and(|outcome| outcome.replayed));
    assert!(repository
        .get_commit(&id("tenant-1"), &id("project-1"), &id("artifact-1"), digest(7))
        .is_some());
    assert_eq!(repository.list_unpublished_commits(None, 10).len(), 1);
    let acknowledged = repository.acknowledge_head_publication(
        &key("pre-1"),
        |record: PreCommitRecord| {
            let mut record = record;
            record.head_published_at_unix_ms = Some(9);
            Ok(record)
        },
    );
    assert!(acknowledged.is_ok());
    assert!(repository.list_unpublished_commits(None, 10).is_empty());
    assert!(repository
        .get(&key("pre-1"))
        .is_some_and(|found| found.state == PreCommitState::Committed));
}

fn committed(record: PreCommitRecord) -> PreCommitCommitSnapshot {
    let consumed = with_state(record, PreCommitState::Committed);
    PreCommitCommitSnapshot {
        commit: CommitRecord {
            tenant_id: consumed.tenant_id.clone(),
            project_id: consumed.project_id.clone(),
            artifact_id: consumed.artifact_id.clone(),
            commit_id: digest(7),
            commit_request_id: id("commit-1"),
            source_precommit_id: consumed.precommit_id.clone(),
            records: vec![],
            detail: id(""),
        },
        consumed_precommit: consumed,
    }
}

#[test]
fn a_commit_stores_both_or_neither_and_replays() {
    let mut repository = started();
    let request = |detail: &str| PreCommitCommitRequest {
        key: key("pre-1"),
        commit_request_id: id("commit-1"),
        detail: id(detail),
    };
    let found = |repository: &InMemoryPreCommitRepository| {
        repository.get_commit(&id("tenant-1"), &id("project-1"), &id("artifact-1"), digest(7))
    };
    let refused = repository.commit(request(""), |_: PreCommitRecord| {
        Err(CentralError::new(
            CentralErrorCode::InvalidState,
            "not ready".to_owned(),
        ))
    });
    assert_eq!(code(refused), CentralErrorCode::InvalidState);
    assert!(found(&repository).is_none());
    assert!(repository.get(&key("pre-1")) == Some(record("pre-1", "job-1", "playground-1")));

    let first = repository
        .commit(request(""), |record: PreCommitRecord| Ok(committed(record)))
        .unwrap_or_else(|_| panic!("expected a commit"));
    assert!(!first.replayed);
    assert_eq!(first.consumed_precommit.resource_version, 2);
    assert!(repository.get(&key("pre-1")).as_ref() == Some(&first.consumed_precommit));
    assert!(found(&repository).as_ref() == Some(&first.commit));

    let again = repository
        .commit(request(""), |_: PreCommitRecord| panic!("applied twice"))
        .unwrap_or_else(|_| panic!("expected a replay"));
    assert!(again.replayed && again.commit == first.commit);
    assert!(again.consumed_precommit == first.consumed_precommit);

    let other = repository
        .commit(request("other"), |_: PreCommitRecord| panic!("applied twice"))
        .err()
        .unwrap_or_else(|| panic!("expected a refusal"));
    assert_eq!(other.code(), CentralErrorCode::ConcurrentUpdate);
    assert!(!other.retryable());
    assert!(repository.get(&key("pre-1")).as_ref() == Some(&first.consumed_precommit));
    assert!(found(&repository).as_ref() == Some(&first.commit));
}

#[test]
fn a_durable_commit_moves_the_version_by_one_and_replays() {
    let request = |detail: &str| PreCommitCommitRequest {
        key: key("pre-1"),
        commit_request_id: id("commit-1"),
        detail: id(detail),
    };
    let stored = || Some(record("pre-1", "job-1", "playground-1"));
    let begin = |earlier: Option<StoredCommit>, found: Option<PreCommitRecord>, detail: &str| {
        begin_commit(earlier, found, &request(detail), |record| Ok(committed(record)))
    };
    assert_eq!(
        begin(None, None, "").err().map(|error| error.code()),
        Some(neoengramd::precommit::precommit_not_found().code())
    );
    let (previous, snapshot) = match begin(None, stored(), "") {
        Ok(CommitStep::Candidate { previous, snapshot }) => (previous, snapshot),
        _ => panic!("expected a candidate"),
    };
    assert_eq!(previous, 1);
    let taken = conclude_commit(previous, snapshot.clone(), true, Ok(()));
    assert_eq!(code(taken), CentralErrorCode::ConcurrentUpdate);
    let jumped = conclude_commit(previous + 1, snapshot.clone(), false, Ok(()));
    assert_eq!(code(jumped), CentralErrorCode::ConcurrentUpdate);
    let outcome = conclude_commit(previous, snapshot.clone(), false, Ok(()))
        .unwrap_or_else(|_| panic!("expected a commit"));
    assert!(!outcome.replayed && outcome.commit == snapshot.commit);
    assert_eq!(outcome.consumed_precommit.resource_version, 2);

    let made = |kind: &str| {
        Some(StoredCommit {
            kind: kind.to_owned(),
            request: request(""),
            result: snapshot.clone(),
        })
    };
    assert!(begin(made("commit"), None, "").is_ok_and(
        |step| matches!(step, CommitStep::Replay(found) if found == snapshot)
    ));
    for refused in [begin(made("commit"), stored(), "other"), begin(made("start"), stored(), "")] {
        let refused = refused.err().unwrap_or_else(|| panic!("expected a refusal"));
        assert_eq!(refused.code(), CentralErrorCode::ConcurrentUpdate);
        assert!(!refused.retryable());
    }
}
