//! What the Index publisher promises.
use vstd::prelude::*;

use crate::digest::ManifestId;
use crate::equality::Same;
use crate::error::{CentralError, CentralErrorCode, CentralResult};
use crate::identifier::{ArtifactId, IndexRevision, TenantId};
use crate::laws::index::{
    concerns, content_is_sound, is_last_word, is_obeyed, lemma_content_rejection,
    lemma_last_word_is_obeyed, lemma_records_error,
};
use crate::laws::jobs::fails_with;
use crate::memory::publisher::{
    catalogued, current_index, filed, stored_manifests, InMemoryIndexPublisher, IndexView,
    PublisherView,
};
use crate::model::{
    IndexKey, IndexPublishOutcome, IndexPublishRequest, InitializeIndexSnapshotRequest,
    PublishedIndex,
};
use crate::protocol::{FileRecord, Manifest, WireIndexVersion};
use crate::publication::{is_conflict, ManifestFacts};
use crate::text::text_before;

verus! {

/// The name of an Index: its tenant, its Artifact and its Playground.
pub type Name = (Seq<char>, (Seq<char>, Seq<char>));

/// An Index is at a version and holds files by path; one that nothing was published to is at the
/// empty version and holds none.
pub open spec fn is_at(
    state: PublisherView,
    name: Name,
    version: WireIndexVersion,
    records: Map<Seq<char>, FileRecord>,
) -> bool {
    if state.indexes.contains_key(name) {
        version == state.indexes[name].version && records == state.indexes[name].records
    } else {
        version == state.empty_version && records == Map::<Seq<char>, FileRecord>::empty()
    }
}

/// Reading an Index gives its version and every file of it once, in the order of their paths.
pub proof fn lemma_index_is_read_whole(
    publisher: InMemoryIndexPublisher,
    key: &IndexKey,
    version: WireIndexVersion,
    snapshot: PublishedIndex,
    published: PublishedIndex,
    records: Map<Seq<char>, FileRecord>,
)
    requires
        call_ensures(InMemoryIndexPublisher::current_version, (&publisher, key), version),
        call_ensures(InMemoryIndexPublisher::snapshot, (&publisher, key), snapshot),
        call_ensures(InMemoryIndexPublisher::published_index, (&publisher, key), published),
        is_at(
            publisher@,
            (key.tenant_id@, (key.artifact_id@, key.playground_id@)),
            version,
            records,
        ) || is_at(
            publisher@,
            (key.tenant_id@, (key.artifact_id@, key.playground_id@)),
            snapshot.version,
            records,
        ),
    ensures
        is_at(
            publisher@,
            (key.tenant_id@, (key.artifact_id@, key.playground_id@)),
            version,
            records,
        ),
        snapshot.version == version,
        published.version == version,
        holds_each_file_once(snapshot.records@, records),
        holds_each_file_once(published.records@, records),
{
}

/// A list holds every file of an Index once, in the order of their paths, and nothing else.
pub open spec fn holds_each_file_once(
    listing: Seq<FileRecord>,
    records: Map<Seq<char>, FileRecord>,
) -> bool {
    &&& forall|i: int, j: int|
        0 <= i < j < listing.len() ==> text_before(
            (#[trigger] listing[i]).path@,
            (#[trigger] listing[j]).path@,
        )
    &&& forall|i: int|
        0 <= i < listing.len() ==> records.contains_key((#[trigger] listing[i]).path@)
            && records[listing[i].path@] == listing[i]
    &&& forall|path: Seq<char>| #[trigger]
        records.contains_key(path) ==> listing.contains(records[path])
}

/// A Manifest is read back under its tenant, Artifact and identity.
pub proof fn lemma_manifest_is_read_back(
    publisher: InMemoryIndexPublisher,
    tenant_id: &TenantId,
    artifact_id: &ArtifactId,
    manifest_id: ManifestId,
    found: Option<Manifest>,
)
    requires
        call_ensures(
            InMemoryIndexPublisher::manifest,
            (&publisher, tenant_id, artifact_id, manifest_id),
            found,
        ),
    ensures
        match found {
            Some(manifest) => publisher@.manifests.contains_key(
                (tenant_id@, (artifact_id@, manifest_id@)),
            ) && manifest == publisher@.manifests[(tenant_id@, (artifact_id@, manifest_id@))],
            None => !publisher@.manifests.contains_key((tenant_id@, (artifact_id@, manifest_id@))),
        },
{
}

/// Of several files of one path the last one counts, and there is no other path.
pub open spec fn files_are_filed(
    files: Seq<FileRecord>,
    records: Map<Seq<char>, FileRecord>,
) -> bool {
    &&& forall|path: Seq<char>| #[trigger]
        records.contains_key(path) ==> exists|i: int|
            0 <= i < files.len() && (#[trigger] files[i]).path@ == path
    &&& forall|i: int|
        0 <= i < files.len() && (forall|later: int|
            i < later < files.len() ==> (#[trigger] files[later]).path@ != files[i].path@) ==> {
            &&& records.contains_key((#[trigger] files[i]).path@)
            &&& records[files[i].path@] == files[i]
        }
}

proof fn lemma_filed(files: Seq<FileRecord>, count: int)
    requires
        0 <= count <= files.len(),
    ensures
        files_are_filed(files.take(count), filed(files, count)),
    decreases count,
{
    let shown = files.take(count);
    let records = filed(files, count);
    if count > 0 {
        lemma_filed(files, count - 1);
        let before = files.take(count - 1);
        assert(forall|i: int| 0 <= i < count - 1 ==> before[i] == #[trigger] shown[i]);
        assert(shown[count - 1] == files[count - 1]);
        assert forall|path: Seq<char>| #[trigger] records.contains_key(path) implies exists|i: int|
            0 <= i < shown.len() && (#[trigger] shown[i]).path@ == path by {
            if path == files[count - 1].path@ {
                assert(shown[count - 1].path@ == path);
            } else {
                assert(filed(files, count - 1).contains_key(path));
                let i = choose|i: int|
                    0 <= i < before.len() && (#[trigger] before[i]).path@ == path;
                assert(shown[i].path@ == path);
            }
        }
        assert forall|i: int|
            0 <= i < shown.len() && (forall|later: int|
                i < later < shown.len() ==> (#[trigger] shown[later]).path@ != shown[i].path@)
            implies records.contains_key((#[trigger] shown[i]).path@) && records[shown[i].path@]
            == shown[i] by {
            if i < count - 1 {
                assert(before[i] == shown[i]);
                assert(shown[count - 1].path@ != shown[i].path@);
                assert forall|later: int| i < later < before.len() implies (
                #[trigger] before[later]).path@ != before[i].path@ by {
                    assert(before[later] == shown[later]);
                }
            }
        }
    }
}

/// Seeding gives an Index a version and files, the last file of each path, and touches nothing else.
pub proof fn lemma_seeded_index_holds_its_files(
    key: IndexKey,
    version: WireIndexVersion,
    records: Vec<FileRecord>,
)
    ensures
        forall|publisher: &mut InMemoryIndexPublisher|
            #[trigger] call_ensures(
                InMemoryIndexPublisher::seed,
                (publisher, key, version, records),
                (),
            ) ==> {
                let name = (key.tenant_id@, (key.artifact_id@, key.playground_id@));
                let after = final(publisher)@;
                &&& after.indexes.contains_key(name)
                &&& after.indexes[name].version == version
                &&& files_are_filed(records@, after.indexes[name].records)
                &&& after == PublisherView {
                    indexes: (*publisher)@.indexes.insert(name, after.indexes[name]),
                    ..(*publisher)@
                }
            },
{
    lemma_filed(records@, records@.len() as int);
    assert(records@.take(records@.len() as int) =~= records@);
}

/// An Index is initialized once: a first snapshot gives it its version and files, the same snapshot
/// again gives the version back, and a snapshot of another revision, digest or content is refused.
pub proof fn lemma_index_is_initialized_once(
    request: InitializeIndexSnapshotRequest,
    result: CentralResult<WireIndexVersion>,
)
    ensures
        forall|publisher: &mut InMemoryIndexPublisher|
            #[trigger] call_ensures(
                InMemoryIndexPublisher::initialize_snapshot,
                (publisher, request, Ok(())),
                result,
            ) ==> {
                let before = (*publisher)@;
                let after = final(publisher)@;
                let name = (
                    request.index_key.tenant_id@,
                    (request.index_key.artifact_id@, request.index_key.playground_id@),
                );
                let stored = before.indexes[name];
                if !before.indexes.contains_key(name) {
                    &&& result == Ok::<WireIndexVersion, CentralError>(request.version)
                    &&& after.indexes.contains_key(name)
                    &&& after.indexes[name].version == request.version
                    &&& files_are_filed(request.records@, after.indexes[name].records)
                    &&& after == PublisherView {
                        indexes: before.indexes.insert(name, after.indexes[name]),
                        ..before
                    }
                } else {
                    &&& after == before
                    &&& result is Err ==> fails_with(result, CentralErrorCode::ConcurrentUpdate)
                    &&& result matches Ok(version) ==> {
                        &&& version == stored.version
                        &&& stored.version.revision == request.version.revision
                        &&& stored.version.digest == request.version.digest
                    }
                    &&& forall|records: Map<Seq<char>, FileRecord>| #[trigger]
                        files_are_filed(request.records@, records) && stored.version.revision
                            == request.version.revision && stored.version.digest
                            == request.version.digest ==> (result is Ok <==> {
                            &&& stored.records.dom() == records.dom()
                            &&& forall|path: Seq<char>| #[trigger]
                                records.contains_key(path) ==> records[path].same(
                                    stored.records[path],
                                ) || stored.records[path].same(records[path])
                        })
                }
            },
{
    let files = request.records@;
    let filed_records = filed(files, files.len() as int);
    lemma_filed(files, files.len() as int);
    assert(files.take(files.len() as int) =~= files);
    assert forall|records: Map<Seq<char>, FileRecord>| #[trigger]
        files_are_filed(files, records) implies records =~= filed_records by {
        lemma_filing_is_unique(files, records, filed_records);
    }
}

proof fn lemma_filing_is_unique(
    files: Seq<FileRecord>,
    left: Map<Seq<char>, FileRecord>,
    right: Map<Seq<char>, FileRecord>,
)
    requires
        files_are_filed(files, left),
        files_are_filed(files, right),
    ensures
        left =~= right,
{
    assert forall|path: Seq<char>| left.contains_key(path) == #[trigger] right.contains_key(path)
        && (left.contains_key(path) ==> left[path] == right[path]) by {
        if left.contains_key(path) || right.contains_key(path) {
            let some = choose|i: int| 0 <= i < files.len() && (#[trigger] files[i]).path@ == path;
            let last = lemma_last_file(files, path, some);
            assert(files[last].path@ == path);
        }
    }
}

proof fn lemma_last_file(files: Seq<FileRecord>, path: Seq<char>, at: int) -> (last: int)
    requires
        0 <= at < files.len(),
        files[at].path@ == path,
    ensures
        at <= last < files.len(),
        files[last].path@ == path,
        forall|later: int| last < later < files.len() ==> (#[trigger] files[later]).path@ != path,
    decreases files.len() - at,
{
    if exists|later: int| at < later < files.len() && (#[trigger] files[later]).path@ == path {
        let later = choose|later: int|
            at < later < files.len() && (#[trigger] files[later]).path@ == path;
        lemma_last_file(files, path, later)
    } else {
        at
    }
}

/// A publication across tenants is refused; one whose job was decided before gives that decision
/// again where it asks for the same and is refused where it does not. Neither changes anything.
pub proof fn lemma_job_publishes_once<
    F: Fn(IndexRevision, &Vec<FileRecord>) -> Result<WireIndexVersion, String>,
>(
    request: IndexPublishRequest,
    facts: &Vec<ManifestFacts>,
    record_errors: &Vec<Option<String>>,
    compute: F,
    result: CentralResult<IndexPublishOutcome>,
)
    ensures
        forall|publisher: &mut InMemoryIndexPublisher|
            #[trigger] call_ensures(
                InMemoryIndexPublisher::compare_and_swap::<F>,
                (publisher, request, facts, record_errors, compute),
                result,
            ) ==> {
                let before = (*publisher)@;
                let after = final(publisher)@;
                let name = (request.job_key.tenant_id@, request.job_key.job_id@);
                if request.job_key.tenant_id@ != request.index_key.tenant_id@ {
                    fails_with(result, CentralErrorCode::MetadataInvalid) && after == before
                } else if before.publications.contains_key(name) {
                    &&& after == before
                    &&& if before.publications[name].0.same(request) {
                        result == Ok::<IndexPublishOutcome, CentralError>(
                            before.publications[name].1,
                        )
                    } else {
                        fails_with(result, CentralErrorCode::JobIdReused)
                    }
                } else {
                    &&& result matches Ok(outcome)
                    &&& after.publications == before.publications.insert(name, (request, outcome))
                    &&& after.empty_version == before.empty_version
                }
            },
{
}

/// A first publication onto another revision or digest than the one that stands conflicts and tells
/// the version that stands; it changes no Index and no Manifest.
pub proof fn lemma_stale_publication_conflicts<
    F: Fn(IndexRevision, &Vec<FileRecord>) -> Result<WireIndexVersion, String>,
>(
    request: IndexPublishRequest,
    facts: &Vec<ManifestFacts>,
    record_errors: &Vec<Option<String>>,
    compute: F,
    current: WireIndexVersion,
    records: Map<Seq<char>, FileRecord>,
    result: CentralResult<IndexPublishOutcome>,
)
    requires
        request.job_key.tenant_id@ == request.index_key.tenant_id@,
    ensures
        forall|publisher: &mut InMemoryIndexPublisher|
            #[trigger] call_ensures(
                InMemoryIndexPublisher::compare_and_swap::<F>,
                (publisher, request, facts, record_errors, compute),
                result,
            ) && !(*publisher)@.publications.contains_key(
                (request.job_key.tenant_id@, request.job_key.job_id@),
            ) && is_at(
                (*publisher)@,
                (
                    request.index_key.tenant_id@,
                    (request.index_key.artifact_id@, request.index_key.playground_id@),
                ),
                current,
                records,
            ) && (current.revision != request.expected_index_version.revision || current.digest
                != request.expected_index_version.digest) ==> {
                &&& result == Ok::<IndexPublishOutcome, CentralError>(
                    IndexPublishOutcome::Conflict(current),
                )
                &&& final(publisher)@.indexes == (*publisher)@.indexes
                &&& final(publisher)@.manifests == (*publisher)@.manifests
            },
{
}

/// A publication that goes through starts from the version that it expects, and leaves its Index at
/// the version that it tells, with the last mutation of every path obeyed and every other path as it
/// was. Every other Index stays as it is, and every Manifest that was stored; the Manifests of the
/// publication are stored with it. One that does not go through changes no Index and no Manifest.
pub proof fn lemma_publication_replaces_its_index<
    F: Fn(IndexRevision, &Vec<FileRecord>) -> Result<WireIndexVersion, String>,
>(
    request: IndexPublishRequest,
    facts: &Vec<ManifestFacts>,
    record_errors: &Vec<Option<String>>,
    compute: F,
    current: WireIndexVersion,
    records: Map<Seq<char>, FileRecord>,
    outcome: IndexPublishOutcome,
    path: Seq<char>,
    name: Name,
)
    requires
        name == (
            request.index_key.tenant_id@,
            (request.index_key.artifact_id@, request.index_key.playground_id@),
        ),
    ensures
        forall|publisher: &mut InMemoryIndexPublisher|
            #[trigger] call_ensures(
                InMemoryIndexPublisher::compare_and_swap::<F>,
                (publisher, request, facts, record_errors, compute),
                Ok::<IndexPublishOutcome, CentralError>(outcome),
            ) && !(*publisher)@.publications.contains_key(
                (request.job_key.tenant_id@, request.job_key.job_id@),
            ) && is_at((*publisher)@, name, current, records) ==> {
                let before = (*publisher)@;
                let after = final(publisher)@;
                match outcome {
                    IndexPublishOutcome::Published(version) => {
                        &&& current.revision == request.expected_index_version.revision
                        &&& current.digest == request.expected_index_version.digest
                        &&& version.digest == request.expected_result_digest
                        &&& content_is_sound(request, facts@)
                        &&& after.indexes.contains_key(name)
                        &&& after.indexes[name].version == version
                        &&& forall|last: int| #[trigger]
                            is_last_word(
                                request.mutations@,
                                request.mutations@.len() as int,
                                path,
                                last,
                            ) ==> is_obeyed(
                                after.indexes[name].records,
                                path,
                                request.mutations@[last],
                            )
                        &&& (forall|i: int|
                            0 <= i < request.mutations@.len() ==> !concerns(
                                #[trigger] request.mutations@[i],
                                path,
                            )) ==> {
                            &&& after.indexes[name].records.contains_key(path)
                                == records.contains_key(path)
                            &&& records.contains_key(path) ==> after.indexes[name].records[path]
                                == records[path]
                        }
                        &&& after.indexes == before.indexes.insert(name, after.indexes[name])
                        &&& forall|stored: (Seq<char>, (Seq<char>, Seq<u8>))| #[trigger]
                            before.manifests.contains_key(stored)
                                ==> after.manifests.contains_key(stored) && after.manifests[stored]
                                == before.manifests[stored]
                        &&& forall|i: int|
                            0 <= i < facts@.len() ==> after.manifests.contains_key(
                                (
                                    request.index_key.tenant_id@,
                                    (
                                        request.index_key.artifact_id@,
                                        (#[trigger] facts@[i]).canonical_id->Ok_0@,
                                    ),
                                ),
                            )
                    },
                    _ => after.indexes == before.indexes && after.manifests == before.manifests,
                }
            },
{
    assert forall|publisher: &mut InMemoryIndexPublisher|
        #[trigger] call_ensures(
            InMemoryIndexPublisher::compare_and_swap::<F>,
            (publisher, request, facts, record_errors, compute),
            Ok::<IndexPublishOutcome, CentralError>(outcome),
        ) && !(*publisher)@.publications.contains_key(
            (request.job_key.tenant_id@, request.job_key.job_id@),
        ) && is_at((*publisher)@, name, current, records) && outcome is Published implies {
        let before = (*publisher)@;
        &&& content_is_sound(request, facts@)
        &&& current_index(before, request.index_key) == IndexView { version: current, records }
        &&& forall|stored: (Seq<char>, (Seq<char>, Seq<u8>))| #[trigger]
            before.manifests.contains_key(stored) ==> final(publisher)@.manifests.contains_key(
                stored,
            ) && final(publisher)@.manifests[stored] == before.manifests[stored]
        &&& forall|i: int|
            0 <= i < facts@.len() ==> final(publisher)@.manifests.contains_key(
                (
                    request.index_key.tenant_id@,
                    (
                        request.index_key.artifact_id@,
                        (#[trigger] facts@[i]).canonical_id->Ok_0@,
                    ),
                ),
            )
    } by {
        let before = (*publisher)@;
        lemma_content_rejection(request, facts@);
        lemma_catalogued(before.manifests, request, facts@, facts@.len() as int);
        assert(current_index(before, request.index_key) == IndexView { version: current, records });
    }
    lemma_last_word_is_obeyed(records, request.mutations@, request.mutations@.len() as int, path);
}

proof fn lemma_catalogued(
    manifests: Map<(Seq<char>, (Seq<char>, Seq<u8>)), Manifest>,
    request: IndexPublishRequest,
    facts: Seq<ManifestFacts>,
    count: int,
)
    requires
        0 <= count <= facts.len(),
    ensures
        ({
            let after = catalogued(manifests, request, facts, count);
            &&& forall|stored: (Seq<char>, (Seq<char>, Seq<u8>))| #[trigger]
                manifests.contains_key(stored) ==> after.contains_key(stored) && after[stored]
                    == manifests[stored]
            &&& forall|i: int|
                0 <= i < count && (#[trigger] facts[i]).canonical_id is Ok ==> after.contains_key(
                    (
                        request.index_key.tenant_id@,
                        (request.index_key.artifact_id@, facts[i].canonical_id->Ok_0@),
                    ),
                )
        }),
    decreases count,
{
    if count > 0 {
        lemma_catalogued(manifests, request, facts, count - 1);
    }
}

/// A first sound publication onto the version that stands goes through where no Manifest of it is
/// stored with other content, none of its upserts is invalid, the revision can move, and the version
/// of every Index at the next revision has the digest that the publication asks for.
pub proof fn lemma_sound_publication_goes_through<
    F: Fn(IndexRevision, &Vec<FileRecord>) -> Result<WireIndexVersion, String>,
>(
    request: IndexPublishRequest,
    facts: &Vec<ManifestFacts>,
    record_errors: &Vec<Option<String>>,
    compute: F,
    current: WireIndexVersion,
    records: Map<Seq<char>, FileRecord>,
    result: CentralResult<IndexPublishOutcome>,
)
    requires
        request.job_key.tenant_id@ == request.index_key.tenant_id@,
        content_is_sound(request, facts@),
        current.revision == request.expected_index_version.revision,
        current.digest == request.expected_index_version.digest,
        current.revision < u64::MAX,
        forall|i: int|
            0 <= i < request.mutations@.len() && (#[trigger] request.mutations@[i]) is Upsert
                ==> record_errors@[i] is None,
        forall|listing: Vec<FileRecord>, computed: Result<WireIndexVersion, String>| #[trigger]
            call_ensures(compute, ((current.revision + 1) as u64, &listing), computed)
                ==> computed is Ok && computed->Ok_0.digest == request.expected_result_digest,
    ensures
        forall|publisher: &mut InMemoryIndexPublisher|
            #[trigger] call_ensures(
                InMemoryIndexPublisher::compare_and_swap::<F>,
                (publisher, request, facts, record_errors, compute),
                result,
            ) && !(*publisher)@.publications.contains_key(
                (request.job_key.tenant_id@, request.job_key.job_id@),
            ) && is_at(
                (*publisher)@,
                (
                    request.index_key.tenant_id@,
                    (request.index_key.artifact_id@, request.index_key.playground_id@),
                ),
                current,
                records,
            ) && (forall|i: int|
                0 <= i < facts@.len() && (*publisher)@.manifests.contains_key(
                    (
                        request.index_key.tenant_id@,
                        (
                            request.index_key.artifact_id@,
                            (#[trigger] facts@[i]).canonical_id->Ok_0@,
                        ),
                    ),
                ) ==> (*publisher)@.manifests[(
                    request.index_key.tenant_id@,
                    (request.index_key.artifact_id@, facts@[i].canonical_id->Ok_0@),
                )].same(request.manifests@[i])) ==> result is Ok && result->Ok_0 is Published,
{
    lemma_content_rejection(request, facts@);
    lemma_records_error(request.mutations@, record_errors@, request.mutations@.len() as int);
    assert forall|publisher: &mut InMemoryIndexPublisher|
        #[trigger] call_ensures(
            InMemoryIndexPublisher::compare_and_swap::<F>,
            (publisher, request, facts, record_errors, compute),
            result,
        ) && (forall|i: int|
            0 <= i < facts@.len() && (*publisher)@.manifests.contains_key(
                (
                    request.index_key.tenant_id@,
                    (
                        request.index_key.artifact_id@,
                        (#[trigger] facts@[i]).canonical_id->Ok_0@,
                    ),
                ),
            ) ==> (*publisher)@.manifests[(
                request.index_key.tenant_id@,
                (request.index_key.artifact_id@, facts@[i].canonical_id->Ok_0@),
            )].same(request.manifests@[i])) implies forall|index: int|
        !is_conflict(
            request.manifests@,
            facts@,
            stored_manifests((*publisher)@, request.index_key, facts@),
            index,
        ) by {
        assert forall|index: int|
            !is_conflict(
                request.manifests@,
                facts@,
                stored_manifests((*publisher)@, request.index_key, facts@),
                index,
            ) by {
            if 0 <= index < facts@.len() {
                assert(facts@[index].canonical_id is Ok);
            }
        }
    }
}

} // verus!
