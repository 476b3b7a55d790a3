//! What publishing does to an Index.
use vstd::prelude::*;

use crate::digest::ManifestId;
use crate::equality::Same;
use crate::error::{CentralError, CentralErrorCode, CentralResult};
use crate::identifier::{IndexRevision, LogicalPath};
use crate::laws::jobs::fails_with;
use crate::model::{IndexPublishOutcome, IndexPublishRejection, IndexPublishRequest};
use crate::protocol::{FileRecord, IndexDeltaRecord, Manifest, WireIndexVersion};
use crate::publication::{
    applied, apply_mutations, begin_publication, carries, check_content, is_conflict,
    is_manifest_at, judge_version, manifests_error, plan_publication, records_error, refers_to,
    same_index_version, upserts_error, ManifestFacts, PublicationPlan, PublicationStep,
};
use crate::table::Table;

verus! {

/// A mutation speaks of a path.
pub open spec fn concerns(mutation: IndexDeltaRecord, path: Seq<char>) -> bool {
    match mutation {
        IndexDeltaRecord::Upsert { path: named, .. } => named@ == path,
        IndexDeltaRecord::Delete { path: named, .. } => named@ == path,
    }
}

/// `last` is the last of the first `count` mutations that speaks of a path.
pub open spec fn is_last_word(
    mutations: Seq<IndexDeltaRecord>,
    count: int,
    path: Seq<char>,
    last: int,
) -> bool {
    &&& 0 <= last < count
    &&& concerns(mutations[last], path)
    &&& forall|later: int| last < later < count ==> !concerns(#[trigger] mutations[later], path)
}

/// An Index holds under a path what a mutation says of it.
pub open spec fn is_obeyed(
    records: Map<Seq<char>, FileRecord>,
    path: Seq<char>,
    mutation: IndexDeltaRecord,
) -> bool {
    match mutation {
        IndexDeltaRecord::Upsert { manifest_id, total_size, chunk_count, .. } => {
            &&& records.contains_key(path)
            &&& records[path].path@ == path
            &&& records[path].manifest_id == manifest_id
            &&& records[path].total_size == total_size
            &&& records[path].chunk_count == chunk_count
        },
        IndexDeltaRecord::Delete { .. } => !records.contains_key(path),
    }
}

pub(crate) proof fn lemma_last_word_is_obeyed(
    records: Map<Seq<char>, FileRecord>,
    mutations: Seq<IndexDeltaRecord>,
    count: int,
    path: Seq<char>,
)
    requires
        0 <= count <= mutations.len(),
    ensures
        forall|last: int| #[trigger]
            is_last_word(mutations, count, path, last) ==> is_obeyed(
                applied(records, mutations, count),
                path,
                mutations[last],
            ),
        (forall|i: int| 0 <= i < count ==> !concerns(#[trigger] mutations[i], path)) ==> {
            &&& applied(records, mutations, count).contains_key(path) == records.contains_key(path)
            &&& records.contains_key(path) ==> applied(records, mutations, count)[path]
                == records[path]
        },
    decreases count,
{
    if count > 0 {
        lemma_last_word_is_obeyed(records, mutations, count - 1, path);
        let before = applied(records, mutations, count - 1);
        let after = applied(records, mutations, count);
        if concerns(mutations[count - 1], path) {
            assert(is_obeyed(after, path, mutations[count - 1]));
            assert forall|last: int| #[trigger] is_last_word(mutations, count, path, last) implies
                last == count - 1 by {
                if last < count - 1 {
                    assert(!concerns(mutations[count - 1], path));
                }
            }
        } else {
            assert(after.contains_key(path) == before.contains_key(path));
            assert(before.contains_key(path) ==> after[path] == before[path]);
            assert forall|last: int| #[trigger] is_last_word(mutations, count, path, last) implies
                is_last_word(mutations, count - 1, path, last) by {}
        }
    }
}

/// The last mutation that names a path decides what the Index holds under it: a file with the
/// content of that upsert, whether or not the path was there before, or nothing after a delete.
/// What no mutation names stays as it was.
pub proof fn lemma_last_mutation_of_a_path_decides(
    records: Table<LogicalPath, FileRecord>,
    mutations: &Vec<IndexDeltaRecord>,
    after: Table<LogicalPath, FileRecord>,
    path: Seq<char>,
)
    requires
        call_ensures(apply_mutations, (records, mutations), after),
    ensures
        forall|last: int| #[trigger]
            is_last_word(mutations@, mutations@.len() as int, path, last) ==> is_obeyed(
                after@,
                path,
                mutations@[last],
            ),
        (forall|i: int| 0 <= i < mutations@.len() ==> !concerns(#[trigger] mutations@[i], path))
            ==> {
            &&& after@.contains_key(path) == records@.contains_key(path)
            &&& records@.contains_key(path) ==> after@[path] == records@[path]
        },
{
    lemma_last_word_is_obeyed(records@, mutations@, mutations@.len() as int, path);
}

/// Two versions are the same Index: the same revision with the same digest.
pub proof fn lemma_version_is_revision_and_digest(
    left: &WireIndexVersion,
    right: &WireIndexVersion,
    same: bool,
)
    requires
        call_ensures(same_index_version, (left, right), same),
    ensures
        same <==> left.revision == right.revision && left.digest == right.digest,
{
}

/// A publication across tenants is refused. One whose job published before gives that outcome again
/// where it asks for the same, and is refused where it does not. A new one needs the version of its
/// Index first; then it conflicts where that is another revision or digest than it expects, and is
/// planned where it is not.
pub proof fn lemma_publication_begins_where_it_stands(
    stored: Option<&(IndexPublishRequest, IndexPublishOutcome)>,
    current: Option<&WireIndexVersion>,
    request: &IndexPublishRequest,
    result: CentralResult<PublicationStep>,
)
    requires
        call_ensures(begin_publication, (stored, current, request), result),
    ensures
        if request.job_key.tenant_id@ != request.index_key.tenant_id@ {
            fails_with(result, CentralErrorCode::MetadataInvalid)
        } else {
            match stored {
                Some(stored) => if stored.0.same(*request) {
                    result == Ok::<PublicationStep, CentralError>(PublicationStep::Replay(stored.1))
                } else {
                    fails_with(result, CentralErrorCode::JobIdReused)
                },
                None => match current {
                    None => result == Ok::<PublicationStep, CentralError>(PublicationStep::Load),
                    Some(version) => if version.revision == request.expected_index_version.revision
                        && version.digest == request.expected_index_version.digest {
                        result == Ok::<PublicationStep, CentralError>(PublicationStep::Plan)
                    } else {
                        result == Ok::<PublicationStep, CentralError>(
                            PublicationStep::Conflict(*version),
                        )
                    },
                },
            }
        },
{
}

/// An Index is published under the version that was computed for it where its digest is the one that
/// was asked for; another digest is rejected with both, and so is an Index without a version.
pub proof fn lemma_digest_decides_the_publication(
    request: &IndexPublishRequest,
    computed: Result<WireIndexVersion, String>,
    outcome: IndexPublishOutcome,
)
    requires
        call_ensures(judge_version, (request, computed), outcome),
    ensures
        match computed {
            Ok(version) => if version.digest == request.expected_result_digest {
                outcome == IndexPublishOutcome::Published(version)
            } else {
                &&& outcome matches IndexPublishOutcome::Rejected(
                    IndexPublishRejection::ResultDigestMismatch { expected_digest, observed_digest },
                )
                &&& expected_digest@ == request.expected_result_digest@
                &&& observed_digest@ == version.digest@
            },
            Err(_) => outcome matches IndexPublishOutcome::Rejected(
                IndexPublishRejection::InvalidMetadata { .. },
            ),
        },
{
}

/// The Manifests of a publication are identified, each once.
pub open spec fn manifests_are_distinct(facts: Seq<ManifestFacts>) -> bool {
    &&& forall|i: int| 0 <= i < facts.len() ==> (#[trigger] facts[i]).canonical_id is Ok
    &&& forall|i: int, j: int|
        0 <= i < j < facts.len() ==> (#[trigger] facts[i]).canonical_id->Ok_0 != (
        #[trigger] facts[j]).canonical_id->Ok_0
}

/// An upsert says of its content what a Manifest of the publication says.
pub open spec fn upsert_has_its_manifest(
    manifests: Seq<Manifest>,
    facts: Seq<ManifestFacts>,
    mutation: IndexDeltaRecord,
) -> bool {
    match mutation {
        IndexDeltaRecord::Delete { .. } => true,
        IndexDeltaRecord::Upsert { manifest_id, total_size, chunk_count, .. } => exists|at: int|
            {
                &&& 0 <= at < facts.len()
                &&& (#[trigger] facts[at]).canonical_id == Ok::<ManifestId, String>(manifest_id)
                &&& facts[at].chunk_count == Ok::<u64, String>(chunk_count)
                &&& manifests[at].total_size == total_size
            },
    }
}

/// A Manifest of a publication is the content of some upsert.
pub open spec fn manifest_is_used(facts: ManifestFacts, mutations: Seq<IndexDeltaRecord>) -> bool {
    exists|i: int|
        0 <= i < mutations.len() && (#[trigger] mutations[i]) is Upsert
            && mutations[i]->Upsert_manifest_id == facts.canonical_id->Ok_0
}

/// A publication carries exactly the Manifests of its upserts, and each upsert agrees with its own.
pub open spec fn content_is_sound(request: IndexPublishRequest, facts: Seq<ManifestFacts>) -> bool {
    &&& manifests_are_distinct(facts)
    &&& forall|i: int|
        0 <= i < request.mutations@.len() ==> upsert_has_its_manifest(
            request.manifests@,
            facts,
            #[trigger] request.mutations@[i],
        )
    &&& forall|i: int|
        0 <= i < facts.len() ==> manifest_is_used(#[trigger] facts[i], request.mutations@)
}

proof fn lemma_manifests_error(facts: Seq<ManifestFacts>, count: int)
    requires
        0 <= count <= facts.len(),
    ensures
        manifests_error(facts, count) is None <==> manifests_are_distinct(facts.take(count)),
    decreases count,
{
    if count > 0 {
        lemma_manifests_error(facts, count - 1);
        let before = facts.take(count - 1);
        let after = facts.take(count);
        assert(forall|i: int| 0 <= i < count - 1 ==> before[i] == #[trigger] after[i]);
        let last = facts[count - 1];
        assert(after[count - 1] == last);
        if manifests_are_distinct(after) {
            assert(manifests_are_distinct(before)) by {
                assert forall|i: int| 0 <= i < before.len() implies (
                #[trigger] before[i]).canonical_id is Ok by {
                    assert(before[i] == after[i]);
                }
                assert forall|i: int, j: int| 0 <= i < j < before.len() implies (
                #[trigger] before[i]).canonical_id->Ok_0 != (#[trigger] before[j]).canonical_id->Ok_0 by {
                    assert(before[i] == after[i] && before[j] == after[j]);
                }
            }
            assert forall|earlier: int| earlier < count - 1 implies !#[trigger] is_manifest_at(
                facts,
                last.canonical_id->Ok_0,
                earlier,
            ) by {
                if 0 <= earlier {
                    assert(after[earlier] == facts[earlier]);
                }
            }
        }
        if manifests_error(facts, count) is None {
            assert forall|i: int, j: int| 0 <= i < j < after.len() implies (
            #[trigger] after[i]).canonical_id->Ok_0 != (#[trigger] after[j]).canonical_id->Ok_0 by {
                assert(before[i] == after[i]);
                if j == count - 1 {
                    assert(after[i] == facts[i]);
                    assert(!is_manifest_at(facts, last.canonical_id->Ok_0, i));
                } else {
                    assert(before[j] == after[j]);
                }
            }
            assert forall|i: int| 0 <= i < after.len() implies (
            #[trigger] after[i]).canonical_id is Ok by {
                if i < count - 1 {
                    assert(before[i] == after[i]);
                }
            }
        }
    }
}

proof fn lemma_upserts_error(
    manifests: Seq<Manifest>,
    facts: Seq<ManifestFacts>,
    mutations: Seq<IndexDeltaRecord>,
    count: int,
)
    requires
        0 <= count <= mutations.len(),
    ensures
        upserts_error(manifests, facts, mutations, count) is None <==> forall|i: int|
            0 <= i < count ==> crate::publication::upsert_error(
                manifests,
                facts,
                #[trigger] mutations[i],
            ) is None,
    decreases count,
{
    if count > 0 {
        lemma_upserts_error(manifests, facts, mutations, count - 1);
    }
}

pub(crate) proof fn lemma_content_rejection(request: IndexPublishRequest, facts: Seq<ManifestFacts>)
    ensures
        crate::publication::content_rejection(request, facts) is None <==> content_is_sound(
            request,
            facts,
        ),
{
    let manifests = request.manifests@;
    let mutations = request.mutations@;
    lemma_manifests_error(facts, facts.len() as int);
    assert(facts.take(facts.len() as int) =~= facts);
    lemma_upserts_error(manifests, facts, mutations, mutations.len() as int);
    if manifests_are_distinct(facts) {
        assert forall|id: ManifestId, left: int, right: int|
            #[trigger] is_manifest_at(facts, id, left) && #[trigger] is_manifest_at(
                facts,
                id,
                right,
            ) implies left == right by {
            if left < right {
                assert(facts[left].canonical_id->Ok_0 != facts[right].canonical_id->Ok_0);
            } else if right < left {
                assert(facts[right].canonical_id->Ok_0 != facts[left].canonical_id->Ok_0);
            }
        }
        if crate::publication::content_rejection(request, facts) is None {
            assert forall|i: int| 0 <= i < mutations.len() implies upsert_has_its_manifest(
                manifests,
                facts,
                #[trigger] mutations[i],
            ) by {
                if let IndexDeltaRecord::Upsert { manifest_id, .. } = mutations[i] {
                    assert(refers_to(mutations, manifest_id, mutations.len() as int));
                    assert(carries(facts, manifest_id));
                    let at = choose|index: int| is_manifest_at(facts, manifest_id, index);
                    assert(facts[at].canonical_id == Ok::<ManifestId, String>(manifest_id));
                }
            }
            assert forall|i: int| 0 <= i < facts.len() implies manifest_is_used(
                #[trigger] facts[i],
                mutations,
            ) by {
                let id = facts[i].canonical_id->Ok_0;
                assert(is_manifest_at(facts, id, i));
                assert(carries(facts, id));
                assert(refers_to(mutations, id, mutations.len() as int));
            }
        }
        if content_is_sound(request, facts) {
            assert forall|i: int| 0 <= i < mutations.len() implies crate::publication::upsert_error(
                manifests,
                facts,
                #[trigger] mutations[i],
            ) is None by {
                assert(upsert_has_its_manifest(manifests, facts, mutations[i]));
                if let IndexDeltaRecord::Upsert {
                    manifest_id,
                    total_size,
                    chunk_count,
                    ..
                } = mutations[i] {
                    let at = choose|at: int|
                        {
                            &&& 0 <= at < facts.len()
                            &&& (#[trigger] facts[at]).canonical_id == Ok::<ManifestId, String>(
                                manifest_id,
                            )
                            &&& facts[at].chunk_count == Ok::<u64, String>(chunk_count)
                            &&& manifests[at].total_size == total_size
                        };
                    assert(is_manifest_at(facts, manifest_id, at));
                    let chosen = choose|index: int| is_manifest_at(facts, manifest_id, index);
                    assert(chosen == at);
                }
            }
            assert forall|id: ManifestId| #[trigger]
                carries(facts, id) <==> refers_to(mutations, id, mutations.len() as int) by {
                if carries(facts, id) {
                    let at = choose|index: int| is_manifest_at(facts, id, index);
                    assert(manifest_is_used(facts[at], mutations));
                    let i = choose|i: int|
                        0 <= i < mutations.len() && (#[trigger] mutations[i]) is Upsert
                            && mutations[i]->Upsert_manifest_id == facts[at].canonical_id->Ok_0;
                    assert(mutations[i]->Upsert_manifest_id == id);
                }
                if refers_to(mutations, id, mutations.len() as int) {
                    let i = choose|index: int|
                        #![trigger mutations[index]]
                        0 <= index < mutations.len() && mutations[index] is Upsert
                            && mutations[index]->Upsert_manifest_id == id;
                    assert(upsert_has_its_manifest(manifests, facts, mutations[i]));
                    let at = choose|at: int|
                        {
                            &&& 0 <= at < facts.len()
                            &&& (#[trigger] facts[at]).canonical_id == Ok::<ManifestId, String>(id)
                        };
                    assert(is_manifest_at(facts, id, at));
                }
            }
        }
    }
}

/// What a publication says itself is rejected, as invalid metadata, unless it carries exactly the
/// Manifests of its upserts, each once, and each upsert has the size and the number of chunks of its
/// Manifest.
pub proof fn lemma_sound_content_passes(
    request: &IndexPublishRequest,
    facts: &Vec<ManifestFacts>,
    rejection: Option<IndexPublishRejection>,
)
    requires
        call_ensures(check_content, (request, facts), rejection),
    ensures
        rejection is None <==> content_is_sound(*request, facts@),
        rejection matches Some(given) ==> given is InvalidMetadata,
{
    lemma_content_rejection(*request, facts@);
}

pub(crate) proof fn lemma_records_error(
    mutations: Seq<IndexDeltaRecord>,
    record_errors: Seq<Option<String>>,
    count: int,
)
    requires
        0 <= count <= mutations.len(),
    ensures
        records_error(mutations, record_errors, count) is None <==> forall|i: int|
            0 <= i < count && (#[trigger] mutations[i]) is Upsert ==> record_errors[i] is None,
    decreases count,
{
    if count > 0 {
        lemma_records_error(mutations, record_errors, count - 1);
    }
}

/// A sound publication is planned where no Manifest of it is stored with other content, none of its
/// upserts is invalid and the revision can move: the Index moves on by one revision, and the last
/// mutation of each path decides. Everything else is rejected.
pub proof fn lemma_sound_publication_is_planned(
    request: &IndexPublishRequest,
    facts: &Vec<ManifestFacts>,
    stored: &Vec<Option<Manifest>>,
    record_errors: &Vec<Option<String>>,
    revision: IndexRevision,
    records: Table<LogicalPath, FileRecord>,
    plan: PublicationPlan,
    path: Seq<char>,
)
    requires
        call_ensures(
            plan_publication,
            (request, facts, stored, record_errors, revision, records),
            plan,
        ),
    ensures
        plan is Apply <==> {
            &&& content_is_sound(*request, facts@)
            &&& forall|i: int|
                0 <= i < facts@.len() && (#[trigger] facts@[i]).canonical_id is Ok ==> (
                stored@[i] matches Some(existing) ==> existing.same(request.manifests@[i]))
            &&& forall|i: int|
                0 <= i < request.mutations@.len() && (#[trigger] request.mutations@[i]) is Upsert
                    ==> record_errors@[i] is None
            &&& revision < u64::MAX
        },
        plan matches PublicationPlan::Apply { revision: next, records: after } ==> {
            &&& next == revision + 1
            &&& forall|last: int| #[trigger]
                is_last_word(
                    request.mutations@,
                    request.mutations@.len() as int,
                    path,
                    last,
                ) ==> is_obeyed(after@, path, request.mutations@[last])
            &&& (forall|i: int|
                0 <= i < request.mutations@.len() ==> !concerns(
                    #[trigger] request.mutations@[i],
                    path,
                )) ==> {
                &&& after@.contains_key(path) == records@.contains_key(path)
                &&& records@.contains_key(path) ==> after@[path] == records@[path]
            }
        },
{
    let mutations = request.mutations@;
    lemma_content_rejection(*request, facts@);
    lemma_records_error(mutations, record_errors@, mutations.len() as int);
    lemma_last_word_is_obeyed(records@, mutations, mutations.len() as int, path);
    let manifests = request.manifests@;
    if exists|index: int| is_conflict(manifests, facts@, stored@, index) {
        let index = choose|index: int| is_conflict(manifests, facts@, stored@, index);
        assert(facts@[index].canonical_id is Ok);
    } else {
        assert forall|i: int|
            0 <= i < facts@.len() && (#[trigger] facts@[i]).canonical_id is Ok implies (
        stored@[i] matches Some(existing) ==> existing.same(manifests[i])) by {
            assert(!is_conflict(manifests, facts@, stored@, i));
        }
    }
}

} // verus!
