//! Index publication: what a publish request does to an Index, and why one is rejected.
use vstd::prelude::*;

use crate::digest::{digest_text, hex_text, ManifestId};
use crate::equality::Same;
use crate::error::{
    failure, fault, fault_of, CentralError, CentralErrorCode, CentralResult, Fault,
};
use crate::identifier::{IndexRevision, LogicalPath};
use crate::model::{IndexPublishOutcome, IndexPublishRejection, IndexPublishRequest};
use crate::protocol::{FileRecord, IndexDeltaRecord, Manifest, WireIndexVersion};
use crate::table::{Named, OrderedKey, Table};
use crate::text::{
    bytes_before, lemma_bytes_before_irreflexive, lemma_bytes_before_total,
    lemma_bytes_before_transitive,
};

verus! {

/// What is known of one Manifest of a request: its canonical identity and its number of chunks, or
/// why it has none.
pub struct ManifestFacts {
    pub canonical_id: Result<ManifestId, String>,
    pub chunk_count: Result<u64, String>,
}

/// A rejection as a mathematical value.
pub ghost enum Rejection {
    InvalidMetadata(Seq<char>),
    ResultDigestMismatch { expected: Seq<u8>, observed: Seq<u8> },
    RevisionExhausted,
}

/// What a rejection says.
pub open spec fn rejection_of(rejection: IndexPublishRejection) -> Rejection {
    match rejection {
        IndexPublishRejection::InvalidMetadata { message } => Rejection::InvalidMetadata(message@),
        IndexPublishRejection::ResultDigestMismatch { expected_digest, observed_digest } =>
            Rejection::ResultDigestMismatch { expected: expected_digest@, observed: observed_digest@ },
        IndexPublishRejection::RevisionExhausted => Rejection::RevisionExhausted,
    }
}

/// Two versions name the same Index content.
pub open spec fn is_same_version(left: WireIndexVersion, right: WireIndexVersion) -> bool {
    left.revision == right.revision && left.digest == right.digest
}

/// Tells whether two versions name the same Index content.
#[must_use]
pub fn same_index_version(left: &WireIndexVersion, right: &WireIndexVersion) -> (same: bool)
    ensures
        same == is_same_version(*left, *right),
{
    left.revision == right.revision && left.digest == right.digest
}

/// Why a publication is refused where its job published before.
pub open spec fn replay_fault(stored: IndexPublishRequest, request: IndexPublishRequest) -> Option<
    Fault,
> {
    if stored.same(request) {
        None
    } else {
        Some(
            fault(
                CentralErrorCode::JobIdReused,
                "job "@ + request.job_key.job_id@ + " attempted a different Index publication"@,
            ),
        )
    }
}

/// Why a publication is refused outright. `stored` is what its job asked for before.
pub open spec fn publication_fault(
    stored: Option<IndexPublishRequest>,
    request: IndexPublishRequest,
) -> Option<Fault> {
    if request.job_key.tenant_id@ != request.index_key.tenant_id@ {
        Some(
            fault(
                CentralErrorCode::MetadataInvalid,
                "Index publication Job and Index tenants differ"@,
            ),
        )
    } else {
        match stored {
            Some(stored) => replay_fault(stored, request),
            None => None,
        }
    }
}

/// Checks that a publication stays within one tenant.
pub fn validate_publication_scope(request: &IndexPublishRequest) -> (result: CentralResult<()>)
    ensures
        fault_of(result) == if request.job_key.tenant_id@ != request.index_key.tenant_id@ {
            Some(
                fault(
                    CentralErrorCode::MetadataInvalid,
                    "Index publication Job and Index tenants differ"@,
                ),
            )
        } else {
            None
        },
{
    if request.job_key.tenant_id != request.index_key.tenant_id {
        return Err(
            failure(
                CentralErrorCode::MetadataInvalid,
                "Index publication Job and Index tenants differ",
            ),
        );
    }
    Ok(())
}

/// Accepts the replay of a decided publication and refuses another one of its job.
pub fn resolve_stored_publication(stored: &IndexPublishRequest, request: &IndexPublishRequest) -> (
    result: CentralResult<()>)
    ensures
        fault_of(result) == replay_fault(*stored, *request),
{
    if *stored == *request {
        return Ok(());
    }
    let mut message = String::from_str("job ");
    message.append(request.job_key.job_id.as_str());
    message.append(" attempted a different Index publication");
    Err(CentralError::new(CentralErrorCode::JobIdReused, message))
}

/// How a publication goes on.
pub enum PublicationStep {
    /// It was decided before, and this is the decision.
    Replay(IndexPublishOutcome),
    /// The version of its Index is needed.
    Load,
    /// Its Index moved on to this version.
    Conflict(WireIndexVersion),
    /// Its Index is at the expected version.
    Plan,
}

/// How a publication that is not refused goes on: an earlier decision stands, whatever became of
/// the Index; a new one needs the version that it expects.
pub open spec fn publication_step(
    stored: Option<&(IndexPublishRequest, IndexPublishOutcome)>,
    current: Option<&WireIndexVersion>,
    request: IndexPublishRequest,
) -> PublicationStep {
    match (stored, current) {
        (Some(stored), _) => PublicationStep::Replay(stored.1),
        (None, None) => PublicationStep::Load,
        (None, Some(current)) => if is_same_version(*current, request.expected_index_version) {
            PublicationStep::Plan
        } else {
            PublicationStep::Conflict(*current)
        },
    }
}

/// Begins a publication. `stored` is what its job asked for before and what was decided, `current`
/// the version of its Index, once it is known.
pub fn begin_publication(
    stored: Option<&(IndexPublishRequest, IndexPublishOutcome)>,
    current: Option<&WireIndexVersion>,
    request: &IndexPublishRequest,
) -> (result: CentralResult<PublicationStep>)
    ensures
        fault_of(result) == publication_fault(
            match stored {
                Some(stored) => Some(stored.0),
                None => None,
            },
            *request,
        ),
        result matches Ok(step) ==> step == publication_step(stored, current, *request),
{
    validate_publication_scope(request)?;
    if let Some(stored) = stored {
        resolve_stored_publication(&stored.0, request)?;
        return Ok(PublicationStep::Replay(stored.1.clone()));
    }
    match current {
        None => Ok(PublicationStep::Load),
        Some(current) => if same_index_version(current, &request.expected_index_version) {
            Ok(PublicationStep::Plan)
        } else {
            Ok(PublicationStep::Conflict(current.clone()))
        },
    }
}

/// The Manifest at `index` has this identity.
pub open spec fn is_manifest_at(facts: Seq<ManifestFacts>, id: ManifestId, index: int) -> bool {
    &&& 0 <= index < facts.len()
    &&& facts[index].canonical_id == Ok::<ManifestId, String>(id)
}

/// What is wrong with the Manifest at `index`: it has no identity, or an earlier one has the same.
pub open spec fn manifest_error(facts: Seq<ManifestFacts>, index: int) -> Option<Seq<char>> {
    match facts[index].canonical_id {
        Err(error) => Some("invalid publication Manifest: "@ + error@),
        Ok(id) => if exists|earlier: int| earlier < index && is_manifest_at(facts, id, earlier) {
            Some("publication repeats Manifest "@ + digest_text(id@))
        } else {
            None
        },
    }
}

/// The first error among the first `count` Manifests.
pub open spec fn manifests_error(facts: Seq<ManifestFacts>, count: int) -> Option<Seq<char>>
    decreases count,
{
    if count <= 0 {
        None
    } else if manifests_error(facts, count - 1) is Some {
        manifests_error(facts, count - 1)
    } else {
        manifest_error(facts, count - 1)
    }
}

/// The request carries a Manifest of this identity.
pub open spec fn carries(facts: Seq<ManifestFacts>, id: ManifestId) -> bool {
    exists|index: int| is_manifest_at(facts, id, index)
}

/// What is wrong with the mutation at `index`: it upserts a file whose size or number of chunks
/// differ from the Manifest that the request carries for it.
pub open spec fn upsert_error(
    manifests: Seq<Manifest>,
    facts: Seq<ManifestFacts>,
    mutation: IndexDeltaRecord,
) -> Option<Seq<char>> {
    match mutation {
        IndexDeltaRecord::Delete { .. } => None,
        IndexDeltaRecord::Upsert { manifest_id, total_size, chunk_count, .. } => if carries(
            facts,
            manifest_id,
        ) {
            let at = choose|index: int| is_manifest_at(facts, manifest_id, index);
            match facts[at].chunk_count {
                Err(error) => Some("invalid publication Manifest: "@ + error@),
                Ok(observed) => if manifests[at].total_size == total_size && observed
                    == chunk_count {
                    None
                } else {
                    Some(
                        "Index upsert metadata differs from Manifest "@ + digest_text(manifest_id@),
                    )
                },
            }
        } else {
            None
        },
    }
}

/// The first error among the first `count` mutations.
pub open spec fn upserts_error(
    manifests: Seq<Manifest>,
    facts: Seq<ManifestFacts>,
    mutations: Seq<IndexDeltaRecord>,
    count: int,
) -> Option<Seq<char>>
    decreases count,
{
    if count <= 0 {
        None
    } else if upserts_error(manifests, facts, mutations, count - 1) is Some {
        upserts_error(manifests, facts, mutations, count - 1)
    } else {
        upsert_error(manifests, facts, mutations[count - 1])
    }
}

/// One of the first `count` mutations upserts a file with this Manifest.
pub open spec fn refers_to(mutations: Seq<IndexDeltaRecord>, id: ManifestId, count: int) -> bool {
    exists|index: int| #![trigger mutations[index]]
        0 <= index < count && mutations[index] is Upsert && mutations[index]->Upsert_manifest_id
            == id
}

/// The Manifests that a request carries are exactly those that it upserts.
pub open spec fn is_exact(facts: Seq<ManifestFacts>, mutations: Seq<IndexDeltaRecord>) -> bool {
    forall|id: ManifestId| #[trigger]
        carries(facts, id) <==> refers_to(mutations, id, mutations.len() as int)
}

/// The catalog holds other content for the Manifest at `index`.
pub open spec fn is_conflict(
    manifests: Seq<Manifest>,
    facts: Seq<ManifestFacts>,
    stored: Seq<Option<Manifest>>,
    index: int,
) -> bool {
    &&& 0 <= index < facts.len()
    &&& facts[index].canonical_id is Ok
    &&& stored[index] matches Some(existing)
    &&& !existing.same(manifests[index])
}

/// The conflict at `index` is the one of the least Manifest identity.
pub open spec fn is_first_conflict(
    manifests: Seq<Manifest>,
    facts: Seq<ManifestFacts>,
    stored: Seq<Option<Manifest>>,
    index: int,
) -> bool {
    &&& is_conflict(manifests, facts, stored, index)
    &&& forall|other: int| #[trigger]
        is_conflict(manifests, facts, stored, other) ==> !bytes_before(
            facts[other].canonical_id->Ok_0@,
            facts[index].canonical_id->Ok_0@,
        )
}

/// What the catalog has against a request.
pub open spec fn catalog_error(
    manifests: Seq<Manifest>,
    facts: Seq<ManifestFacts>,
    stored: Seq<Option<Manifest>>,
) -> Option<Seq<char>> {
    if exists|index: int| is_conflict(manifests, facts, stored, index) {
        let first = choose|index: int| is_first_conflict(manifests, facts, stored, index);
        Some(
            "immutable catalog already contains different content for Manifest "@ + digest_text(
                facts[first].canonical_id->Ok_0@,
            ),
        )
    } else {
        None
    }
}

/// The first of the first `count` upserts that makes no valid file record.
pub open spec fn records_error(
    mutations: Seq<IndexDeltaRecord>,
    record_errors: Seq<Option<String>>,
    count: int,
) -> Option<Seq<char>>
    decreases count,
{
    if count <= 0 {
        None
    } else if records_error(mutations, record_errors, count - 1) is Some {
        records_error(mutations, record_errors, count - 1)
    } else {
        match record_errors[count - 1] {
            Some(error) => if mutations[count - 1] is Upsert {
                Some("invalid Index upsert: "@ + error@)
            } else {
                None
            },
            None => None,
        }
    }
}

/// The records after the first `count` mutations.
pub open spec fn applied(
    records: Map<Seq<char>, FileRecord>,
    mutations: Seq<IndexDeltaRecord>,
    count: int,
) -> Map<Seq<char>, FileRecord>
    decreases count,
{
    if count <= 0 {
        records
    } else {
        let before = applied(records, mutations, count - 1);
        match mutations[count - 1] {
            IndexDeltaRecord::Upsert { path, manifest_id, total_size, chunk_count, .. } =>
                before.insert(path@, FileRecord { path, manifest_id, total_size, chunk_count }),
            IndexDeltaRecord::Delete { path, .. } => before.remove(path@),
        }
    }
}

/// Why a request is rejected for what it says itself, whatever is stored.
pub open spec fn content_rejection(
    request: IndexPublishRequest,
    facts: Seq<ManifestFacts>,
) -> Option<Rejection> {
    let mutations = request.mutations@;
    let in_manifests = manifests_error(facts, facts.len() as int);
    let in_upserts = upserts_error(
        request.manifests@,
        facts,
        mutations,
        mutations.len() as int,
    );
    if in_manifests is Some {
        Some(Rejection::InvalidMetadata(in_manifests->0))
    } else if in_upserts is Some {
        Some(Rejection::InvalidMetadata(in_upserts->0))
    } else if !is_exact(facts, mutations) {
        Some(
            Rejection::InvalidMetadata(
                "publication Manifests are not the exact Index upsert set"@,
            ),
        )
    } else {
        None
    }
}

/// Why a request to publish onto the expected version is rejected before anything is computed.
pub open spec fn plan_rejection(
    request: IndexPublishRequest,
    facts: Seq<ManifestFacts>,
    stored: Seq<Option<Manifest>>,
    record_errors: Seq<Option<String>>,
    revision: IndexRevision,
) -> Option<Rejection> {
    let manifests = request.manifests@;
    let mutations = request.mutations@;
    let in_content = content_rejection(request, facts);
    let in_catalog = catalog_error(manifests, facts, stored);
    let in_records = records_error(mutations, record_errors, mutations.len() as int);
    if in_content is Some {
        in_content
    } else if in_catalog is Some {
        Some(Rejection::InvalidMetadata(in_catalog->0))
    } else if in_records is Some {
        Some(Rejection::InvalidMetadata(in_records->0))
    } else if revision == u64::MAX {
        Some(Rejection::RevisionExhausted)
    } else {
        None
    }
}

/// What planning a publication comes to.
pub enum PublicationPlan {
    Rejected(IndexPublishRejection),
    /// The Index to publish, once its version is known.
    Apply { revision: IndexRevision, records: Table<LogicalPath, FileRecord> },
}

/// Distinct identities: no Manifest of a request repeats an earlier one.
pub open spec fn are_distinct(facts: Seq<ManifestFacts>) -> bool {
    forall|left: int, right: int, id: ManifestId|
        is_manifest_at(facts, id, left) && is_manifest_at(facts, id, right) ==> left == right
}

proof fn lemma_no_error_means_distinct(facts: Seq<ManifestFacts>, count: int)
    requires
        0 <= count <= facts.len(),
        manifests_error(facts, count) is None,
    ensures
        forall|index: int|
            0 <= index < count ==> (#[trigger] facts[index]).canonical_id is Ok && manifest_error(
                facts,
                index,
            ) is None,
    decreases count,
{
    if count > 0 {
        lemma_no_error_means_distinct(facts, count - 1);
    }
}

proof fn lemma_distinct(facts: Seq<ManifestFacts>)
    requires
        manifests_error(facts, facts.len() as int) is None,
    ensures
        are_distinct(facts),
        forall|index: int| 0 <= index < facts.len() ==> (#[trigger] facts[index]).canonical_id is Ok,
{
    lemma_no_error_means_distinct(facts, facts.len() as int);
    assert forall|left: int, right: int, id: ManifestId|
        is_manifest_at(facts, id, left) && is_manifest_at(facts, id, right) implies left
        == right by {
        if left < right {
            assert(facts[right].canonical_id is Ok && manifest_error(facts, right) is None);
            assert(left < right && is_manifest_at(facts, facts[right].canonical_id->Ok_0, left));
        } else if right < left {
            assert(facts[left].canonical_id is Ok && manifest_error(facts, left) is None);
            assert(right < left && is_manifest_at(facts, facts[left].canonical_id->Ok_0, right));
        }
    }
}

fn prefixed(prefix: &str, text: &str) -> (message: String)
    ensures
        message@ == prefix@ + text@,
{
    let mut message = String::from_str(prefix);
    message.append(text);
    message
}

/// The place of the Manifest of an identity, among the first `count`.
fn find_manifest(facts: &Vec<ManifestFacts>, id: &ManifestId, count: usize) -> (place: Option<usize>)
    requires
        count <= facts@.len(),
    ensures
        place matches Some(index) ==> index < count && is_manifest_at(facts@, *id, index as int),
        place is None ==> forall|index: int| index < count ==> !is_manifest_at(facts@, *id, index),
{
    let mut index: usize = 0;
    while index < count
        invariant
            index <= count <= facts@.len(),
            forall|i: int| i < index ==> !is_manifest_at(facts@, *id, i),
        decreases count - index,
    {
        if let Ok(found) = &facts[index].canonical_id {
            if *found == *id {
                return Some(index);
            }
        }
        index += 1;
    }
    None
}

fn check_manifests(facts: &Vec<ManifestFacts>) -> (error: Option<String>)
    ensures
        match error {
            Some(message) => manifests_error(facts@, facts@.len() as int) == Some(message@),
            None => manifests_error(facts@, facts@.len() as int) is None,
        },
{
    let mut index: usize = 0;
    while index < facts.len()
        invariant
            index <= facts@.len(),
            manifests_error(facts@, index as int) is None,
        decreases facts@.len() - index,
    {
        match &facts[index].canonical_id {
            Err(error) => {
                let message = prefixed("invalid publication Manifest: ", error.as_str());
                proof {
                    lemma_error_stays(facts@, index + 1, facts@.len() as int);
                }
                return Some(message);
            },
            Ok(id) => {
                if find_manifest(facts, id, index).is_some() {
                    let message = prefixed("publication repeats Manifest ", hex_text(id).as_str());
                    proof {
                        lemma_error_stays(facts@, index + 1, facts@.len() as int);
                    }
                    return Some(message);
                }
            },
        }
        index += 1;
    }
    None
}

proof fn lemma_error_stays(facts: Seq<ManifestFacts>, from: int, to: int)
    requires
        0 <= from <= to,
        manifests_error(facts, from) is Some,
    ensures
        manifests_error(facts, to) == manifests_error(facts, from),
    decreases to - from,
{
    if from < to {
        lemma_error_stays(facts, from, to - 1);
    }
}

proof fn lemma_upsert_error_stays(
    manifests: Seq<Manifest>,
    facts: Seq<ManifestFacts>,
    mutations: Seq<IndexDeltaRecord>,
    from: int,
    to: int,
)
    requires
        0 <= from <= to,
        upserts_error(manifests, facts, mutations, from) is Some,
    ensures
        upserts_error(manifests, facts, mutations, to) == upserts_error(
            manifests,
            facts,
            mutations,
            from,
        ),
    decreases to - from,
{
    if from < to {
        lemma_upsert_error_stays(manifests, facts, mutations, from, to - 1);
    }
}

fn check_upsert(
    request: &IndexPublishRequest,
    facts: &Vec<ManifestFacts>,
    mutation: &IndexDeltaRecord,
) -> (error: Option<String>)
    requires
        facts@.len() == request.manifests@.len(),
        are_distinct(facts@),
    ensures
        match error {
            Some(message) => upsert_error(request.manifests@, facts@, *mutation) == Some(message@),
            None => upsert_error(request.manifests@, facts@, *mutation) is None,
        },
{
    match mutation {
        IndexDeltaRecord::Delete { .. } => None,
        IndexDeltaRecord::Upsert { manifest_id, total_size, chunk_count, .. } => {
            let at = match find_manifest(facts, manifest_id, facts.len()) {
                Some(at) => at,
                None => {
                    assert forall|index: int| !is_manifest_at(facts@, *manifest_id, index) by {}
                    return None;
                },
            };
            proof {
                let chosen = choose|index: int| is_manifest_at(facts@, *manifest_id, index);
                assert(is_manifest_at(facts@, *manifest_id, at as int));
                assert(chosen == at);
            }
            match &facts[at].chunk_count {
                Err(error) => Some(prefixed("invalid publication Manifest: ", error.as_str())),
                Ok(observed) => if request.manifests[at].total_size == *total_size && *observed
                    == *chunk_count {
                    None
                } else {
                    Some(
                        prefixed(
                            "Index upsert metadata differs from Manifest ",
                            hex_text(manifest_id).as_str(),
                        ),
                    )
                },
            }
        },
    }
}

fn check_upserts(request: &IndexPublishRequest, facts: &Vec<ManifestFacts>) -> (error: Option<
    String,
>)
    requires
        facts@.len() == request.manifests@.len(),
        are_distinct(facts@),
    ensures
        match error {
            Some(message) => upserts_error(
                request.manifests@,
                facts@,
                request.mutations@,
                request.mutations@.len() as int,
            ) == Some(message@),
            None => upserts_error(
                request.manifests@,
                facts@,
                request.mutations@,
                request.mutations@.len() as int,
            ) is None,
        },
{
    let mut index: usize = 0;
    while index < request.mutations.len()
        invariant
            index <= request.mutations@.len(),
            facts@.len() == request.manifests@.len(),
            are_distinct(facts@),
            upserts_error(request.manifests@, facts@, request.mutations@, index as int) is None,
        decreases request.mutations@.len() - index,
    {
        if let Some(message) = check_upsert(request, facts, &request.mutations[index]) {
            proof {
                lemma_upsert_error_stays(
                    request.manifests@,
                    facts@,
                    request.mutations@,
                    index + 1,
                    request.mutations@.len() as int,
                );
            }
            return Some(message);
        }
        index += 1;
    }
    None
}

fn is_referred_to(mutations: &Vec<IndexDeltaRecord>, id: &ManifestId) -> (referred: bool)
    ensures
        referred == refers_to(mutations@, *id, mutations@.len() as int),
{
    let mut index: usize = 0;
    while index < mutations.len()
        invariant
            index <= mutations@.len(),
            !refers_to(mutations@, *id, index as int),
        decreases mutations@.len() - index,
    {
        if let IndexDeltaRecord::Upsert { manifest_id, .. } = &mutations[index] {
            if *manifest_id == *id {
                assert(mutations@[index as int] is Upsert);
                return true;
            }
        }
        assert forall|i: int| #![trigger mutations@[i]]
            0 <= i < index + 1 && mutations@[i] is Upsert implies mutations@[i]->Upsert_manifest_id
            != *id by {
            if i < index {
                assert(mutations@[i]->Upsert_manifest_id != *id);
            }
        }
        index += 1;
    }
    false
}

fn check_exact(facts: &Vec<ManifestFacts>, mutations: &Vec<IndexDeltaRecord>) -> (exact: bool)
    ensures
        exact == is_exact(facts@, mutations@),
{
    let mut index: usize = 0;
    while index < facts.len()
        invariant
            index <= facts@.len(),
            forall|i: int, id: ManifestId| #[trigger]
                is_manifest_at(facts@, id, i) && i < index ==> refers_to(
                    mutations@,
                    id,
                    mutations@.len() as int,
                ),
        decreases facts@.len() - index,
    {
        if let Ok(id) = &facts[index].canonical_id {
            if !is_referred_to(mutations, id) {
                assert(is_manifest_at(facts@, *id, index as int));
                assert(carries(facts@, *id));
                return false;
            }
        }
        index += 1;
    }
    let mut index: usize = 0;
    while index < mutations.len()
        invariant
            index <= mutations@.len(),
            forall|i: int, id: ManifestId| #[trigger]
                is_manifest_at(facts@, id, i) ==> refers_to(mutations@, id, mutations@.len() as int),
            forall|id: ManifestId| #[trigger]
                refers_to(mutations@, id, index as int) ==> carries(facts@, id),
        decreases mutations@.len() - index,
    {
        if let IndexDeltaRecord::Upsert { manifest_id, .. } = &mutations[index] {
            match find_manifest(facts, manifest_id, facts.len()) {
                Some(at) => {
                    assert(is_manifest_at(facts@, *manifest_id, at as int));
                },
                None => {
                    proof {
                        assert(mutations@[index as int] is Upsert);
                        assert(refers_to(mutations@, *manifest_id, mutations@.len() as int));
                        assert(!carries(facts@, *manifest_id));
                    }
                    return false;
                },
            }
        }
        assert forall|id: ManifestId| #[trigger]
            refers_to(mutations@, id, index + 1) implies carries(facts@, id) by {
            if !refers_to(mutations@, id, index as int) {
                let i = choose|i: int| #![trigger mutations@[i]]
                    0 <= i < index + 1 && mutations@[i] is Upsert
                        && mutations@[i]->Upsert_manifest_id == id;
                assert(i == index);
            }
        }
        index += 1;
    }
    assert forall|id: ManifestId| #[trigger] carries(facts@, id) <==> refers_to(
        mutations@,
        id,
        mutations@.len() as int,
    ) by {
        if carries(facts@, id) {
            let at = choose|i: int| is_manifest_at(facts@, id, i);
            assert(is_manifest_at(facts@, id, at));
        }
    }
    true
}

fn check_catalog(
    request: &IndexPublishRequest,
    facts: &Vec<ManifestFacts>,
    stored: &Vec<Option<Manifest>>,
) -> (error: Option<String>)
    requires
        facts@.len() == request.manifests@.len(),
        stored@.len() == request.manifests@.len(),
        are_distinct(facts@),
    ensures
        match error {
            Some(message) => catalog_error(request.manifests@, facts@, stored@) == Some(message@),
            None => catalog_error(request.manifests@, facts@, stored@) is None,
        },
{
    let ghost manifests = request.manifests@;
    let mut first: Option<(usize, ManifestId)> = None;
    let mut index: usize = 0;
    while index < facts.len()
        invariant
            index <= facts@.len(),
            manifests == request.manifests@,
            facts@.len() == request.manifests@.len(),
            stored@.len() == request.manifests@.len(),
            match first {
                None => forall|i: int|
                    i < index ==> !#[trigger] is_conflict(manifests, facts@, stored@, i),
                Some((at, id)) => {
                    &&& at < index
                    &&& is_conflict(manifests, facts@, stored@, at as int)
                    &&& facts@[at as int].canonical_id == Ok::<ManifestId, String>(id)
                    &&& forall|i: int|
                        i < index && #[trigger] is_conflict(manifests, facts@, stored@, i)
                            ==> !bytes_before(facts@[i].canonical_id->Ok_0@, id@)
                },
            },
        decreases facts@.len() - index,
    {
        if let (Ok(id), Some(existing)) = (&facts[index].canonical_id, &stored[index]) {
            if *existing != request.manifests[index] {
                assert(is_conflict(manifests, facts@, stored@, index as int));
                let least = match &first {
                    None => true,
                    Some((_, least)) => id.is_before(least),
                };
                proof {
                    lemma_bytes_before_irreflexive(id@);
                    if let Some((at, held)) = first {
                        if least {
                            assert forall|i: int|
                                i < index && #[trigger] is_conflict(
                                    manifests,
                                    facts@,
                                    stored@,
                                    i,
                                ) implies !bytes_before(facts@[i].canonical_id->Ok_0@, id@) by {
                                if bytes_before(facts@[i].canonical_id->Ok_0@, id@) {
                                    lemma_bytes_before_transitive(
                                        facts@[i].canonical_id->Ok_0@,
                                        id@,
                                        held@,
                                    );
                                }
                            }
                        }
                    }
                }
                if least {
                    first = Some((index, *id));
                }
            }
        }
        index += 1;
    }
    match first {
        None => None,
        Some((at, id)) => {
            proof {
                assert(is_conflict(manifests, facts@, stored@, at as int));
                assert(is_first_conflict(manifests, facts@, stored@, at as int));
                let chosen = choose|i: int| is_first_conflict(manifests, facts@, stored@, i);
                let found = facts@[chosen].canonical_id->Ok_0;
                lemma_bytes_before_total(found@, id@);
            }
            Some(
                prefixed(
                    "immutable catalog already contains different content for Manifest ",
                    hex_text(&id).as_str(),
                ),
            )
        },
    }
}

fn check_records(mutations: &Vec<IndexDeltaRecord>, record_errors: &Vec<Option<String>>) -> (error:
    Option<String>)
    requires
        record_errors@.len() == mutations@.len(),
    ensures
        match error {
            Some(message) => records_error(
                mutations@,
                record_errors@,
                mutations@.len() as int,
            ) == Some(message@),
            None => records_error(mutations@, record_errors@, mutations@.len() as int) is None,
        },
{
    let mut index: usize = 0;
    while index < mutations.len()
        invariant
            index <= mutations@.len(),
            record_errors@.len() == mutations@.len(),
            records_error(mutations@, record_errors@, index as int) is None,
        decreases mutations@.len() - index,
    {
        if let (IndexDeltaRecord::Upsert { .. }, Some(error)) = (
            &mutations[index],
            &record_errors[index],
        ) {
            proof {
                lemma_record_error_stays(
                    mutations@,
                    record_errors@,
                    index + 1,
                    mutations@.len() as int,
                );
            }
            return Some(prefixed("invalid Index upsert: ", error.as_str()));
        }
        index += 1;
    }
    None
}

proof fn lemma_record_error_stays(
    mutations: Seq<IndexDeltaRecord>,
    record_errors: Seq<Option<String>>,
    from: int,
    to: int,
)
    requires
        0 <= from <= to,
        records_error(mutations, record_errors, from) is Some,
    ensures
        records_error(mutations, record_errors, to) == records_error(
            mutations,
            record_errors,
            from,
        ),
    decreases to - from,
{
    if from < to {
        lemma_record_error_stays(mutations, record_errors, from, to - 1);
    }
}

/// Applies the mutations of a request to the records of an Index.
pub fn apply_mutations(
    records: Table<LogicalPath, FileRecord>,
    mutations: &Vec<IndexDeltaRecord>,
) -> (after: Table<LogicalPath, FileRecord>)
    requires
        records.well_formed(),
    ensures
        after.well_formed(),
        after@ == applied(records@, mutations@, mutations@.len() as int),
{
    let ghost before = records@;
    let mut records = records;
    let mut index: usize = 0;
    while index < mutations.len()
        invariant
            index <= mutations@.len(),
            records.well_formed(),
            records@ == applied(before, mutations@, index as int),
        decreases mutations@.len() - index,
    {
        match &mutations[index] {
            IndexDeltaRecord::Upsert { path, manifest_id, total_size, chunk_count, .. } => {
                records.insert(
                    path.clone(),
                    FileRecord {
                        path: path.clone(),
                        manifest_id: *manifest_id,
                        total_size: *total_size,
                        chunk_count: *chunk_count,
                    },
                );
            },
            IndexDeltaRecord::Delete { path, .. } => {
                records.remove(path);
            },
        }
        index += 1;
    }
    records
}

/// Rejects a publication for what it says itself: nothing that is stored is needed for that.
pub fn check_content(request: &IndexPublishRequest, facts: &Vec<ManifestFacts>) -> (rejection: Option<
    IndexPublishRejection,
>)
    requires
        facts@.len() == request.manifests@.len(),
    ensures
        match content_rejection(*request, facts@) {
            Some(expected) => rejection matches Some(given) && rejection_of(given) == expected,
            None => rejection is None,
        },
        rejection is None ==> are_distinct(facts@),
{
    if let Some(message) = check_manifests(facts) {
        return Some(IndexPublishRejection::InvalidMetadata { message });
    }
    proof {
        lemma_distinct(facts@);
    }
    if let Some(message) = check_upserts(request, facts) {
        return Some(IndexPublishRejection::InvalidMetadata { message });
    }
    if !check_exact(facts, &request.mutations) {
        return Some(
            IndexPublishRejection::InvalidMetadata {
                message: String::from_str(
                    "publication Manifests are not the exact Index upsert set",
                ),
            },
        );
    }
    None
}

/// Plans a publication onto an Index that is at the expected version.
///
/// `facts` tells what is known of each Manifest of the request, `stored` what the catalog holds
/// under each one's identity, and `record_errors` why an upsert makes no valid file record.
pub fn plan_publication(
    request: &IndexPublishRequest,
    facts: &Vec<ManifestFacts>,
    stored: &Vec<Option<Manifest>>,
    record_errors: &Vec<Option<String>>,
    revision: IndexRevision,
    records: Table<LogicalPath, FileRecord>,
) -> (plan: PublicationPlan)
    requires
        facts@.len() == request.manifests@.len(),
        stored@.len() == request.manifests@.len(),
        record_errors@.len() == request.mutations@.len(),
        records.well_formed(),
    ensures
        match plan_rejection(*request, facts@, stored@, record_errors@, revision) {
            Some(rejection) => plan matches PublicationPlan::Rejected(given) && rejection_of(given)
                == rejection,
            None => {
                &&& plan matches PublicationPlan::Apply { revision: next, records: after }
                &&& next == revision + 1
                &&& after.well_formed()
                &&& after@ == applied(
                    records@,
                    request.mutations@,
                    request.mutations@.len() as int,
                )
            },
        },
{
    if let Some(rejection) = check_content(request, facts) {
        return PublicationPlan::Rejected(rejection);
    }
    if let Some(message) = check_catalog(request, facts, stored) {
        return PublicationPlan::Rejected(IndexPublishRejection::InvalidMetadata { message });
    }
    if let Some(message) = check_records(&request.mutations, record_errors) {
        return PublicationPlan::Rejected(IndexPublishRejection::InvalidMetadata { message });
    }
    let after = apply_mutations(records, &request.mutations);
    match revision.checked_add(1) {
        Some(next) => PublicationPlan::Apply { revision: next, records: after },
        None => PublicationPlan::Rejected(IndexPublishRejection::RevisionExhausted),
    }
}

/// `outcome` is what comes of an Index whose version was computed as `computed`.
pub open spec fn is_verdict(
    outcome: IndexPublishOutcome,
    request: IndexPublishRequest,
    computed: Result<WireIndexVersion, String>,
) -> bool {
    match computed {
        Err(error) => outcome matches IndexPublishOutcome::Rejected(rejection) && rejection_of(
            rejection,
        ) == Rejection::InvalidMetadata("published Index is invalid: "@ + error@),
        Ok(version) => if version.digest != request.expected_result_digest {
            outcome matches IndexPublishOutcome::Rejected(rejection) && rejection_of(rejection) == (
            Rejection::ResultDigestMismatch {
                expected: request.expected_result_digest@,
                observed: version.digest@,
            })
        } else {
            outcome == IndexPublishOutcome::Published(version)
        },
    }
}

/// Compares the version of a planned Index with what the request prepared.
#[must_use]
pub fn judge_version(request: &IndexPublishRequest, computed: Result<WireIndexVersion, String>) -> (
    outcome: IndexPublishOutcome)
    ensures
        is_verdict(outcome, *request, computed),
{
    match computed {
        Err(error) => IndexPublishOutcome::Rejected(
            IndexPublishRejection::InvalidMetadata {
                message: prefixed("published Index is invalid: ", error.as_str()),
            },
        ),
        Ok(version) => if version.digest != request.expected_result_digest {
            IndexPublishOutcome::Rejected(
                IndexPublishRejection::ResultDigestMismatch {
                    expected_digest: request.expected_result_digest,
                    observed_digest: version.digest,
                },
            )
        } else {
            IndexPublishOutcome::Published(version)
        },
    }
}

} // verus!
