//! The Indexes of every Playground and the Manifests behind them.
use vstd::prelude::*;

use crate::digest::ManifestId;
use crate::equality::Same;
use crate::error::{
    fault, fault_of, CentralError, CentralErrorCode, CentralResult, Fault,
};
use crate::identifier::{ArtifactId, IndexRevision, LogicalPath, PlaygroundId, TenantId};
use crate::model::{
    IndexKey, IndexPublishOutcome, IndexPublishRequest, InitializeIndexSnapshotRequest, JobKey,
    PublishedIndex,
};
use crate::protocol::{FileRecord, IndexDeltaRecord, Manifest, WireIndexVersion};
use crate::publication::{
    applied, begin_publication, is_same_version, is_verdict, judge_version, plan_publication,
    plan_rejection, publication_fault, rejection_of, same_index_version, ManifestFacts,
    PublicationPlan, PublicationStep,
};
use crate::table::{
    lemma_entry_is_mapped, lemma_mapped_is_entry, lemma_mapped_next, mapped, Named, OrderedKey,
    Table,
};
use crate::text::text_before;

verus! {

/// The name of an Index: tenant, Artifact, Playground.
pub type IndexName = (Seq<char>, (Seq<char>, Seq<char>));

/// The name of a Manifest: tenant, Artifact, identity.
pub type ManifestName = (Seq<char>, (Seq<char>, Seq<u8>));

/// An Index as a mathematical value.
#[verifier::ext_equal]
pub ghost struct IndexView {
    pub version: WireIndexVersion,
    pub records: Map<Seq<char>, FileRecord>,
}

/// Everything that a publisher holds, as a mathematical value.
#[verifier::ext_equal]
pub ghost struct PublisherView {
    /// The version of an Index that nothing was published to.
    pub empty_version: WireIndexVersion,
    pub indexes: Map<IndexName, IndexView>,
    pub manifests: Map<ManifestName, Manifest>,
    pub publications: Map<(Seq<char>, Seq<char>), (IndexPublishRequest, IndexPublishOutcome)>,
}

pub struct IndexSnapshot {
    pub version: WireIndexVersion,
    pub records: Table<LogicalPath, FileRecord>,
}

impl View for IndexSnapshot {
    type V = IndexView;

    open spec fn view(&self) -> IndexView {
        IndexView { version: self.version, records: self.records@ }
    }
}

/// Every file is filed under its own path.
pub open spec fn is_filed(records: Map<Seq<char>, FileRecord>) -> bool {
    forall|path: Seq<char>| #[trigger] records.contains_key(path) ==> records[path].path@ == path
}

/// The files of an Index, in the order of their paths.
pub open spec fn is_listing(listing: Seq<FileRecord>, records: Map<Seq<char>, FileRecord>) -> bool {
    &&& forall|i: int, j: int|
        0 <= i < j < listing.len() ==> text_before(
            (#[trigger] listing[i]).path@,
            (#[trigger] listing[j]).path@,
        )
    &&& forall|i: int|
        0 <= i < listing.len() ==> records.contains_key((#[trigger] listing[i]).path@)
            && records[listing[i].path@] == listing[i]
    &&& forall|path: Seq<char>| #[trigger]
        records.contains_key(path) ==> listing.contains(records[path])
}

/// The records that a list of files makes; of two with one path the later one counts.
pub open spec fn filed(files: Seq<FileRecord>, count: int) -> Map<Seq<char>, FileRecord>
    decreases count,
{
    if count <= 0 {
        Map::empty()
    } else {
        filed(files, count - 1).insert(files[count - 1].path@, files[count - 1])
    }
}

/// Two Indexes hold the same files.
pub open spec fn are_same_records(
    left: Map<Seq<char>, FileRecord>,
    right: Map<Seq<char>, FileRecord>,
) -> bool {
    &&& left.dom() == right.dom()
    &&& forall|path: Seq<char>| #[trigger]
        left.contains_key(path) ==> left[path].same(right[path])
}

/// The name of an Index.
pub open spec fn index_name(key: IndexKey) -> IndexName {
    (key.tenant_id@, (key.artifact_id@, key.playground_id@))
}

/// The name of a Manifest of an Index.
pub open spec fn manifest_name(key: IndexKey, id: ManifestId) -> ManifestName {
    (key.tenant_id@, (key.artifact_id@, id@))
}

/// The Index that a request would change.
pub open spec fn current_index(state: PublisherView, key: IndexKey) -> IndexView {
    if state.indexes.contains_key(index_name(key)) {
        state.indexes[index_name(key)]
    } else {
        IndexView { version: state.empty_version, records: Map::empty() }
    }
}

/// What the catalog holds under the identity of each Manifest of a request.
pub open spec fn stored_manifests(
    state: PublisherView,
    key: IndexKey,
    facts: Seq<ManifestFacts>,
) -> Seq<Option<Manifest>> {
    Seq::new(
        facts.len(),
        |i: int|
            match facts[i].canonical_id {
                Ok(id) => if state.manifests.contains_key(manifest_name(key, id)) {
                    Some(state.manifests[manifest_name(key, id)])
                } else {
                    None
                },
                Err(_) => None,
            },
    )
}

/// The catalog with the first `count` Manifests of a request; what it holds already stays.
pub open spec fn catalogued(
    manifests: Map<ManifestName, Manifest>,
    request: IndexPublishRequest,
    facts: Seq<ManifestFacts>,
    count: int,
) -> Map<ManifestName, Manifest>
    decreases count,
{
    if count <= 0 {
        manifests
    } else {
        let before = catalogued(manifests, request, facts, count - 1);
        match facts[count - 1].canonical_id {
            Ok(id) => if before.contains_key(manifest_name(request.index_key, id)) {
                before
            } else {
                before.insert(
                    manifest_name(request.index_key, id),
                    request.manifests@[count - 1],
                )
            },
            Err(_) => before,
        }
    }
}

/// The name under which the outcome of a request is kept.
pub open spec fn publication_name(request: IndexPublishRequest) -> (Seq<char>, Seq<char>) {
    (request.job_key.tenant_id@, request.job_key.job_id@)
}

/// Why a publication is refused outright.
pub open spec fn publish_fault(state: PublisherView, request: IndexPublishRequest) -> Option<Fault> {
    publication_fault(
        if state.publications.contains_key(publication_name(request)) {
            Some(state.publications[publication_name(request)].0)
        } else {
            None
        },
        request,
    )
}

/// A request that was decided before.
pub open spec fn is_replay(state: PublisherView, request: IndexPublishRequest) -> bool {
    state.publications.contains_key(publication_name(request))
}

/// The state after a request was decided as `outcome`. Only a published Index changes anything
/// besides the record of the decision.
pub open spec fn decided(
    state: PublisherView,
    request: IndexPublishRequest,
    facts: Seq<ManifestFacts>,
    outcome: IndexPublishOutcome,
) -> PublisherView {
    let publications = state.publications.insert(publication_name(request), (request, outcome));
    match outcome {
        IndexPublishOutcome::Published(version) => PublisherView {
            indexes: state.indexes.insert(
                index_name(request.index_key),
                IndexView {
                    version,
                    records: applied(
                        current_index(state, request.index_key).records,
                        request.mutations@,
                        request.mutations@.len() as int,
                    ),
                },
            ),
            manifests: catalogued(state.manifests, request, facts, facts.len() as int),
            publications,
            ..state
        },
        _ => PublisherView { publications, ..state },
    }
}

/// Which outcomes a fresh request may have, where `compute` computes the version of an Index.
pub open spec fn is_outcome<F: Fn(IndexRevision, &Vec<FileRecord>) -> Result<
    WireIndexVersion,
    String,
>>(
    state: PublisherView,
    request: IndexPublishRequest,
    facts: Seq<ManifestFacts>,
    record_errors: Seq<Option<String>>,
    compute: F,
    outcome: IndexPublishOutcome,
) -> bool {
    let current = current_index(state, request.index_key);
    let rejection = plan_rejection(
        request,
        facts,
        stored_manifests(state, request.index_key, facts),
        record_errors,
        current.version.revision,
    );
    if !is_same_version(current.version, request.expected_index_version) {
        outcome == IndexPublishOutcome::Conflict(current.version)
    } else if rejection is Some {
        outcome matches IndexPublishOutcome::Rejected(given) && rejection_of(given) == rejection->0
    } else {
        exists|listing: Vec<FileRecord>, computed: Result<WireIndexVersion, String>|
            {
                &&& is_listing(
                    listing@,
                    applied(
                        current.records,
                        request.mutations@,
                        request.mutations@.len() as int,
                    ),
                )
                &&& #[trigger] call_ensures(
                    compute,
                    ((current.version.revision + 1) as u64, &listing),
                    computed,
                )
                &&& is_verdict(outcome, request, computed)
            }
    }
}

fn copy_records(records: &Table<LogicalPath, FileRecord>) -> (copy: Table<LogicalPath, FileRecord>)
    requires
        records.well_formed(),
    ensures
        copy.well_formed(),
        copy@ == records@,
{
    let ghost entries = records.entries();
    let mut copy: Table<LogicalPath, FileRecord> = Table::new();
    let mut index: usize = 0;
    proof {
        assert(mapped(entries.take(0)) =~= Map::<Seq<char>, FileRecord>::empty());
    }
    while index < records.len()
        invariant
            entries == records.entries(),
            records.well_formed(),
            index <= entries.len(),
            copy.well_formed(),
            copy@ == mapped(entries.take(index as int)),
        decreases entries.len() - index,
    {
        let entry = records.entry_at(index);
        proof {
            lemma_mapped_next(entries, index as int);
        }
        copy.insert(entry.0.clone(), entry.1.clone());
        index += 1;
    }
    assert(entries.take(index as int) =~= entries);
    copy
}

/// The files of an Index in the order of their paths.
pub fn list_records(records: &Table<LogicalPath, FileRecord>) -> (listing: Vec<FileRecord>)
    requires
        records.well_formed(),
        is_filed(records@),
    ensures
        is_listing(listing@, records@),
{
    let ghost entries = records.entries();
    let mut listing: Vec<FileRecord> = Vec::new();
    let mut index: usize = 0;
    while index < records.len()
        invariant
            entries == records.entries(),
            index <= entries.len(),
            listing@.len() == index,
            forall|i: int| 0 <= i < index ==> #[trigger] listing@[i] == entries[i].1,
        decreases entries.len() - index,
    {
        listing.push(records.entry_at(index).1.clone());
        index += 1;
    }
    proof {
        assert forall|i: int| 0 <= i < listing@.len() implies records@.contains_key(
            (#[trigger] listing@[i]).path@,
        ) && records@[listing@[i].path@] == listing@[i] && entries[i].0@ == listing@[i].path@ by {
            lemma_entry_is_mapped(entries, i);
        }
        assert forall|i: int, j: int| 0 <= i < j < listing@.len() implies text_before(
            (#[trigger] listing@[i]).path@,
            (#[trigger] listing@[j]).path@,
        ) by {
            assert(LogicalPath::precedes(entries[i].0.name(), entries[j].0.name()));
        }
        assert forall|path: Seq<char>| #[trigger] records@.contains_key(path) implies listing@
            .contains(records@[path]) by {
            let at = lemma_mapped_is_entry(entries, path);
            assert(listing@[at] == records@[path]);
        }
    }
    listing
}

/// Files in the order of their paths; of two under one path the later one stays.
pub fn file_records(files: &Vec<FileRecord>) -> (records: Table<LogicalPath, FileRecord>)
    ensures
        records.well_formed(),
        records@ == filed(files@, files@.len() as int),
        is_filed(records@),
{
    let mut records: Table<LogicalPath, FileRecord> = Table::new();
    let mut index: usize = 0;
    while index < files.len()
        invariant
            index <= files@.len(),
            records.well_formed(),
            records@ == filed(files@, index as int),
            is_filed(records@),
        decreases files@.len() - index,
    {
        records.insert(files[index].path.clone(), files[index].clone());
        index += 1;
    }
    records
}

fn holds_all(left: &Table<LogicalPath, FileRecord>, right: &Table<LogicalPath, FileRecord>) -> (held:
    bool)
    requires
        left.well_formed(),
        right.well_formed(),
    ensures
        held == forall|path: Seq<char>| #[trigger]
            left@.contains_key(path) ==> right@.contains_key(path) && left@[path].same(right@[path]),
{
    let ghost entries = left.entries();
    let mut index: usize = 0;
    while index < left.len()
        invariant
            entries == left.entries(),
            left.well_formed(),
            right.well_formed(),
            index <= entries.len(),
            forall|i: int|
                0 <= i < index ==> right@.contains_key((#[trigger] entries[i]).0.name())
                    && entries[i].1.same(right@[entries[i].0.name()]),
        decreases entries.len() - index,
    {
        let entry = left.entry_at(index);
        proof {
            lemma_entry_is_mapped(entries, index as int);
            assert(left@.contains_key(entry.0.name()));
        }
        match right.get(&entry.0) {
            Some(other) => if entry.1 != *other {
                return false;
            },
            None => return false,
        }
        index += 1;
    }
    proof {
        assert forall|path: Seq<char>| #[trigger] left@.contains_key(path) implies right@
            .contains_key(path) && left@[path].same(right@[path]) by {
            let at = lemma_mapped_is_entry(entries, path);
        }
    }
    true
}

fn same_records(left: &Table<LogicalPath, FileRecord>, right: &Table<LogicalPath, FileRecord>) -> (
    same: bool)
    requires
        left.well_formed(),
        right.well_formed(),
    ensures
        same == are_same_records(left@, right@),
{
    let same = holds_all(left, right) && holds_all(right, left);
    proof {
        if same {
            assert(left@.dom() =~= right@.dom());
        } else if are_same_records(left@, right@) {
            assert forall|path: Seq<char>| #[trigger] right@.contains_key(path) implies left@
                .contains_key(path) && right@[path].same(left@[path]) by {
                assert(left@.dom().contains(path));
            }
            assert forall|path: Seq<char>| #[trigger] left@.contains_key(path) implies right@
                .contains_key(path) by {
                assert(right@.dom().contains(path));
            }
        }
    }
    same
}

/// Why an Index is not initialized where one is stored.
pub open spec fn existing_index_fault(
    existing: IndexView,
    request: InitializeIndexSnapshotRequest,
) -> Option<Fault> {
    let records = filed(request.records@, request.records@.len() as int);
    if is_same_version(existing.version, request.version) && are_same_records(
        existing.records,
        records,
    ) {
        None
    } else {
        Some(
            fault(
                CentralErrorCode::ConcurrentUpdate,
                "Index for Playground "@ + request.index_key.playground_id@
                    + " is already initialized with a different snapshot"@,
            ),
        )
    }
}

/// Accepts the replay of a stored initialization and refuses another one.
pub fn resolve_existing_index(
    existing: &IndexSnapshot,
    request: &InitializeIndexSnapshotRequest,
) -> (result: CentralResult<()>)
    requires
        existing.records.well_formed(),
    ensures
        fault_of(result) == existing_index_fault(existing@, *request),
{
    let records = file_records(&request.records);
    if same_index_version(&existing.version, &request.version) && same_records(
        &existing.records,
        &records,
    ) {
        return Ok(());
    }
    let mut message = String::from_str("Index for Playground ");
    message.append(request.index_key.playground_id.as_str());
    message.append(" is already initialized with a different snapshot");
    Err(CentralError::new(CentralErrorCode::ConcurrentUpdate, message))
}

proof fn lemma_applied_stays_filed(
    records: Map<Seq<char>, FileRecord>,
    mutations: Seq<IndexDeltaRecord>,
    count: int,
)
    requires
        is_filed(records),
    ensures
        is_filed(applied(records, mutations, count)),
    decreases count,
{
    if count > 0 {
        lemma_applied_stays_filed(records, mutations, count - 1);
    }
}

pub struct InMemoryIndexPublisher {
    empty_version: WireIndexVersion,
    indexes: Table<(TenantId, (ArtifactId, PlaygroundId)), IndexSnapshot>,
    manifests: Table<(TenantId, (ArtifactId, ManifestId)), Manifest>,
    publications: Table<JobKey, (IndexPublishRequest, IndexPublishOutcome)>,
}

impl View for InMemoryIndexPublisher {
    type V = PublisherView;

    closed spec fn view(&self) -> PublisherView {
        PublisherView {
            empty_version: self.empty_version,
            indexes: self.indexes@.map_values(|snapshot: IndexSnapshot| snapshot@),
            manifests: self.manifests@,
            publications: self.publications@,
        }
    }
}

impl InMemoryIndexPublisher {
    /// Every file of every Index is filed under its own path, and every decision is kept under the
    /// job of its request.
    pub closed spec fn well_formed(self) -> bool {
        &&& self.indexes.well_formed()
        &&& self.manifests.well_formed()
        &&& self.publications.well_formed()
        &&& forall|name: IndexName| #[trigger]
            self.indexes@.contains_key(name) ==> self.indexes@[name].records.well_formed()
                && is_filed(self.indexes@[name].records@)
        &&& forall|name: (Seq<char>, Seq<char>)| #[trigger]
            self.publications@.contains_key(name) ==> publication_name(self.publications@[name].0)
                == name
    }

    /// A publisher without any Index. `empty_version` is the version of an Index without files.
    #[must_use]
    pub fn new(empty_version: WireIndexVersion) -> (publisher: Self)
        ensures
            publisher.well_formed(),
            publisher@ == (PublisherView {
                empty_version,
                indexes: Map::empty(),
                manifests: Map::empty(),
                publications: Map::empty(),
            }),
    {
        let publisher = Self {
            empty_version,
            indexes: Table::new(),
            manifests: Table::new(),
            publications: Table::new(),
        };
        assert(publisher@.indexes =~= Map::<IndexName, IndexView>::empty());
        publisher
    }

    /// Puts an Index in place. `version` is the version of exactly these files.
    pub fn seed(&mut self, key: IndexKey, version: WireIndexVersion, records: Vec<FileRecord>)
        requires
            old(self).well_formed(),
        ensures
            final(self).well_formed(),
            final(self)@ == (PublisherView {
                indexes: old(self)@.indexes.insert(
                    index_name(key),
                    IndexView { version, records: filed(records@, records@.len() as int) },
                ),
                ..old(self)@
            }),
    {
        let snapshot = IndexSnapshot { version, records: file_records(&records) };
        let ghost view = snapshot@;
        self.indexes.insert((key.tenant_id, (key.artifact_id, key.playground_id)), snapshot);
        proof {
            assert(self@.indexes =~= old(self)@.indexes.insert(index_name(key), view));
        }
    }

    /// The Index of a Playground: its version and its files in the order of their paths.
    #[must_use]
    pub fn snapshot(&self, key: &IndexKey) -> (index: PublishedIndex)
        requires
            self.well_formed(),
        ensures
            index.version == current_index(self@, *key).version,
            is_listing(index.records@, current_index(self@, *key).records),
    {
        let name = (key.tenant_id.clone(), (key.artifact_id.clone(), key.playground_id.clone()));
        match self.indexes.get(&name) {
            Some(snapshot) => PublishedIndex {
                version: snapshot.version.clone(),
                records: list_records(&snapshot.records),
            },
            None => PublishedIndex { version: self.empty_version.clone(), records: Vec::new() },
        }
    }

    #[must_use]
    pub fn published_index(&self, key: &IndexKey) -> (index: PublishedIndex)
        requires
            self.well_formed(),
        ensures
            index.version == current_index(self@, *key).version,
            is_listing(index.records@, current_index(self@, *key).records),
    {
        self.snapshot(key)
    }

    #[must_use]
    pub fn current_version(&self, key: &IndexKey) -> (version: WireIndexVersion)
        requires
            self.well_formed(),
        ensures
            version == current_index(self@, *key).version,
    {
        let name = (key.tenant_id.clone(), (key.artifact_id.clone(), key.playground_id.clone()));
        match self.indexes.get(&name) {
            Some(snapshot) => snapshot.version.clone(),
            None => self.empty_version.clone(),
        }
    }

    #[must_use]
    pub fn manifest(
        &self,
        tenant_id: &TenantId,
        artifact_id: &ArtifactId,
        manifest_id: ManifestId,
    ) -> (manifest: Option<Manifest>)
        requires
            self.well_formed(),
        ensures
            manifest == if self@.manifests.contains_key(
                (tenant_id@, (artifact_id@, manifest_id@)),
            ) {
                Some(self@.manifests[(tenant_id@, (artifact_id@, manifest_id@))])
            } else {
                None
            },
    {
        let name = (tenant_id.clone(), (artifact_id.clone(), manifest_id));
        match self.manifests.get(&name) {
            Some(manifest) => Some(manifest.clone()),
            None => None,
        }
    }

    /// Creates the first Index of a Playground. An exact replay gives the stored version.
    ///
    /// `validity` is the outcome of checking that the version is the canonical one of the files.
    pub fn initialize_snapshot(
        &mut self,
        request: InitializeIndexSnapshotRequest,
        validity: CentralResult<()>,
    ) -> (result: CentralResult<WireIndexVersion>)
        requires
            old(self).well_formed(),
        ensures
            final(self).well_formed(),
            ({
                let name = index_name(request.index_key);
                let records = filed(request.records@, request.records@.len() as int);
                let indexes = old(self)@.indexes;
                if validity is Err {
                    fault_of(result) == fault_of(validity) && final(self)@ == old(self)@
                } else if !indexes.contains_key(name) {
                    &&& result == Ok::<WireIndexVersion, CentralError>(request.version)
                    &&& final(self)@ == (PublisherView {
                        indexes: indexes.insert(
                            name,
                            IndexView { version: request.version, records },
                        ),
                        ..old(self)@
                    })
                } else {
                    &&& fault_of(result) == existing_index_fault(indexes[name], request)
                    &&& result matches Ok(version) ==> version == indexes[name].version
                    &&& final(self)@ == old(self)@
                }
            }),
    {
        validity?;
        let name = (
            request.index_key.tenant_id.clone(),
            (request.index_key.artifact_id.clone(), request.index_key.playground_id.clone()),
        );
        if let Some(existing) = self.indexes.get(&name) {
            resolve_existing_index(existing, &request)?;
            return Ok(existing.version.clone());
        }
        let version = request.version.clone();
        let records = file_records(&request.records);
        let snapshot = IndexSnapshot { version: request.version, records };
        let ghost view = snapshot@;
        self.indexes.insert(name, snapshot);
        proof {
            assert(self@.indexes =~= old(self)@.indexes.insert(
                index_name(request.index_key),
                view,
            ));
        }
        Ok(version)
    }

    fn load_stored(&self, key: &IndexKey, facts: &Vec<ManifestFacts>) -> (stored: Vec<
        Option<Manifest>,
    >)
        requires
            self.well_formed(),
        ensures
            stored@ == stored_manifests(self@, *key, facts@),
    {
        let mut stored: Vec<Option<Manifest>> = Vec::new();
        let mut index: usize = 0;
        while index < facts.len()
            invariant
                self.well_formed(),
                index <= facts@.len(),
                stored@.len() == index,
                forall|i: int|
                    0 <= i < index ==> #[trigger] stored@[i] == stored_manifests(
                        self@,
                        *key,
                        facts@,
                    )[i],
            decreases facts@.len() - index,
        {
            let found = match &facts[index].canonical_id {
                Ok(id) => self.manifest(&key.tenant_id, &key.artifact_id, *id),
                Err(_) => None,
            };
            stored.push(found);
            index += 1;
        }
        assert(stored@ =~= stored_manifests(self@, *key, facts@));
        stored
    }

    fn catalogue(&mut self, request: &IndexPublishRequest, facts: &Vec<ManifestFacts>)
        requires
            old(self).well_formed(),
            facts@.len() == request.manifests@.len(),
        ensures
            final(self).well_formed(),
            final(self)@ == (PublisherView {
                manifests: catalogued(
                    old(self)@.manifests,
                    *request,
                    facts@,
                    facts@.len() as int,
                ),
                ..old(self)@
            }),
    {
        let mut index: usize = 0;
        while index < facts.len()
            invariant
                self.well_formed(),
                index <= facts@.len(),
                facts@.len() == request.manifests@.len(),
                self.indexes == old(self).indexes,
                self.publications == old(self).publications,
                self.empty_version == old(self).empty_version,
                self.manifests@ == catalogued(
                    old(self)@.manifests,
                    *request,
                    facts@,
                    index as int,
                ),
            decreases facts@.len() - index,
        {
            if let Ok(id) = &facts[index].canonical_id {
                let name = (
                    request.index_key.tenant_id.clone(),
                    (request.index_key.artifact_id.clone(), *id),
                );
                if !self.manifests.contains(&name) {
                    self.manifests.insert(name, request.manifests[index].clone());
                }
            }
            index += 1;
        }
    }

    fn record_decision(&mut self, request: IndexPublishRequest, outcome: &IndexPublishOutcome)
        requires
            old(self).well_formed(),
        ensures
            final(self).well_formed(),
            final(self)@ == (PublisherView {
                publications: old(self)@.publications.insert(
                    publication_name(request),
                    (request, *outcome),
                ),
                ..old(self)@
            }),
    {
        let key = request.job_key.clone();
        self.publications.insert(key, (request, outcome.clone()));
    }

    /// Publishes Manifests and Index of a request as one step, or decides that it cannot. Repeating
    /// a request gives the decision that was taken first.
    ///
    /// `facts` tells what is known of each Manifest of the request, `record_errors` why an upsert
    /// makes no valid file record, and `compute` computes the version of an Index from its revision
    /// and its files in the order of their paths.
    pub fn compare_and_swap<
        F: Fn(IndexRevision, &Vec<FileRecord>) -> Result<WireIndexVersion, String>,
    >(
        &mut self,
        request: IndexPublishRequest,
        facts: &Vec<ManifestFacts>,
        record_errors: &Vec<Option<String>>,
        compute: F,
    ) -> (result: CentralResult<IndexPublishOutcome>)
        requires
            old(self).well_formed(),
            facts@.len() == request.manifests@.len(),
            record_errors@.len() == request.mutations@.len(),
            forall|revision: IndexRevision, listing: &Vec<FileRecord>| #[trigger]
                call_requires(compute, (revision, listing)),
        ensures
            final(self).well_formed(),
            fault_of(result) == publish_fault(old(self)@, request),
            result is Err ==> final(self)@ == old(self)@,
            result matches Ok(outcome) ==> if is_replay(old(self)@, request) {
                &&& outcome == old(self)@.publications[publication_name(request)].1
                &&& final(self)@ == old(self)@
            } else {
                &&& is_outcome(old(self)@, request, facts@, record_errors@, compute, outcome)
                &&& final(self)@ == decided(old(self)@, request, facts@, outcome)
            },
    {
        let ghost before = self@;
        let ghost current = current_index(before, request.index_key);
        let name = (
            request.index_key.tenant_id.clone(),
            (request.index_key.artifact_id.clone(), request.index_key.playground_id.clone()),
        );
        let (version, records) = match self.indexes.get(&name) {
            Some(snapshot) => (snapshot.version.clone(), copy_records(&snapshot.records)),
            None => (self.empty_version.clone(), Table::new()),
        };
        assert(version == current.version && records@ =~= current.records);
        match begin_publication(
            self.publications.get(&request.job_key),
            Some(&version),
            &request,
        )? {
            PublicationStep::Replay(outcome) => return Ok(outcome),
            PublicationStep::Conflict(version) => {
                let outcome = IndexPublishOutcome::Conflict(version);
                self.record_decision(request, &outcome);
                return Ok(outcome);
            },
            PublicationStep::Load | PublicationStep::Plan => {},
        }
        let stored = self.load_stored(&request.index_key, facts);
        let plan = plan_publication(
            &request,
            facts,
            &stored,
            record_errors,
            version.revision,
            records,
        );
        let (revision, records) = match plan {
            PublicationPlan::Rejected(rejection) => {
                let outcome = IndexPublishOutcome::Rejected(rejection);
                self.record_decision(request, &outcome);
                return Ok(outcome);
            },
            PublicationPlan::Apply { revision, records } => (revision, records),
        };
        proof {
            lemma_applied_stays_filed(
                current.records,
                request.mutations@,
                request.mutations@.len() as int,
            );
        }
        let listing = list_records(&records);
        let computed = compute(revision, &listing);
        let ghost said = computed;
        let outcome = judge_version(&request, computed);
        proof {
            assert(is_listing(
                listing@,
                applied(current.records, request.mutations@, request.mutations@.len() as int),
            ));
            assert(is_verdict(outcome, request, said));
            assert(revision == (current.version.revision + 1) as u64);
            assert(call_ensures(
                compute,
                ((current.version.revision + 1) as u64, &listing),
                said,
            ));
            assert(is_outcome(before, request, facts@, record_errors@, compute, outcome));
        }
        if let IndexPublishOutcome::Published(version) = &outcome {
            let snapshot = IndexSnapshot { version: version.clone(), records };
            let ghost view = snapshot@;
            self.indexes.insert(name, snapshot);
            proof {
                assert(self@.indexes =~= before.indexes.insert(
                    index_name(request.index_key),
                    view,
                ));
            }
            self.catalogue(&request, facts);
        }
        self.record_decision(request, &outcome);
        Ok(outcome)
    }
}

} // verus!
