//! Evidence for the objects that Volumes hold.
use vstd::prelude::*;

use crate::digest::{digest_text, hex_text, ObjectId};
use crate::equality::Same;
use crate::error::{failure, fault, fault_of, CentralError, CentralErrorCode, CentralResult, Fault};
use crate::identifier::{
    ArtifactId, ArtifactPlacementId, PlacementGeneration, ReceiptId, StorageVolumeId, TenantId,
};
use crate::protocol::ObjectPlacementEvidence;
use crate::table::{
    is_walk, lemma_entry_is_mapped, lemma_mapped_is_entry, Named, Replicate, Table,
};

verus! {

/// The name under which evidence is stored.
pub open spec fn receipt_name(evidence: ObjectPlacementEvidence) -> (Seq<char>, Seq<char>) {
    (evidence.receipt.tenant_id@, evidence.receipt.receipt_id@)
}

/// Two pieces of evidence speak of one object in one placement generation.
pub open spec fn is_same_placement(
    left: ObjectPlacementEvidence,
    right: ObjectPlacementEvidence,
) -> bool {
    &&& left.receipt.tenant_id@ == right.receipt.tenant_id@
    &&& left.receipt.artifact_id@ == right.receipt.artifact_id@
    &&& left.receipt.storage_volume_id@ == right.receipt.storage_volume_id@
    &&& left.receipt.artifact_placement_id@ == right.receipt.artifact_placement_id@
    &&& left.placement_generation == right.placement_generation
    &&& left.receipt.object_id == right.receipt.object_id
}

/// Stored evidence gives the object another size.
pub open spec fn has_other_size(
    placements: Map<(Seq<char>, Seq<char>), ObjectPlacementEvidence>,
    evidence: ObjectPlacementEvidence,
) -> bool {
    exists|name: (Seq<char>, Seq<char>)| #[trigger]
        placements.contains_key(name) && is_same_placement(placements[name], evidence)
            && placements[name].receipt.size != evidence.receipt.size
}

/// Why evidence is not recorded.
pub open spec fn record_placement_fault(
    placements: Map<(Seq<char>, Seq<char>), ObjectPlacementEvidence>,
    evidence: ObjectPlacementEvidence,
) -> Option<Fault> {
    let name = receipt_name(evidence);
    if placements.contains_key(name) {
        if placements[name].same(evidence) {
            None
        } else {
            Some(
                fault(
                    CentralErrorCode::MetadataInvalid,
                    "object placement receipt "@ + name.1 + " has conflicting evidence"@,
                ),
            )
        }
    } else if has_other_size(placements, evidence) {
        Some(
            fault(
                CentralErrorCode::MetadataInvalid,
                "object "@ + digest_text(evidence.receipt.object_id@)
                    + " has conflicting placement sizes"@,
            ),
        )
    } else {
        None
    }
}

/// A placement generation starts at one.
pub fn validate_placement_generation(generation: PlacementGeneration) -> (result: CentralResult<()>)
    ensures
        fault_of(result) == if generation == 0 {
            Some(
                fault(
                    CentralErrorCode::GenerationMismatch,
                    "object placement generation must be greater than zero"@,
                ),
            )
        } else {
            None::<Fault>
        },
{
    if generation == 0 {
        return Err(
            failure(
                CentralErrorCode::GenerationMismatch,
                "object placement generation must be greater than zero",
            ),
        );
    }
    Ok(())
}

/// One object in one placement generation.
pub struct PlacementQuery {
    pub tenant_id: TenantId,
    pub artifact_id: ArtifactId,
    pub storage_volume_id: StorageVolumeId,
    pub artifact_placement_id: ArtifactPlacementId,
    pub placement_generation: PlacementGeneration,
    pub object_id: ObjectId,
}

/// Evidence that answers a query.
pub open spec fn answers(evidence: ObjectPlacementEvidence, query: PlacementQuery) -> bool {
    &&& evidence.receipt.tenant_id@ == query.tenant_id@
    &&& evidence.receipt.artifact_id@ == query.artifact_id@
    &&& evidence.receipt.storage_volume_id@ == query.storage_volume_id@
    &&& evidence.receipt.artifact_placement_id@ == query.artifact_placement_id@
    &&& evidence.placement_generation == query.placement_generation
    &&& evidence.receipt.object_id == query.object_id
}

/// Tells whether evidence answers a query.
#[must_use]
pub fn evidence_answers(evidence: &ObjectPlacementEvidence, query: &PlacementQuery) -> (verdict:
    bool)
    ensures
        verdict == answers(*evidence, *query),
{
    let receipt = &evidence.receipt;
    receipt.tenant_id == query.tenant_id && receipt.artifact_id == query.artifact_id
        && receipt.storage_volume_id == query.storage_volume_id && receipt.artifact_placement_id
        == query.artifact_placement_id && evidence.placement_generation
        == query.placement_generation && receipt.object_id == query.object_id
}

/// The evidence at `index` is the one that was verified last; among equals, the last in order.
pub open spec fn is_latest(
    entries: Seq<((TenantId, ReceiptId), ObjectPlacementEvidence)>,
    query: PlacementQuery,
    index: int,
) -> bool {
    &&& 0 <= index < entries.len()
    &&& answers(entries[index].1, query)
    &&& forall|i: int|
        0 <= i < entries.len() && answers((#[trigger] entries[i]).1, query) ==> {
            &&& entries[i].1.receipt.verified_at_unix_ms
                <= entries[index].1.receipt.verified_at_unix_ms
            &&& i > index ==> entries[i].1.receipt.verified_at_unix_ms
                < entries[index].1.receipt.verified_at_unix_ms
        }
}

pub struct InMemoryObjectCatalog {
    placements: Table<(TenantId, ReceiptId), ObjectPlacementEvidence>,
}

impl View for InMemoryObjectCatalog {
    type V = Map<(Seq<char>, Seq<char>), ObjectPlacementEvidence>;

    closed spec fn view(&self) -> Map<(Seq<char>, Seq<char>), ObjectPlacementEvidence> {
        self.placements@
    }
}

impl InMemoryObjectCatalog {
    /// The evidence in the order of tenant and receipt.
    pub closed spec fn entries(self) -> Seq<((TenantId, ReceiptId), ObjectPlacementEvidence)> {
        self.placements.entries()
    }

    /// Every piece of evidence is stored under its own receipt.
    pub closed spec fn well_formed(self) -> bool {
        &&& self.placements.well_formed()
        &&& forall|name: (Seq<char>, Seq<char>)| #[trigger]
            self.placements@.contains_key(name) ==> receipt_name(self.placements@[name]) == name
    }

    #[must_use]
    pub fn new() -> (catalog: Self)
        ensures
            catalog.well_formed(),
            catalog@ == Map::<(Seq<char>, Seq<char>), ObjectPlacementEvidence>::empty(),
    {
        Self { placements: Table::new() }
    }

    fn conflicts_in_size(&self, evidence: &ObjectPlacementEvidence) -> (conflicts: bool)
        requires
            self.well_formed(),
        ensures
            conflicts == has_other_size(self@, *evidence),
    {
        let ghost entries = self.placements.entries();
        let mut index: usize = 0;
        while index < self.placements.len()
            invariant
                entries == self.placements.entries(),
                self.placements.well_formed(),
                index <= entries.len(),
                forall|i: int|
                    0 <= i < index ==> !(is_same_placement((#[trigger] entries[i]).1, *evidence)
                        && entries[i].1.receipt.size != evidence.receipt.size),
            decreases entries.len() - index,
        {
            let existing = &self.placements.entry_at(index).1;
            if existing.receipt.tenant_id == evidence.receipt.tenant_id
                && existing.receipt.artifact_id == evidence.receipt.artifact_id
                && existing.receipt.storage_volume_id == evidence.receipt.storage_volume_id
                && existing.receipt.artifact_placement_id == evidence.receipt.artifact_placement_id
                && existing.placement_generation == evidence.placement_generation
                && existing.receipt.object_id == evidence.receipt.object_id
                && existing.receipt.size != evidence.receipt.size {
                proof {
                    lemma_entry_is_mapped(entries, index as int);
                }
                return true;
            }
            index += 1;
        }
        proof {
            if has_other_size(self@, *evidence) {
                let name = choose|name: (Seq<char>, Seq<char>)| #[trigger]
                    self@.contains_key(name) && is_same_placement(self@[name], *evidence)
                        && self@[name].receipt.size != evidence.receipt.size;
                let at = lemma_mapped_is_entry(entries, name);
                assert(false);
            }
        }
        false
    }

    /// Records evidence. A replay is idempotent; other evidence under the same receipt is rejected.
    pub fn record_placement(&mut self, evidence: &ObjectPlacementEvidence) -> (result: CentralResult<
        (),
    >)
        requires
            old(self).well_formed(),
        ensures
            final(self).well_formed(),
            fault_of(result) == record_placement_fault(old(self)@, *evidence),
            final(self)@ == if result is Ok && !old(self)@.contains_key(receipt_name(*evidence)) {
                old(self)@.insert(receipt_name(*evidence), *evidence)
            } else {
                old(self)@
            },
    {
        let receipt = &evidence.receipt;
        let key = (receipt.tenant_id.clone(), receipt.receipt_id.clone());
        if let Some(existing) = self.placements.get(&key) {
            if *existing == *evidence {
                return Ok(());
            }
            let mut message = String::from_str("object placement receipt ");
            message.append(receipt.receipt_id.as_str());
            message.append(" has conflicting evidence");
            return Err(CentralError::new(CentralErrorCode::MetadataInvalid, message));
        }
        if self.conflicts_in_size(evidence) {
            let mut message = String::from_str("object ");
            message.append(hex_text(&receipt.object_id).as_str());
            message.append(" has conflicting placement sizes");
            return Err(CentralError::new(CentralErrorCode::MetadataInvalid, message));
        }
        self.placements.insert(key, evidence.clone());
        Ok(())
    }

    /// The evidence for an object that was verified last.
    #[must_use]
    pub fn object_placement(&self, query: &PlacementQuery) -> (found: Option<
        ObjectPlacementEvidence,
    >)
        requires
            self.well_formed(),
        ensures
            is_walk(self.entries(), self@),
            found is None <==> forall|i: int|
                0 <= i < self.entries().len() ==> !answers((#[trigger] self.entries()[i]).1, *query),
            found matches Some(evidence) ==> exists|index: int|
                is_latest(self.entries(), *query, index) && evidence == (
                #[trigger] self.entries()[index]).1,
    {
        let ghost entries = self.placements.entries();
        let mut latest: Option<usize> = None;
        let mut index: usize = 0;
        while index < self.placements.len()
            invariant
                entries == self.placements.entries(),
                index <= entries.len(),
                match latest {
                    None => forall|i: int|
                        0 <= i < index ==> !answers((#[trigger] entries[i]).1, *query),
                    Some(at) => {
                        &&& at < index
                        &&& answers(entries[at as int].1, *query)
                        &&& forall|i: int|
                            0 <= i < index && answers((#[trigger] entries[i]).1, *query) ==> {
                                &&& entries[i].1.receipt.verified_at_unix_ms
                                    <= entries[at as int].1.receipt.verified_at_unix_ms
                                &&& i > at ==> entries[i].1.receipt.verified_at_unix_ms
                                    < entries[at as int].1.receipt.verified_at_unix_ms
                            }
                    },
                },
            decreases entries.len() - index,
        {
            let evidence = &self.placements.entry_at(index).1;
            if evidence_answers(evidence, query) {
                let newer = match latest {
                    None => true,
                    Some(at) => evidence.receipt.verified_at_unix_ms >= self.placements.entry_at(
                        at,
                    ).1.receipt.verified_at_unix_ms,
                };
                if newer {
                    latest = Some(index);
                }
            }
            index += 1;
        }
        match latest {
            None => None,
            Some(at) => {
                proof {
                    assert(is_latest(entries, *query, at as int));
                    assert(entries[at as int] == self.entries()[at as int]);
                }
                Some(self.placements.entry_at(at).1.clone())
            },
        }
    }
}

} // verus!
