//! Metadata batches while their pages come in.
use vstd::prelude::*;

use crate::equality::Same;
use crate::error::{fault, fault_of, CentralError, CentralErrorCode, CentralResult, Fault};
use crate::identifier::{MetadataBatchId, TenantId};
use crate::model::StagedMetadataBatch;
use crate::protocol::{MetadataBatchDescriptor, MetadataBatchPage};
use crate::table::{
    is_entry, is_walk, lemma_entry_is_mapped, lemma_mapped_is_entry, mapped, Named, Table,
};
use crate::text::{decimal, decimal_text};

verus! {

/// What is staged of a batch, as a mathematical value.
pub ghost struct StagedBatch {
    pub descriptor: MetadataBatchDescriptor,
    pub pages: Map<u32, MetadataBatchPage>,
}

/// What is staged of a batch.
pub open spec fn staged_of(batch: StagedMetadataBatch) -> StagedBatch {
    StagedBatch { descriptor: batch.descriptor, pages: batch.pages@ }
}

/// The name under which a batch is staged.
pub open spec fn batch_key(descriptor: MetadataBatchDescriptor) -> (Seq<char>, Seq<char>) {
    (descriptor.scope.tenant_id@, descriptor.batch_id@)
}

/// Why a descriptor is refused where one is staged under its identity.
pub open spec fn existing_descriptor_fault(
    existing: MetadataBatchDescriptor,
    descriptor: MetadataBatchDescriptor,
) -> Option<Fault> {
    if existing.same(descriptor) {
        None
    } else {
        Some(
            fault(
                CentralErrorCode::BatchTampered,
                "metadata batch "@ + descriptor.batch_id@ + " descriptor changed"@,
            ),
        )
    }
}

/// Why no page of a descriptor is staged, by the descriptor that is.
pub open spec fn staged_descriptor_fault(
    staged: Option<MetadataBatchDescriptor>,
    descriptor: MetadataBatchDescriptor,
) -> Option<Fault> {
    match staged {
        None => Some(
            fault(
                CentralErrorCode::BatchIncomplete,
                "metadata batch "@ + descriptor.batch_id@
                    + " descriptor must be staged before its pages"@,
            ),
        ),
        Some(staged) => if staged.same(descriptor) {
            None
        } else {
            Some(
                fault(
                    CentralErrorCode::BatchTampered,
                    "metadata batch "@ + descriptor.batch_id@
                        + " descriptor differs from staging"@,
                ),
            )
        },
    }
}

/// Why a page is refused where one is staged under its number.
pub open spec fn existing_page_fault(
    existing: MetadataBatchPage,
    batch_id: Seq<char>,
    page: MetadataBatchPage,
) -> Option<Fault> {
    if existing.same(page) {
        None
    } else {
        Some(
            fault(
                CentralErrorCode::BatchTampered,
                "metadata batch "@ + batch_id + " page "@ + decimal(page.page_number as nat)
                    + " changed"@,
            ),
        )
    }
}

/// Why a page is not staged.
pub open spec fn stage_page_fault(
    batches: Map<(Seq<char>, Seq<char>), StagedBatch>,
    descriptor: MetadataBatchDescriptor,
    page: MetadataBatchPage,
) -> Option<Fault> {
    let key = batch_key(descriptor);
    let staged = if batches.contains_key(key) {
        Some(batches[key].descriptor)
    } else {
        None
    };
    if staged_descriptor_fault(staged, descriptor) is Some {
        staged_descriptor_fault(staged, descriptor)
    } else if batches[key].pages.contains_key(page.page_number) {
        existing_page_fault(batches[key].pages[page.page_number], key.1, page)
    } else {
        None
    }
}

fn batch_failure(code: CentralErrorCode, batch_id: &MetadataBatchId, what: &str) -> (failure:
    CentralError)
    ensures
        failure@ == fault(code, "metadata batch "@ + batch_id@ + what@),
{
    let mut message = String::from_str("metadata batch ");
    message.append(batch_id.as_str());
    message.append(what);
    CentralError::new(code, message)
}

/// Accepts the replay of a staged descriptor and refuses another one under its identity.
pub fn resolve_existing_descriptor(
    existing: &MetadataBatchDescriptor,
    descriptor: &MetadataBatchDescriptor,
) -> (result: CentralResult<()>)
    ensures
        fault_of(result) == existing_descriptor_fault(*existing, *descriptor),
{
    if *existing == *descriptor {
        return Ok(());
    }
    Err(
        batch_failure(
            CentralErrorCode::BatchTampered,
            &descriptor.batch_id,
            " descriptor changed",
        ),
    )
}

/// Checks that a descriptor is the one that is staged, before its pages are.
pub fn validate_staged_descriptor(
    staged: Option<&MetadataBatchDescriptor>,
    descriptor: &MetadataBatchDescriptor,
) -> (result: CentralResult<()>)
    ensures
        fault_of(result) == staged_descriptor_fault(
            match staged {
                Some(staged) => Some(*staged),
                None => None,
            },
            *descriptor,
        ),
{
    match staged {
        None => Err(
            batch_failure(
                CentralErrorCode::BatchIncomplete,
                &descriptor.batch_id,
                " descriptor must be staged before its pages",
            ),
        ),
        Some(staged) => {
            if *staged == *descriptor {
                return Ok(());
            }
            Err(
                batch_failure(
                    CentralErrorCode::BatchTampered,
                    &descriptor.batch_id,
                    " descriptor differs from staging",
                ),
            )
        },
    }
}

/// Accepts the replay of a staged page and refuses another one under its number.
pub fn resolve_existing_page(
    existing: &MetadataBatchPage,
    batch_id: &MetadataBatchId,
    page: &MetadataBatchPage,
) -> (result: CentralResult<()>)
    ensures
        fault_of(result) == existing_page_fault(*existing, batch_id@, *page),
{
    if *existing == *page {
        return Ok(());
    }
    let mut message = String::from_str("metadata batch ");
    message.append(batch_id.as_str());
    message.append(" page ");
    message.append(decimal_text(page.page_number as u64).as_str());
    message.append(" changed");
    Err(CentralError::new(CentralErrorCode::BatchTampered, message))
}

pub struct InMemoryMetadataBatchStager {
    batches: Table<(TenantId, MetadataBatchId), StagedMetadataBatch>,
}

impl View for InMemoryMetadataBatchStager {
    type V = Map<(Seq<char>, Seq<char>), StagedBatch>;

    closed spec fn view(&self) -> Map<(Seq<char>, Seq<char>), StagedBatch> {
        self.batches@.map_values(|batch: StagedMetadataBatch| staged_of(batch))
    }
}

impl InMemoryMetadataBatchStager {
    /// Every batch is staged under its own identity, and every page under its own number.
    pub closed spec fn well_formed(self) -> bool {
        &&& self.batches.well_formed()
        &&& forall|name: (Seq<char>, Seq<char>)| #[trigger]
            self.batches@.contains_key(name) ==> {
                &&& batch_key(self.batches@[name].descriptor) == name
                &&& self.batches@[name].pages.well_formed()
                &&& forall|number: u32| #[trigger]
                    self.batches@[name].pages@.contains_key(number)
                        ==> self.batches@[name].pages@[number].page_number == number
            }
    }

    /// What is staged of each batch, in the order of their names.
    pub closed spec fn entries(self) -> Seq<((TenantId, MetadataBatchId), StagedBatch)> {
        self.batches.entries().map_values(
            |entry: ((TenantId, MetadataBatchId), StagedMetadataBatch)|
                (entry.0, staged_of(entry.1)),
        )
    }

    proof fn lemma_entries_are_a_walk(&self)
        requires
            self.well_formed(),
        ensures
            is_walk(self.entries(), self@),
    {
        let stored = self.batches.entries();
        let entries = self.entries();
        assert forall|name: (Seq<char>, Seq<char>)| #[trigger] mapped(entries).contains_key(
            name,
        ) == self@.contains_key(name) by {
            if mapped(entries).contains_key(name) {
                let index = choose|index: int| is_entry(entries, name, index);
                lemma_entry_is_mapped(stored, index);
            }
            if self@.contains_key(name) {
                let index = lemma_mapped_is_entry(stored, name);
                assert(is_entry(entries, name, index));
            }
        }
        assert forall|name: (Seq<char>, Seq<char>)|
            #![trigger mapped(entries)[name]]
            self@.contains_key(name) implies mapped(entries)[name] == self@[name] by {
            let index = lemma_mapped_is_entry(stored, name);
            assert(is_entry(entries, name, index));
            lemma_entry_is_mapped(entries, index);
        }
        assert(mapped(entries) =~= self@);
    }

    #[must_use]
    pub fn new() -> (stager: Self)
        ensures
            stager.well_formed(),
            stager@ == Map::<(Seq<char>, Seq<char>), StagedBatch>::empty(),
    {
        let stager = Self { batches: Table::new() };
        assert(stager@ =~= Map::<(Seq<char>, Seq<char>), StagedBatch>::empty());
        stager
    }

    /// Every staged batch, in the order of their names.
    #[must_use]
    pub fn batches(&self) -> (batches: Vec<StagedMetadataBatch>)
        requires
            self.well_formed(),
        ensures
            is_walk(self.entries(), self@),
            batches@.map_values(|batch: StagedMetadataBatch| staged_of(batch))
                == self.entries().map_values(
                |entry: ((TenantId, MetadataBatchId), StagedBatch)| entry.1,
            ),
            forall|i: int|
                0 <= i < batches@.len() ==> (#[trigger] batches@[i]).pages.well_formed(),
    {
        let ghost stored = self.batches.entries();
        let mut batches: Vec<StagedMetadataBatch> = Vec::new();
        let mut index: usize = 0;
        proof {
            self.lemma_entries_are_a_walk();
        }
        while index < self.batches.len()
            invariant
                self.well_formed(),
                stored == self.batches.entries(),
                index <= stored.len(),
                batches@.len() == index,
                forall|i: int|
                    0 <= i < index ==> staged_of(#[trigger] batches@[i]) == staged_of(stored[i].1)
                        && batches@[i].pages.well_formed(),
            decreases stored.len() - index,
        {
            proof {
                lemma_entry_is_mapped(stored, index as int);
                assert(self.batches@.contains_key(stored[index as int].0.name()));
            }
            batches.push(self.batches.entry_at(index).1.copied());
            index += 1;
        }
        batches
    }

    /// Removes everything that is staged.
    pub fn clear(&mut self)
        ensures
            final(self).well_formed(),
            final(self)@ == Map::<(Seq<char>, Seq<char>), StagedBatch>::empty(),
    {
        self.batches = Table::new();
        assert(self@ =~= Map::<(Seq<char>, Seq<char>), StagedBatch>::empty());
    }

    /// Stages a validated descriptor; tells whether it was staged before.
    pub fn stage_descriptor(&mut self, descriptor: MetadataBatchDescriptor) -> (result:
        CentralResult<bool>)
        requires
            old(self).well_formed(),
        ensures
            final(self).well_formed(),
            fault_of(result) == if old(self)@.contains_key(batch_key(descriptor)) {
                existing_descriptor_fault(old(self)@[batch_key(descriptor)].descriptor, descriptor)
            } else {
                None
            },
            result matches Ok(replayed) ==> replayed == old(self)@.contains_key(
                batch_key(descriptor),
            ),
            final(self)@ == if result == Ok::<bool, CentralError>(false) {
                old(self)@.insert(
                    batch_key(descriptor),
                    StagedBatch { descriptor, pages: Map::empty() },
                )
            } else {
                old(self)@
            },
    {
        let key = (descriptor.scope.tenant_id.clone(), descriptor.batch_id.clone());
        let ghost before = self.batches@;
        if let Some(existing) = self.batches.get(&key) {
            resolve_existing_descriptor(&existing.descriptor, &descriptor)?;
            return Ok(true);
        }
        let ghost name = batch_key(descriptor);
        let batch = StagedMetadataBatch { descriptor, pages: Table::new() };
        let ghost staged = staged_of(batch);
        self.batches.insert(key, batch);
        proof {
            assert(self@ =~= old(self)@.insert(name, staged));
        }
        Ok(false)
    }

    /// Stages a page that was validated against its descriptor; tells whether it was staged before.
    pub fn stage_page(&mut self, descriptor: &MetadataBatchDescriptor, page: MetadataBatchPage) -> (
        result: CentralResult<bool>)
        requires
            old(self).well_formed(),
        ensures
            final(self).well_formed(),
            fault_of(result) == stage_page_fault(old(self)@, *descriptor, page),
            result matches Ok(replayed) ==> {
                let staged = old(self)@[batch_key(*descriptor)];
                &&& replayed == staged.pages.contains_key(page.page_number)
                &&& final(self)@ == if replayed {
                    old(self)@
                } else {
                    old(self)@.insert(
                        batch_key(*descriptor),
                        StagedBatch { pages: staged.pages.insert(page.page_number, page), ..staged },
                    )
                }
            },
            result is Err ==> final(self)@ == old(self)@,
    {
        let key = (descriptor.scope.tenant_id.clone(), descriptor.batch_id.clone());
        let ghost name = batch_key(*descriptor);
        let staged = self.batches.get(&key);
        let staged_descriptor = match staged {
            Some(batch) => Some(&batch.descriptor),
            None => None,
        };
        validate_staged_descriptor(staged_descriptor, descriptor)?;
        if let Some(batch) = staged {
            if let Some(existing) = batch.pages.get(&page.page_number) {
                resolve_existing_page(existing, &descriptor.batch_id, &page)?;
                return Ok(true);
            }
        }
        if let Some(staged) = self.batches.take(&key) {
            let mut staged = staged;
            staged.pages.insert(page.page_number, page);
            self.batches.insert(key, staged);
        }
        proof {
            let staged = old(self)@[name];
            let after = StagedBatch { pages: staged.pages.insert(page.page_number, page), ..staged };
            assert(self@ =~= old(self)@.insert(name, after));
        }
        Ok(false)
    }

    #[must_use]
    pub fn get(&self, tenant_id: &TenantId, batch_id: &MetadataBatchId) -> (batch: Option<
        &StagedMetadataBatch,
    >)
        requires
            self.well_formed(),
        ensures
            batch is Some <==> self@.contains_key((tenant_id@, batch_id@)),
            batch matches Some(found) ==> staged_of(*found) == self@[(tenant_id@, batch_id@)],
    {
        let key = (tenant_id.clone(), batch_id.clone());
        self.batches.get(&key)
    }
}

} // verus!
