//! Pages of a tenant's enrollments, newest first.
use vstd::prelude::*;

use super::{InMemoryAgentRegistry, RegistryEntry};
use crate::agent_registry::audit::{
    append_copies, decision_events, in_order, lifecycle_events, sort,
};
use crate::agent_registry::records::{
    AgentEnrollmentAuditEvent, AgentEnrollmentLifecycleAuditEvent, AgentRegistryRecord,
    AgentRegistryRecordFormat,
};
use crate::agent_registry::validation::{
    enrollment_list_fault, validate_enrollment_list_request, AgentEnrollmentListCursor,
    AgentEnrollmentListRequest,
};
use crate::catalog::listing::{
    is_listed_before, is_listing_of, list_page, lowercase, lowercased, place, Dated, Newest, Paged,
};
use crate::equality::Same;
use crate::error::{fault_of, CentralResult};
use crate::identifier::{AgentEnrollmentId, TenantId, UnixMillis};
use crate::table::{
    at_most, lemma_entry_is_mapped, lemma_names_differ, Named, Replicate,
};
use crate::text::{contains_text, text_contains};

verus! {

/// A page of enrollments, and where the next one continues.
pub struct AgentEnrollmentListPage {
    pub records: Vec<AgentRegistryRecord>,
    pub next: Option<AgentEnrollmentListCursor>,
}

/// When an enrollment became public.
pub open spec fn public_since(record: AgentRegistryRecord) -> UnixMillis {
    match record.enrollment.bootstrapped_at_unix_ms {
        Some(bootstrapped_at) => bootstrapped_at,
        None => record.enrollment.created_at_unix_ms,
    }
}

pub fn public_enrollment_created_at(record: &AgentRegistryRecord) -> (created_at: UnixMillis)
    ensures
        created_at == public_since(*record),
{
    match record.enrollment.bootstrapped_at_unix_ms {
        Some(bootstrapped_at) => bootstrapped_at,
        None => record.enrollment.created_at_unix_ms,
    }
}

/// A lower-cased query is found in the identity, the Volume or the name, all lower-cased.
pub open spec fn lower_forms_hold(
    enrollment_id: Seq<char>,
    storage_volume_id: Seq<char>,
    display_name: Option<Seq<char>>,
    query: Seq<char>,
) -> bool {
    ||| contains_text(enrollment_id, query)
    ||| contains_text(storage_volume_id, query)
    ||| display_name matches Some(name) && contains_text(name, query)
}

/// Tells whether a lower-cased query is found in lower-cased texts.
pub fn enrollment_matches_lowercase(
    enrollment_id: &str,
    storage_volume_id: &str,
    display_name: Option<&str>,
    query: &str,
) -> (found: bool)
    ensures
        found == lower_forms_hold(
            enrollment_id@,
            storage_volume_id@,
            match display_name {
                Some(name) => Some(name@),
                None => None,
            },
            query@,
        ),
{
    text_contains(enrollment_id, query) || text_contains(storage_volume_id, query)
        || match display_name {
        Some(name) => text_contains(name, query),
        None => false,
    }
}

/// The lower-case form of a display name, where there is one.
pub open spec fn lowered_name(record: AgentRegistryRecord) -> Option<Seq<char>> {
    match record.storage_enrollment.descriptor {
        Some(descriptor) => Some(lowercase(descriptor.display_name@)),
        None => None,
    }
}

/// An enrollment that a search text is found in, whatever the case.
pub open spec fn is_enrollment_match(record: AgentRegistryRecord, query: Seq<char>) -> bool {
    lower_forms_hold(
        lowercase(record.enrollment.enrollment_id@),
        lowercase(record.enrollment.storage_volume_id@),
        lowered_name(record),
        lowercase(query),
    )
}

/// An enrollment that a list request asks for. Only public ones are listed.
pub open spec fn is_wanted_enrollment(
    record: AgentRegistryRecord,
    request: AgentEnrollmentListRequest,
) -> bool {
    &&& record.enrollment.tenant_id@ == request.tenant_id@
    &&& record.storage_enrollment.record_format is CurrentV3
    &&& record.storage_enrollment.state is Some
    &&& request.state is Some ==> record.storage_enrollment.state == request.state
    &&& request.registration_kind is Some ==> record.storage_enrollment.registration_kind
        == request.registration_kind
    &&& request.query matches Some(query) ==> is_enrollment_match(record, query@)
    &&& request.after matches Some(after) ==> is_listed_before::<RegistryEntry>(
        (after.created_at_unix_ms, after.enrollment_id@),
        (public_since(record), record.enrollment.enrollment_id@),
    )
}

fn wants_enrollment(record: &AgentRegistryRecord, request: &AgentEnrollmentListRequest) -> (wanted:
    bool)
    ensures
        wanted == is_wanted_enrollment(*record, *request),
{
    let metadata = &record.storage_enrollment;
    if record.enrollment.tenant_id != request.tenant_id || metadata.record_format
        != AgentRegistryRecordFormat::CurrentV3 || metadata.state.is_none() || (
    request.state.is_some() && metadata.state != request.state) || (
    request.registration_kind.is_some() && metadata.registration_kind
        != request.registration_kind) {
        return false;
    }
    if let Some(after) = &request.after {
        let created_at: UnixMillis = public_enrollment_created_at(record);
        if !(after.created_at_unix_ms > created_at || (after.created_at_unix_ms == created_at
            && after.enrollment_id.is_before(&record.enrollment.enrollment_id))) {
            return false;
        }
    }
    match &request.query {
        None => true,
        Some(query) => {
            let enrollment_id = lowercased(record.enrollment.enrollment_id.as_str());
            let storage_volume_id = lowercased(record.enrollment.storage_volume_id.as_str());
            let lowered = lowercased(query.as_str());
            match &metadata.descriptor {
                Some(descriptor) => {
                    let name = lowercased(descriptor.display_name.as_str());
                    enrollment_matches_lowercase(
                        enrollment_id.as_str(),
                        storage_volume_id.as_str(),
                        Some(name.as_str()),
                        lowered.as_str(),
                    )
                },
                None => enrollment_matches_lowercase(
                    enrollment_id.as_str(),
                    storage_volume_id.as_str(),
                    None,
                    lowered.as_str(),
                ),
            }
        },
    }
}

/// Wanted: the enrollments that a request asks for.
pub open spec fn wanted_enrollments(request: AgentEnrollmentListRequest) -> spec_fn(
    RegistryEntry,
) -> bool {
    |entry: RegistryEntry| is_wanted_enrollment(entry.record, request)
}

impl Same for RegistryEntry {
    open spec fn same(self, other: Self) -> bool {
        &&& self.record.same(other.record)
        &&& self.derived_pvc_identity == other.derived_pvc_identity
    }
}

impl Replicate for RegistryEntry {
    fn replica(&self) -> (copy: Self) {
        RegistryEntry {
            record: self.record.clone(),
            derived_pvc_identity: self.derived_pvc_identity,
        }
    }
}

impl Dated for RegistryEntry {
    type Id = AgentEnrollmentId;

    open spec fn created(self) -> u64 {
        public_since(self.record)
    }

    open spec fn listed_id(self) -> Seq<char> {
        self.record.enrollment.enrollment_id@
    }
}

impl Paged for RegistryEntry {
    fn page_key(&self) -> (key: (Newest, AgentEnrollmentId)) {
        (
            Newest(public_enrollment_created_at(&self.record)),
            self.record.enrollment.enrollment_id.clone(),
        )
    }
}

/// A page holds the first enrollments of a listing, and a cursor at its end where there are more.
pub open spec fn is_page_of(
    page: AgentEnrollmentListPage,
    listing: Seq<RegistryEntry>,
    limit: nat,
) -> bool {
    &&& page.records@.len() == at_most(listing, limit).len()
    &&& forall|i: int|
        0 <= i < page.records@.len() ==> (#[trigger] page.records@[i]).same(listing[i].record)
    &&& page.next is Some <==> listing.len() > limit
    &&& page.next matches Some(cursor) ==> {
        &&& cursor.created_at_unix_ms == public_since(listing[limit - 1].record)
        &&& cursor.enrollment_id@ == listing[limit - 1].record.enrollment.enrollment_id@
    }
}

/// The aggregates of some entries, in order.
fn records_of(entries: Vec<RegistryEntry>) -> (records: Vec<AgentRegistryRecord>)
    ensures
        records@.len() == entries@.len(),
        forall|i: int| 0 <= i < records@.len() ==> #[trigger] records@[i] == entries@[i].record,
{
    let ghost all = entries@;
    let mut entries = entries;
    let mut reversed: Vec<AgentRegistryRecord> = Vec::new();
    while entries.len() > 0
        invariant
            entries@.len() + reversed@.len() == all.len(),
            forall|i: int| 0 <= i < entries@.len() ==> #[trigger] entries@[i] == all[i],
            forall|i: int|
                0 <= i < reversed@.len() ==> #[trigger] reversed@[i] == all[all.len() - 1
                    - i].record,
        decreases entries.len(),
    {
        if let Some(entry) = entries.pop() {
            reversed.push(entry.record);
        }
    }
    let mut records: Vec<AgentRegistryRecord> = Vec::new();
    while reversed.len() > 0
        invariant
            reversed@.len() + records@.len() == all.len(),
            forall|i: int|
                0 <= i < reversed@.len() ==> #[trigger] reversed@[i] == all[all.len() - 1
                    - i].record,
            forall|i: int| 0 <= i < records@.len() ==> #[trigger] records@[i] == all[i].record,
        decreases reversed.len(),
    {
        if let Some(record) = reversed.pop() {
            records.push(record);
        }
    }
    records
}

impl InMemoryAgentRegistry {
    /// The enrollments that a request asks for, newest first.
    pub fn list_for_tenant(&self, request: &AgentEnrollmentListRequest) -> (result: CentralResult<
        AgentEnrollmentListPage,
    >)
        requires
            self.well_formed(),
        ensures
            fault_of(result) == enrollment_list_fault(*request),
            result matches Ok(page) ==> exists|listing: Seq<RegistryEntry>|
                {
                    &&& #[trigger] is_listing_of(
                        listing,
                        self@.records,
                        wanted_enrollments(*request),
                    )
                    &&& is_page_of(page, listing, request.limit as nat)
                },
    {
        validate_enrollment_list_request(request)?;
        let ghost kept = wanted_enrollments(*request);
        let ghost entries = self.records.entries();
        proof {
            assert forall|i: int, j: int|
                0 <= i < j < entries.len() && kept((#[trigger] entries[i]).1) && kept(
                    (#[trigger] entries[j]).1,
                ) implies place(entries[i].1) != place(entries[j].1) by {
                lemma_names_differ(entries, i, j);
                lemma_entry_is_mapped(entries, i);
                lemma_entry_is_mapped(entries, j);
                assert(self@.records.contains_key(entries[i].0.name()));
                assert(self@.records.contains_key(entries[j].0.name()));
            }
        }
        let keep = |entry: &RegistryEntry| -> (verdict: bool)
            ensures
                verdict == is_wanted_enrollment(entry.record, *request),
            { wants_enrollment(&entry.record, request) };
        let (found, more) = list_page(&self.records, keep, Ghost(kept), request.limit);
        let ghost listing = choose|listing: Seq<RegistryEntry>|
            {
                &&& #[trigger] is_listing_of(listing, self.records@, kept)
                &&& found@.same(at_most(listing, request.limit as nat))
                &&& more == (listing.len() > request.limit)
            };
        assert(is_listing_of(listing, self@.records, kept));
        let ghost chosen = found@;
        let records = records_of(found);
        proof {
            assert forall|i: int| 0 <= i < records@.len() implies (#[trigger] records@[i]).same(
                listing[i].record,
            ) by {
                assert(chosen[i].same(at_most(listing, request.limit as nat)[i]));
            }
        }
        let next = if more {
            let last = &records[records.len() - 1];
            assert(last.same(listing[request.limit - 1].record));
            Some(
                AgentEnrollmentListCursor {
                    created_at_unix_ms: public_enrollment_created_at(last),
                    enrollment_id: last.enrollment.enrollment_id.clone(),
                },
            )
        } else {
            None
        };
        Ok(AgentEnrollmentListPage { records, next })
    }
}

impl InMemoryAgentRegistry {
    /// The decision events of every aggregate, by tenant and event.
    pub fn enrollment_audit_events(&self) -> (events: Vec<AgentEnrollmentAuditEvent>)
        requires
            self.well_formed(),
        ensures
            events@ == in_order(decision_events(self.ordered())),
    {
        let ghost records = self.ordered();
        let mut events: Vec<AgentEnrollmentAuditEvent> = Vec::new();
        let mut index: usize = 0;
        while index < self.records.len()
            invariant
                records == self.ordered(),
                records.len() == self.records.entries().len(),
                index <= records.len(),
                events@ == decision_events(records.take(index as int)),
            decreases records.len() - index,
        {
            proof {
                let next = records.take(index + 1);
                assert(next.drop_last() =~= records.take(index as int));
                assert(next.last() == records[index as int]);
            }
            if let Some(event) = &self.records.entry_at(index).1.record.decision_audit_event {
                events.push(event.clone());
            }
            index += 1;
        }
        proof {
            assert(records.take(index as int) =~= records);
        }
        sort(events)
    }

    /// The lifecycle events of a tenant, by time and event.
    pub fn enrollment_lifecycle_audit_events(&self, tenant_id: &TenantId) -> (events: Vec<
        AgentEnrollmentLifecycleAuditEvent,
    >)
        requires
            self.well_formed(),
        ensures
            events@ == in_order(lifecycle_events(self.ordered(), tenant_id@)),
    {
        let ghost records = self.ordered();
        let mut events: Vec<AgentEnrollmentLifecycleAuditEvent> = Vec::new();
        let mut index: usize = 0;
        while index < self.records.len()
            invariant
                records == self.ordered(),
                records.len() == self.records.entries().len(),
                index <= records.len(),
                events@ == lifecycle_events(records.take(index as int), tenant_id@),
            decreases records.len() - index,
        {
            proof {
                let next = records.take(index + 1);
                assert(next.drop_last() =~= records.take(index as int));
                assert(next.last() == records[index as int]);
            }
            let record = &self.records.entry_at(index).1.record;
            if record.enrollment.tenant_id == *tenant_id {
                append_copies(&mut events, &record.storage_enrollment.lifecycle_audit_events);
            }
            index += 1;
        }
        proof {
            assert(records.take(index as int) =~= records);
        }
        sort(events)
    }
}

/// Cuts what a query found to a page; the query asks for one record more than the page holds.
pub fn enrollment_page(records: Vec<AgentRegistryRecord>, limit: usize) -> (page:
    AgentEnrollmentListPage)
    requires
        limit >= 1,
    ensures
        page.records@ == at_most(records@, limit as nat),
        page.next is Some <==> records@.len() > limit,
        page.next matches Some(cursor) ==> {
            &&& cursor.created_at_unix_ms == public_since(records@[limit - 1])
            &&& cursor.enrollment_id@ == records@[limit - 1].enrollment.enrollment_id@
        },
{
    let mut records = records;
    if records.len() <= limit {
        return AgentEnrollmentListPage { records, next: None };
    }
    records.truncate(limit);
    let next = {
        let last = &records[limit - 1];
        Some(
            AgentEnrollmentListCursor {
                created_at_unix_ms: public_enrollment_created_at(last),
                enrollment_id: last.enrollment.enrollment_id.clone(),
            },
        )
    };
    AgentEnrollmentListPage { records, next }
}

} // verus!
