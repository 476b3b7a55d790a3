//! Audit events of enrollments: collected, merged and put in order.
use vstd::prelude::*;

use crate::agent_registry::records::{
    AgentEnrollmentAuditEvent, AgentEnrollmentLifecycleAuditEvent, AgentRegistryRecord,
};
use crate::equality::Same;
use crate::error::{corruption, corruption_fault, fault_of, CentralResult, Fault};
use crate::identifier::TenantId;
use crate::text::{lemma_text_before_irreflexive, lemma_text_before_transitive, text_before};

verus! {

/// A value that has a place among others.
pub trait Ranked: Sized {
    spec fn goes_before(self, other: Self) -> bool;

    proof fn lemma_goes_before_irreflexive(item: Self)
        ensures
            !item.goes_before(item),
    ;

    proof fn lemma_goes_before_transitive(first: Self, second: Self, third: Self)
        requires
            first.goes_before(second),
            second.goes_before(third),
        ensures
            first.goes_before(third),
    ;

    fn is_ranked_before(&self, other: &Self) -> (before: bool)
        ensures
            before == self.goes_before(*other),
    ;
}

/// The place at which an item enters a row: behind every leading item that it does not go before.
pub open spec fn entry_place<T: Ranked>(row: Seq<T>, item: T) -> nat
    decreases row.len(),
{
    if row.len() == 0 || item.goes_before(row[0]) {
        0
    } else {
        1 + entry_place(row.skip(1), item)
    }
}

/// Items in order; items that do not go before each other keep the order in which they came.
pub open spec fn in_order<T: Ranked>(items: Seq<T>) -> Seq<T>
    decreases items.len(),
{
    if items.len() == 0 {
        Seq::empty()
    } else {
        let row = in_order(items.drop_last());
        row.insert(entry_place(row, items.last()) as int, items.last())
    }
}

/// No item of a row goes before an earlier one.
pub open spec fn is_in_order<T: Ranked>(row: Seq<T>) -> bool {
    forall|i: int, j: int|
        0 <= i < j < row.len() ==> !(#[trigger] row[j]).goes_before(#[trigger] row[i])
}

proof fn lemma_entry_place<T: Ranked>(row: Seq<T>, item: T, place: nat)
    requires
        place <= row.len(),
        forall|i: int| 0 <= i < place ==> !item.goes_before(#[trigger] row[i]),
        place == row.len() || item.goes_before(row[place as int]),
    ensures
        entry_place(row, item) == place,
    decreases place,
{
    if place > 0 {
        assert(!item.goes_before(row[0]));
        assert forall|i: int| 0 <= i < place - 1 implies !item.goes_before(
            #[trigger] row.skip(1)[i],
        ) by {
            assert(!item.goes_before(row[i + 1]));
        }
        lemma_entry_place(row.skip(1), item, (place - 1) as nat);
    }
}

proof fn lemma_entry_place_is_bounded<T: Ranked>(row: Seq<T>, item: T)
    ensures
        entry_place(row, item) <= row.len(),
        forall|i: int| 0 <= i < entry_place(row, item) ==> !item.goes_before(#[trigger] row[i]),
        entry_place(row, item) == row.len() || item.goes_before(
            row[entry_place(row, item) as int],
        ),
    decreases row.len(),
{
    if row.len() > 0 && !item.goes_before(row[0]) {
        lemma_entry_place_is_bounded(row.skip(1), item);
        assert forall|i: int| 0 <= i < entry_place(row, item) implies !item.goes_before(
            #[trigger] row[i],
        ) by {
            if i > 0 {
                assert(row[i] == row.skip(1)[i - 1]);
            }
        }
    }
}

/// Putting items in order keeps each of them, and leaves none before an earlier one.
pub proof fn lemma_in_order<T: Ranked>(items: Seq<T>)
    ensures
        is_in_order(in_order(items)),
        in_order(items).to_multiset() =~= items.to_multiset(),
        in_order(items).len() == items.len(),
    decreases items.len(),
{
    broadcast use vstd::seq_lib::group_to_multiset_ensures;

    if items.len() > 0 {
        let row = in_order(items.drop_last());
        let item = items.last();
        let place = entry_place(row, item) as int;
        lemma_in_order(items.drop_last());
        lemma_entry_place_is_bounded(row, item);
        let longer = row.insert(place, item);
        assert forall|i: int, j: int| 0 <= i < j < longer.len() implies !(
        #[trigger] longer[j]).goes_before(#[trigger] longer[i]) by {
            if i == place {
                let later = row[j - 1];
                if later.goes_before(item) {
                    T::lemma_goes_before_transitive(later, item, row[place]);
                    T::lemma_goes_before_irreflexive(later);
                }
            }
        }
        assert(items =~= items.drop_last().push(item));
        vstd::seq_lib::to_multiset_insert(row, place, item);
    }
}

/// Puts items in order.
pub fn sort<T: Ranked>(items: Vec<T>) -> (row: Vec<T>)
    ensures
        row@ == in_order(items@),
{
    let ghost all = items@;
    let mut items = items;
    let mut row: Vec<T> = Vec::new();
    let ghost mut count: int = 0;
    while items.len() > 0
        invariant
            0 <= count <= all.len(),
            items@ == all.skip(count),
            row@ == in_order(all.take(count)),
        decreases items.len(),
    {
        let item = items.remove(0);
        let mut place: usize = 0;
        while place < row.len() && !item.is_ranked_before(&row[place])
            invariant
                place <= row@.len(),
                forall|i: int| 0 <= i < place ==> !item.goes_before(#[trigger] row@[i]),
            decreases row.len() - place,
        {
            place += 1;
        }
        proof {
            lemma_entry_place(row@, item, place as nat);
            let next = all.take(count + 1);
            assert(next.drop_last() =~= all.take(count));
            assert(next.last() == item);
            assert(items@ =~= all.skip(count + 1));
        }
        row.insert(place, item);
        proof {
            count = count + 1;
        }
    }
    proof {
        assert(all.take(count) =~= all);
    }
    row
}

impl Ranked for AgentEnrollmentAuditEvent {
    /// By tenant, and then by event.
    open spec fn goes_before(self, other: Self) -> bool {
        ||| text_before(self.tenant_id@, other.tenant_id@)
        ||| self.tenant_id@ == other.tenant_id@ && text_before(self.event_id@, other.event_id@)
    }

    proof fn lemma_goes_before_irreflexive(item: Self) {
        lemma_text_before_irreflexive(item.tenant_id@);
        lemma_text_before_irreflexive(item.event_id@);
    }

    proof fn lemma_goes_before_transitive(first: Self, second: Self, third: Self) {
        if text_before(first.tenant_id@, second.tenant_id@) && text_before(
            second.tenant_id@,
            third.tenant_id@,
        ) {
            lemma_text_before_transitive(first.tenant_id@, second.tenant_id@, third.tenant_id@);
        }
        if text_before(first.event_id@, second.event_id@) && text_before(
            second.event_id@,
            third.event_id@,
        ) {
            lemma_text_before_transitive(first.event_id@, second.event_id@, third.event_id@);
        }
    }

    fn is_ranked_before(&self, other: &Self) -> (before: bool) {
        self.tenant_id.is_before(&other.tenant_id) || (self.tenant_id == other.tenant_id
            && self.event_id.is_before(&other.event_id))
    }
}

impl Ranked for AgentEnrollmentLifecycleAuditEvent {
    /// By time, and then by event.
    open spec fn goes_before(self, other: Self) -> bool {
        ||| self.occurred_at_unix_ms < other.occurred_at_unix_ms
        ||| self.occurred_at_unix_ms == other.occurred_at_unix_ms && text_before(
            self.event_id@,
            other.event_id@,
        )
    }

    proof fn lemma_goes_before_irreflexive(item: Self) {
        lemma_text_before_irreflexive(item.event_id@);
    }

    proof fn lemma_goes_before_transitive(first: Self, second: Self, third: Self) {
        if text_before(first.event_id@, second.event_id@) && text_before(
            second.event_id@,
            third.event_id@,
        ) {
            lemma_text_before_transitive(first.event_id@, second.event_id@, third.event_id@);
        }
    }

    fn is_ranked_before(&self, other: &Self) -> (before: bool) {
        self.occurred_at_unix_ms < other.occurred_at_unix_ms || (self.occurred_at_unix_ms
            == other.occurred_at_unix_ms && self.event_id.is_before(&other.event_id))
    }
}

/// The decision events of some aggregates, one after the other.
pub open spec fn decision_events(records: Seq<AgentRegistryRecord>) -> Seq<
    AgentEnrollmentAuditEvent,
>
    decreases records.len(),
{
    if records.len() == 0 {
        Seq::empty()
    } else {
        match records.last().decision_audit_event {
            Some(event) => decision_events(records.drop_last()).push(event),
            None => decision_events(records.drop_last()),
        }
    }
}

/// The lifecycle events of one tenant's aggregates, one after the other.
pub open spec fn lifecycle_events(records: Seq<AgentRegistryRecord>, tenant_id: Seq<char>) -> Seq<
    AgentEnrollmentLifecycleAuditEvent,
>
    decreases records.len(),
{
    if records.len() == 0 {
        Seq::empty()
    } else if records.last().enrollment.tenant_id@ == tenant_id {
        lifecycle_events(records.drop_last(), tenant_id)
            + records.last().storage_enrollment.lifecycle_audit_events@
    } else {
        lifecycle_events(records.drop_last(), tenant_id)
    }
}

/// Collects the decision events of stored aggregates, by tenant and event.
pub fn enrollment_audit_events(records: &Vec<AgentRegistryRecord>) -> (events: Vec<
    AgentEnrollmentAuditEvent,
>)
    ensures
        events@ == in_order(decision_events(records@)),
{
    let mut events: Vec<AgentEnrollmentAuditEvent> = Vec::new();
    let mut index: usize = 0;
    while index < records.len()
        invariant
            index <= records@.len(),
            events@ == decision_events(records@.take(index as int)),
        decreases records.len() - index,
    {
        proof {
            let next = records@.take(index + 1);
            assert(next.drop_last() =~= records@.take(index as int));
            assert(next.last() == records@[index as int]);
        }
        if let Some(event) = &records[index].decision_audit_event {
            events.push(event.clone());
        }
        index += 1;
    }
    proof {
        assert(records@.take(index as int) =~= records@);
    }
    sort(events)
}

/// Appends copies of some events.
pub(crate) fn append_copies(
    events: &mut Vec<AgentEnrollmentLifecycleAuditEvent>,
    more: &Vec<AgentEnrollmentLifecycleAuditEvent>,
)
    ensures
        final(events)@ == old(events)@ + more@,
{
    let ghost before = events@;
    let mut index: usize = 0;
    while index < more.len()
        invariant
            index <= more@.len(),
            events@ == before + more@.take(index as int),
        decreases more.len() - index,
    {
        events.push(more[index].clone());
        proof {
            assert(events@ =~= before + more@.take(index + 1));
        }
        index += 1;
    }
    proof {
        assert(more@.take(index as int) =~= more@);
    }
}

/// Collects the lifecycle events of a tenant's stored aggregates, by time and event.
pub fn enrollment_lifecycle_audit_events(
    records: &Vec<AgentRegistryRecord>,
    tenant_id: &TenantId,
) -> (events: Vec<AgentEnrollmentLifecycleAuditEvent>)
    ensures
        events@ == in_order(lifecycle_events(records@, tenant_id@)),
{
    let mut events: Vec<AgentEnrollmentLifecycleAuditEvent> = Vec::new();
    let mut index: usize = 0;
    while index < records.len()
        invariant
            index <= records@.len(),
            events@ == lifecycle_events(records@.take(index as int), tenant_id@),
        decreases records.len() - index,
    {
        proof {
            let next = records@.take(index + 1);
            assert(next.drop_last() =~= records@.take(index as int));
            assert(next.last() == records@[index as int]);
        }
        let record = &records[index];
        if record.enrollment.tenant_id == *tenant_id {
            append_copies(&mut events, &record.storage_enrollment.lifecycle_audit_events);
        }
        index += 1;
    }
    proof {
        assert(records@.take(index as int) =~= records@);
    }
    sort(events)
}

/// Two events that go by the same name.
pub open spec fn same_event(left: AgentEnrollmentAuditEvent, right: AgentEnrollmentAuditEvent) -> bool {
    left.tenant_id@ == right.tenant_id@ && left.event_id@ == right.event_id@
}

/// The first event of a list that goes by the name of another one.
pub open spec fn is_first_namesake(
    events: Seq<AgentEnrollmentAuditEvent>,
    event: AgentEnrollmentAuditEvent,
    index: int,
) -> bool {
    &&& 0 <= index < events.len()
    &&& same_event(events[index], event)
    &&& forall|i: int| 0 <= i < index ==> !same_event(#[trigger] events[i], event)
}

/// Some event of a list goes by the name of another one.
pub open spec fn is_known(
    events: Seq<AgentEnrollmentAuditEvent>,
    event: AgentEnrollmentAuditEvent,
) -> bool {
    exists|i: int| 0 <= i < events.len() && same_event(#[trigger] events[i], event)
}

/// Events of the authority, and those of the registry that the authority does not have.
pub open spec fn merged(
    authority: Seq<AgentEnrollmentAuditEvent>,
    registry: Seq<AgentEnrollmentAuditEvent>,
) -> Seq<AgentEnrollmentAuditEvent>
    decreases registry.len(),
{
    if registry.len() == 0 {
        authority
    } else {
        let events = merged(authority, registry.drop_last());
        if is_known(events, registry.last()) {
            events
        } else {
            events.push(registry.last())
        }
    }
}

/// An event of the registry differs from the one that goes by its name.
pub open spec fn disagrees(
    authority: Seq<AgentEnrollmentAuditEvent>,
    registry: Seq<AgentEnrollmentAuditEvent>,
    place: int,
) -> bool {
    &&& 0 <= place < registry.len()
    &&& exists|index: int|
        is_first_namesake(merged(authority, registry.take(place)), registry[place], index)
            && !(#[trigger] merged(authority, registry.take(place))[index]).same(registry[place])
}

/// Why two lists of events cannot be merged.
pub open spec fn merge_fault(
    authority: Seq<AgentEnrollmentAuditEvent>,
    registry: Seq<AgentEnrollmentAuditEvent>,
) -> Option<Fault> {
    if exists|place: int| #[trigger] disagrees(authority, registry, place) {
        Some(corruption_fault("authority and Registry enrollment audit events disagree"@))
    } else {
        None
    }
}

/// Merges the decision events that the authority and the registry hold.
pub fn merge_enrollment_audit_events(
    authority: Vec<AgentEnrollmentAuditEvent>,
    registry: &Vec<AgentEnrollmentAuditEvent>,
) -> (result: CentralResult<Vec<AgentEnrollmentAuditEvent>>)
    ensures
        fault_of(result) == merge_fault(authority@, registry@),
        result matches Ok(events) ==> events@ == in_order(merged(authority@, registry@)),
{
    let ghost first = authority@;
    let mut events = authority;
    let mut place: usize = 0;
    proof {
        assert(registry@.take(0) =~= Seq::<AgentEnrollmentAuditEvent>::empty());
    }
    while place < registry.len()
        invariant
            place <= registry@.len(),
            first == authority@,
            events@ == merged(first, registry@.take(place as int)),
            forall|i: int| i < place ==> !#[trigger] disagrees(first, registry@, i),
        decreases registry.len() - place,
    {
        let event = &registry[place];
        let mut index: usize = 0;
        while index < events.len() && !(events[index].tenant_id == event.tenant_id
            && events[index].event_id == event.event_id)
            invariant
                index <= events@.len(),
                forall|i: int| 0 <= i < index ==> !same_event(#[trigger] events@[i], *event),
            decreases events.len() - index,
        {
            index += 1;
        }
        proof {
            let next = registry@.take(place + 1);
            assert(next.drop_last() =~= registry@.take(place as int));
            assert(next.last() == *event);
        }
        if index < events.len() {
            assert(is_first_namesake(events@, *event, index as int));
            if events[index] != *event {
                assert(disagrees(first, registry@, place as int));
                return Err(corruption("authority and Registry enrollment audit events disagree"));
            }
            assert(is_known(events@, *event));
        } else {
            events.push(event.clone());
        }
        place += 1;
    }
    proof {
        assert(registry@.take(place as int) =~= registry@);
    }
    Ok(sort(events))
}

} // verus!
