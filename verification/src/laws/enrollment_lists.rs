//! What a list of enrollments shows, and what the audit of enrollments tells.
use vstd::prelude::*;

use crate::agent_registry::audit::{
    enrollment_audit_events, enrollment_lifecycle_audit_events, in_order, lemma_in_order,
    merge_enrollment_audit_events, merged, Ranked,
};
use crate::agent_registry::records::{
    AgentEnrollmentAuditEvent, AgentEnrollmentLifecycleAuditEvent, AgentRegistryRecord,
};
use crate::agent_registry::repository::listing::{
    enrollment_matches_lowercase, enrollment_page, is_page_of, public_enrollment_created_at,
    wanted_enrollments, AgentEnrollmentListPage,
};
use crate::agent_registry::repository::{InMemoryAgentRegistry, RegistryEntry};
use crate::agent_registry::validation::AgentEnrollmentListRequest;
use crate::catalog::listing::{is_listing_of, lowercase, place};
use crate::equality::Same;
use crate::error::{CentralErrorCode, CentralResult};
use crate::identifier::{TenantId, UnixMillis};
use crate::laws::jobs::fails_with;
use crate::laws::texts::stands_at;
use crate::text::{contains_text, occurs_at, text_before};

verus! {

/// A part stands somewhere in a text.
pub open spec fn stands_in(text: Seq<char>, part: Seq<char>) -> bool {
    exists|start: int| #[trigger] stands_at(text, part, start)
}

proof fn lemma_part_stands(text: Seq<char>, part: Seq<char>)
    ensures
        contains_text(text, part) <==> stands_in(text, part),
{
    if contains_text(text, part) {
        let start = choose|start: int| #[trigger] occurs_at(text, part, start);
        assert forall|i: int| 0 <= i < part.len() implies #[trigger] part[i] == text[start + i] by {
            assert(text.subrange(start, start + part.len())[i] == text[start + i]);
        }
        assert(stands_at(text, part, start));
    }
    if stands_in(text, part) {
        let start = choose|start: int| #[trigger] stands_at(text, part, start);
        assert(text.subrange(start, start + part.len()) =~= part);
        assert(occurs_at(text, part, start));
    }
}

/// A search text is found in the identity, the volume or the name of an enrollment.
pub proof fn lemma_search_looks_everywhere(
    enrollment_id: &str,
    storage_volume_id: &str,
    display_name: Option<&str>,
    query: &str,
    found: bool,
)
    requires
        call_ensures(
            enrollment_matches_lowercase,
            (enrollment_id, storage_volume_id, display_name, query),
            found,
        ),
    ensures
        found <==> {
            ||| stands_in(enrollment_id@, query@)
            ||| stands_in(storage_volume_id@, query@)
            ||| display_name is Some && stands_in(display_name->0@, query@)
        },
{
    lemma_part_stands(enrollment_id@, query@);
    lemma_part_stands(storage_volume_id@, query@);
    if let Some(name) = display_name {
        lemma_part_stands(name@, query@);
    }
}

/// When an enrollment is listed: since its candidate came, and before that since it was issued.
pub open spec fn listed_since(record: AgentRegistryRecord) -> UnixMillis {
    if record.enrollment.bootstrapped_at_unix_ms is Some {
        record.enrollment.bootstrapped_at_unix_ms->0
    } else {
        record.enrollment.created_at_unix_ms
    }
}

/// An enrollment is listed as of the time when its candidate came, or else when it was issued.
pub proof fn lemma_listed_since(record: &AgentRegistryRecord, time: UnixMillis)
    requires
        call_ensures(public_enrollment_created_at, (record,), time),
    ensures
        record.enrollment.bootstrapped_at_unix_ms matches Some(came) ==> time == came,
        record.enrollment.bootstrapped_at_unix_ms is None ==> time
            == record.enrollment.created_at_unix_ms,
{
}

/// A search text is found in an enrollment, whatever the case of its letters.
pub open spec fn is_found_by(record: AgentRegistryRecord, query: Seq<char>) -> bool {
    ||| stands_in(lowercase(record.enrollment.enrollment_id@), lowercase(query))
    ||| stands_in(lowercase(record.enrollment.storage_volume_id@), lowercase(query))
    ||| record.storage_enrollment.descriptor is Some && stands_in(
        lowercase(record.storage_enrollment.descriptor->0.display_name@),
        lowercase(query),
    )
}

proof fn lemma_search_finds_parts(record: AgentRegistryRecord, query: Seq<char>)
    ensures
        crate::agent_registry::repository::listing::is_enrollment_match(record, query)
            <==> is_found_by(record, query),
{
    lemma_part_stands(lowercase(record.enrollment.enrollment_id@), lowercase(query));
    lemma_part_stands(lowercase(record.enrollment.storage_volume_id@), lowercase(query));
    if let Some(descriptor) = record.storage_enrollment.descriptor {
        lemma_part_stands(lowercase(descriptor.display_name@), lowercase(query));
    }
}

/// An enrollment agrees with everything that a request names: its tenant, its public state, its kind,
/// the search text, and the cursor that it comes after.
pub open spec fn is_asked_for(
    record: AgentRegistryRecord,
    request: AgentEnrollmentListRequest,
) -> bool {
    &&& record.enrollment.tenant_id@ == request.tenant_id@
    &&& record.storage_enrollment.record_format is CurrentV3
    &&& record.storage_enrollment.state is Some
    &&& request.state is Some ==> record.storage_enrollment.state->0 == request.state->0
    &&& request.registration_kind is Some ==> record.storage_enrollment.registration_kind
        == request.registration_kind
    &&& request.query is Some ==> is_found_by(record, request.query->0@)
    &&& request.after matches Some(cursor) ==> cursor.created_at_unix_ms > listed_since(record) || (
    cursor.created_at_unix_ms == listed_since(record) && text_before(
        cursor.enrollment_id@,
        record.enrollment.enrollment_id@,
    ))
}

/// One enrollment is listed before another: the newer one, or of the same age the one whose identity
/// comes first.
pub open spec fn goes_first(earlier: AgentRegistryRecord, later: AgentRegistryRecord) -> bool {
    listed_since(earlier) > listed_since(later) || (listed_since(earlier) == listed_since(later)
        && text_before(earlier.enrollment.enrollment_id@, later.enrollment.enrollment_id@))
}

/// The enrollments of a listing are exactly the stored ones that agree with everything that the
/// request names, the newest first; the page shows the first of them, as many as were asked for, and
/// names the last one that it shows where there are more.
pub proof fn lemma_enrollment_page_shows_what_was_asked_for(
    registry: InMemoryAgentRegistry,
    request: &AgentEnrollmentListRequest,
    result: CentralResult<AgentEnrollmentListPage>,
) -> (listing: Seq<RegistryEntry>)
    requires
        call_ensures(InMemoryAgentRegistry::list_for_tenant, (&registry, request), result),
    ensures
        result is Err ==> fails_with(result, CentralErrorCode::ProtocolInvalid),
        result matches Ok(page) ==> {
            &&& 0 < request.limit <= 100
            &&& forall|i: int|
                0 <= i < listing.len() ==> registry@.records.contains_value(#[trigger] listing[i])
                    && is_asked_for(listing[i].record, *request)
            &&& forall|name: Seq<char>| #[trigger]
                registry@.records.contains_key(name) && is_asked_for(
                    registry@.records[name].record,
                    *request,
                ) ==> listing.contains(registry@.records[name])
            &&& forall|i: int, j: int|
                0 <= i < j < listing.len() ==> goes_first(
                    #[trigger] listing[i].record,
                    #[trigger] listing[j].record,
                )
            &&& page.records@.len() == if listing.len() <= request.limit {
                listing.len()
            } else {
                request.limit as nat
            }
            &&& forall|i: int|
                0 <= i < page.records@.len() ==> (#[trigger] page.records@[i]).same(
                    listing[i].record,
                )
            &&& match page.next {
                None => listing.len() <= request.limit,
                Some(cursor) => {
                    &&& listing.len() > request.limit
                    &&& cursor.created_at_unix_ms == listed_since(listing[request.limit - 1].record)
                    &&& cursor.enrollment_id@ == listing[request.limit
                        - 1].record.enrollment.enrollment_id@
                },
            }
        },
{
    match result {
        Err(_) => Seq::empty(),
        Ok(page) => {
            let wanted = wanted_enrollments(*request);
            let listing = choose|listing: Seq<RegistryEntry>|
                {
                    &&& #[trigger] is_listing_of(listing, registry@.records, wanted)
                    &&& is_page_of(page, listing, request.limit as nat)
                };
            assert forall|i: int| 0 <= i < listing.len() implies is_asked_for(
                #[trigger] listing[i].record,
                *request,
            ) by {
                if let Some(query) = request.query {
                    lemma_search_finds_parts(listing[i].record, query@);
                }
                assert(wanted(listing[i]));
            }
            assert forall|name: Seq<char>| #[trigger]
                registry@.records.contains_key(name) && is_asked_for(
                    registry@.records[name].record,
                    *request,
                ) implies listing.contains(registry@.records[name]) by {
                if let Some(query) = request.query {
                    lemma_search_finds_parts(registry@.records[name].record, query@);
                }
                assert(wanted(registry@.records[name]));
            }
            assert forall|i: int, j: int| 0 <= i < j < listing.len() implies goes_first(
                #[trigger] listing[i].record,
                #[trigger] listing[j].record,
            ) by {
                assert(place(listing[i]).0 >= place(listing[j]).0);
            }
            listing
        },
    }
}

/// A request within its limits is answered.
pub proof fn lemma_enrollment_list_is_answered(
    registry: InMemoryAgentRegistry,
    request: &AgentEnrollmentListRequest,
    result: CentralResult<AgentEnrollmentListPage>,
)
    requires
        call_ensures(InMemoryAgentRegistry::list_for_tenant, (&registry, request), result),
        0 < request.limit <= 100,
        request.query matches Some(query) ==> 0 < query@.len() <= 256,
        request.after matches Some(cursor) ==> cursor.created_at_unix_ms <= i64::MAX,
    ensures
        result is Ok,
{
}

/// A page of read enrollments is the first of them, and goes on behind the last one that it shows.
pub proof fn lemma_enrollment_page(
    records: Vec<AgentRegistryRecord>,
    limit: usize,
    page: AgentEnrollmentListPage,
)
    requires
        call_ensures(enrollment_page, (records, limit), page),
        limit > 0,
    ensures
        page.records@.len() == if records@.len() < limit {
            records@.len()
        } else {
            limit as nat
        },
        forall|i: int|
            0 <= i < page.records@.len() ==> #[trigger] page.records@[i] == records@[i],
        records@.len() > limit <==> page.next is Some,
        page.next matches Some(cursor) ==> {
            &&& cursor.created_at_unix_ms == listed_since(records@[limit - 1])
            &&& cursor.enrollment_id@ == records@[limit - 1].enrollment.enrollment_id@
        },
{
}

/// No event of a decision stands before one of an earlier tenant or, for one tenant, of an earlier
/// identity.
pub open spec fn decisions_are_sorted(events: Seq<AgentEnrollmentAuditEvent>) -> bool {
    forall|i: int, j: int|
        0 <= i < j < events.len() ==> {
            let first = #[trigger] events[i];
            let second = #[trigger] events[j];
            &&& !text_before(second.tenant_id@, first.tenant_id@)
            &&& second.tenant_id@ == first.tenant_id@ ==> !text_before(
                second.event_id@,
                first.event_id@,
            )
        }
}

proof fn lemma_decisions_in_order(items: Seq<AgentEnrollmentAuditEvent>)
    ensures
        decisions_are_sorted(in_order(items)),
        in_order(items).to_multiset() == items.to_multiset(),
{
    lemma_in_order(items);
    let row = in_order(items);
    assert forall|i: int, j: int| 0 <= i < j < row.len() implies {
        let first = #[trigger] row[i];
        let second = #[trigger] row[j];
        &&& !text_before(second.tenant_id@, first.tenant_id@)
        &&& second.tenant_id@ == first.tenant_id@ ==> !text_before(
            second.event_id@,
            first.event_id@,
        )
    } by {
        assert(!row[j].goes_before(row[i]));
    }
}

/// The audit tells of each decision once: one enrollment more adds its decision event, if it has one,
/// and nothing else. It is sorted by tenant and event.
pub proof fn lemma_audit_tells_each_decision(
    records: &Vec<AgentRegistryRecord>,
    more: &Vec<AgentRegistryRecord>,
    events: Vec<AgentEnrollmentAuditEvent>,
    grown: Vec<AgentEnrollmentAuditEvent>,
)
    requires
        call_ensures(enrollment_audit_events, (records,), events),
        call_ensures(enrollment_audit_events, (more,), grown),
        more@.len() > 0,
        records@ == more@.drop_last(),
    ensures
        decisions_are_sorted(events@),
        records@.len() == 0 ==> events@.len() == 0,
        more@.last().decision_audit_event is None ==> grown@.to_multiset() == events@.to_multiset(),
        more@.last().decision_audit_event matches Some(event) ==> grown@.to_multiset()
            == events@.to_multiset().insert(event),
{
    broadcast use vstd::seq_lib::group_to_multiset_ensures;

    let before = crate::agent_registry::audit::decision_events(records@);
    let after = crate::agent_registry::audit::decision_events(more@);
    lemma_decisions_in_order(before);
    lemma_decisions_in_order(after);
    lemma_in_order(before);
}

/// No event of an enrollment stands before an earlier one or, at the same time, before one of an
/// earlier identity.
pub open spec fn steps_are_sorted(events: Seq<AgentEnrollmentLifecycleAuditEvent>) -> bool {
    forall|i: int, j: int|
        0 <= i < j < events.len() ==> {
            let first = #[trigger] events[i];
            let second = #[trigger] events[j];
            &&& first.occurred_at_unix_ms <= second.occurred_at_unix_ms
            &&& first.occurred_at_unix_ms == second.occurred_at_unix_ms ==> !text_before(
                second.event_id@,
                first.event_id@,
            )
        }
}

/// The lifecycle audit of a tenant tells every event of its enrollments and of no others: one
/// enrollment more adds its events where it is the tenant's. It is sorted by time and event.
pub proof fn lemma_audit_tells_each_step(
    records: &Vec<AgentRegistryRecord>,
    more: &Vec<AgentRegistryRecord>,
    tenant_id: &TenantId,
    events: Vec<AgentEnrollmentLifecycleAuditEvent>,
    grown: Vec<AgentEnrollmentLifecycleAuditEvent>,
)
    requires
        call_ensures(enrollment_lifecycle_audit_events, (records, tenant_id), events),
        call_ensures(enrollment_lifecycle_audit_events, (more, tenant_id), grown),
        more@.len() > 0,
        records@ == more@.drop_last(),
    ensures
        steps_are_sorted(events@),
        records@.len() == 0 ==> events@.len() == 0,
        more@.last().enrollment.tenant_id@ != tenant_id@ ==> grown@.to_multiset()
            == events@.to_multiset(),
        more@.last().enrollment.tenant_id@ == tenant_id@ ==> grown@.to_multiset()
            == events@.to_multiset().add(
            more@.last().storage_enrollment.lifecycle_audit_events@.to_multiset(),
        ),
{
    let before = crate::agent_registry::audit::lifecycle_events(records@, tenant_id@);
    let after = crate::agent_registry::audit::lifecycle_events(more@, tenant_id@);
    lemma_in_order(before);
    lemma_in_order(after);
    let added = more@.last().storage_enrollment.lifecycle_audit_events@;
    vstd::seq_lib::lemma_multiset_commutative(before, added);
    assert forall|i: int, j: int| 0 <= i < j < events@.len() implies {
        let first = #[trigger] events@[i];
        let second = #[trigger] events@[j];
        &&& first.occurred_at_unix_ms <= second.occurred_at_unix_ms
        &&& first.occurred_at_unix_ms == second.occurred_at_unix_ms ==> !text_before(
            second.event_id@,
            first.event_id@,
        )
    } by {
        assert(!events@[j].goes_before(events@[i]));
    }
}

/// Two events go by the same name.
pub open spec fn share_a_name(
    left: AgentEnrollmentAuditEvent,
    right: AgentEnrollmentAuditEvent,
) -> bool {
    left.tenant_id@ == right.tenant_id@ && left.event_id@ == right.event_id@
}

proof fn lemma_merged_holds_both(
    authority: Seq<AgentEnrollmentAuditEvent>,
    registry: Seq<AgentEnrollmentAuditEvent>,
)
    ensures
        merged(authority, registry).len() >= authority.len(),
        forall|i: int|
            0 <= i < authority.len() ==> #[trigger] merged(authority, registry)[i] == authority[i],
        forall|i: int|
            0 <= i < merged(authority, registry).len() ==> authority.contains(
                #[trigger] merged(authority, registry)[i],
            ) || registry.contains(merged(authority, registry)[i]),
        forall|j: int|
            0 <= j < registry.len() ==> exists|i: int|
                0 <= i < merged(authority, registry).len() && share_a_name(
                    #[trigger] merged(authority, registry)[i],
                    #[trigger] registry[j],
                ),
    decreases registry.len(),
{
    let all = merged(authority, registry);
    if registry.len() == 0 {
        assert forall|i: int| 0 <= i < all.len() implies authority.contains(#[trigger] all[i]) by {
            assert(authority[i] == all[i]);
        }
    } else {
        let rest = registry.drop_last();
        let events = merged(authority, rest);
        lemma_merged_holds_both(authority, rest);
        assert forall|i: int| 0 <= i < all.len() implies authority.contains(#[trigger] all[i])
            || registry.contains(all[i]) by {
            if i < events.len() {
                assert(events[i] == all[i]);
                if rest.contains(all[i]) {
                    let at = choose|at: int| 0 <= at < rest.len() && rest[at] == all[i];
                    assert(registry[at] == all[i]);
                }
            } else {
                assert(registry[registry.len() - 1] == all[i]);
            }
        }
        assert forall|j: int| 0 <= j < registry.len() implies exists|i: int|
            0 <= i < all.len() && share_a_name(#[trigger] all[i], #[trigger] registry[j]) by {
            if j < rest.len() {
                assert(rest[j] == registry[j]);
                let i = choose|i: int|
                    0 <= i < events.len() && share_a_name(#[trigger] events[i], rest[j]);
                assert(all[i] == events[i]);
            } else if all.len() > events.len() {
                assert(share_a_name(all[events.len() as int], registry[j]));
            } else {
                let i = choose|i: int|
                    0 <= i < events.len() && crate::agent_registry::audit::same_event(
                        #[trigger] events[i],
                        registry.last(),
                    );
                assert(share_a_name(all[i], registry[j]));
            }
        }
    }
}

/// A merged audit holds every event of the authority, an event for every name that the registry has,
/// and nothing that neither has; it is sorted.
pub proof fn lemma_merged_audit_holds_both(
    authority: Vec<AgentEnrollmentAuditEvent>,
    registry: &Vec<AgentEnrollmentAuditEvent>,
    result: CentralResult<Vec<AgentEnrollmentAuditEvent>>,
)
    requires
        call_ensures(merge_enrollment_audit_events, (authority, registry), result),
    ensures
        result is Err ==> fails_with(result, CentralErrorCode::StorageFailure),
        result matches Ok(events) ==> {
            &&& decisions_are_sorted(events@)
            &&& forall|i: int| 0 <= i < authority@.len() ==> events@.contains(#[trigger] authority@[i])
            &&& forall|i: int|
                0 <= i < events@.len() ==> authority@.contains(#[trigger] events@[i])
                    || registry@.contains(events@[i])
            &&& forall|j: int|
                0 <= j < registry@.len() ==> exists|i: int|
                    0 <= i < events@.len() && share_a_name(
                        #[trigger] events@[i],
                        #[trigger] registry@[j],
                    )
        },
{
    broadcast use vstd::seq_lib::group_to_multiset_ensures;

    let all = merged(authority@, registry@);
    lemma_merged_holds_both(authority@, registry@);
    lemma_decisions_in_order(all);
    if let Ok(events) = result {
        assert forall|event: AgentEnrollmentAuditEvent|
            events@.contains(event) == #[trigger] all.contains(event) by {
            assert(events@.to_multiset().count(event) == all.to_multiset().count(event));
        }
        assert forall|i: int| 0 <= i < authority@.len() implies events@.contains(
            #[trigger] authority@[i],
        ) by {
            assert(all[i] == authority@[i]);
            assert(all.contains(authority@[i]));
        }
        assert forall|i: int| 0 <= i < events@.len() implies authority@.contains(
            #[trigger] events@[i],
        ) || registry@.contains(events@[i]) by {
            assert(all.contains(events@[i]));
            let at = choose|at: int| 0 <= at < all.len() && all[at] == events@[i];
            assert(all[at] == events@[i]);
        }
        assert forall|j: int| 0 <= j < registry@.len() implies exists|i: int|
            0 <= i < events@.len() && share_a_name(
                #[trigger] events@[i],
                #[trigger] registry@[j],
            ) by {
            let at = choose|at: int|
                0 <= at < all.len() && share_a_name(#[trigger] all[at], registry@[j]);
            assert(all.contains(all[at]));
            assert(events@.contains(all[at]));
            let i = choose|i: int| 0 <= i < events@.len() && events@[i] == all[at];
            assert(share_a_name(events@[i], registry@[j]));
        }
    }
}

/// Where the authority has each name once, an event of the registry that says otherwise than the
/// authority's event of its name stops the merge.
pub proof fn lemma_disagreement_stops_the_merge(
    authority: Vec<AgentEnrollmentAuditEvent>,
    registry: &Vec<AgentEnrollmentAuditEvent>,
    known: int,
    at: int,
    result: CentralResult<Vec<AgentEnrollmentAuditEvent>>,
)
    requires
        call_ensures(merge_enrollment_audit_events, (authority, registry), result),
        0 <= known < authority@.len(),
        0 <= at < registry@.len(),
        share_a_name(authority@[known], registry@[at]),
        !authority@[known].same(registry@[at]),
        forall|i: int, j: int|
            0 <= i < j < authority@.len() ==> !share_a_name(
                #[trigger] authority@[i],
                #[trigger] authority@[j],
            ),
    ensures
        result is Err,
{
    let events = merged(authority@, registry@.take(at));
    lemma_merged_holds_both(authority@, registry@.take(at));
    assert(events[known] == authority@[known]);
    assert forall|i: int| 0 <= i < known implies !crate::agent_registry::audit::same_event(
        #[trigger] events[i],
        registry@[at],
    ) by {
        assert(events[i] == authority@[i]);
        assert(!share_a_name(authority@[i], authority@[known]));
    }
    assert(crate::agent_registry::audit::is_first_namesake(events, registry@[at], known));
    assert(!events[known].same(registry@[at]));
    assert(crate::agent_registry::audit::disagrees(authority@, registry@, at));
}

} // verus!
