//! What holds across the operations of the catalog: Heads move together, by compare and swap,
//! transitions that come again change nothing but a time, and a walk through the pages of a listing
//! meets every record once.
use vstd::prelude::*;

use crate::catalog::listing::{
    are_pages, is_listed_before, is_listing_of, is_match, is_page, lemma_page_by_filter,
    lemma_pages_are_the_listing, past, place,
};
use crate::catalog::memory::{
    advance_fault, advanced, commit_artifact, is_advanced, is_catalog, is_in_phase,
    shares_placement, transitioned, wanted_tenants, CatalogView,
};
use crate::catalog::records::{
    AdvancePlaygroundCommitRequest, SnapshotPhase, SnapshotRecord, SnapshotState, TenantListPage,
    TenantListRequest, TenantRecord,
};
use crate::catalog::rules::{is_wanted_tenant, tenant_cursor};
use crate::equality::Same;
use crate::identifier::{Identifier, UnixMillis};
use crate::table::{at_most, Named};

verus! {

/// Publishing a Commit moves the Heads of Artifact and Playground together and the version of the
/// Artifact on by exactly one. Publishing it again is accepted and finds it done.
pub proof fn lemma_heads_move_together(
    catalog: CatalogView,
    request: AdvancePlaygroundCommitRequest,
)
    requires
        advance_fault(catalog, request) is None,
        !is_advanced(catalog, request),
    ensures
        is_advanced(advanced(catalog, request), request),
        advance_fault(advanced(catalog, request), request) is None,
        advanced(catalog, request).artifacts[commit_artifact(request)].resource_version
            == catalog.artifacts[commit_artifact(request)].resource_version + 1,
        advanced(catalog, request).tenants == catalog.tenants,
        advanced(catalog, request).volumes == catalog.volumes,
        advanced(catalog, request).snapshots == catalog.snapshots,
{
}

/// Of two different Commits onto the same Head of an Artifact only the first is published.
pub proof fn lemma_first_commit_wins(
    catalog: CatalogView,
    first: AdvancePlaygroundCommitRequest,
    second: AdvancePlaygroundCommitRequest,
)
    requires
        advance_fault(catalog, first) is None,
        !is_advanced(catalog, first),
        commit_artifact(second) == commit_artifact(first),
        second.expected_head_commit_id == first.expected_head_commit_id,
        second.commit_id != first.commit_id,
    ensures
        advance_fault(advanced(catalog, first), second) is Some,
{
}

/// Publishing a Commit leaves a catalog in which every record stands under its own name.
pub proof fn lemma_advance_keeps_catalog(
    catalog: CatalogView,
    request: AdvancePlaygroundCommitRequest,
)
    requires
        is_catalog(catalog),
        advance_fault(catalog, request) is None,
    ensures
        is_catalog(advanced(catalog, request)),
{
}

/// One Commit is placed on one Volume at most once.
pub proof fn lemma_placement_is_unique(
    catalog: CatalogView,
    left: (Seq<char>, Seq<char>),
    right: (Seq<char>, Seq<char>),
)
    requires
        is_catalog(catalog),
        catalog.snapshots.contains_key(left),
        catalog.snapshots.contains_key(right),
        shares_placement(catalog.snapshots[left], catalog.snapshots[right]),
    ensures
        left == right,
{
}

/// A Snapshot transition that comes again is accepted and moves at most the time, never back.
pub proof fn lemma_snapshot_transition_replays(
    before: SnapshotRecord,
    state: SnapshotState,
    phase: SnapshotPhase,
    at: UnixMillis,
    later: UnixMillis,
)
    ensures
        ({
            let first = transitioned(before, state, phase, at);
            let second = transitioned(first, state, phase, later);
            &&& is_in_phase(first, state@, phase@)
            &&& second == SnapshotRecord { updated_at_unix_ms: second.updated_at_unix_ms, ..first }
            &&& first.updated_at_unix_ms <= second.updated_at_unix_ms
        }),
{
}

/// A page of tenants answers a request.
pub open spec fn is_tenant_page(
    catalog: CatalogView,
    request: TenantListRequest,
    page: TenantListPage,
) -> bool {
    is_page(
        page.records@,
        tenant_cursor(page.next),
        catalog.tenants,
        wanted_tenants(request),
        request.limit as nat,
    )
}

/// Two requests for tenants that differ at most in where they start.
pub open spec fn is_same_tenant_search(left: TenantListRequest, right: TenantListRequest) -> bool {
    &&& left.limit == right.limit
    &&& left.visible_tenant_ids.same(right.visible_tenant_ids)
    &&& match (left.query, right.query) {
        (None, None) => true,
        (Some(left), Some(right)) => left@ == right@,
        _ => false,
    }
}

/// The tenants of some pages, one page after the other.
pub open spec fn tenants_of(pages: Seq<TenantListPage>) -> Seq<TenantRecord> {
    pages.map_values(|page: TenantListPage| page.records@).flatten()
}

/// Following the cursors from the first page to the last lists every wanted tenant exactly once,
/// newest first and then by identity, and nothing else.
pub proof fn lemma_pages_list_each_tenant_once(
    catalog: CatalogView,
    requests: Seq<TenantListRequest>,
    pages: Seq<TenantListPage>,
)
    requires
        is_catalog(catalog),
        requests.len() == pages.len(),
        pages.len() > 0,
        requests[0].after is None,
        requests[0].limit > 0,
        forall|k: int|
            0 <= k < pages.len() ==> is_tenant_page(catalog, requests[k], #[trigger] pages[k])
                && is_same_tenant_search(requests[0], requests[k]),
        forall|k: int|
            #![trigger pages[k]]
            0 <= k < pages.len() - 1 ==> pages[k].next is Some && tenant_cursor(
                requests[k + 1].after,
            ) == tenant_cursor(pages[k].next),
        pages.last().next is None,
    ensures
        ({
            let found = tenants_of(pages);
            &&& forall|i: int, j: int|
                0 <= i < j < found.len() ==> is_listed_before::<TenantRecord>(
                    place(#[trigger] found[i]),
                    place(#[trigger] found[j]),
                ) && found[i].tenant_id@ != found[j].tenant_id@
            &&& forall|i: int|
                0 <= i < found.len() ==> {
                    let name = (#[trigger] found[i]).tenant_id@;
                    &&& catalog.tenants.contains_key(name)
                    &&& found[i].same(catalog.tenants[name])
                    &&& is_wanted_tenant(catalog.tenants[name], requests[0])
                }
            &&& forall|name: Seq<char>| #[trigger]
                catalog.tenants.contains_key(name) && is_wanted_tenant(
                    catalog.tenants[name],
                    requests[0],
                ) ==> exists|i: int| 0 <= i < found.len() && (#[trigger] found[i]).tenant_id@ == name
        }),
{
    let shown = pages.map_values(|page: TenantListPage| page.records@);
    let keep = wanted_tenants(requests[0]);
    let limit = requests[0].limit as nat;
    let cursors = Seq::new(
        (pages.len() - 1) as nat,
        |k: int| tenant_cursor(pages[k].next)->0,
    );
    assert forall|k: int| 0 <= k < shown.len() implies is_page(
        #[trigger] shown[k],
        if k < cursors.len() {
            Some(cursors[k])
        } else {
            None
        },
        catalog.tenants,
        if k == 0 {
            keep
        } else {
            past(keep, cursors[k - 1])
        },
        limit,
    ) by {
        let request = requests[k];
        assert(is_tenant_page(catalog, request, pages[k]));
        assert(is_same_tenant_search(requests[0], request));
        if k > 0 {
            let before = pages[k - 1];
            assert(tenant_cursor(requests[k - 1 + 1].after) == tenant_cursor(before.next));
            let wide = wanted_tenants(request);
            let narrow = past(keep, cursors[k - 1]);
            assert forall|record: TenantRecord| #[trigger] wide(record) == narrow(record) by {
                lemma_search_by_cursor(requests[0], request, record);
            }
            lemma_page_by_filter(
                pages[k].records@,
                tenant_cursor(pages[k].next),
                catalog.tenants,
                wide,
                narrow,
                limit,
            );
        }
    }
    assert(are_pages(shown, cursors, catalog.tenants, keep, limit));
    let listing = lemma_pages_are_the_listing(shown, cursors, catalog.tenants, keep, limit);
    let found = tenants_of(pages);
    assert forall|i: int| 0 <= i < found.len() implies {
        let name = (#[trigger] found[i]).tenant_id@;
        &&& catalog.tenants.contains_key(name)
        &&& catalog.tenants[name] == listing[i]
        &&& found[i].same(listing[i])
        &&& keep(listing[i])
    } by {
        assert(found[i].same(listing[i]));
        assert(catalog.tenants.contains_value(listing[i]));
    }
    assert forall|i: int, j: int| 0 <= i < j < found.len() implies is_listed_before::<TenantRecord>(
        place(#[trigger] found[i]),
        place(#[trigger] found[j]),
    ) && found[i].tenant_id@ != found[j].tenant_id@ by {
        assert(is_listed_before::<TenantRecord>(place(listing[i]), place(listing[j])));
        if found[i].tenant_id@ == found[j].tenant_id@ {
            Identifier::lemma_irreflexive(found[i].tenant_id@);
        }
    }
    assert forall|name: Seq<char>| #[trigger]
        catalog.tenants.contains_key(name) && is_wanted_tenant(
            catalog.tenants[name],
            requests[0],
        ) implies exists|i: int|
        0 <= i < found.len() && (#[trigger] found[i]).tenant_id@ == name by {
        assert(keep(catalog.tenants[name]));
        let at = choose|i: int| 0 <= i < listing.len() && listing[i] == catalog.tenants[name];
        assert(found[at].same(listing[at]));
    }
}

/// A later request of a search wants what the first one wants, from its own start on.
proof fn lemma_search_by_cursor(
    first: TenantListRequest,
    later: TenantListRequest,
    record: TenantRecord,
)
    requires
        is_same_tenant_search(first, later),
        first.after is None,
        later.after is Some,
    ensures
        is_wanted_tenant(record, later) == (is_wanted_tenant(record, first) && is_listed_before::<
            TenantRecord,
        >(tenant_cursor(later.after)->0, place(record))),
{
    if let (Some(left), Some(right)) = (first.visible_tenant_ids, later.visible_tenant_ids) {
        assert(forall|i: int| 0 <= i < left@.len() ==> (#[trigger] left@[i]).same(right@[i]));
        assert(forall|i: int| 0 <= i < right@.len() ==> left@[i].same(#[trigger] right@[i]));
    }
}

/// A grant of no tenants shows none and has no further page; without a grant every tenant that
/// the search text finds is wanted.
pub proof fn lemma_visibility_is_exact(
    catalog: CatalogView,
    request: TenantListRequest,
    page: TenantListPage,
    record: TenantRecord,
)
    requires
        is_tenant_page(catalog, request, page),
        request.limit > 0,
    ensures
        request.visible_tenant_ids matches Some(ids) && ids@.len() == 0 ==> page.records@.len() == 0
            && page.next is None,
        request.visible_tenant_ids is None && request.after is None ==> is_wanted_tenant(
            record,
            request,
        ) == is_match(record.tenant_id@, record.display_name@, request.query),
{
    if request.visible_tenant_ids matches Some(ids) && ids@.len() == 0 {
        let keep = wanted_tenants(request);
        let limit = request.limit as nat;
        let next = tenant_cursor(page.next);
        let listing = choose|listing: Seq<TenantRecord>|
            {
                &&& #[trigger] is_listing_of(listing, catalog.tenants, keep)
                &&& page.records@.same(at_most(listing, limit))
                &&& next is Some <==> listing.len() > limit
                &&& next matches Some(cursor) ==> cursor == place(listing[limit - 1])
            };
        if listing.len() > 0 {
            assert(keep(listing[0]));
        }
    }
}

} // verus!
