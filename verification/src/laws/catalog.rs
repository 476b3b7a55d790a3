//! What the catalog promises.
use vstd::prelude::*;

use crate::catalog::listing::{is_listed_before, is_listing_of, is_page, lowercase, place, Dated};
use crate::catalog::memory::{
    wanted_artifacts, wanted_playgrounds, wanted_snapshots, wanted_tenants, wanted_volumes,
    InMemoryControlCatalog, PlaygroundName,
};
use crate::catalog::records::{
    ArtifactListCursor, ArtifactListPage, ArtifactListRequest, ArtifactRecord, PlaygroundListCursor,
    PlaygroundListPage, PlaygroundListRequest, PlaygroundRecord, SnapshotListCursor,
    SnapshotListPage, SnapshotListRequest, SnapshotRecord, StorageVolumeListCursor,
    StorageVolumeListPage, StorageVolumeListRequest, StorageVolumeRecord, TenantListCursor,
    TenantListPage, TenantListRequest, TenantRecord,
};
use crate::catalog::rules::{
    artifact_cursor, playground_cursor, snapshot_cursor, tenant_cursor, volume_cursor,
};
use crate::equality::Same;
use crate::error::{CentralErrorCode, CentralResult};
use crate::laws::jobs::fails_with;
use crate::table::{at_most, Named};
use crate::text::text_before;

verus! {

/// A search text is found in an identity or a name, whatever the case of their letters.
pub open spec fn is_found(id: Seq<char>, name: Seq<char>, text: Seq<char>) -> bool {
    ||| exists|before: Seq<char>, after: Seq<char>|
        lowercase(id) == #[trigger] (before + lowercase(text) + after)
    ||| exists|before: Seq<char>, after: Seq<char>|
        lowercase(name) == #[trigger] (before + lowercase(text) + after)
}

proof fn lemma_part_is_between(text: Seq<char>, part: Seq<char>)
    ensures
        crate::text::contains_text(text, part) == exists|before: Seq<char>, after: Seq<char>|
            text == #[trigger] (before + part + after),
{
    if crate::text::contains_text(text, part) {
        let start = choose|start: int| #[trigger] crate::text::occurs_at(text, part, start);
        let before = text.subrange(0, start);
        let after = text.subrange(start + part.len(), text.len() as int);
        assert(text =~= before + part + after);
    }
    if exists|before: Seq<char>, after: Seq<char>| text == #[trigger] (before + part + after) {
        let (before, after) = choose|before: Seq<char>, after: Seq<char>|
            text == #[trigger] (before + part + after);
        assert(text.subrange(before.len() as int, (before.len() + part.len()) as int) =~= part);
        assert(crate::text::occurs_at(text, part, before.len() as int));
    }
}

/// A search text is found in a record where its lowercase form is part of the lowercase identity or
/// the lowercase name.
proof fn lemma_search_finds_parts(id: Seq<char>, name: Seq<char>, text: Seq<char>)
    ensures
        is_found(id, name, text) == crate::catalog::listing::lower_forms_match(
            lowercase(id),
            lowercase(name),
            lowercase(text),
        ),
{
    lemma_part_is_between(lowercase(id), lowercase(text));
    lemma_part_is_between(lowercase(name), lowercase(text));
}

proof fn lemma_page_has_a_listing<N, V: Dated + Same>(
    page: Seq<V>,
    next: Option<(u64, <V::Id as Named>::Name)>,
    records: Map<N, V>,
    keep: spec_fn(V) -> bool,
    limit: nat,
) -> (listing: Seq<V>)
    requires
        is_page(page, next, records, keep, limit),
    ensures
        is_listing_of(listing, records, keep),
        page.same(at_most(listing, limit)),
        next is Some <==> listing.len() > limit,
        next matches Some(cursor) ==> cursor == place(listing[limit - 1]),
{
    choose|listing: Seq<V>|
        {
            &&& #[trigger] is_listing_of(listing, records, keep)
            &&& page.same(at_most(listing, limit))
            &&& next is Some <==> listing.len() > limit
            &&& next matches Some(cursor) ==> cursor == place(listing[limit - 1])
        }
}

/// One record is listed before another one: the newer one first, and of the same age in the order of
/// their identities.
pub open spec fn tenant_goes_first(earlier: TenantRecord, later: TenantRecord) -> bool {
    earlier.created_at_unix_ms > later.created_at_unix_ms || (earlier.created_at_unix_ms
        == later.created_at_unix_ms && (text_before(earlier.tenant_id@, later.tenant_id@)))
}

/// A record comes after the cursor of a listing.
pub open spec fn tenant_is_left(earlier: TenantListCursor, later: TenantRecord) -> bool {
    earlier.created_at_unix_ms > later.created_at_unix_ms || (earlier.created_at_unix_ms
        == later.created_at_unix_ms && (text_before(earlier.tenant_id@, later.tenant_id@)))
}

/// A record agrees with everything that a request names.
pub open spec fn tenant_is_asked_for(record: TenantRecord, request: TenantListRequest) -> bool {
    &&& request.visible_tenant_ids matches Some(ids) ==> exists|i: int|
        0 <= i < ids@.len() && (#[trigger] ids@[i])@ == record.tenant_id@
    &&& request.query matches Some(text) ==> is_found(
        record.tenant_id@,
        record.display_name@,
        text@,
    )
    &&& request.after matches Some(cursor) ==> tenant_is_left(cursor, record)
}

/// The tenants of a listing are exactly the stored ones that agree with everything that the
/// request names, each once, the newest first; the page shows the first of them, as many as were
/// asked for, and names the last one that it shows where there are more. A page takes from one to
/// a hundred records.
pub proof fn lemma_tenant_page_shows_what_was_asked_for(
    catalog: InMemoryControlCatalog,
    request: &TenantListRequest,
    result: CentralResult<TenantListPage>,
) -> (listing: Seq<TenantRecord>)
    requires
        call_ensures(InMemoryControlCatalog::list_tenants, (&catalog, request), result),
    ensures
        result is Ok <==> 1 <= request.limit <= 100,
        result is Err ==> fails_with(result, CentralErrorCode::ProtocolInvalid),
        result matches Ok(page) ==> {
            &&& forall|i: int|
                0 <= i < listing.len() ==> catalog@.tenants.contains_value(#[trigger] listing[i])
                    && tenant_is_asked_for(listing[i], *request)
            &&& forall|name: Seq<char>| #[trigger]
                catalog@.tenants.contains_key(name) && tenant_is_asked_for(
                    catalog@.tenants[name],
                    *request,
                ) ==> listing.contains(catalog@.tenants[name])
            &&& forall|i: int, j: int|
                0 <= i < j < listing.len() ==> tenant_goes_first(
                    #[trigger] listing[i],
                    #[trigger] listing[j],
                )
            &&& page.records@.len() == if listing.len() <= request.limit {
                listing.len()
            } else {
                request.limit as nat
            }
            &&& forall|i: int|
                0 <= i < page.records@.len() ==> (#[trigger] page.records@[i]).same(listing[i])
                    && tenant_is_asked_for(page.records@[i], *request)
            &&& match page.next {
                None => listing.len() <= request.limit,
                Some(cursor) => {
                    &&& listing.len() > request.limit
                    &&& cursor.created_at_unix_ms == listing[request.limit - 1].created_at_unix_ms
                    &&& cursor.tenant_id@ == listing[request.limit - 1].tenant_id@
                },
            }
        },
{
    match result {
        Err(_) => Seq::empty(),
        Ok(page) => {
            let listing = lemma_page_has_a_listing(
                page.records@,
                tenant_cursor(page.next),
                catalog@.tenants,
                wanted_tenants(*request),
                request.limit as nat,
            );
            assert forall|i: int| 0 <= i < listing.len() implies tenant_is_asked_for(
                #[trigger] listing[i],
                *request,
            ) by {
                if let Some(text) = request.query {
                    lemma_search_finds_parts(
                        listing[i].tenant_id@,
                        listing[i].display_name@,
                        text@,
                    );
                }
                assert(wanted_tenants(*request)(listing[i]));
            }
            assert forall|name: Seq<char>| #[trigger]
                catalog@.tenants.contains_key(name) && tenant_is_asked_for(
                    catalog@.tenants[name],
                    *request,
                ) implies listing.contains(catalog@.tenants[name]) by {
                if let Some(text) = request.query {
                    lemma_search_finds_parts(
                        catalog@.tenants[name].tenant_id@,
                        catalog@.tenants[name].display_name@,
                        text@,
                    );
                }
                assert(wanted_tenants(*request)(catalog@.tenants[name]));
            }
            assert forall|i: int, j: int| 0 <= i < j < listing.len() implies tenant_goes_first(
                #[trigger] listing[i],
                #[trigger] listing[j],
            ) by {
                assert(is_listed_before::<TenantRecord>(place(listing[i]), place(listing[j])));
            }
            assert forall|i: int| 0 <= i < page.records@.len() implies (
            #[trigger] page.records@[i]).same(listing[i]) && tenant_is_asked_for(
                page.records@[i],
                *request,
            ) by {
                assert(page.records@[i].same(at_most(listing, request.limit as nat)[i]));
                assert(tenant_is_asked_for(listing[i], *request));
            }
            listing
        },
    }
}

/// One record is listed before another one: the newer one first, and of the same age in the order of
/// their identities.
pub open spec fn artifact_goes_first(earlier: ArtifactRecord, later: ArtifactRecord) -> bool {
    earlier.created_at_unix_ms > later.created_at_unix_ms || (earlier.created_at_unix_ms
        == later.created_at_unix_ms && (text_before(earlier.project_id@, later.project_id@) || (earlier.project_id@ == later.project_id@ && (text_before(earlier.artifact_id@, later.artifact_id@)))))
}

/// A record comes after the cursor of a listing.
pub open spec fn artifact_is_left(earlier: ArtifactListCursor, later: ArtifactRecord) -> bool {
    earlier.created_at_unix_ms > later.created_at_unix_ms || (earlier.created_at_unix_ms
        == later.created_at_unix_ms && (text_before(earlier.project_id@, later.project_id@) || (earlier.project_id@ == later.project_id@ && (text_before(earlier.artifact_id@, later.artifact_id@)))))
}

/// A record agrees with everything that a request names.
pub open spec fn artifact_is_asked_for(record: ArtifactRecord, request: ArtifactListRequest) -> bool {
    &&& record.tenant_id@ == request.tenant_id@
    &&& request.project_id matches Some(asked) ==> record.project_id@ == asked@
    &&& request.query matches Some(text) ==> is_found(
        record.artifact_id@,
        record.display_name@,
        text@,
    )
    &&& request.after matches Some(cursor) ==> artifact_is_left(cursor, record)
}

/// The Artifacts of a listing are exactly the stored ones that agree with everything that the
/// request names, each once, the newest first; the page shows the first of them, as many as were
/// asked for, and names the last one that it shows where there are more. A page takes from one to
/// a hundred records.
pub proof fn lemma_artifact_page_shows_what_was_asked_for(
    catalog: InMemoryControlCatalog,
    request: &ArtifactListRequest,
    result: CentralResult<ArtifactListPage>,
) -> (listing: Seq<ArtifactRecord>)
    requires
        call_ensures(InMemoryControlCatalog::list_artifacts, (&catalog, request), result),
    ensures
        result is Ok <==> 1 <= request.limit <= 100,
        result is Err ==> fails_with(result, CentralErrorCode::ProtocolInvalid),
        result matches Ok(page) ==> {
            &&& forall|i: int|
                0 <= i < listing.len() ==> catalog@.artifacts.contains_value(#[trigger] listing[i])
                    && artifact_is_asked_for(listing[i], *request)
            &&& forall|name: (Seq<char>, Seq<char>)| #[trigger]
                catalog@.artifacts.contains_key(name) && artifact_is_asked_for(
                    catalog@.artifacts[name],
                    *request,
                ) ==> listing.contains(catalog@.artifacts[name])
            &&& forall|i: int, j: int|
                0 <= i < j < listing.len() ==> artifact_goes_first(
                    #[trigger] listing[i],
                    #[trigger] listing[j],
                )
            &&& page.records@.len() == if listing.len() <= request.limit {
                listing.len()
            } else {
                request.limit as nat
            }
            &&& forall|i: int|
                0 <= i < page.records@.len() ==> (#[trigger] page.records@[i]).same(listing[i])
                    && artifact_is_asked_for(page.records@[i], *request)
            &&& match page.next {
                None => listing.len() <= request.limit,
                Some(cursor) => {
                    &&& listing.len() > request.limit
                    &&& cursor.created_at_unix_ms == listing[request.limit - 1].created_at_unix_ms
                    &&& cursor.project_id@ == listing[request.limit - 1].project_id@
                    &&& cursor.artifact_id@ == listing[request.limit - 1].artifact_id@
                },
            }
        },
{
    match result {
        Err(_) => Seq::empty(),
        Ok(page) => {
            let listing = lemma_page_has_a_listing(
                page.records@,
                artifact_cursor(page.next),
                catalog@.artifacts,
                wanted_artifacts(*request),
                request.limit as nat,
            );
            assert forall|i: int| 0 <= i < listing.len() implies artifact_is_asked_for(
                #[trigger] listing[i],
                *request,
            ) by {
                if let Some(text) = request.query {
                    lemma_search_finds_parts(
                        listing[i].artifact_id@,
                        listing[i].display_name@,
                        text@,
                    );
                }
                assert(wanted_artifacts(*request)(listing[i]));
            }
            assert forall|name: (Seq<char>, Seq<char>)| #[trigger]
                catalog@.artifacts.contains_key(name) && artifact_is_asked_for(
                    catalog@.artifacts[name],
                    *request,
                ) implies listing.contains(catalog@.artifacts[name]) by {
                if let Some(text) = request.query {
                    lemma_search_finds_parts(
                        catalog@.artifacts[name].artifact_id@,
                        catalog@.artifacts[name].display_name@,
                        text@,
                    );
                }
                assert(wanted_artifacts(*request)(catalog@.artifacts[name]));
            }
            assert forall|i: int, j: int| 0 <= i < j < listing.len() implies artifact_goes_first(
                #[trigger] listing[i],
                #[trigger] listing[j],
            ) by {
                assert(is_listed_before::<ArtifactRecord>(place(listing[i]), place(listing[j])));
            }
            assert forall|i: int| 0 <= i < page.records@.len() implies (
            #[trigger] page.records@[i]).same(listing[i]) && artifact_is_asked_for(
                page.records@[i],
                *request,
            ) by {
                assert(page.records@[i].same(at_most(listing, request.limit as nat)[i]));
                assert(artifact_is_asked_for(listing[i], *request));
            }
            listing
        },
    }
}

/// One record is listed before another one: the newer one first, and of the same age in the order of
/// their identities.
pub open spec fn volume_goes_first(earlier: StorageVolumeRecord, later: StorageVolumeRecord) -> bool {
    earlier.created_at_unix_ms > later.created_at_unix_ms || (earlier.created_at_unix_ms
        == later.created_at_unix_ms && (text_before(earlier.storage_volume_id@, later.storage_volume_id@)))
}

/// A record comes after the cursor of a listing.
pub open spec fn volume_is_left(earlier: StorageVolumeListCursor, later: StorageVolumeRecord) -> bool {
    earlier.created_at_unix_ms > later.created_at_unix_ms || (earlier.created_at_unix_ms
        == later.created_at_unix_ms && (text_before(earlier.storage_volume_id@, later.storage_volume_id@)))
}

/// A record agrees with everything that a request names.
pub open spec fn volume_is_asked_for(record: StorageVolumeRecord, request: StorageVolumeListRequest) -> bool {
    &&& record.tenant_id@ == request.tenant_id@
    &&& request.region matches Some(asked) ==> record.region@ == asked@
    &&& request.backend_type matches Some(asked) ==> record.backend_type == asked
    &&& request.query matches Some(text) ==> is_found(
        record.storage_volume_id@,
        record.display_name@,
        text@,
    )
    &&& request.after matches Some(cursor) ==> volume_is_left(cursor, record)
}

/// The StorageVolumes of a listing are exactly the stored ones that agree with everything that the
/// request names, each once, the newest first; the page shows the first of them, as many as were
/// asked for, and names the last one that it shows where there are more. A page takes from one to
/// a hundred records.
pub proof fn lemma_volume_page_shows_what_was_asked_for(
    catalog: InMemoryControlCatalog,
    request: &StorageVolumeListRequest,
    result: CentralResult<StorageVolumeListPage>,
) -> (listing: Seq<StorageVolumeRecord>)
    requires
        call_ensures(InMemoryControlCatalog::list_storage_volumes, (&catalog, request), result),
    ensures
        result is Ok <==> 1 <= request.limit <= 100,
        result is Err ==> fails_with(result, CentralErrorCode::ProtocolInvalid),
        result matches Ok(page) ==> {
            &&& forall|i: int|
                0 <= i < listing.len() ==> catalog@.volumes.contains_value(#[trigger] listing[i])
                    && volume_is_asked_for(listing[i], *request)
            &&& forall|name: (Seq<char>, Seq<char>)| #[trigger]
                catalog@.volumes.contains_key(name) && volume_is_asked_for(
                    catalog@.volumes[name],
                    *request,
                ) ==> listing.contains(catalog@.volumes[name])
            &&& forall|i: int, j: int|
                0 <= i < j < listing.len() ==> volume_goes_first(
                    #[trigger] listing[i],
                    #[trigger] listing[j],
                )
            &&& page.records@.len() == if listing.len() <= request.limit {
                listing.len()
            } else {
                request.limit as nat
            }
            &&& forall|i: int|
                0 <= i < page.records@.len() ==> (#[trigger] page.records@[i]).same(listing[i])
                    && volume_is_asked_for(page.records@[i], *request)
            &&& match page.next {
                None => listing.len() <= request.limit,
                Some(cursor) => {
                    &&& listing.len() > request.limit
                    &&& cursor.created_at_unix_ms == listing[request.limit - 1].created_at_unix_ms
                    &&& cursor.storage_volume_id@ == listing[request.limit - 1].storage_volume_id@
                },
            }
        },
{
    match result {
        Err(_) => Seq::empty(),
        Ok(page) => {
            let listing = lemma_page_has_a_listing(
                page.records@,
                volume_cursor(page.next),
                catalog@.volumes,
                wanted_volumes(*request),
                request.limit as nat,
            );
            assert forall|i: int| 0 <= i < listing.len() implies volume_is_asked_for(
                #[trigger] listing[i],
                *request,
            ) by {
                if let Some(text) = request.query {
                    lemma_search_finds_parts(
                        listing[i].storage_volume_id@,
                        listing[i].display_name@,
                        text@,
                    );
                }
                assert(wanted_volumes(*request)(listing[i]));
            }
            assert forall|name: (Seq<char>, Seq<char>)| #[trigger]
                catalog@.volumes.contains_key(name) && volume_is_asked_for(
                    catalog@.volumes[name],
                    *request,
                ) implies listing.contains(catalog@.volumes[name]) by {
                if let Some(text) = request.query {
                    lemma_search_finds_parts(
                        catalog@.volumes[name].storage_volume_id@,
                        catalog@.volumes[name].display_name@,
                        text@,
                    );
                }
                assert(wanted_volumes(*request)(catalog@.volumes[name]));
            }
            assert forall|i: int, j: int| 0 <= i < j < listing.len() implies volume_goes_first(
                #[trigger] listing[i],
                #[trigger] listing[j],
            ) by {
                assert(is_listed_before::<StorageVolumeRecord>(place(listing[i]), place(listing[j])));
            }
            assert forall|i: int| 0 <= i < page.records@.len() implies (
            #[trigger] page.records@[i]).same(listing[i]) && volume_is_asked_for(
                page.records@[i],
                *request,
            ) by {
                assert(page.records@[i].same(at_most(listing, request.limit as nat)[i]));
                assert(volume_is_asked_for(listing[i], *request));
            }
            listing
        },
    }
}

/// One record is listed before another one: the newer one first, and of the same age in the order of
/// their identities.
pub open spec fn playground_goes_first(earlier: PlaygroundRecord, later: PlaygroundRecord) -> bool {
    earlier.created_at_unix_ms > later.created_at_unix_ms || (earlier.created_at_unix_ms
        == later.created_at_unix_ms && (text_before(earlier.project_id@, later.project_id@) || (earlier.project_id@ == later.project_id@ && (text_before(earlier.artifact_id@, later.artifact_id@) || (earlier.artifact_id@ == later.artifact_id@ && (text_before(earlier.playground_id@, later.playground_id@)))))))
}

/// A record comes after the cursor of a listing.
pub open spec fn playground_is_left(earlier: PlaygroundListCursor, later: PlaygroundRecord) -> bool {
    earlier.created_at_unix_ms > later.created_at_unix_ms || (earlier.created_at_unix_ms
        == later.created_at_unix_ms && (text_before(earlier.project_id@, later.project_id@) || (earlier.project_id@ == later.project_id@ && (text_before(earlier.artifact_id@, later.artifact_id@) || (earlier.artifact_id@ == later.artifact_id@ && (text_before(earlier.playground_id@, later.playground_id@)))))))
}

/// A record agrees with everything that a request names.
pub open spec fn playground_is_asked_for(record: PlaygroundRecord, request: PlaygroundListRequest) -> bool {
    &&& record.tenant_id@ == request.tenant_id@
    &&& request.project_id matches Some(asked) ==> record.project_id@ == asked@
    &&& request.artifact_id matches Some(asked) ==> record.artifact_id@ == asked@
    &&& request.region matches Some(asked) ==> record.region@ == asked@
    &&& request.state matches Some(asked) ==> record.state == asked
    &&& request.query matches Some(text) ==> is_found(
        record.playground_id@,
        record.display_name@,
        text@,
    )
    &&& request.after matches Some(cursor) ==> playground_is_left(cursor, record)
}

/// The Playgrounds of a listing are exactly the stored ones that agree with everything that the
/// request names, each once, the newest first; the page shows the first of them, as many as were
/// asked for, and names the last one that it shows where there are more. A page takes from one to
/// a hundred records.
pub proof fn lemma_playground_page_shows_what_was_asked_for(
    catalog: InMemoryControlCatalog,
    request: &PlaygroundListRequest,
    result: CentralResult<PlaygroundListPage>,
) -> (listing: Seq<PlaygroundRecord>)
    requires
        call_ensures(InMemoryControlCatalog::list_playgrounds, (&catalog, request), result),
    ensures
        result is Ok <==> 1 <= request.limit <= 100,
        result is Err ==> fails_with(result, CentralErrorCode::ProtocolInvalid),
        result matches Ok(page) ==> {
            &&& forall|i: int|
                0 <= i < listing.len() ==> catalog@.playgrounds.contains_value(#[trigger] listing[i])
                    && playground_is_asked_for(listing[i], *request)
            &&& forall|name: PlaygroundName| #[trigger]
                catalog@.playgrounds.contains_key(name) && playground_is_asked_for(
                    catalog@.playgrounds[name],
                    *request,
                ) ==> listing.contains(catalog@.playgrounds[name])
            &&& forall|i: int, j: int|
                0 <= i < j < listing.len() ==> playground_goes_first(
                    #[trigger] listing[i],
                    #[trigger] listing[j],
                )
            &&& page.records@.len() == if listing.len() <= request.limit {
                listing.len()
            } else {
                request.limit as nat
            }
            &&& forall|i: int|
                0 <= i < page.records@.len() ==> (#[trigger] page.records@[i]).same(listing[i])
                    && playground_is_asked_for(page.records@[i], *request)
            &&& match page.next {
                None => listing.len() <= request.limit,
                Some(cursor) => {
                    &&& listing.len() > request.limit
                    &&& cursor.created_at_unix_ms == listing[request.limit - 1].created_at_unix_ms
                    &&& cursor.project_id@ == listing[request.limit - 1].project_id@
                    &&& cursor.artifact_id@ == listing[request.limit - 1].artifact_id@
                    &&& cursor.playground_id@ == listing[request.limit - 1].playground_id@
                },
            }
        },
{
    match result {
        Err(_) => Seq::empty(),
        Ok(page) => {
            let listing = lemma_page_has_a_listing(
                page.records@,
                playground_cursor(page.next),
                catalog@.playgrounds,
                wanted_playgrounds(*request),
                request.limit as nat,
            );
            assert forall|i: int| 0 <= i < listing.len() implies playground_is_asked_for(
                #[trigger] listing[i],
                *request,
            ) by {
                if let Some(text) = request.query {
                    lemma_search_finds_parts(
                        listing[i].playground_id@,
                        listing[i].display_name@,
                        text@,
                    );
                }
                assert(wanted_playgrounds(*request)(listing[i]));
            }
            assert forall|name: PlaygroundName| #[trigger]
                catalog@.playgrounds.contains_key(name) && playground_is_asked_for(
                    catalog@.playgrounds[name],
                    *request,
                ) implies listing.contains(catalog@.playgrounds[name]) by {
                if let Some(text) = request.query {
                    lemma_search_finds_parts(
                        catalog@.playgrounds[name].playground_id@,
                        catalog@.playgrounds[name].display_name@,
                        text@,
                    );
                }
                assert(wanted_playgrounds(*request)(catalog@.playgrounds[name]));
            }
            assert forall|i: int, j: int| 0 <= i < j < listing.len() implies playground_goes_first(
                #[trigger] listing[i],
                #[trigger] listing[j],
            ) by {
                assert(is_listed_before::<PlaygroundRecord>(place(listing[i]), place(listing[j])));
            }
            assert forall|i: int| 0 <= i < page.records@.len() implies (
            #[trigger] page.records@[i]).same(listing[i]) && playground_is_asked_for(
                page.records@[i],
                *request,
            ) by {
                assert(page.records@[i].same(at_most(listing, request.limit as nat)[i]));
                assert(playground_is_asked_for(listing[i], *request));
            }
            listing
        },
    }
}

/// One record is listed before another one: the newer one first, and of the same age in the order of
/// their identities.
pub open spec fn snapshot_goes_first(earlier: SnapshotRecord, later: SnapshotRecord) -> bool {
    earlier.created_at_unix_ms > later.created_at_unix_ms || (earlier.created_at_unix_ms
        == later.created_at_unix_ms && (text_before(earlier.snapshot_id@, later.snapshot_id@)))
}

/// A record comes after the cursor of a listing.
pub open spec fn snapshot_is_left(earlier: SnapshotListCursor, later: SnapshotRecord) -> bool {
    earlier.created_at_unix_ms > later.created_at_unix_ms || (earlier.created_at_unix_ms
        == later.created_at_unix_ms && (text_before(earlier.snapshot_id@, later.snapshot_id@)))
}

/// A record agrees with everything that a request names.
pub open spec fn snapshot_is_asked_for(record: SnapshotRecord, request: SnapshotListRequest) -> bool {
    &&& record.tenant_id@ == request.tenant_id@
    &&& request.project_id matches Some(asked) ==> record.project_id@ == asked@
    &&& request.artifact_id matches Some(asked) ==> record.artifact_id@ == asked@
    &&& request.commit_id matches Some(asked) ==> record.commit_id == asked
    &&& request.storage_volume_id matches Some(asked) ==> record.storage_volume_id@ == asked@
    &&& request.region matches Some(asked) ==> record.region@ == asked@
    &&& request.state matches Some(asked) ==> record.state@ == asked@
    &&& request.after matches Some(cursor) ==> snapshot_is_left(cursor, record)
}

/// The Snapshots of a listing are exactly the stored ones that agree with everything that the
/// request names, each once, the newest first; the page shows the first of them, as many as were
/// asked for, and names the last one that it shows where there are more. A page takes from one to
/// a hundred records.
pub proof fn lemma_snapshot_page_shows_what_was_asked_for(
    catalog: InMemoryControlCatalog,
    request: &SnapshotListRequest,
    result: CentralResult<SnapshotListPage>,
) -> (listing: Seq<SnapshotRecord>)
    requires
        call_ensures(InMemoryControlCatalog::list_snapshots, (&catalog, request), result),
    ensures
        result is Ok <==> 1 <= request.limit <= 100,
        result is Err ==> fails_with(result, CentralErrorCode::ProtocolInvalid),
        result matches Ok(page) ==> {
            &&& forall|i: int|
                0 <= i < listing.len() ==> catalog@.snapshots.contains_value(#[trigger] listing[i])
                    && snapshot_is_asked_for(listing[i], *request)
            &&& forall|name: (Seq<char>, Seq<char>)| #[trigger]
                catalog@.snapshots.contains_key(name) && snapshot_is_asked_for(
                    catalog@.snapshots[name],
                    *request,
                ) ==> listing.contains(catalog@.snapshots[name])
            &&& forall|i: int, j: int|
                0 <= i < j < listing.len() ==> snapshot_goes_first(
                    #[trigger] listing[i],
                    #[trigger] listing[j],
                )
            &&& page.records@.len() == if listing.len() <= request.limit {
                listing.len()
            } else {
                request.limit as nat
            }
            &&& forall|i: int|
                0 <= i < page.records@.len() ==> (#[trigger] page.records@[i]).same(listing[i])
                    && snapshot_is_asked_for(page.records@[i], *request)
            &&& match page.next {
                None => listing.len() <= request.limit,
                Some(cursor) => {
                    &&& listing.len() > request.limit
                    &&& cursor.created_at_unix_ms == listing[request.limit - 1].created_at_unix_ms
                    &&& cursor.snapshot_id@ == listing[request.limit - 1].snapshot_id@
                },
            }
        },
{
    match result {
        Err(_) => Seq::empty(),
        Ok(page) => {
            let listing = lemma_page_has_a_listing(
                page.records@,
                snapshot_cursor(page.next),
                catalog@.snapshots,
                wanted_snapshots(*request),
                request.limit as nat,
            );
            assert forall|i: int| 0 <= i < listing.len() implies snapshot_is_asked_for(
                #[trigger] listing[i],
                *request,
            ) by {
                assert(wanted_snapshots(*request)(listing[i]));
            }
            assert forall|name: (Seq<char>, Seq<char>)| #[trigger]
                catalog@.snapshots.contains_key(name) && snapshot_is_asked_for(
                    catalog@.snapshots[name],
                    *request,
                ) implies listing.contains(catalog@.snapshots[name]) by {
                assert(wanted_snapshots(*request)(catalog@.snapshots[name]));
            }
            assert forall|i: int, j: int| 0 <= i < j < listing.len() implies snapshot_goes_first(
                #[trigger] listing[i],
                #[trigger] listing[j],
            ) by {
                assert(is_listed_before::<SnapshotRecord>(place(listing[i]), place(listing[j])));
            }
            assert forall|i: int| 0 <= i < page.records@.len() implies (
            #[trigger] page.records@[i]).same(listing[i]) && snapshot_is_asked_for(
                page.records@[i],
                *request,
            ) by {
                assert(page.records@[i].same(at_most(listing, request.limit as nat)[i]));
                assert(snapshot_is_asked_for(listing[i], *request));
            }
            listing
        },
    }
}

} // verus!
