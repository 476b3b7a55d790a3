//! What a durable catalog reads back is what was written, and a create request that finds its record
//! is answered with it.
use vstd::prelude::*;

use crate::catalog::records::{
    CatalogInsertOutcome, PlaygroundListPage, PlaygroundRecord, StorageVolumeListPage,
    StorageVolumeRecord, TenantListPage, TenantRecord,
};
use crate::digest::ContentDigest;
use crate::equality::Same;
use crate::error::{CentralErrorCode, CentralResult};
use crate::laws::catalog_changes::{claims_the_same, exports_the_same, says_the_same};
use crate::laws::jobs::fails_with;
use crate::storage::catalog_rows::{
    decode_playground, decode_tenant, decode_volume, digest_blob, encode_playground, encode_tenant,
    encode_volume, is_playground_of_row, is_tenant_of_row, is_volume_of_row,
    lemma_playground_reads_back, lemma_tenant_reads_back, lemma_volume_reads_back, playground_page,
    resolve_existing_playground, resolve_existing_tenant, resolve_existing_volume,
    resolve_playground_race, resolve_tenant_race, resolve_volume_race, tenant_page, volume_page,
    PlaygroundRow, StorageVolumeRow, TenantRow,
};

verus! {

/// A digest is stored as its bytes.
pub proof fn lemma_digest_is_stored(digest: &ContentDigest, bytes: Vec<u8>)
    requires
        call_ensures(digest_blob, (digest,), bytes),
    ensures
        bytes@ == digest@,
        bytes@.len() == 32,
{
}

/// A tenant whose times fit in a column is written, and reads back as it was.
pub proof fn lemma_tenant_survives_storage(
    record: &TenantRecord,
    written: CentralResult<TenantRow>,
    row: &TenantRow,
    read: CentralResult<TenantRecord>,
)
    requires
        call_ensures(encode_tenant, (record,), written),
        call_ensures(decode_tenant, (row,), read),
        written is Ok ==> *row == written->Ok_0,
    ensures
        written is Ok <==> record.created_at_unix_ms <= i64::MAX && record.updated_at_unix_ms
            <= i64::MAX,
        written is Err ==> fails_with(written, CentralErrorCode::ProtocolInvalid),
        written is Ok ==> read is Ok && {
            let back = read->Ok_0;
            &&& back.tenant_id@ == record.tenant_id@
            &&& back.display_name@ == record.display_name@
            &&& says_the_same(back.description, record.description)
            &&& back.resource_version == record.resource_version
            &&& back.created_at_unix_ms == record.created_at_unix_ms
            &&& back.updated_at_unix_ms == record.updated_at_unix_ms
        },
{
    if written is Ok {
        lemma_tenant_reads_back(*record, *row);
        assert(is_tenant_of_row(read->Ok_0, *row));
    }
}

/// A StorageVolume with the locator of its backend whose times fit in a column is written, and reads
/// back as it was.
pub proof fn lemma_volume_survives_storage(
    record: &StorageVolumeRecord,
    written: CentralResult<StorageVolumeRow>,
    row: &StorageVolumeRow,
    read: CentralResult<StorageVolumeRecord>,
)
    requires
        call_ensures(encode_volume, (record,), written),
        call_ensures(decode_volume, (row,), read),
        written is Ok ==> *row == written->Ok_0,
        record.backend_type is Pvc <==> record.pvc_reference is Some,
        record.backend_type is Nfs <==> record.nfs_reference is Some,
    ensures
        written is Ok <==> record.created_at_unix_ms <= i64::MAX && record.updated_at_unix_ms
            <= i64::MAX,
        written is Err ==> fails_with(written, CentralErrorCode::ProtocolInvalid),
        written is Ok ==> read is Ok && {
            let back = read->Ok_0;
            &&& back.tenant_id@ == record.tenant_id@
            &&& back.storage_volume_id@ == record.storage_volume_id@
            &&& back.display_name@ == record.display_name@
            &&& back.edge_cluster_id@ == record.edge_cluster_id@
            &&& back.region@ == record.region@
            &&& back.backend_type == record.backend_type
            &&& back.access_mode == record.access_mode
            &&& claims_the_same(back, *record)
            &&& exports_the_same(back, *record)
            &&& back.state == record.state
            &&& back.resource_version == record.resource_version
            &&& back.created_at_unix_ms == record.created_at_unix_ms
            &&& back.updated_at_unix_ms == record.updated_at_unix_ms
        },
{
    if written is Ok {
        lemma_volume_reads_back(*record, *row);
        assert(is_volume_of_row(read->Ok_0, *row));
    }
}

/// A Playground whose times fit in a column is written, and reads back as it was.
pub proof fn lemma_playground_survives_storage(
    record: &PlaygroundRecord,
    written: CentralResult<PlaygroundRow>,
    row: &PlaygroundRow,
    read: CentralResult<PlaygroundRecord>,
)
    requires
        call_ensures(encode_playground, (record,), written),
        call_ensures(decode_playground, (row,), read),
        written is Ok ==> *row == written->Ok_0,
        record.index_version.extensions@.len() == 0,
    ensures
        written is Ok <==> record.created_at_unix_ms <= i64::MAX && record.updated_at_unix_ms
            <= i64::MAX,
        written is Err ==> fails_with(written, CentralErrorCode::ProtocolInvalid),
        written is Ok ==> read is Ok && {
            let back = read->Ok_0;
            &&& back.tenant_id@ == record.tenant_id@
            &&& back.project_id@ == record.project_id@
            &&& back.artifact_id@ == record.artifact_id@
            &&& back.playground_id@ == record.playground_id@
            &&& back.storage_volume_id@ == record.storage_volume_id@
            &&& back.region@ == record.region@
            &&& back.display_name@ == record.display_name@
            &&& back.base_commit_id == record.base_commit_id
            &&& back.head_commit_id == record.head_commit_id
            &&& back.index_version.revision == record.index_version.revision
            &&& back.index_version.digest == record.index_version.digest
            &&& back.state == record.state
            &&& back.relative_root@ == record.relative_root@
            &&& back.created_at_unix_ms == record.created_at_unix_ms
            &&& back.updated_at_unix_ms == record.updated_at_unix_ms
        },
{
    if written is Ok {
        lemma_playground_reads_back(*record, *row);
        assert(is_playground_of_row(read->Ok_0, *row));
    }
}

/// A StorageVolume is believed only with the locator of its backend.
pub proof fn lemma_stored_volume_has_its_locator(
    row: &StorageVolumeRow,
    read: CentralResult<StorageVolumeRecord>,
)
    requires
        call_ensures(decode_volume, (row,), read),
    ensures
        read matches Ok(record) ==> {
            &&& record.backend_type is Pvc <==> record.pvc_reference is Some
            &&& record.backend_type is Nfs <==> record.nfs_reference is Some
        },
        (row.pvc_namespace is Some) != (row.pvc_claim_name is Some) ==> read is Err,
        (row.nfs_server is Some) != (row.nfs_export_path is Some) ==> read is Err,
        row.pvc_namespace is Some && row.nfs_server is Some ==> read is Err,
        row.pvc_namespace is None && row.nfs_server is None ==> read is Err,
{
}

/// A page of what was read is the first of it, as many as were asked for, and goes on behind the last
/// record that it shows where there are more.
pub proof fn lemma_catalog_pages(
    tenants: Vec<TenantRecord>,
    volumes: Vec<StorageVolumeRecord>,
    playgrounds: Vec<PlaygroundRecord>,
    limit: u16,
    tenant: TenantListPage,
    volume: StorageVolumeListPage,
    playground: PlaygroundListPage,
)
    requires
        call_ensures(tenant_page, (tenants, limit), tenant),
        call_ensures(volume_page, (volumes, limit), volume),
        call_ensures(playground_page, (playgrounds, limit), playground),
        limit > 0,
    ensures
        tenant.records@ == tenants@.take(
            if tenants@.len() <= limit {
                tenants@.len() as int
            } else {
                limit as int
            },
        ),
        match tenant.next {
            None => tenants@.len() <= limit,
            Some(cursor) => {
                &&& tenants@.len() > limit
                &&& cursor.created_at_unix_ms == tenants@[limit - 1].created_at_unix_ms
                &&& cursor.tenant_id@ == tenants@[limit - 1].tenant_id@
            },
        },
        volume.records@ == volumes@.take(
            if volumes@.len() <= limit {
                volumes@.len() as int
            } else {
                limit as int
            },
        ),
        match volume.next {
            None => volumes@.len() <= limit,
            Some(cursor) => {
                &&& volumes@.len() > limit
                &&& cursor.created_at_unix_ms == volumes@[limit - 1].created_at_unix_ms
                &&& cursor.storage_volume_id@ == volumes@[limit - 1].storage_volume_id@
            },
        },
        playground.records@ == playgrounds@.take(
            if playgrounds@.len() <= limit {
                playgrounds@.len() as int
            } else {
                limit as int
            },
        ),
        match playground.next {
            None => playgrounds@.len() <= limit,
            Some(cursor) => {
                &&& playgrounds@.len() > limit
                &&& cursor.created_at_unix_ms == playgrounds@[limit - 1].created_at_unix_ms
                &&& cursor.project_id@ == playgrounds@[limit - 1].project_id@
                &&& cursor.artifact_id@ == playgrounds@[limit - 1].artifact_id@
                &&& cursor.playground_id@ == playgrounds@[limit - 1].playground_id@
            },
        },
{
}

/// Two tenants were asked for alike.
pub open spec fn tenants_agree(left: TenantRecord, right: TenantRecord) -> bool {
    &&& left.tenant_id@ == right.tenant_id@
    &&& left.display_name@ == right.display_name@
    &&& says_the_same(left.description, right.description)
}

/// A tenant that is there answers the same request with what is stored, and refuses another; one that
/// a race was lost to must be there.
pub proof fn lemma_tenant_that_is_there_answers(
    existing: TenantRecord,
    record: &TenantRecord,
    found: Option<TenantRecord>,
    result: CentralResult<CatalogInsertOutcome<TenantRecord>>,
    raced: CentralResult<CatalogInsertOutcome<TenantRecord>>,
)
    requires
        call_ensures(resolve_existing_tenant, (existing, record), result),
        call_ensures(resolve_tenant_race, (found, record), raced),
    ensures
        tenants_agree(existing, *record) ==> result == CentralResult::<
            CatalogInsertOutcome<TenantRecord>,
        >::Ok(CatalogInsertOutcome::Existing(existing)),
        !tenants_agree(existing, *record) ==> fails_with(result, CentralErrorCode::InvalidState),
        found == Some(existing) ==> (raced is Ok <==> result is Ok),
        raced is Ok ==> found is Some && raced->Ok_0 == CatalogInsertOutcome::Existing(found->0),
        found is None ==> fails_with(raced, CentralErrorCode::StorageFailure),
        found == Some(existing) && raced is Err ==> fails_with(
            raced,
            CentralErrorCode::InvalidState,
        ),
{
}

/// Two StorageVolumes were registered alike.
pub open spec fn volumes_agree(left: StorageVolumeRecord, right: StorageVolumeRecord) -> bool {
    &&& left.tenant_id@ == right.tenant_id@
    &&& left.storage_volume_id@ == right.storage_volume_id@
    &&& left.display_name@ == right.display_name@
    &&& left.edge_cluster_id@ == right.edge_cluster_id@
    &&& left.region@ == right.region@
    &&& left.backend_type == right.backend_type
    &&& left.access_mode == right.access_mode
    &&& claims_the_same(left, right)
    &&& exports_the_same(left, right)
}

/// A StorageVolume that is there answers the same request with what is stored, and refuses another;
/// where a race was lost, anything else is a conflict of owners.
pub proof fn lemma_volume_that_is_there_answers(
    existing: StorageVolumeRecord,
    record: &StorageVolumeRecord,
    found: Option<StorageVolumeRecord>,
    result: CentralResult<CatalogInsertOutcome<StorageVolumeRecord>>,
    raced: CentralResult<CatalogInsertOutcome<StorageVolumeRecord>>,
)
    requires
        call_ensures(resolve_existing_volume, (existing, record), result),
        call_ensures(resolve_volume_race, (found, record), raced),
    ensures
        volumes_agree(existing, *record) ==> result == CentralResult::<
            CatalogInsertOutcome<StorageVolumeRecord>,
        >::Ok(CatalogInsertOutcome::Existing(existing)),
        !volumes_agree(existing, *record) ==> fails_with(result, CentralErrorCode::InvalidState),
        raced is Ok <==> found is Some && volumes_agree(found->0, *record),
        raced is Ok ==> raced->Ok_0 == CatalogInsertOutcome::Existing(found->0),
        raced is Err ==> fails_with(raced, CentralErrorCode::VolumeOwnerConflict),
{
}

/// Two Playgrounds were asked for alike.
pub open spec fn playgrounds_agree(left: PlaygroundRecord, right: PlaygroundRecord) -> bool {
    &&& left.tenant_id@ == right.tenant_id@
    &&& left.project_id@ == right.project_id@
    &&& left.artifact_id@ == right.artifact_id@
    &&& left.playground_id@ == right.playground_id@
    &&& left.storage_volume_id@ == right.storage_volume_id@
    &&& left.display_name@ == right.display_name@
    &&& left.base_commit_id == right.base_commit_id
    &&& left.relative_root@ == right.relative_root@
}

/// A Playground that is there answers the same request with what is stored, and refuses another; one
/// that a race was lost to must be there.
pub proof fn lemma_playground_that_is_there_answers(
    existing: PlaygroundRecord,
    record: &PlaygroundRecord,
    found: Option<PlaygroundRecord>,
    result: CentralResult<CatalogInsertOutcome<PlaygroundRecord>>,
    raced: CentralResult<CatalogInsertOutcome<PlaygroundRecord>>,
)
    requires
        call_ensures(resolve_existing_playground, (existing, record), result),
        call_ensures(resolve_playground_race, (found, record), raced),
    ensures
        playgrounds_agree(existing, *record) ==> result == CentralResult::<
            CatalogInsertOutcome<PlaygroundRecord>,
        >::Ok(CatalogInsertOutcome::Existing(existing)),
        !playgrounds_agree(existing, *record) ==> fails_with(
            result,
            CentralErrorCode::InvalidState,
        ),
        found == Some(existing) ==> (raced is Ok <==> result is Ok),
        raced is Ok ==> found is Some && raced->Ok_0 == CatalogInsertOutcome::Existing(found->0),
        found is None ==> fails_with(raced, CentralErrorCode::StorageFailure),
{
}

} // verus!
