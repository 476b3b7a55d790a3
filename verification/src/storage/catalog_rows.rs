//! Catalog records as rows: what is written for a record, and what is read back.
use vstd::prelude::*;

use crate::catalog::records::{
    CatalogInsertOutcome, CatalogNfsReference, CatalogPvcReference, PlaygroundListCursor,
    PlaygroundListPage, PlaygroundRecord, StorageVolumeListCursor, StorageVolumeListPage,
    StorageVolumeRecord, TenantListCursor, TenantListPage, TenantRecord,
};
use crate::catalog::rules::{
    has_its_locator, is_same_playground_create, is_same_tenant, is_same_volume,
    playground_create_matches, tenant_create_matches, validate_volume_shape, volume_matches,
};
use crate::digest::{lemma_digest_is_its_bytes, CommitId, ContentDigest};
use crate::equality::Same;
use crate::error::{
    corruption, corruption_fault, fault, fault_of, final_failure, final_fault, CentralError,
    CentralErrorCode, CentralResult, Fault,
};
use crate::identifier::{no_extensions, Identifier, OpaqueText};
use crate::protocol::WireIndexVersion;
use crate::storage::codec::{
    as_i64, blob_fault, exact_digest, lemma_decimal_reads_back, numeral_fault, numeral_value,
    optional_digest, parse_id, parse_u64, storage_error, unix_ms,
};
use crate::storage::names::{
    access_mode_name, access_mode_named, access_mode_text, backend_name, backend_named,
    backend_text, lemma_access_mode_reads_back, lemma_backend_reads_back,
    lemma_playground_state_reads_back, lemma_volume_state_reads_back, parse_access_mode,
    parse_backend, parse_playground_state, parse_volume_state, playground_state_name,
    playground_state_named, playground_state_text, volume_state_name, volume_state_named,
    volume_state_text,
};
use crate::storage::volume_sync::time_fault;
use crate::table::at_most;
use crate::text::{decimal, decimal_text};

verus! {

/// The first of two failures.
pub open spec fn first_of(first: Option<Fault>, second: Option<Fault>) -> Option<Fault> {
    if first is Some {
        first
    } else {
        second
    }
}

/// A failure unless a condition holds.
pub open spec fn fault_unless(condition: bool, problem: Fault) -> Option<Fault> {
    if condition {
        None
    } else {
        Some(problem)
    }
}

/// Why a stored identifier is refused; `subject` says what was read.
pub open spec fn id_fault(parsed: Result<Identifier, String>, subject: Seq<char>) -> Option<Fault> {
    match parsed {
        Ok(_) => None,
        Err(problem) => Some(corruption_fault(subject + problem@)),
    }
}

fn named_id(parsed: &Result<Identifier, String>, subject: &str) -> (result: CentralResult<
    Identifier,
>)
    ensures
        fault_of(result) == id_fault(*parsed, subject@),
        result matches Ok(id) ==> (*parsed matches Ok(stored) && id@ == stored@),
{
    match parsed {
        Ok(id) => Ok(id.clone()),
        Err(problem) => {
            let mut message = String::from_str(subject);
            message.append(problem.as_str());
            Err(corruption(message.as_str()))
        },
    }
}

/// An identifier was read and has this text.
pub open spec fn reads(parsed: Result<Identifier, String>, text: Seq<char>) -> bool {
    parsed matches Ok(id) && id@ == text
}

/// Why a stored time is refused.
pub open spec fn stored_time_fault(value: i64) -> Option<Fault> {
    fault_unless(value >= 0, corruption_fault("stored UnixMillis is negative"@))
}

/// Why a stored locator is refused: only one of its two halves is there.
pub open spec fn locator_fault(
    first: Option<String>,
    second: Option<String>,
    problem: Seq<char>,
) -> Option<Fault> {
    fault_unless((first is Some) == (second is Some), corruption_fault(problem))
}

/// The bytes of a digest, as a blob.
pub fn digest_blob(digest: &ContentDigest) -> (bytes: Vec<u8>)
    ensures
        bytes@ == digest@,
        bytes@.len() == 32,
{
    let source = digest.as_bytes();
    let mut bytes: Vec<u8> = Vec::new();
    let mut index: usize = 0;
    while index < 32
        invariant
            index <= 32,
            source@.len() == 32,
            bytes@ == source@.take(index as int),
        decreases 32 - index,
    {
        bytes.push(source[index]);
        proof {
            assert(bytes@ =~= source@.take(index + 1));
        }
        index += 1;
    }
    proof {
        assert(bytes@ =~= source@);
    }
    bytes
}

fn commit_blob(commit_id: &Option<CommitId>) -> (bytes: Option<Vec<u8>>)
    ensures
        blob_is(bytes, *commit_id),
{
    match commit_id {
        Some(digest) => Some(digest_blob(digest)),
        None => None,
    }
}

/// A blob holds an optional digest.
pub open spec fn blob_is(bytes: Option<Vec<u8>>, digest: Option<ContentDigest>) -> bool {
    match digest {
        Some(present) => bytes matches Some(stored) && stored@ == present@ && stored@.len() == 32,
        None => bytes is None,
    }
}

/// The columns of a Tenant.
pub struct TenantRow {
    pub tenant_id: Result<Identifier, String>,
    pub display_name: String,
    pub description: Option<OpaqueText>,
    pub resource_version: String,
    pub created_at_unix_ms: i64,
    pub updated_at_unix_ms: i64,
}

/// The columns that a Tenant is written in.
pub open spec fn is_tenant_row(row: TenantRow, record: TenantRecord) -> bool {
    &&& reads(row.tenant_id, record.tenant_id@)
    &&& row.display_name@ == record.display_name@
    &&& row.description.same(record.description)
    &&& row.resource_version@ == decimal(record.resource_version as nat)
    &&& row.created_at_unix_ms == record.created_at_unix_ms
    &&& row.updated_at_unix_ms == record.updated_at_unix_ms
}

/// Writes a Tenant.
pub fn encode_tenant(record: &TenantRecord) -> (result: CentralResult<TenantRow>)
    ensures
        fault_of(result) == first_of(
            time_fault(record.created_at_unix_ms),
            time_fault(record.updated_at_unix_ms),
        ),
        result matches Ok(row) ==> is_tenant_row(row, *record),
{
    let created_at: i64 = match as_i64(record.created_at_unix_ms) {
        Ok(value) => value,
        Err(problem) => return Err(problem),
    };
    let updated_at: i64 = match as_i64(record.updated_at_unix_ms) {
        Ok(value) => value,
        Err(problem) => return Err(problem),
    };
    Ok(
        TenantRow {
            tenant_id: Ok(record.tenant_id.clone()),
            display_name: record.display_name.clone(),
            description: record.description.clone(),
            resource_version: decimal_text(record.resource_version),
            created_at_unix_ms: created_at,
            updated_at_unix_ms: updated_at,
        },
    )
}

/// Why a stored Tenant is refused.
pub open spec fn tenant_row_fault(row: TenantRow) -> Option<Fault> {
    first_of(
        id_fault(row.tenant_id, "stored Tenant ID is invalid: "@),
        first_of(
            numeral_fault(
                row.resource_version@,
                "Tenant resource version"@,
                " exceeds u64"@,
            ),
            first_of(
                stored_time_fault(row.created_at_unix_ms),
                stored_time_fault(row.updated_at_unix_ms),
            ),
        ),
    )
}

/// What is read back of a Tenant.
pub open spec fn is_tenant_of_row(record: TenantRecord, row: TenantRow) -> bool {
    &&& reads(row.tenant_id, record.tenant_id@)
    &&& record.display_name@ == row.display_name@
    &&& record.description.same(row.description)
    &&& record.resource_version == numeral_value(row.resource_version@)
    &&& record.created_at_unix_ms == row.created_at_unix_ms
    &&& record.updated_at_unix_ms == row.updated_at_unix_ms
}

/// Reads a Tenant.
pub fn decode_tenant(row: &TenantRow) -> (result: CentralResult<TenantRecord>)
    ensures
        fault_of(result) == tenant_row_fault(*row),
        result matches Ok(record) ==> is_tenant_of_row(record, *row),
{
    let tenant_id = match named_id(&row.tenant_id, "stored Tenant ID is invalid: ") {
        Ok(value) => value,
        Err(problem) => return Err(problem),
    };
    let resource_version: u64 = match parse_u64(row.resource_version.as_str(), "Tenant resource version") {
        Ok(value) => value,
        Err(problem) => return Err(problem),
    };
    let created_at_unix_ms: u64 = match unix_ms(row.created_at_unix_ms) {
        Ok(value) => value,
        Err(problem) => return Err(problem),
    };
    let updated_at_unix_ms: u64 = match unix_ms(row.updated_at_unix_ms) {
        Ok(value) => value,
        Err(problem) => return Err(problem),
    };
    Ok(
        TenantRecord {
            tenant_id,
            display_name: row.display_name.clone(),
            description: row.description.clone(),
            resource_version,
            created_at_unix_ms,
            updated_at_unix_ms,
        },
    )
}

/// A Tenant that was written is read back as it was.
pub proof fn lemma_tenant_reads_back(record: TenantRecord, row: TenantRow)
    requires
        is_tenant_row(row, record),
    ensures
        tenant_row_fault(row) is None,
        forall|read: TenantRecord| #[trigger] is_tenant_of_row(read, row) ==> read.same(record),
{
    lemma_decimal_reads_back(record.resource_version as nat);
}

/// The columns of a Volume.
pub struct StorageVolumeRow {
    pub tenant_id: Result<Identifier, String>,
    pub storage_volume_id: Result<Identifier, String>,
    pub display_name: String,
    pub edge_cluster_id: Result<Identifier, String>,
    pub region: String,
    pub backend_type: String,
    pub access_mode: String,
    pub pvc_namespace: Option<String>,
    pub pvc_claim_name: Option<String>,
    pub nfs_server: Option<String>,
    pub nfs_export_path: Option<String>,
    pub state: String,
    pub resource_version: String,
    pub created_at_unix_ms: i64,
    pub updated_at_unix_ms: i64,
}

/// The columns of a PVC locator.
pub open spec fn is_pvc_locator(
    namespace: Option<String>,
    claim_name: Option<String>,
    reference: Option<CatalogPvcReference>,
) -> bool {
    match reference {
        Some(present) => {
            &&& namespace matches Some(text) && text@ == present.namespace@
            &&& claim_name matches Some(text) && text@ == present.claim_name@
        },
        None => namespace is None && claim_name is None,
    }
}

/// The columns of an NFS locator.
pub open spec fn is_nfs_locator(
    server: Option<String>,
    export_path: Option<String>,
    reference: Option<CatalogNfsReference>,
) -> bool {
    match reference {
        Some(present) => {
            &&& server matches Some(text) && text@ == present.server@
            &&& export_path matches Some(text) && text@ == present.export_path@
        },
        None => server is None && export_path is None,
    }
}

/// The columns that a Volume is written in.
pub open spec fn is_volume_row(row: StorageVolumeRow, record: StorageVolumeRecord) -> bool {
    &&& reads(row.tenant_id, record.tenant_id@)
    &&& reads(row.storage_volume_id, record.storage_volume_id@)
    &&& row.display_name@ == record.display_name@
    &&& reads(row.edge_cluster_id, record.edge_cluster_id@)
    &&& row.region@ == record.region@
    &&& row.backend_type@ == backend_text(record.backend_type)
    &&& row.access_mode@ == access_mode_text(record.access_mode)
    &&& is_pvc_locator(row.pvc_namespace, row.pvc_claim_name, record.pvc_reference)
    &&& is_nfs_locator(row.nfs_server, row.nfs_export_path, record.nfs_reference)
    &&& row.state@ == volume_state_text(record.state)
    &&& row.resource_version@ == decimal(record.resource_version as nat)
    &&& row.created_at_unix_ms == record.created_at_unix_ms
    &&& row.updated_at_unix_ms == record.updated_at_unix_ms
}

fn pvc_columns(reference: &Option<CatalogPvcReference>) -> (columns: (
    Option<String>,
    Option<String>,
))
    ensures
        is_pvc_locator(columns.0, columns.1, *reference),
{
    match reference {
        Some(present) => (Some(present.namespace.clone()), Some(present.claim_name.clone())),
        None => (None, None),
    }
}

fn nfs_columns(reference: &Option<CatalogNfsReference>) -> (columns: (
    Option<String>,
    Option<String>,
))
    ensures
        is_nfs_locator(columns.0, columns.1, *reference),
{
    match reference {
        Some(present) => (Some(present.server.clone()), Some(present.export_path.clone())),
        None => (None, None),
    }
}

/// Writes a Volume.
pub fn encode_volume(record: &StorageVolumeRecord) -> (result: CentralResult<StorageVolumeRow>)
    ensures
        fault_of(result) == first_of(
            time_fault(record.created_at_unix_ms),
            time_fault(record.updated_at_unix_ms),
        ),
        result matches Ok(row) ==> is_volume_row(row, *record),
{
    let (pvc_namespace, pvc_claim_name) = pvc_columns(&record.pvc_reference);
    let (nfs_server, nfs_export_path) = nfs_columns(&record.nfs_reference);
    let created_at: i64 = match as_i64(record.created_at_unix_ms) {
        Ok(value) => value,
        Err(problem) => return Err(problem),
    };
    let updated_at: i64 = match as_i64(record.updated_at_unix_ms) {
        Ok(value) => value,
        Err(problem) => return Err(problem),
    };
    Ok(
        StorageVolumeRow {
            tenant_id: Ok(record.tenant_id.clone()),
            storage_volume_id: Ok(record.storage_volume_id.clone()),
            display_name: record.display_name.clone(),
            edge_cluster_id: Ok(record.edge_cluster_id.clone()),
            region: record.region.clone(),
            backend_type: String::from_str(backend_name(record.backend_type)),
            access_mode: String::from_str(access_mode_name(record.access_mode)),
            pvc_namespace,
            pvc_claim_name,
            nfs_server,
            nfs_export_path,
            state: String::from_str(volume_state_name(record.state)),
            resource_version: decimal_text(record.resource_version),
            created_at_unix_ms: created_at,
            updated_at_unix_ms: updated_at,
        },
    )
}

/// Why a stored Volume is refused before its locator is held against its backend.
pub open spec fn volume_columns_fault(row: StorageVolumeRow) -> Option<Fault> {
    first_of(
        fault_unless(
            backend_named(row.backend_type@) is Some,
            corruption_fault("stored StorageVolume backend type is invalid"@),
        ),
        first_of(
            id_fault(row.tenant_id, "stored Tenant ID is invalid: "@),
            first_of(
                id_fault(row.storage_volume_id, "stored StorageVolume ID is invalid: "@),
                first_of(
                    id_fault(row.edge_cluster_id, "stored EdgeCluster ID is invalid: "@),
                    first_of(
                        fault_unless(
                            access_mode_named(row.access_mode@) is Some,
                            corruption_fault("stored StorageVolume access mode is invalid"@),
                        ),
                        first_of(
                            locator_fault(
                                row.pvc_namespace,
                                row.pvc_claim_name,
                                "stored PVC locator is incomplete"@,
                            ),
                            first_of(
                                locator_fault(
                                    row.nfs_server,
                                    row.nfs_export_path,
                                    "stored NFS locator is incomplete"@,
                                ),
                                volume_state_columns_fault(row),
                            ),
                        ),
                    ),
                ),
            ),
        ),
    )
}

/// Why the state, version or times of a stored Volume are refused.
pub open spec fn volume_state_columns_fault(row: StorageVolumeRow) -> Option<Fault> {
    first_of(
        fault_unless(
            volume_state_named(row.state@) is Some,
            corruption_fault("stored StorageVolume state is invalid"@),
        ),
        first_of(
            numeral_fault(
                row.resource_version@,
                "StorageVolume resource version"@,
                " exceeds u64"@,
            ),
            first_of(
                stored_time_fault(row.created_at_unix_ms),
                stored_time_fault(row.updated_at_unix_ms),
            ),
        ),
    )
}

/// The backend and the locators of a row agree.
pub open spec fn row_has_its_locator(row: StorageVolumeRow) -> bool {
    match backend_named(row.backend_type@) {
        Some(crate::catalog::records::StorageBackendType::Pvc) => {
            row.pvc_namespace is Some && row.nfs_server is None
        },
        Some(crate::catalog::records::StorageBackendType::Nfs) => {
            row.pvc_namespace is None && row.nfs_server is Some
        },
        None => false,
    }
}

/// Why a stored Volume is refused.
pub open spec fn volume_row_fault(row: StorageVolumeRow) -> Option<Fault> {
    first_of(
        volume_columns_fault(row),
        fault_unless(
            row_has_its_locator(row),
            final_fault(
                CentralErrorCode::ProtocolInvalid,
                "StorageVolume backend locator does not match backend type"@,
            ),
        ),
    )
}

/// What is read back of a Volume.
pub open spec fn is_volume_of_row(record: StorageVolumeRecord, row: StorageVolumeRow) -> bool {
    &&& reads(row.tenant_id, record.tenant_id@)
    &&& reads(row.storage_volume_id, record.storage_volume_id@)
    &&& record.display_name@ == row.display_name@
    &&& reads(row.edge_cluster_id, record.edge_cluster_id@)
    &&& record.region@ == row.region@
    &&& backend_named(row.backend_type@) == Some(record.backend_type)
    &&& access_mode_named(row.access_mode@) == Some(record.access_mode)
    &&& is_pvc_locator(row.pvc_namespace, row.pvc_claim_name, record.pvc_reference)
    &&& is_nfs_locator(row.nfs_server, row.nfs_export_path, record.nfs_reference)
    &&& volume_state_named(row.state@) == Some(record.state)
    &&& record.resource_version == numeral_value(row.resource_version@)
    &&& record.created_at_unix_ms == row.created_at_unix_ms
    &&& record.updated_at_unix_ms == row.updated_at_unix_ms
}

fn pvc_locator(namespace: &Option<String>, claim_name: &Option<String>) -> (result: CentralResult<
    Option<CatalogPvcReference>,
>)
    ensures
        fault_of(result) == locator_fault(
            *namespace,
            *claim_name,
            "stored PVC locator is incomplete"@,
        ),
        result matches Ok(reference) ==> is_pvc_locator(*namespace, *claim_name, reference),
{
    match (namespace, claim_name) {
        (Some(namespace), Some(claim_name)) => Ok(
            Some(
                CatalogPvcReference { namespace: namespace.clone(), claim_name: claim_name.clone() },
            ),
        ),
        (None, None) => Ok(None),
        _ => Err(corruption("stored PVC locator is incomplete")),
    }
}

fn nfs_locator(server: &Option<String>, export_path: &Option<String>) -> (result: CentralResult<
    Option<CatalogNfsReference>,
>)
    ensures
        fault_of(result) == locator_fault(
            *server,
            *export_path,
            "stored NFS locator is incomplete"@,
        ),
        result matches Ok(reference) ==> is_nfs_locator(*server, *export_path, reference),
{
    match (server, export_path) {
        (Some(server), Some(export_path)) => Ok(
            Some(
                CatalogNfsReference { server: server.clone(), export_path: export_path.clone() },
            ),
        ),
        (None, None) => Ok(None),
        _ => Err(corruption("stored NFS locator is incomplete")),
    }
}

/// Reads a Volume.
pub fn decode_volume(row: &StorageVolumeRow) -> (result: CentralResult<StorageVolumeRecord>)
    ensures
        fault_of(result) == volume_row_fault(*row),
        result matches Ok(record) ==> is_volume_of_row(record, *row) && has_its_locator(record),
{
    let backend_type = match parse_backend(row.backend_type.as_str()) {
        Ok(value) => value,
        Err(problem) => return Err(problem),
    };
    let tenant_id = match named_id(&row.tenant_id, "stored Tenant ID is invalid: ") {
        Ok(value) => value,
        Err(problem) => return Err(problem),
    };
    let storage_volume_id = match named_id(&row.storage_volume_id, "stored StorageVolume ID is invalid: ") {
        Ok(value) => value,
        Err(problem) => return Err(problem),
    };
    let edge_cluster_id = match named_id(&row.edge_cluster_id, "stored EdgeCluster ID is invalid: ") {
        Ok(value) => value,
        Err(problem) => return Err(problem),
    };
    let access_mode = match parse_access_mode(row.access_mode.as_str()) {
        Ok(value) => value,
        Err(problem) => return Err(problem),
    };
    let pvc_reference = match pvc_locator(&row.pvc_namespace, &row.pvc_claim_name) {
        Ok(value) => value,
        Err(problem) => return Err(problem),
    };
    let nfs_reference = match nfs_locator(&row.nfs_server, &row.nfs_export_path) {
        Ok(value) => value,
        Err(problem) => return Err(problem),
    };
    let state = match parse_volume_state(row.state.as_str()) {
        Ok(value) => value,
        Err(problem) => return Err(problem),
    };
    let resource_version: u64 = match parse_u64(row.resource_version.as_str(), "StorageVolume resource version") {
        Ok(value) => value,
        Err(problem) => return Err(problem),
    };
    let created_at_unix_ms: u64 = match unix_ms(row.created_at_unix_ms) {
        Ok(value) => value,
        Err(problem) => return Err(problem),
    };
    let updated_at_unix_ms: u64 = match unix_ms(row.updated_at_unix_ms) {
        Ok(value) => value,
        Err(problem) => return Err(problem),
    };
    let record = StorageVolumeRecord {
        tenant_id,
        storage_volume_id,
        display_name: row.display_name.clone(),
        edge_cluster_id,
        region: row.region.clone(),
        backend_type,
        access_mode,
        pvc_reference,
        nfs_reference,
        state,
        resource_version,
        created_at_unix_ms,
        updated_at_unix_ms,
    };
    match validate_volume_shape(&record) {
        Ok(()) => Ok(record),
        Err(problem) => Err(problem),
    }
}

/// A Volume with the locator of its backend that was written is read back as it was.
pub proof fn lemma_volume_reads_back(record: StorageVolumeRecord, row: StorageVolumeRow)
    requires
        has_its_locator(record),
        is_volume_row(row, record),
    ensures
        volume_row_fault(row) is None,
        forall|read: StorageVolumeRecord| #[trigger]
            is_volume_of_row(read, row) ==> read.same(record),
{
    lemma_decimal_reads_back(record.resource_version as nat);
    lemma_backend_reads_back(record.backend_type, row.backend_type@);
    lemma_access_mode_reads_back(record.access_mode, row.access_mode@);
    lemma_volume_state_reads_back(record.state, row.state@);
}

/// The columns of a Playground.
pub struct PlaygroundRow {
    pub tenant_id: Result<Identifier, String>,
    pub project_id: Result<Identifier, String>,
    pub artifact_id: Result<Identifier, String>,
    pub playground_id: Result<Identifier, String>,
    pub storage_volume_id: Result<Identifier, String>,
    pub region: String,
    pub display_name: String,
    pub base_commit_digest: Option<Vec<u8>>,
    pub head_commit_digest: Option<Vec<u8>>,
    pub index_revision: String,
    pub index_digest: Vec<u8>,
    pub state: String,
    pub relative_root: String,
    pub created_at_unix_ms: i64,
    pub updated_at_unix_ms: i64,
}

/// The columns that a Playground is written in.
pub open spec fn is_playground_row(row: PlaygroundRow, record: PlaygroundRecord) -> bool {
    &&& reads(row.tenant_id, record.tenant_id@)
    &&& reads(row.project_id, record.project_id@)
    &&& reads(row.artifact_id, record.artifact_id@)
    &&& reads(row.playground_id, record.playground_id@)
    &&& reads(row.storage_volume_id, record.storage_volume_id@)
    &&& row.region@ == record.region@
    &&& row.display_name@ == record.display_name@
    &&& blob_is(row.base_commit_digest, record.base_commit_id)
    &&& blob_is(row.head_commit_digest, record.head_commit_id)
    &&& row.index_revision@ == decimal(record.index_version.revision as nat)
    &&& row.index_digest@ == record.index_version.digest@
    &&& row.index_digest@.len() == 32
    &&& row.state@ == playground_state_text(record.state)
    &&& row.relative_root@ == record.relative_root@
    &&& row.created_at_unix_ms == record.created_at_unix_ms
    &&& row.updated_at_unix_ms == record.updated_at_unix_ms
}

/// Writes a Playground.
pub fn encode_playground(record: &PlaygroundRecord) -> (result: CentralResult<PlaygroundRow>)
    ensures
        fault_of(result) == first_of(
            time_fault(record.created_at_unix_ms),
            time_fault(record.updated_at_unix_ms),
        ),
        result matches Ok(row) ==> is_playground_row(row, *record),
{
    let created_at: i64 = match as_i64(record.created_at_unix_ms) {
        Ok(value) => value,
        Err(problem) => return Err(problem),
    };
    let updated_at: i64 = match as_i64(record.updated_at_unix_ms) {
        Ok(value) => value,
        Err(problem) => return Err(problem),
    };
    Ok(
        PlaygroundRow {
            tenant_id: Ok(record.tenant_id.clone()),
            project_id: Ok(record.project_id.clone()),
            artifact_id: Ok(record.artifact_id.clone()),
            playground_id: Ok(record.playground_id.clone()),
            storage_volume_id: Ok(record.storage_volume_id.clone()),
            region: record.region.clone(),
            display_name: record.display_name.clone(),
            base_commit_digest: commit_blob(&record.base_commit_id),
            head_commit_digest: commit_blob(&record.head_commit_id),
            index_revision: decimal_text(record.index_version.revision),
            index_digest: digest_blob(&record.index_version.digest),
            state: String::from_str(playground_state_name(record.state)),
            relative_root: record.relative_root.clone(),
            created_at_unix_ms: created_at,
            updated_at_unix_ms: updated_at,
        },
    )
}

/// Why an optional digest is refused.
pub open spec fn optional_blob_fault(bytes: Option<Vec<u8>>, field: Seq<char>) -> Option<Fault> {
    match bytes {
        Some(present) => blob_fault(present@, field),
        None => None,
    }
}

/// The start of what a refused identifier of the catalog says.
pub open spec fn catalog_id_fault(parsed: Result<Identifier, String>) -> Option<Fault> {
    id_fault(parsed, "stored catalog identifier is invalid: "@)
}

/// Why a stored Playground is refused.
pub open spec fn playground_row_fault(row: PlaygroundRow) -> Option<Fault> {
    first_of(
        blob_fault(row.index_digest@, "Index digest"@),
        first_of(
            catalog_id_fault(row.tenant_id),
            first_of(
                catalog_id_fault(row.project_id),
                first_of(
                    catalog_id_fault(row.artifact_id),
                    first_of(
                        catalog_id_fault(row.playground_id),
                        first_of(
                            catalog_id_fault(row.storage_volume_id),
                            playground_values_fault(row),
                        ),
                    ),
                ),
            ),
        ),
    )
}

/// Why a stored value of a Playground is refused.
pub open spec fn playground_values_fault(row: PlaygroundRow) -> Option<Fault> {
    first_of(
        optional_blob_fault(row.base_commit_digest, "base Commit digest"@),
        first_of(
            optional_blob_fault(row.head_commit_digest, "head Commit digest"@),
            first_of(
                numeral_fault(row.index_revision@, "Index revision"@, " exceeds u64"@),
                first_of(
                    fault_unless(
                        playground_state_named(row.state@) is Some,
                        corruption_fault("stored Playground state is invalid"@),
                    ),
                    first_of(
                        stored_time_fault(row.created_at_unix_ms),
                        stored_time_fault(row.updated_at_unix_ms),
                    ),
                ),
            ),
        ),
    )
}

/// What is read back of a Playground.
pub open spec fn is_playground_of_row(record: PlaygroundRecord, row: PlaygroundRow) -> bool {
    &&& reads(row.tenant_id, record.tenant_id@)
    &&& reads(row.project_id, record.project_id@)
    &&& reads(row.artifact_id, record.artifact_id@)
    &&& reads(row.playground_id, record.playground_id@)
    &&& reads(row.storage_volume_id, record.storage_volume_id@)
    &&& record.region@ == row.region@
    &&& record.display_name@ == row.display_name@
    &&& blob_is(row.base_commit_digest, record.base_commit_id)
    &&& blob_is(row.head_commit_digest, record.head_commit_id)
    &&& record.index_version.revision == numeral_value(row.index_revision@)
    &&& record.index_version.digest@ == row.index_digest@
    &&& record.index_version.extensions@.len() == 0
    &&& playground_state_named(row.state@) == Some(record.state)
    &&& record.relative_root@ == row.relative_root@
    &&& record.created_at_unix_ms == row.created_at_unix_ms
    &&& record.updated_at_unix_ms == row.updated_at_unix_ms
}

fn catalog_id(parsed: &Result<Identifier, String>) -> (result: CentralResult<Identifier>)
    ensures
        fault_of(result) == catalog_id_fault(*parsed),
        result matches Ok(id) ==> (*parsed matches Ok(stored) && id@ == stored@),
{
    match parsed {
        Ok(id) => parse_id(Ok(id.clone())),
        Err(problem) => parse_id(Err(problem.clone())),
    }
}

/// Reads a Playground.
pub fn decode_playground(row: &PlaygroundRow) -> (result: CentralResult<PlaygroundRecord>)
    ensures
        fault_of(result) == playground_row_fault(*row),
        result matches Ok(record) ==> is_playground_of_row(record, *row),
{
    let digest = match exact_digest(&row.index_digest, "Index digest") {
        Ok(value) => value,
        Err(problem) => return Err(problem),
    };
    let tenant_id = match catalog_id(&row.tenant_id) {
        Ok(value) => value,
        Err(problem) => return Err(problem),
    };
    let project_id = match catalog_id(&row.project_id) {
        Ok(value) => value,
        Err(problem) => return Err(problem),
    };
    let artifact_id = match catalog_id(&row.artifact_id) {
        Ok(value) => value,
        Err(problem) => return Err(problem),
    };
    let playground_id = match catalog_id(&row.playground_id) {
        Ok(value) => value,
        Err(problem) => return Err(problem),
    };
    let storage_volume_id = match catalog_id(&row.storage_volume_id) {
        Ok(value) => value,
        Err(problem) => return Err(problem),
    };
    let base_commit_id = match optional_digest(&row.base_commit_digest, "base Commit digest") {
        Ok(value) => value,
        Err(problem) => return Err(problem),
    };
    let head_commit_id = match optional_digest(&row.head_commit_digest, "head Commit digest") {
        Ok(value) => value,
        Err(problem) => return Err(problem),
    };
    let revision: u64 = match parse_u64(row.index_revision.as_str(), "Index revision") {
        Ok(value) => value,
        Err(problem) => return Err(problem),
    };
    let state = match parse_playground_state(row.state.as_str()) {
        Ok(value) => value,
        Err(problem) => return Err(problem),
    };
    let created_at_unix_ms: u64 = match unix_ms(row.created_at_unix_ms) {
        Ok(value) => value,
        Err(problem) => return Err(problem),
    };
    let updated_at_unix_ms: u64 = match unix_ms(row.updated_at_unix_ms) {
        Ok(value) => value,
        Err(problem) => return Err(problem),
    };
    Ok(
        PlaygroundRecord {
            tenant_id,
            project_id,
            artifact_id,
            playground_id,
            storage_volume_id,
            region: row.region.clone(),
            display_name: row.display_name.clone(),
            base_commit_id,
            head_commit_id,
            index_version: WireIndexVersion { revision, digest, extensions: no_extensions() },
            state,
            relative_root: row.relative_root.clone(),
            created_at_unix_ms,
            updated_at_unix_ms,
        },
    )
}

/// A Playground that was written is read back as it was, but for unknown members of its Index
/// version, which no column holds.
pub proof fn lemma_playground_reads_back(record: PlaygroundRecord, row: PlaygroundRow)
    requires
        record.index_version.extensions@.len() == 0,
        is_playground_row(row, record),
    ensures
        playground_row_fault(row) is None,
        forall|read: PlaygroundRecord| #[trigger]
            is_playground_of_row(read, row) ==> read.same(record),
{
    broadcast use lemma_digest_is_its_bytes;

    lemma_decimal_reads_back(record.index_version.revision as nat);
    lemma_playground_state_reads_back(record.state, row.state@);
    assert forall|read: PlaygroundRecord| #[trigger] is_playground_of_row(read, row) implies read.same(
        record,
    ) by {
        assert(read.index_version.extensions@ =~= record.index_version.extensions@);
    }
}

/// A page of at most `limit` records, and a cursor at its end where more were found.
pub open spec fn is_tenant_page(records: Seq<TenantRecord>, limit: u16, page: TenantListPage) -> bool {
    &&& page.records@ == at_most(records, limit as nat)
    &&& page.next is Some <==> records.len() > limit
    &&& page.next matches Some(cursor) ==> {
        let last = page.records@.last();
        {
            &&& cursor.created_at_unix_ms == last.created_at_unix_ms
            &&& cursor.tenant_id@ == last.tenant_id@
        }
    }
}

/// Cuts what a query found to a page; the query asks for one record more than the page holds.
pub fn tenant_page(records: Vec<TenantRecord>, limit: u16) -> (page: TenantListPage)
    requires
        limit >= 1,
    ensures
        is_tenant_page(records@, limit, page),
{
    let mut records = records;
    let has_more = records.len() > limit as usize;
    if !has_more {
        return TenantListPage { records, next: None };
    }
    records.truncate(limit as usize);
    let next = {
        let last = &records[limit as usize - 1];
        Some(
            TenantListCursor {
                created_at_unix_ms: last.created_at_unix_ms,
                tenant_id: last.tenant_id.clone(),
            },
        )
    };
    TenantListPage { records, next }
}

/// A page of at most `limit` records, and a cursor at its end where more were found.
pub open spec fn is_volume_page(records: Seq<StorageVolumeRecord>, limit: u16, page: StorageVolumeListPage) -> bool {
    &&& page.records@ == at_most(records, limit as nat)
    &&& page.next is Some <==> records.len() > limit
    &&& page.next matches Some(cursor) ==> {
        let last = page.records@.last();
        {
            &&& cursor.created_at_unix_ms == last.created_at_unix_ms
            &&& cursor.storage_volume_id@ == last.storage_volume_id@
        }
    }
}

/// Cuts what a query found to a page; the query asks for one record more than the page holds.
pub fn volume_page(records: Vec<StorageVolumeRecord>, limit: u16) -> (page: StorageVolumeListPage)
    requires
        limit >= 1,
    ensures
        is_volume_page(records@, limit, page),
{
    let mut records = records;
    let has_more = records.len() > limit as usize;
    if !has_more {
        return StorageVolumeListPage { records, next: None };
    }
    records.truncate(limit as usize);
    let next = {
        let last = &records[limit as usize - 1];
        Some(
            StorageVolumeListCursor {
                created_at_unix_ms: last.created_at_unix_ms,
                storage_volume_id: last.storage_volume_id.clone(),
            },
        )
    };
    StorageVolumeListPage { records, next }
}

/// A page of at most `limit` records, and a cursor at its end where more were found.
pub open spec fn is_playground_page(records: Seq<PlaygroundRecord>, limit: u16, page: PlaygroundListPage) -> bool {
    &&& page.records@ == at_most(records, limit as nat)
    &&& page.next is Some <==> records.len() > limit
    &&& page.next matches Some(cursor) ==> {
        let last = page.records@.last();
        {
            &&& cursor.created_at_unix_ms == last.created_at_unix_ms
            &&& cursor.project_id@ == last.project_id@
            &&& cursor.artifact_id@ == last.artifact_id@
            &&& cursor.playground_id@ == last.playground_id@
        }
    }
}

/// Cuts what a query found to a page; the query asks for one record more than the page holds.
pub fn playground_page(records: Vec<PlaygroundRecord>, limit: u16) -> (page: PlaygroundListPage)
    requires
        limit >= 1,
    ensures
        is_playground_page(records@, limit, page),
{
    let mut records = records;
    let has_more = records.len() > limit as usize;
    if !has_more {
        return PlaygroundListPage { records, next: None };
    }
    records.truncate(limit as usize);
    let next = {
        let last = &records[limit as usize - 1];
        Some(
            PlaygroundListCursor {
                created_at_unix_ms: last.created_at_unix_ms,
                project_id: last.project_id.clone(),
                artifact_id: last.artifact_id.clone(),
                playground_id: last.playground_id.clone(),
            },
        )
    };
    PlaygroundListPage { records, next }
}

/// A catalog identifier that was bound to another create request.
pub open spec fn reuse_fault(message: Seq<char>) -> Fault {
    final_fault(CentralErrorCode::InvalidState, message)
}

/// The failure of a catalog identifier that was bound to another create request.
pub fn id_reused(message: &str) -> (failure: CentralError)
    ensures
        failure@ == reuse_fault(message@),
{
    final_failure(CentralErrorCode::InvalidState, message)
}

/// The failure of an insert that conflicted with a record that is not there.
pub open spec fn vanished_fault(problem: Seq<char>) -> Fault {
    fault(
        CentralErrorCode::StorageFailure,
        "SQLite "@ + "control catalog"@ + " storage operation failed: "@ + problem,
    )
}

/// Answers a create request whose Tenant exists: the same request gets the stored record.
pub fn resolve_existing_tenant(existing: TenantRecord, record: &TenantRecord) -> (result: CentralResult<
    CatalogInsertOutcome<TenantRecord>,
>)
    ensures
        fault_of(result) == fault_unless(
            is_same_tenant(existing, *record),
            reuse_fault("Tenant ID is already bound to another create request"@),
        ),
        result matches Ok(outcome) ==> outcome == CatalogInsertOutcome::Existing(existing),
{
    if tenant_create_matches(&existing, record) {
        Ok(CatalogInsertOutcome::Existing(existing))
    } else {
        Err(id_reused("Tenant ID is already bound to another create request"))
    }
}

/// Answers a create request that lost a race for its identifier.
pub fn resolve_tenant_race(existing: Option<TenantRecord>, record: &TenantRecord) -> (result: CentralResult<
    CatalogInsertOutcome<TenantRecord>,
>)
    ensures
        fault_of(result) == (match existing {
            Some(stored) => fault_unless(
                is_same_tenant(stored, *record),
                reuse_fault("Tenant ID is already bound to another create request"@),
            ),
            None => Some(
                vanished_fault("Tenant uniqueness conflict could not be resolved"@),
            ),
        }),
        result matches Ok(outcome) ==> (existing matches Some(stored) && outcome
            == CatalogInsertOutcome::Existing(stored)),
{
    match existing {
        Some(stored) => resolve_existing_tenant(stored, record),
        None => Err(
            storage_error("control catalog", "Tenant uniqueness conflict could not be resolved"),
        ),
    }
}

/// Answers a create request whose Playground exists: the same request gets the stored record.
pub fn resolve_existing_playground(existing: PlaygroundRecord, record: &PlaygroundRecord) -> (result: CentralResult<
    CatalogInsertOutcome<PlaygroundRecord>,
>)
    ensures
        fault_of(result) == fault_unless(
            is_same_playground_create(existing, *record),
            reuse_fault("Playground ID is already bound to another create request"@),
        ),
        result matches Ok(outcome) ==> outcome == CatalogInsertOutcome::Existing(existing),
{
    if playground_create_matches(&existing, record) {
        Ok(CatalogInsertOutcome::Existing(existing))
    } else {
        Err(id_reused("Playground ID is already bound to another create request"))
    }
}

/// Answers a create request that lost a race for its identifier.
pub fn resolve_playground_race(existing: Option<PlaygroundRecord>, record: &PlaygroundRecord) -> (result: CentralResult<
    CatalogInsertOutcome<PlaygroundRecord>,
>)
    ensures
        fault_of(result) == (match existing {
            Some(stored) => fault_unless(
                is_same_playground_create(stored, *record),
                reuse_fault("Playground ID is already bound to another create request"@),
            ),
            None => Some(
                vanished_fault("Playground uniqueness conflict could not be resolved"@),
            ),
        }),
        result matches Ok(outcome) ==> (existing matches Some(stored) && outcome
            == CatalogInsertOutcome::Existing(stored)),
{
    match existing {
        Some(stored) => resolve_existing_playground(stored, record),
        None => Err(
            storage_error("control catalog", "Playground uniqueness conflict could not be resolved"),
        ),
    }
}

/// Answers a create request whose Volume exists: the same request gets the stored record.
pub fn resolve_existing_volume(existing: StorageVolumeRecord, record: &StorageVolumeRecord) -> (result:
    CentralResult<CatalogInsertOutcome<StorageVolumeRecord>>)
    ensures
        fault_of(result) == fault_unless(
            is_same_volume(existing, *record),
            reuse_fault("StorageVolume ID is already bound to another create request"@),
        ),
        result matches Ok(outcome) ==> outcome == CatalogInsertOutcome::Existing(existing),
{
    if volume_matches(&existing, record) {
        Ok(CatalogInsertOutcome::Existing(existing))
    } else {
        Err(id_reused("StorageVolume ID is already bound to another create request"))
    }
}

/// Answers a create request that lost a race for its identifier or its claim.
pub fn resolve_volume_race(
    existing: Option<StorageVolumeRecord>,
    record: &StorageVolumeRecord,
) -> (result: CentralResult<CatalogInsertOutcome<StorageVolumeRecord>>)
    ensures
        fault_of(result) == fault_unless(
            existing matches Some(stored) && is_same_volume(stored, *record),
            final_fault(
                CentralErrorCode::VolumeOwnerConflict,
                "PVC identity or StorageVolume ID is already registered"@,
            ),
        ),
        result matches Ok(outcome) ==> (existing matches Some(stored) && outcome
            == CatalogInsertOutcome::Existing(stored)),
{
    if let Some(stored) = existing {
        if volume_matches(&stored, record) {
            return Ok(CatalogInsertOutcome::Existing(stored));
        }
    }
    Err(
        final_failure(
            CentralErrorCode::VolumeOwnerConflict,
            "PVC identity or StorageVolume ID is already registered",
        ),
    )
}

} // verus!
