//! Keeping the catalog's view of a Volume in step with the enrollment that owns it.
use vstd::prelude::*;

use crate::agent_registry::lifecycle::volume_readiness;
use crate::agent_registry::records::{
    AgentEnrollmentState, AgentRegistryRecord, DerivedVolumeState, FrozenStorageDescriptor,
    StorageEnrollmentAccessMode,
};
use crate::catalog::records::{StorageAccessMode, StorageVolumeState};
use crate::error::{
    fault_of, final_failure, final_fault, CentralError, CentralErrorCode, CentralResult, Fault,
};
use crate::identifier::{AgentEnrollmentId, UnixMillis};
use crate::storage::codec::{as_i64, numeral_fault, numeral_value, parse_u64};
use crate::storage::names::{
    access_mode_name, access_mode_text, volume_state_name, volume_state_text,
};
use crate::text::{decimal, decimal_text, text_equals};

verus! {

/// How long after its last heartbeat an Agent still counts as serving its Volume.
pub const VOLUME_HEARTBEAT_TIMEOUT_MS: u64 = 30_000;

/// The stored columns of a Volume that an approved enrollment is held against.
#[derive(Debug)]
pub struct VolumeRow {
    pub display_name: String,
    pub edge_cluster_id: String,
    pub region: String,
    pub backend_type: String,
    pub access_mode: String,
    pub pvc_namespace: Option<String>,
    pub pvc_claim_name: Option<String>,
    pub state: String,
    pub enrollment_id: Option<String>,
    pub resource_version: String,
}

/// The columns that change when a Volume follows its enrollment.
#[derive(Debug)]
pub struct VolumeUpdate {
    pub state: StorageVolumeState,
    pub enrollment_id: AgentEnrollmentId,
    pub expected_resource_version: u64,
    pub resource_version: u64,
    pub updated_at_unix_ms: i64,
}

/// What is to be written for a Volume.
#[derive(Debug)]
pub enum VolumeSync {
    Unchanged,
    Update(VolumeUpdate),
    /// A new row, and the time that it was created and updated.
    Insert(VolumeRow, i64),
}

/// When an enrollment last changed what the catalog shows.
pub open spec fn synced_at(record: AgentRegistryRecord) -> UnixMillis {
    match record.storage_enrollment.updated_at_unix_ms {
        Some(updated_at) => updated_at,
        None => match record.enrollment.decided_at_unix_ms {
            Some(decided_at) => decided_at,
            None => record.enrollment.created_at_unix_ms,
        },
    }
}

/// Readiness of a Volume, as the catalog shows it.
pub open spec fn catalog_state(state: DerivedVolumeState) -> StorageVolumeState {
    match state {
        DerivedVolumeState::Ready => StorageVolumeState::Ready,
        DerivedVolumeState::Degraded => StorageVolumeState::Degraded,
        DerivedVolumeState::Unavailable => StorageVolumeState::Unavailable,
    }
}

/// An access mode of an enrollment, as the catalog shows it.
pub open spec fn catalog_access_mode(mode: StorageEnrollmentAccessMode) -> StorageAccessMode {
    match mode {
        StorageEnrollmentAccessMode::ReadWriteOnce => StorageAccessMode::ReadWriteOnce,
        StorageEnrollmentAccessMode::ReadWriteMany => StorageAccessMode::ReadWriteMany,
    }
}

/// The Volume state that follows from an enrollment.
pub open spec fn synced_state(record: AgentRegistryRecord) -> StorageVolumeState {
    catalog_state(
        volume_readiness(
            record,
            record.owner.state,
            synced_at(record),
            VOLUME_HEARTBEAT_TIMEOUT_MS,
        ),
    )
}

/// Only an approved enrollment with a frozen descriptor shows in the catalog.
pub open spec fn is_synced(record: AgentRegistryRecord) -> bool {
    record.enrollment.state is Approved && record.storage_enrollment.descriptor is Some
}

/// An optional column holds a text.
pub open spec fn holds(column: Option<String>, text: Seq<char>) -> bool {
    column matches Some(present) && present@ == text
}

/// The row describes the Volume that the enrollment was approved for.
pub open spec fn row_is_described(
    row: VolumeRow,
    record: AgentRegistryRecord,
    descriptor: FrozenStorageDescriptor,
) -> bool {
    &&& row.display_name@ == descriptor.display_name@
    &&& row.edge_cluster_id@ == record.enrollment.edge_cluster_id@
    &&& row.region@ == descriptor.region@
    &&& row.backend_type@ == "pvc"@
    &&& row.access_mode@ == access_mode_text(catalog_access_mode(descriptor.access_mode))
    &&& holds(row.pvc_namespace, descriptor.pvc_reference.namespace@)
    &&& holds(row.pvc_claim_name, descriptor.pvc_reference.claim_name@)
}

/// The row already shows the enrollment and its state.
pub open spec fn row_is_current(row: VolumeRow, record: AgentRegistryRecord) -> bool {
    &&& row.state@ == volume_state_text(synced_state(record))
    &&& holds(row.enrollment_id, record.enrollment.enrollment_id@)
}

/// An initial enrollment finds a Volume that no enrollment is bound to and that is in use.
pub open spec fn binding_is_taken(row: VolumeRow, record: AgentRegistryRecord) -> bool {
    &&& record.enrollment.replaces_enrollment_id is None
    &&& row.enrollment_id is None
    &&& row.state@ != "unavailable"@
}

/// A time that no column can hold.
pub open spec fn time_fault(time: UnixMillis) -> Option<Fault> {
    if time > i64::MAX {
        Some(
            final_fault(
                CentralErrorCode::ProtocolInvalid,
                "UnixMillis exceeds the SQLite range"@,
            ),
        )
    } else {
        None
    }
}

/// Why a Volume cannot follow an enrollment.
pub open spec fn sync_fault(record: AgentRegistryRecord, existing: Option<VolumeRow>) -> Option<
    Fault,
> {
    if !is_synced(record) {
        None
    } else {
        let descriptor = record.storage_enrollment.descriptor->0;
        match existing {
            None => time_fault(synced_at(record)),
            Some(row) => if !row_is_described(row, record, descriptor) {
                Some(
                    final_fault(
                        CentralErrorCode::VolumeOwnerConflict,
                        "approved enrollment differs from the registered StorageVolume descriptor"@,
                    ),
                )
            } else if binding_is_taken(row, record) {
                Some(
                    final_fault(
                        CentralErrorCode::VolumeOwnerConflict,
                        "initial enrollment can only bind an unavailable StorageVolume"@,
                    ),
                )
            } else if row_is_current(row, record) {
                None
            } else if numeral_fault(
                row.resource_version@,
                "StorageVolume resource version"@,
                " exceeds u64"@,
            ) is Some {
                numeral_fault(
                    row.resource_version@,
                    "StorageVolume resource version"@,
                    " exceeds u64"@,
                )
            } else if numeral_value(row.resource_version@) == u64::MAX {
                Some(
                    final_fault(
                        CentralErrorCode::Internal,
                        "StorageVolume resource version exhausted"@,
                    ),
                )
            } else {
                time_fault(synced_at(record))
            },
        }
    }
}

/// What is written brings the Volume in step with the enrollment.
pub open spec fn is_sync(
    record: AgentRegistryRecord,
    existing: Option<VolumeRow>,
    sync: VolumeSync,
) -> bool {
    match sync {
        VolumeSync::Unchanged => {
            ||| !is_synced(record)
            ||| existing matches Some(row) && row_is_current(row, record)
        },
        VolumeSync::Update(update) => {
            &&& is_synced(record)
            &&& existing matches Some(row)
            &&& !row_is_current(row, record)
            &&& update.state == synced_state(record)
            &&& update.enrollment_id@ == record.enrollment.enrollment_id@
            &&& update.expected_resource_version == numeral_value(row.resource_version@)
            &&& update.resource_version == update.expected_resource_version + 1
            &&& update.updated_at_unix_ms == synced_at(record)
        },
        VolumeSync::Insert(row, created_at) => {
            &&& is_synced(record)
            &&& existing is None
            &&& row_is_described(row, record, record.storage_enrollment.descriptor->0)
            &&& row_is_current(row, record)
            &&& row.resource_version@ == decimal(1)
            &&& created_at == synced_at(record)
        },
    }
}

/// The row of a Volume once the plan was carried out.
pub open spec fn is_written(before: Option<VolumeRow>, sync: VolumeSync, after: VolumeRow) -> bool {
    match sync {
        VolumeSync::Unchanged => before == Some(after),
        VolumeSync::Update(update) => {
            &&& before matches Some(row)
            &&& after.display_name == row.display_name
            &&& after.edge_cluster_id == row.edge_cluster_id
            &&& after.region == row.region
            &&& after.backend_type == row.backend_type
            &&& after.access_mode == row.access_mode
            &&& after.pvc_namespace == row.pvc_namespace
            &&& after.pvc_claim_name == row.pvc_claim_name
            &&& after.state@ == volume_state_text(update.state)
            &&& holds(after.enrollment_id, update.enrollment_id@)
            &&& after.resource_version@ == decimal(update.resource_version as nat)
        },
        VolumeSync::Insert(row, _) => after == row,
    }
}

/// Once a Volume follows its enrollment, the row describes the enrollment's Volume and shows its
/// state, and following the same enrollment again changes nothing.
pub proof fn lemma_sync_settles(
    record: AgentRegistryRecord,
    before: Option<VolumeRow>,
    sync: VolumeSync,
    after: VolumeRow,
)
    requires
        is_synced(record),
        sync_fault(record, before) is None,
        is_sync(record, before, sync),
        is_written(before, sync, after),
    ensures
        row_is_described(after, record, record.storage_enrollment.descriptor->0),
        row_is_current(after, record),
        sync_fault(record, Some(after)) is None,
        forall|again: VolumeSync|
            #[trigger] is_sync(record, Some(after), again) ==> again is Unchanged,
{
}

fn column_holds(column: &Option<String>, text: &str) -> (held: bool)
    ensures
        held == holds(*column, text@),
{
    match column {
        Some(present) => text_equals(present.as_str(), text),
        None => false,
    }
}

fn describes(
    row: &VolumeRow,
    record: &AgentRegistryRecord,
    descriptor: &FrozenStorageDescriptor,
    access_mode: StorageAccessMode,
) -> (described: bool)
    requires
        access_mode == catalog_access_mode(descriptor.access_mode),
    ensures
        described == row_is_described(*row, *record, *descriptor),
{
    text_equals(row.display_name.as_str(), descriptor.display_name.as_str())
        && text_equals(row.edge_cluster_id.as_str(), record.enrollment.edge_cluster_id.as_str())
        && text_equals(row.region.as_str(), descriptor.region.as_str())
        && text_equals(row.backend_type.as_str(), "pvc")
        && text_equals(row.access_mode.as_str(), access_mode_name(access_mode))
        && column_holds(&row.pvc_namespace, descriptor.pvc_reference.namespace.as_str())
        && column_holds(&row.pvc_claim_name, descriptor.pvc_reference.claim_name.as_str())
}

/// Decides what is to be written for the Volume of an enrollment that was just stored.
pub fn sync_volume_from_registry(
    record: &AgentRegistryRecord,
    existing: Option<&VolumeRow>,
) -> (result: CentralResult<VolumeSync>)
    ensures
        fault_of(result) == sync_fault(
            *record,
            match existing {
                Some(row) => Some(*row),
                None => None,
            },
        ),
        result matches Ok(sync) ==> is_sync(
            *record,
            match existing {
                Some(row) => Some(*row),
                None => None,
            },
            sync,
        ),
{
    if record.enrollment.state != AgentEnrollmentState::Approved {
        return Ok(VolumeSync::Unchanged);
    }
    let descriptor = match &record.storage_enrollment.descriptor {
        Some(descriptor) => descriptor,
        None => return Ok(VolumeSync::Unchanged),
    };
    let updated_at: UnixMillis = match record.storage_enrollment.updated_at_unix_ms {
        Some(updated_at) => updated_at,
        None => match record.enrollment.decided_at_unix_ms {
            Some(decided_at) => decided_at,
            None => record.enrollment.created_at_unix_ms,
        },
    };
    let state = match record.derived_volume_state(updated_at, VOLUME_HEARTBEAT_TIMEOUT_MS) {
        DerivedVolumeState::Ready => StorageVolumeState::Ready,
        DerivedVolumeState::Degraded => StorageVolumeState::Degraded,
        DerivedVolumeState::Unavailable => StorageVolumeState::Unavailable,
    };
    let access_mode = match descriptor.access_mode {
        StorageEnrollmentAccessMode::ReadWriteOnce => StorageAccessMode::ReadWriteOnce,
        StorageEnrollmentAccessMode::ReadWriteMany => StorageAccessMode::ReadWriteMany,
    };
    let row = match existing {
        Some(row) => row,
        None => {
            let created_at: i64 = match as_i64(updated_at) {
                Ok(created_at) => created_at,
                Err(problem) => return Err(problem),
            };
            return Ok(
                VolumeSync::Insert(
                    VolumeRow {
                        display_name: descriptor.display_name.clone(),
                        edge_cluster_id: String::from_str(
                            record.enrollment.edge_cluster_id.as_str(),
                        ),
                        region: descriptor.region.clone(),
                        backend_type: String::from_str("pvc"),
                        access_mode: String::from_str(access_mode_name(access_mode)),
                        pvc_namespace: Some(descriptor.pvc_reference.namespace.clone()),
                        pvc_claim_name: Some(descriptor.pvc_reference.claim_name.clone()),
                        state: String::from_str(volume_state_name(state)),
                        enrollment_id: Some(
                            String::from_str(record.enrollment.enrollment_id.as_str()),
                        ),
                        resource_version: decimal_text(1),
                    },
                    created_at,
                ),
            );
        },
    };
    if !describes(row, record, descriptor, access_mode) {
        return Err(
            final_failure(
                CentralErrorCode::VolumeOwnerConflict,
                "approved enrollment differs from the registered StorageVolume descriptor",
            ),
        );
    }
    if record.enrollment.replaces_enrollment_id.is_none() && row.enrollment_id.is_none()
        && !text_equals(row.state.as_str(), "unavailable") {
        return Err(
            final_failure(
                CentralErrorCode::VolumeOwnerConflict,
                "initial enrollment can only bind an unavailable StorageVolume",
            ),
        );
    }
    let enrollment_id = &record.enrollment.enrollment_id;
    if text_equals(row.state.as_str(), volume_state_name(state)) && column_holds(
        &row.enrollment_id,
        enrollment_id.as_str(),
    ) {
        return Ok(VolumeSync::Unchanged);
    }
    let old_version: u64 = match parse_u64(
        row.resource_version.as_str(),
        "StorageVolume resource version",
    ) {
        Ok(old_version) => old_version,
        Err(problem) => return Err(problem),
    };
    if old_version == u64::MAX {
        return Err(
            final_failure(
                CentralErrorCode::Internal,
                "StorageVolume resource version exhausted",
            ),
        );
    }
    match as_i64(updated_at) {
        Ok(updated_at_unix_ms) => Ok(
            VolumeSync::Update(
                VolumeUpdate {
                    state,
                    enrollment_id: enrollment_id.clone(),
                    expected_resource_version: old_version,
                    resource_version: old_version + 1,
                    updated_at_unix_ms,
                },
            ),
        ),
        Err(problem) => Err(problem),
    }
}

/// The failure of a Volume row that another Volume's claim keeps out.
pub fn volume_claim_conflict() -> (failure: CentralError)
    ensures
        failure@ == final_fault(
            CentralErrorCode::VolumeOwnerConflict,
            "approved PVC identity is already registered to another StorageVolume"@,
        ),
{
    final_failure(
        CentralErrorCode::VolumeOwnerConflict,
        "approved PVC identity is already registered to another StorageVolume",
    )
}

} // verus!
