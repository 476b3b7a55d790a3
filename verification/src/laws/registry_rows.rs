//! How a durable registry indexes its enrollments, and what it believes of what it reads; and how the
//! catalog follows an approved enrollment.
use vstd::prelude::*;

use crate::agent_registry::conflict::{pvc_binding_role, PvcBindingRole};
use crate::agent_registry::intent::PvcVolumeBinding;
use crate::agent_registry::records::{AgentRegistryRecord, DerivedVolumeState};
use crate::agent_registry::validation::validate_registry_record;
use crate::catalog::records::{StorageAccessMode, StorageVolumeState};
use crate::digest::{hex_text, ContentDigest, PvcIdentityDigest};
use crate::error::{CentralErrorCode, CentralResult};
use crate::laws::enrollment_lists::listed_since;
use crate::laws::jobs::fails_with;
use crate::laws::registry::is_over;
use crate::storage::codec::parse_u64;
use crate::storage::names::{
    access_mode_name, registration_kind_name, storage_enrollment_state_name, volume_state_name,
};
use crate::storage::registry_rows::{
    binding_by_claim, current_by_volume, decode_row, identity_columns,
    indexed_enrollment_created_at, indexed_enrollment_state, indexed_registration_kind,
    query_columns, validate_lookup, validate_query_columns, RegistryIdentityColumns, RegistryLookup,
    RegistryQueryColumns,
};
use crate::storage::volume_sync::{sync_volume_from_registry, VolumeRow, VolumeSync};
use crate::text::decimal_text;

verus! {

/// An optional column holds a text.
pub open spec fn column_is(column: Option<String>, text: Seq<char>) -> bool {
    column is Some && column->0@ == text
}

/// The columns of an enrollment hold its identities, in the places where they are looked for.
pub proof fn lemma_enrollment_is_indexed(
    record: &AgentRegistryRecord,
    token: String,
    claim: String,
    version: String,
    role: Option<PvcBindingRole>,
    columns: RegistryIdentityColumns,
)
    requires
        call_ensures(identity_columns, (record,), columns),
        call_ensures(hex_text, (&record.enrollment.bootstrap_token_digest,), token),
        call_ensures(hex_text, (&record.enrollment.pvc_identity_digest,), claim),
        call_ensures(decimal_text, (record.resource_version,), version),
        call_ensures(pvc_binding_role, (record,), role),
    ensures
        columns.enrollment_id@ == record.enrollment.enrollment_id@,
        columns.agent_id@ == record.enrollment.reserved_agent_id@,
        columns.token_id@ == record.enrollment.token_id@,
        columns.token_request_id@ == record.enrollment.token_request_id@,
        columns.token_digest@ == token@,
        columns.tenant_id@ == record.enrollment.tenant_id@,
        columns.edge_cluster_id@ == record.enrollment.edge_cluster_id@,
        columns.storage_volume_id@ == record.enrollment.storage_volume_id@,
        columns.pvc_identity_digest@ == claim@,
        columns.resource_version@ == version@,
        match record.enrollment.bootstrap_request_id {
            Some(request_id) => column_is(columns.bootstrap_request_id, request_id@),
            None => columns.bootstrap_request_id is None,
        },
        match record.enrollment.decision_request {
            Some(request) => column_is(columns.decision_request_id, request.decision_request_id@),
            None => columns.decision_request_id is None,
        },
        match record.candidate {
            Some(candidate) => column_is(columns.installation_id, candidate.installation_id@)
                && columns.public_key_fingerprint is Some,
            None => columns.installation_id is None && columns.public_key_fingerprint is None,
        },
        match role {
            Some(PvcBindingRole::Owner) => column_is(columns.pvc_binding_role, "owner"@),
            Some(PvcBindingRole::Replacement) => column_is(
                columns.pvc_binding_role,
                "replacement"@,
            ),
            None => columns.pvc_binding_role is None,
        },
{
}

/// The key of a candidate is indexed by its digits.
pub proof fn lemma_candidate_key_is_indexed(
    record: &AgentRegistryRecord,
    fingerprint: &ContentDigest,
    digits: String,
    columns: RegistryIdentityColumns,
)
    requires
        call_ensures(identity_columns, (record,), columns),
        call_ensures(hex_text, (fingerprint,), digits),
        record.candidate is Some,
        *fingerprint == record.candidate->0.public_key_fingerprint,
    ensures
        column_is(columns.public_key_fingerprint, digits@),
{
}

/// A current enrollment is indexed under its public state and kind, or as issued or revoked where it
/// shows none; one of the earlier format is set apart, and so is its time.
pub proof fn lemma_enrollment_is_listed_under_its_state(
    record: &AgentRegistryRecord,
    state: &'static str,
    kind: &'static str,
    since: CentralResult<i64>,
)
    requires
        call_ensures(indexed_enrollment_state, (record,), state),
        call_ensures(indexed_registration_kind, (record,), kind),
        call_ensures(indexed_enrollment_created_at, (record,), since),
    ensures
        record.storage_enrollment.record_format is LegacyV2 ==> state@ == "legacy"@ && kind@
            == "legacy"@ && since == CentralResult::<i64>::Ok(0),
        record.storage_enrollment.record_format is CurrentV3 ==> {
            &&& record.storage_enrollment.state matches Some(shown) ==> (forall|name: &'static str|
                #[trigger]
                call_ensures(storage_enrollment_state_name, (shown,), name) ==> state@ == name@)
            &&& record.storage_enrollment.state is None && record.enrollment.state is Revoked
                ==> state@ == "revoked"@
            &&& record.storage_enrollment.state is None && !(record.enrollment.state is Revoked)
                ==> state@ == "token_issued"@
            &&& record.storage_enrollment.registration_kind matches Some(registered) ==> (forall|
                name: &'static str,
            | #[trigger]
                call_ensures(registration_kind_name, (registered,), name) ==> kind@ == name@)
            &&& record.storage_enrollment.registration_kind is None ==> kind@ == "legacy"@
            &&& record.storage_enrollment.state is None ==> since == CentralResult::<i64>::Ok(0)
            &&& record.storage_enrollment.state is Some ==> if listed_since(*record) <= i64::MAX {
                since is Ok && since->Ok_0 == listed_since(*record)
            } else {
                fails_with(since, CentralErrorCode::ProtocolInvalid)
            }
        },
{
}

/// The columns that an enrollment is listed by are those of its state, kind, time and name, and they
/// are believed exactly where they are.
pub proof fn lemma_listing_columns(
    record: &AgentRegistryRecord,
    columns: &RegistryQueryColumns,
    state: &'static str,
    kind: &'static str,
    since: CentralResult<i64>,
    written: CentralResult<RegistryQueryColumns>,
    result: CentralResult<()>,
)
    requires
        call_ensures(indexed_enrollment_state, (record,), state),
        call_ensures(indexed_registration_kind, (record,), kind),
        call_ensures(indexed_enrollment_created_at, (record,), since),
        call_ensures(query_columns, (record,), written),
        call_ensures(validate_query_columns, (record, columns), result),
    ensures
        written is Ok <==> since is Ok,
        written matches Ok(row) ==> {
            &&& row.enrollment_state@ == state@
            &&& row.registration_kind@ == kind@
            &&& row.enrollment_created_at_unix_ms == since->Ok_0
            &&& match record.storage_enrollment.descriptor {
                Some(descriptor) => column_is(row.display_name, descriptor.display_name@),
                None => row.display_name is None,
            }
        },
        result is Ok <==> {
            &&& since is Ok
            &&& columns.enrollment_state@ == state@
            &&& columns.registration_kind@ == kind@
            &&& columns.enrollment_created_at_unix_ms == since->Ok_0
            &&& match record.storage_enrollment.descriptor {
                Some(descriptor) => column_is(columns.display_name, descriptor.display_name@),
                None => columns.display_name is None,
            }
        },
{
}

/// A stored enrollment is believed exactly where it has the first format, obeys its rules and has the
/// columns that would be written for it.
pub proof fn lemma_registry_row_is_believed(
    format: u32,
    record: AgentRegistryRecord,
    derived: Option<PvcIdentityDigest>,
    columns: &RegistryIdentityColumns,
    expected: RegistryIdentityColumns,
    valid: CentralResult<()>,
    result: CentralResult<AgentRegistryRecord>,
)
    requires
        call_ensures(decode_row, (format, record, derived, columns), result),
        call_ensures(identity_columns, (&record,), expected),
        call_ensures(validate_registry_record, (&record, derived), valid),
    ensures
        result is Ok ==> {
            &&& format == 1
            &&& valid is Ok
            &&& result->Ok_0 == record
            &&& columns.enrollment_id@ == expected.enrollment_id@
            &&& columns.agent_id@ == expected.agent_id@
            &&& columns.token_id@ == expected.token_id@
            &&& columns.token_request_id@ == expected.token_request_id@
            &&& columns.token_digest@ == expected.token_digest@
            &&& columns.tenant_id@ == expected.tenant_id@
            &&& columns.edge_cluster_id@ == expected.edge_cluster_id@
            &&& columns.storage_volume_id@ == expected.storage_volume_id@
            &&& columns.pvc_identity_digest@ == expected.pvc_identity_digest@
            &&& columns.resource_version@ == expected.resource_version@
            &&& columns.bootstrap_request_id is Some <==> expected.bootstrap_request_id is Some
            &&& columns.bootstrap_request_id is Some ==> columns.bootstrap_request_id->0@
                == expected.bootstrap_request_id->0@
            &&& columns.decision_request_id is Some <==> expected.decision_request_id is Some
            &&& columns.decision_request_id is Some ==> columns.decision_request_id->0@
                == expected.decision_request_id->0@
            &&& columns.installation_id is Some <==> expected.installation_id is Some
            &&& columns.installation_id is Some ==> columns.installation_id->0@
                == expected.installation_id->0@
            &&& columns.public_key_fingerprint is Some <==> expected.public_key_fingerprint is Some
            &&& columns.public_key_fingerprint is Some ==> columns.public_key_fingerprint->0@
                == expected.public_key_fingerprint->0@
            &&& columns.pvc_binding_role is Some <==> expected.pvc_binding_role is Some
            &&& columns.pvc_binding_role is Some ==> columns.pvc_binding_role->0@
                == expected.pvc_binding_role->0@
        },
        *columns == expected && format == 1 && valid is Ok ==> result is Ok,
{
}

/// A lookup is believed exactly where the enrollment that it led to holds what was looked for.
pub proof fn lemma_lookup_is_believed(
    record: &AgentRegistryRecord,
    lookup: &RegistryLookup,
    result: CentralResult<()>,
)
    requires
        call_ensures(validate_lookup, (record, lookup), result),
    ensures
        match *lookup {
            RegistryLookup::BootstrapRequest(wanted) => result is Ok <==> {
                &&& record.enrollment.bootstrap_request_id is Some
                &&& record.enrollment.bootstrap_request_id->0@ == wanted@
            },
            RegistryLookup::DecisionRequest(wanted) => result is Ok <==> {
                &&& record.enrollment.decision_request is Some
                &&& record.enrollment.decision_request->0.decision_request_id@ == wanted@
            },
            RegistryLookup::Installation(wanted) => result is Ok <==> {
                &&& record.candidate is Some
                &&& record.candidate->0.installation_id@ == wanted@
            },
            RegistryLookup::PublicKey(wanted) => result is Ok <==> {
                &&& record.candidate is Some
                &&& record.candidate->0.public_key_fingerprint == wanted
            },
        },
        result is Err ==> fails_with(result, CentralErrorCode::StorageFailure),
{
}

/// The Agent of a volume is the approved one; two approved ones are corrupt.
pub proof fn lemma_volume_has_one_agent(
    records: &Vec<AgentRegistryRecord>,
    left: int,
    right: int,
    result: CentralResult<Option<usize>>,
)
    requires
        call_ensures(current_by_volume, (records,), result),
        0 <= left < records@.len(),
        0 <= right < records@.len(),
    ensures
        left != right && records@[left].enrollment.state is Approved
            && records@[right].enrollment.state is Approved ==> fails_with(
            result,
            CentralErrorCode::StorageFailure,
        ),
        result matches Ok(owner) ==> (records@[left].enrollment.state is Approved <==> owner is Some
            && owner->0 == left),
{
    if left != right && records@[left].enrollment.state is Approved
        && records@[right].enrollment.state is Approved {
        if left < right {
            assert(records@[left].enrollment.state is Approved && records@[right].enrollment.state
                is Approved);
        } else {
            assert(records@[right].enrollment.state is Approved && records@[left].enrollment.state
                is Approved);
        }
    }
    if result is Ok && records@[left].enrollment.state is Approved {
        match result->Ok_0 {
            None => {},
            Some(index) => {
                let found = index as int;
                assert(records@[found].enrollment.state is Approved);
                if found < left {
                    assert(!(records@[found].enrollment.state is Approved
                        && records@[left].enrollment.state is Approved));
                } else if left < found {
                    assert(!(records@[left].enrollment.state is Approved
                        && records@[found].enrollment.state is Approved));
                }
            },
        }
    }
}

/// A claim is bound by every enrollment that is not over, and two that bind it to different volumes
/// are corrupt.
pub proof fn lemma_claim_is_bound_once(
    records: &Vec<AgentRegistryRecord>,
    at: int,
    result: CentralResult<Option<PvcVolumeBinding>>,
)
    requires
        call_ensures(binding_by_claim, (records,), result),
        0 <= at < records@.len(),
        !is_over(records@[at].enrollment.state),
    ensures
        result is Err ==> fails_with(result, CentralErrorCode::StorageFailure),
        result matches Ok(binding) ==> {
            &&& binding is Some
            &&& binding->0.pvc_identity_digest == records@[at].enrollment.pvc_identity_digest
            &&& binding->0.tenant_id@ == records@[at].enrollment.tenant_id@
            &&& binding->0.edge_cluster_id@ == records@[at].enrollment.edge_cluster_id@
            &&& binding->0.storage_volume_id@ == records@[at].enrollment.storage_volume_id@
        },
{
}

/// When an enrollment last changed: as its public side says, or when it was decided on, or issued.
pub open spec fn changed_at(record: AgentRegistryRecord) -> u64 {
    if record.storage_enrollment.updated_at_unix_ms is Some {
        record.storage_enrollment.updated_at_unix_ms->0
    } else if record.enrollment.decided_at_unix_ms is Some {
        record.enrollment.decided_at_unix_ms->0
    } else {
        record.enrollment.created_at_unix_ms
    }
}

/// An enrollment has a StorageVolume in the catalog once it is approved with a description.
pub open spec fn is_in_the_catalog(record: AgentRegistryRecord) -> bool {
    record.enrollment.state is Approved && record.storage_enrollment.descriptor is Some
}

/// An enrollment that is not approved, or has no description, leaves the catalog alone.
pub proof fn lemma_catalog_is_left_alone(
    record: &AgentRegistryRecord,
    existing: Option<&VolumeRow>,
    result: CentralResult<VolumeSync>,
)
    requires
        call_ensures(sync_volume_from_registry, (record, existing), result),
        !is_in_the_catalog(*record),
    ensures
        result is Ok && result->Ok_0 is Unchanged,
{
}

/// The row of a StorageVolume says what the enrollment was approved for.
pub open spec fn row_says(row: VolumeRow, record: AgentRegistryRecord, mode: Seq<char>) -> bool {
    let descriptor = record.storage_enrollment.descriptor->0;
    &&& row.display_name@ == descriptor.display_name@
    &&& row.edge_cluster_id@ == record.enrollment.edge_cluster_id@
    &&& row.region@ == descriptor.region@
    &&& row.backend_type@ == "pvc"@
    &&& row.access_mode@ == mode
    &&& column_is(row.pvc_namespace, descriptor.pvc_reference.namespace@)
    &&& column_is(row.pvc_claim_name, descriptor.pvc_reference.claim_name@)
}

/// A readiness of an Agent is shown as the state of its volume.
pub open spec fn shows(derived: DerivedVolumeState, shown: StorageVolumeState) -> bool {
    &&& shown is Ready <==> derived is Ready
    &&& shown is Degraded <==> derived is Degraded
    &&& shown is Unavailable <==> derived is Unavailable
}

/// An approved enrollment whose StorageVolume is not there yet brings it: described as approved, in
/// the state that its Agent derives with a heartbeat of half a minute, bound to the enrollment, in
/// its first version, as of the enrollment's last change.
pub proof fn lemma_volume_appears(
    record: &AgentRegistryRecord,
    derived: DerivedVolumeState,
    shown: StorageVolumeState,
    mode: StorageAccessMode,
    state_name: &'static str,
    mode_name: &'static str,
    first: String,
    result: CentralResult<VolumeSync>,
)
    requires
        call_ensures(sync_volume_from_registry, (record, None::<&VolumeRow>), result),
        call_ensures(
            AgentRegistryRecord::derived_volume_state,
            (record, changed_at(*record), 30_000),
            derived,
        ),
        shows(derived, shown),
        call_ensures(volume_state_name, (shown,), state_name),
        call_ensures(access_mode_name, (mode,), mode_name),
        call_ensures(decimal_text, (1u64,), first),
        is_in_the_catalog(*record),
        mode is ReadWriteMany
            <==> record.storage_enrollment.descriptor->0.access_mode is ReadWriteMany,
        mode is ReadWriteOnce
            <==> record.storage_enrollment.descriptor->0.access_mode is ReadWriteOnce,
    ensures
        changed_at(*record) > i64::MAX ==> fails_with(result, CentralErrorCode::ProtocolInvalid),
        changed_at(*record) <= i64::MAX ==> {
            &&& result matches Ok(VolumeSync::Insert(row, created_at))
            &&& row_says(row, *record, mode_name@)
            &&& row.state@ == state_name@
            &&& column_is(row.enrollment_id, record.enrollment.enrollment_id@)
            &&& row.resource_version@ == first@
            &&& created_at == changed_at(*record)
        },
{
}

/// A StorageVolume that is there follows its enrollment: it is left alone where it shows the state
/// and the enrollment already, and else takes them over in its next version. A volume of another
/// description, and for an initial enrollment one that is in use without any, is a conflict of owners.
pub proof fn lemma_volume_follows(
    record: &AgentRegistryRecord,
    row: &VolumeRow,
    derived: DerivedVolumeState,
    shown: StorageVolumeState,
    mode: StorageAccessMode,
    state_name: &'static str,
    mode_name: &'static str,
    version: &str,
    field: &str,
    number: CentralResult<u64>,
    result: CentralResult<VolumeSync>,
)
    requires
        call_ensures(sync_volume_from_registry, (record, Some(row)), result),
        call_ensures(
            AgentRegistryRecord::derived_volume_state,
            (record, changed_at(*record), 30_000),
            derived,
        ),
        shows(derived, shown),
        call_ensures(volume_state_name, (shown,), state_name),
        call_ensures(access_mode_name, (mode,), mode_name),
        call_ensures(parse_u64, (version, field), number),
        version@ == row.resource_version@,
        is_in_the_catalog(*record),
        mode is ReadWriteMany
            <==> record.storage_enrollment.descriptor->0.access_mode is ReadWriteMany,
        mode is ReadWriteOnce
            <==> record.storage_enrollment.descriptor->0.access_mode is ReadWriteOnce,
    ensures
        ({
            let described = row_says(*row, *record, mode_name@);
            let taken = record.enrollment.replaces_enrollment_id is None && row.enrollment_id is None
                && row.state@ != "unavailable"@;
            let current = row.state@ == state_name@ && column_is(
                row.enrollment_id,
                record.enrollment.enrollment_id@,
            );
            &&& !described || taken ==> fails_with(result, CentralErrorCode::VolumeOwnerConflict)
            &&& described && !taken && current ==> result is Ok && result->Ok_0 is Unchanged
            &&& described && !taken && !current && number is Ok && number->Ok_0 < u64::MAX
                && changed_at(*record) <= i64::MAX ==> {
                &&& result matches Ok(VolumeSync::Update(update))
                &&& update.state == shown
                &&& update.enrollment_id@ == record.enrollment.enrollment_id@
                &&& update.expected_resource_version == number->Ok_0
                &&& update.resource_version == number->Ok_0 + 1
                &&& update.updated_at_unix_ms == changed_at(*record)
            }
            &&& described && !taken && !current && (number is Err || number->Ok_0 == u64::MAX
                || changed_at(*record) > i64::MAX) ==> result is Err
        }),
{
}

} // verus!
