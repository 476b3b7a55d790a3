//! Enrollment aggregates as rows: the columns by which a stored payload is found and checked.
use vstd::prelude::*;

use crate::agent_registry::conflict::{
    binding_role, binding_role_text, is_binding_of, is_closed, is_terminal, pvc_binding,
    pvc_binding_role,
};
use crate::agent_registry::intent::PvcVolumeBinding;
use crate::agent_registry::records::{
    AgentEnrollmentState, AgentRegistryRecord, AgentRegistryRecordFormat,
};
use crate::agent_registry::repository::listing::{public_enrollment_created_at, public_since};
use crate::agent_registry::validation::{registry_record_fault, validate_registry_record};
use crate::digest::{digest_text, hex_text, ContentDigest, PvcIdentityDigest};
use crate::error::{corruption, corruption_fault, fault_of, CentralResult, Fault};
use crate::identifier::{is_named, names, AgentInstallationId, RequestId, UnixMillis};
use crate::storage::codec::{
    sqlite_millis, sqlite_millis_fault, stored_format_fault, validate_stored_format,
};
use crate::storage::names::{
    registration_kind_name, registration_kind_text, storage_enrollment_state_name,
    storage_enrollment_state_text,
};
use crate::text::{decimal, decimal_text, text_equals};

verus! {

/// The columns that identify a stored aggregate.
#[derive(Debug)]
pub struct RegistryIdentityColumns {
    pub enrollment_id: String,
    pub agent_id: String,
    pub token_id: String,
    pub token_request_id: String,
    pub token_digest: String,
    pub bootstrap_request_id: Option<String>,
    pub decision_request_id: Option<String>,
    pub installation_id: Option<String>,
    pub public_key_fingerprint: Option<String>,
    pub tenant_id: String,
    pub edge_cluster_id: String,
    pub storage_volume_id: String,
    pub pvc_identity_digest: String,
    pub pvc_binding_role: Option<String>,
    pub resource_version: String,
}

/// The columns by which public enrollments are listed.
#[derive(Debug)]
pub struct RegistryQueryColumns {
    pub enrollment_state: String,
    pub registration_kind: String,
    pub enrollment_created_at_unix_ms: i64,
    pub display_name: Option<String>,
}

/// The text of an optional column.
pub open spec fn column_text(column: Option<String>) -> Option<Seq<char>> {
    match column {
        Some(text) => Some(text@),
        None => None,
    }
}

/// The bootstrap request of an aggregate, where it has one.
pub open spec fn bootstrap_request_text(record: AgentRegistryRecord) -> Option<Seq<char>> {
    match record.enrollment.bootstrap_request_id {
        Some(request_id) => Some(request_id@),
        None => None,
    }
}

/// The decision request of an aggregate, where it has one.
pub open spec fn decision_request_text(record: AgentRegistryRecord) -> Option<Seq<char>> {
    match record.enrollment.decision_request {
        Some(request) => Some(request.decision_request_id@),
        None => None,
    }
}

/// The installation of an aggregate's candidate, where it has one.
pub open spec fn installation_text(record: AgentRegistryRecord) -> Option<Seq<char>> {
    match record.candidate {
        Some(candidate) => Some(candidate.installation_id@),
        None => None,
    }
}

/// The key of an aggregate's candidate, where it has one.
pub open spec fn fingerprint_text(record: AgentRegistryRecord) -> Option<Seq<char>> {
    match record.candidate {
        Some(candidate) => Some(digest_text(candidate.public_key_fingerprint@)),
        None => None,
    }
}

/// The role of an aggregate, where it has one.
pub open spec fn role_text(record: AgentRegistryRecord) -> Option<Seq<char>> {
    match binding_role(record) {
        Some(role) => Some(binding_role_text(role)),
        None => None,
    }
}

/// The name of an aggregate's Volume, where it has one.
pub open spec fn display_name_text(record: AgentRegistryRecord) -> Option<Seq<char>> {
    match record.storage_enrollment.descriptor {
        Some(descriptor) => Some(descriptor.display_name@),
        None => None,
    }
}

/// The columns identify the aggregate.
pub open spec fn identifies(columns: RegistryIdentityColumns, record: AgentRegistryRecord) -> bool {
    &&& columns.enrollment_id@ == record.enrollment.enrollment_id@
    &&& columns.agent_id@ == record.enrollment.reserved_agent_id@
    &&& columns.token_id@ == record.enrollment.token_id@
    &&& columns.token_request_id@ == record.enrollment.token_request_id@
    &&& columns.token_digest@ == digest_text(record.enrollment.bootstrap_token_digest@)
    &&& column_text(columns.bootstrap_request_id) == bootstrap_request_text(record)
    &&& column_text(columns.decision_request_id) == decision_request_text(record)
    &&& column_text(columns.installation_id) == installation_text(record)
    &&& column_text(columns.public_key_fingerprint) == fingerprint_text(record)
    &&& columns.tenant_id@ == record.enrollment.tenant_id@
    &&& columns.edge_cluster_id@ == record.enrollment.edge_cluster_id@
    &&& columns.storage_volume_id@ == record.enrollment.storage_volume_id@
    &&& columns.pvc_identity_digest@ == digest_text(record.enrollment.pvc_identity_digest@)
    &&& column_text(columns.pvc_binding_role) == role_text(record)
    &&& columns.resource_version@ == decimal(record.resource_version as nat)
}

/// The public state of an aggregate, as it is indexed.
pub open spec fn indexed_state_text(record: AgentRegistryRecord) -> Seq<char> {
    if record.storage_enrollment.record_format is LegacyV2 {
        "legacy"@
    } else {
        match record.storage_enrollment.state {
            Some(state) => storage_enrollment_state_text(state),
            None => if record.enrollment.state is Revoked {
                "revoked"@
            } else {
                "token_issued"@
            },
        }
    }
}

pub fn indexed_enrollment_state(record: &AgentRegistryRecord) -> (name: &'static str)
    ensures
        name@ == indexed_state_text(*record),
{
    if record.storage_enrollment.record_format == AgentRegistryRecordFormat::LegacyV2 {
        return "legacy";
    }
    match record.storage_enrollment.state {
        Some(state) => storage_enrollment_state_name(state),
        None => if record.enrollment.state == AgentEnrollmentState::Revoked {
            "revoked"
        } else {
            "token_issued"
        },
    }
}

/// The registration kind of an aggregate, as it is indexed.
pub open spec fn indexed_kind_text(record: AgentRegistryRecord) -> Seq<char> {
    if record.storage_enrollment.record_format is LegacyV2 {
        "legacy"@
    } else {
        match record.storage_enrollment.registration_kind {
            Some(kind) => registration_kind_text(kind),
            None => "legacy"@,
        }
    }
}

pub fn indexed_registration_kind(record: &AgentRegistryRecord) -> (name: &'static str)
    ensures
        name@ == indexed_kind_text(*record),
{
    if record.storage_enrollment.record_format == AgentRegistryRecordFormat::LegacyV2 {
        return "legacy";
    }
    match record.storage_enrollment.registration_kind {
        Some(kind) => registration_kind_name(kind),
        None => "legacy",
    }
}

/// When an aggregate became public, as it is indexed; zero where it is not listed.
pub open spec fn indexed_since(record: AgentRegistryRecord) -> UnixMillis {
    if record.storage_enrollment.record_format is LegacyV2 || record.storage_enrollment.state is None {
        0
    } else {
        public_since(record)
    }
}

pub fn indexed_enrollment_created_at(record: &AgentRegistryRecord) -> (result: CentralResult<i64>)
    ensures
        fault_of(result) == sqlite_millis_fault(indexed_since(*record)),
        result matches Ok(column) ==> column == indexed_since(*record),
{
    if record.storage_enrollment.record_format == AgentRegistryRecordFormat::LegacyV2
        || record.storage_enrollment.state.is_none() {
        return Ok(0);
    }
    sqlite_millis(public_enrollment_created_at(record))
}

/// The columns list the aggregate.
pub open spec fn lists(columns: RegistryQueryColumns, record: AgentRegistryRecord) -> bool {
    &&& columns.enrollment_state@ == indexed_state_text(record)
    &&& columns.registration_kind@ == indexed_kind_text(record)
    &&& columns.enrollment_created_at_unix_ms == indexed_since(record)
    &&& column_text(columns.display_name) == display_name_text(record)
}

/// Writes the identity of an aggregate.
pub fn identity_columns(record: &AgentRegistryRecord) -> (columns: RegistryIdentityColumns)
    ensures
        identifies(columns, *record),
{
    let enrollment = &record.enrollment;
    RegistryIdentityColumns {
        enrollment_id: String::from_str(enrollment.enrollment_id.as_str()),
        agent_id: String::from_str(enrollment.reserved_agent_id.as_str()),
        token_id: String::from_str(enrollment.token_id.as_str()),
        token_request_id: String::from_str(enrollment.token_request_id.as_str()),
        token_digest: hex_text(&enrollment.bootstrap_token_digest),
        bootstrap_request_id: match &enrollment.bootstrap_request_id {
            Some(request_id) => Some(String::from_str(request_id.as_str())),
            None => None,
        },
        decision_request_id: match &enrollment.decision_request {
            Some(request) => Some(String::from_str(request.decision_request_id.as_str())),
            None => None,
        },
        installation_id: match &record.candidate {
            Some(candidate) => Some(String::from_str(candidate.installation_id.as_str())),
            None => None,
        },
        public_key_fingerprint: match &record.candidate {
            Some(candidate) => Some(hex_text(&candidate.public_key_fingerprint)),
            None => None,
        },
        tenant_id: String::from_str(enrollment.tenant_id.as_str()),
        edge_cluster_id: String::from_str(enrollment.edge_cluster_id.as_str()),
        storage_volume_id: String::from_str(enrollment.storage_volume_id.as_str()),
        pvc_identity_digest: hex_text(&enrollment.pvc_identity_digest),
        pvc_binding_role: match pvc_binding_role(record) {
            Some(role) => Some(String::from_str(role.name())),
            None => None,
        },
        resource_version: decimal_text(record.resource_version),
    }
}

/// Writes the columns by which an aggregate is listed.
pub fn query_columns(record: &AgentRegistryRecord) -> (result: CentralResult<RegistryQueryColumns>)
    ensures
        fault_of(result) == sqlite_millis_fault(indexed_since(*record)),
        result matches Ok(columns) ==> lists(columns, *record),
{
    let created_at: i64 = indexed_enrollment_created_at(record)?;
    Ok(
        RegistryQueryColumns {
            enrollment_state: String::from_str(indexed_enrollment_state(record)),
            registration_kind: String::from_str(indexed_registration_kind(record)),
            enrollment_created_at_unix_ms: created_at,
            display_name: match &record.storage_enrollment.descriptor {
                Some(descriptor) => Some(descriptor.display_name.clone()),
                None => None,
            },
        },
    )
}

fn same_column(left: &Option<String>, right: &Option<String>) -> (same: bool)
    ensures
        same == (column_text(*left) == column_text(*right)),
{
    match (left, right) {
        (Some(left), Some(right)) => text_equals(left.as_str(), right.as_str()),
        (None, None) => true,
        _ => false,
    }
}

fn columns_identify(columns: &RegistryIdentityColumns, record: &AgentRegistryRecord) -> (matched:
    bool)
    ensures
        matched == identifies(*columns, *record),
{
    let expected = identity_columns(record);
    text_equals(columns.enrollment_id.as_str(), expected.enrollment_id.as_str()) && text_equals(
        columns.agent_id.as_str(),
        expected.agent_id.as_str(),
    ) && text_equals(columns.token_id.as_str(), expected.token_id.as_str()) && text_equals(
        columns.token_request_id.as_str(),
        expected.token_request_id.as_str(),
    ) && text_equals(columns.token_digest.as_str(), expected.token_digest.as_str()) && same_column(
        &columns.bootstrap_request_id,
        &expected.bootstrap_request_id,
    ) && same_column(&columns.decision_request_id, &expected.decision_request_id) && same_column(
        &columns.installation_id,
        &expected.installation_id,
    ) && same_column(&columns.public_key_fingerprint, &expected.public_key_fingerprint)
        && text_equals(columns.tenant_id.as_str(), expected.tenant_id.as_str()) && text_equals(
        columns.edge_cluster_id.as_str(),
        expected.edge_cluster_id.as_str(),
    ) && text_equals(columns.storage_volume_id.as_str(), expected.storage_volume_id.as_str())
        && text_equals(
        columns.pvc_identity_digest.as_str(),
        expected.pvc_identity_digest.as_str(),
    ) && same_column(&columns.pvc_binding_role, &expected.pvc_binding_role) && text_equals(
        columns.resource_version.as_str(),
        expected.resource_version.as_str(),
    )
}

/// Why a stored aggregate is refused.
pub open spec fn registry_row_fault(
    format: u32,
    record: AgentRegistryRecord,
    derived_pvc_identity: Option<PvcIdentityDigest>,
    columns: RegistryIdentityColumns,
) -> Option<Fault> {
    if stored_format_fault(format, "Agent registry"@) is Some {
        stored_format_fault(format, "Agent registry"@)
    } else if registry_record_fault(record, derived_pvc_identity) is Some {
        registry_record_fault(record, derived_pvc_identity)
    } else if !identifies(columns, record) {
        Some(
            corruption_fault("Agent registry indexed columns differ from the stored aggregate"@),
        )
    } else {
        None
    }
}

/// Checks the payload of a stored aggregate, in its format, against its rules and its columns.
pub fn decode_row(
    format: u32,
    record: AgentRegistryRecord,
    derived_pvc_identity: Option<PvcIdentityDigest>,
    columns: &RegistryIdentityColumns,
) -> (result: CentralResult<AgentRegistryRecord>)
    ensures
        fault_of(result) == registry_row_fault(format, record, derived_pvc_identity, *columns),
        result matches Ok(read) ==> read == record,
{
    validate_stored_format(format, "Agent registry")?;
    validate_registry_record(&record, derived_pvc_identity)?;
    if !columns_identify(columns, &record) {
        return Err(corruption("Agent registry indexed columns differ from the stored aggregate"));
    }
    Ok(record)
}

/// Why the listing columns of a stored aggregate are refused.
pub open spec fn query_columns_fault(
    record: AgentRegistryRecord,
    columns: RegistryQueryColumns,
) -> Option<Fault> {
    let mismatch = Some(
        corruption_fault("Agent registry public query columns differ from the stored aggregate"@),
    );
    if columns.enrollment_state@ != indexed_state_text(record) || columns.registration_kind@
        != indexed_kind_text(record) {
        mismatch
    } else if sqlite_millis_fault(indexed_since(record)) is Some {
        sqlite_millis_fault(indexed_since(record))
    } else if !lists(columns, record) {
        mismatch
    } else {
        None
    }
}

/// Checks the columns by which a stored aggregate is listed.
pub fn validate_query_columns(record: &AgentRegistryRecord, columns: &RegistryQueryColumns) -> (result:
    CentralResult<()>)
    ensures
        fault_of(result) == query_columns_fault(*record, *columns),
{
    if !text_equals(columns.enrollment_state.as_str(), indexed_enrollment_state(record))
        || !text_equals(columns.registration_kind.as_str(), indexed_registration_kind(record)) {
        return Err(
            corruption("Agent registry public query columns differ from the stored aggregate"),
        );
    }
    let created_at: i64 = indexed_enrollment_created_at(record)?;
    let name_matches = match (&columns.display_name, &record.storage_enrollment.descriptor) {
        (Some(name), Some(descriptor)) => text_equals(
            name.as_str(),
            descriptor.display_name.as_str(),
        ),
        (None, None) => true,
        _ => false,
    };
    if columns.enrollment_created_at_unix_ms != created_at || !name_matches {
        return Err(
            corruption("Agent registry public query columns differ from the stored aggregate"),
        );
    }
    Ok(())
}

/// An aggregate that obeys its rules is accepted when it is read back with the columns that were
/// written for it.
pub proof fn lemma_written_row_is_accepted(
    record: AgentRegistryRecord,
    derived_pvc_identity: Option<PvcIdentityDigest>,
    identity: RegistryIdentityColumns,
    query: RegistryQueryColumns,
)
    requires
        registry_record_fault(record, derived_pvc_identity) is None,
        sqlite_millis_fault(indexed_since(record)) is None,
        identifies(identity, record),
        lists(query, record),
    ensures
        registry_row_fault(
            crate::storage::codec::STORED_FORMAT_VERSION,
            record,
            derived_pvc_identity,
            identity,
        ) is None,
        query_columns_fault(record, query) is None,
{
}

/// An optional column that aggregates are looked up by, and the value that was looked for.
#[derive(Debug)]
pub enum RegistryLookup {
    BootstrapRequest(RequestId),
    DecisionRequest(RequestId),
    Installation(AgentInstallationId),
    PublicKey(ContentDigest),
}

/// The aggregate holds the value that was looked for.
pub open spec fn answers(record: AgentRegistryRecord, lookup: RegistryLookup) -> bool {
    match lookup {
        RegistryLookup::BootstrapRequest(request_id) => names(
            record.enrollment.bootstrap_request_id,
            request_id@,
        ),
        RegistryLookup::DecisionRequest(request_id) => {
            record.enrollment.decision_request matches Some(request) && request.decision_request_id@
                == request_id@
        },
        RegistryLookup::Installation(installation_id) => {
            record.candidate matches Some(candidate) && candidate.installation_id@
                == installation_id@
        },
        RegistryLookup::PublicKey(fingerprint) => {
            record.candidate matches Some(candidate) && candidate.public_key_fingerprint
                == fingerprint
        },
    }
}

/// What a lookup that found another aggregate says.
pub open spec fn lookup_text(lookup: RegistryLookup) -> Seq<char> {
    match lookup {
        RegistryLookup::BootstrapRequest(_) =>
            "bootstrap request index differs from the stored aggregate"@,
        RegistryLookup::DecisionRequest(_) =>
            "decision request index differs from the stored aggregate"@,
        RegistryLookup::Installation(_) => "installation index differs from the stored aggregate"@,
        RegistryLookup::PublicKey(_) => "public-key index differs from the stored aggregate"@,
    }
}

/// Checks that an aggregate which a column led to holds the value that was looked for.
pub fn validate_lookup(record: &AgentRegistryRecord, lookup: &RegistryLookup) -> (result:
    CentralResult<()>)
    ensures
        fault_of(result) == (if answers(*record, *lookup) {
            None
        } else {
            Some(corruption_fault(lookup_text(*lookup)))
        }),
{
    match lookup {
        RegistryLookup::BootstrapRequest(request_id) => {
            if !is_named(&record.enrollment.bootstrap_request_id, request_id) {
                return Err(corruption("bootstrap request index differs from the stored aggregate"));
            }
        },
        RegistryLookup::DecisionRequest(request_id) => {
            let matched = match &record.enrollment.decision_request {
                Some(request) => request.decision_request_id == *request_id,
                None => false,
            };
            if !matched {
                return Err(corruption("decision request index differs from the stored aggregate"));
            }
        },
        RegistryLookup::Installation(installation_id) => {
            let matched = match &record.candidate {
                Some(candidate) => candidate.installation_id == *installation_id,
                None => false,
            };
            if !matched {
                return Err(corruption("installation index differs from the stored aggregate"));
            }
        },
        RegistryLookup::PublicKey(fingerprint) => {
            let matched = match &record.candidate {
                Some(candidate) => candidate.public_key_fingerprint == *fingerprint,
                None => false,
            };
            if !matched {
                return Err(corruption("public-key index differs from the stored aggregate"));
            }
        },
    }
    Ok(())
}

/// At most one aggregate owns the Volume.
pub open spec fn has_one_owner(records: Seq<AgentRegistryRecord>) -> bool {
    forall|i: int, j: int|
        0 <= i < j < records.len() ==> !((#[trigger] records[i]).enrollment.state is Approved && (
        #[trigger] records[j]).enrollment.state is Approved)
}

/// Picks the owner among the aggregates of one Volume.
pub fn current_by_volume(records: &Vec<AgentRegistryRecord>) -> (result: CentralResult<
    Option<usize>,
>)
    ensures
        fault_of(result) == (if has_one_owner(records@) {
            None
        } else {
            Some(corruption_fault("multiple approved Agents own one Tenant Volume"@))
        }),
        result matches Ok(Some(index)) ==> index < records@.len()
            && records@[index as int].enrollment.state is Approved,
        result matches Ok(None) ==> forall|i: int|
            0 <= i < records@.len() ==> !((#[trigger] records@[i]).enrollment.state is Approved),
{
    let mut current: Option<usize> = None;
    let mut index: usize = 0;
    while index < records.len()
        invariant
            index <= records@.len(),
            current matches Some(at) ==> at < index
                && records@[at as int].enrollment.state is Approved,
            forall|i: int|
                0 <= i < index && (#[trigger] records@[i]).enrollment.state is Approved ==> current
                    == Some(i as usize),
        decreases records.len() - index,
    {
        if records[index].enrollment.state == AgentEnrollmentState::Approved {
            if let Some(at) = current {
                assert(records@[at as int].enrollment.state is Approved);
                assert(records@[index as int].enrollment.state is Approved);
                return Err(corruption("multiple approved Agents own one Tenant Volume"));
            }
            current = Some(index);
        }
        index += 1;
    }
    Ok(current)
}

/// Two open aggregates are bound to the same Volume by the same claim.
pub open spec fn bound_alike(left: AgentRegistryRecord, right: AgentRegistryRecord) -> bool {
    &&& left.enrollment.pvc_identity_digest == right.enrollment.pvc_identity_digest
    &&& left.enrollment.tenant_id@ == right.enrollment.tenant_id@
    &&& left.enrollment.edge_cluster_id@ == right.enrollment.edge_cluster_id@
    &&& left.enrollment.storage_volume_id@ == right.enrollment.storage_volume_id@
}

/// Open aggregates of one claim are all bound to one Volume.
pub open spec fn has_one_binding(records: Seq<AgentRegistryRecord>) -> bool {
    forall|i: int, j: int|
        0 <= i < j < records.len() && !is_closed((#[trigger] records[i]).enrollment.state)
            && !is_closed((#[trigger] records[j]).enrollment.state) ==> bound_alike(
            records[i],
            records[j],
        )
}

/// Finds the Volume that the aggregates of one claim are bound to.
pub fn binding_by_claim(records: &Vec<AgentRegistryRecord>) -> (result: CentralResult<
    Option<PvcVolumeBinding>,
>)
    ensures
        fault_of(result) == (if has_one_binding(records@) {
            None
        } else {
            Some(
                corruption_fault("one EdgeCluster PVC identity is bound to multiple Volumes"@),
            )
        }),
        result matches Ok(binding) ==> forall|i: int|
            0 <= i < records@.len() && !is_closed((#[trigger] records@[i]).enrollment.state) ==> (
            binding matches Some(bound) && is_binding_of(bound, records@[i])),
        result matches Ok(Some(_)) ==> exists|i: int|
            0 <= i < records@.len() && !is_closed((#[trigger] records@[i]).enrollment.state),
{
    let mut first: Option<usize> = None;
    let mut index: usize = 0;
    while index < records.len()
        invariant
            index <= records@.len(),
            first matches Some(at) ==> at < index && !is_closed(
                records@[at as int].enrollment.state,
            ),
            forall|i: int|
                0 <= i < index && !is_closed((#[trigger] records@[i]).enrollment.state) ==> (
                first matches Some(at) && bound_alike(records@[at as int], records@[i])),
        decreases records.len() - index,
    {
        let record = &records[index];
        if !is_terminal(record.enrollment.state) {
            match first {
                Some(at) => {
                    let bound = &records[at].enrollment;
                    if bound.pvc_identity_digest != record.enrollment.pvc_identity_digest
                        || bound.tenant_id != record.enrollment.tenant_id || bound.edge_cluster_id
                        != record.enrollment.edge_cluster_id || bound.storage_volume_id
                        != record.enrollment.storage_volume_id {
                        assert(!bound_alike(records@[at as int], records@[index as int]));
                        return Err(
                            corruption("one EdgeCluster PVC identity is bound to multiple Volumes"),
                        );
                    }
                },
                None => {
                    first = Some(index);
                },
            }
        }
        index += 1;
    }
    match first {
        Some(at) => {
            assert(!is_closed(records@[at as int].enrollment.state));
            Ok(Some(pvc_binding(&records[at])))
        },
        None => Ok(None),
    }
}

} // verus!
