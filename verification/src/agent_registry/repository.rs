//! The enrollment aggregates of every tenant, and the rules by which they are written.
use vstd::prelude::*;

pub mod expiry;
pub mod listing;

use crate::agent_registry::conflict::{
    active_enrollment_failure, active_enrollment_fault, blocks,
    bootstrap_request_identity_conflicts, bootstrap_requests_conflict, candidate_identity_conflicts,
    candidates_conflict, decides_insert, decision_request_identity_conflicts,
    decision_requests_conflict, identities_conflict, is_binding_of, is_closed, is_first_decisive,
    is_terminal, keeps_out, pvc_binding, same_claim, same_token_request, same_volume, binding_role,
};
use crate::agent_registry::intent::{AgentRegistryInsertOutcome, PvcVolumeBinding};
use crate::agent_registry::records::{AgentEnrollmentState, AgentRegistryRecord};
use crate::agent_registry::transition::{
    checked_next_registry_resource_version, ensure_immutable_registry_scope,
    registry_scope_is_kept, replace_transition_fault, replacement_transition_fault,
    validate_registry_replace_transition, validate_registry_replacement_transition,
};
use crate::agent_registry::validation::{
    registry_insert_fault, registry_record_fault, validate_registry_insert,
    validate_registry_record,
};
use crate::digest::{ContentDigest, PvcIdentityDigest};
use crate::equality::Same;
use crate::error::{
    corruption_fault, failure, fault, fault_of, final_failure, final_fault, CentralError,
    CentralErrorCode, CentralResult, Fault,
};
use crate::identifier::{
    names, AgentEnrollmentId, AgentId, AgentInstallationId, EdgeClusterId, Identifier, RequestId,
    StorageVolumeId, TenantId, UnixMillis,
};
use crate::table::{lemma_entry_is_mapped, lemma_mapped_is_entry, Named, Table};

verus! {

/// A stored aggregate, and the claim identity that its frozen descriptor derives to.
pub struct RegistryEntry {
    pub record: AgentRegistryRecord,
    pub derived_pvc_identity: Option<PvcIdentityDigest>,
}

/// What the registry holds.
#[verifier::ext_equal]
pub ghost struct RegistryView {
    /// Aggregates by enrollment.
    pub records: Map<Seq<char>, RegistryEntry>,
    /// The latest signing time that was accepted from a bootstrapping Agent, by enrollment.
    pub watermarks: Map<Seq<char>, UnixMillis>,
}

/// Two open enrollments of one Volume or one claim hold the same Volume in different roles.
pub open spec fn roles_are_apart(left: AgentRegistryRecord, right: AgentRegistryRecord) -> bool {
    (same_volume(left, right) || same_claim(left, right)) && binding_role(left) is Some
        && binding_role(right) is Some ==> binding_role(left) != binding_role(right)
        && same_volume(left, right)
}

/// Two aggregates that share no identity and no role.
pub open spec fn are_apart(left: AgentRegistryRecord, right: AgentRegistryRecord) -> bool {
    &&& !identities_conflict(left, right)
    &&& !bootstrap_requests_conflict(left, right)
    &&& !decision_requests_conflict(left, right)
    &&& !candidates_conflict(left, right)
    &&& roles_are_apart(left, right)
}

impl RegistryView {
    /// Every aggregate obeys its rules, goes by its own identity and stands apart from the others.
    pub open spec fn is_consistent(self) -> bool {
        &&& forall|name: Seq<char>| #[trigger]
            self.records.contains_key(name) ==> {
                &&& self.records[name].record.enrollment.enrollment_id@ == name
                &&& registry_record_fault(
                    self.records[name].record,
                    self.records[name].derived_pvc_identity,
                ) is None
            }
        &&& forall|left: Seq<char>, right: Seq<char>|
            left != right && #[trigger] self.records.contains_key(left)
                && #[trigger] self.records.contains_key(right) ==> are_apart(
                self.records[left].record,
                self.records[right].record,
            )
        &&& forall|name: Seq<char>| #[trigger]
            self.watermarks.contains_key(name) ==> self.records.contains_key(name)
    }
}

/// The enrollment aggregates, in memory.
pub struct InMemoryAgentRegistry {
    records: Table<Identifier, RegistryEntry>,
    watermarks: Table<Identifier, UnixMillis>,
}

impl View for InMemoryAgentRegistry {
    type V = RegistryView;

    closed spec fn view(&self) -> RegistryView {
        RegistryView { records: self.records@, watermarks: self.watermarks@ }
    }
}

/// An aggregate that was looked up, or none where none is wanted.
pub open spec fn is_found(
    records: Map<Seq<char>, RegistryEntry>,
    wanted: spec_fn(AgentRegistryRecord) -> bool,
    found: Option<AgentRegistryRecord>,
) -> bool {
    match found {
        Some(record) => exists|name: Seq<char>|
            {
                &&& #[trigger] records.contains_key(name)
                &&& wanted(records[name].record)
                &&& record.same(records[name].record)
            },
        None => forall|name: Seq<char>| #[trigger]
            records.contains_key(name) ==> !wanted(records[name].record),
    }
}

/// Wanted: the enrollment of an Agent.
pub open spec fn of_agent(agent_id: Seq<char>) -> spec_fn(AgentRegistryRecord) -> bool {
    |record: AgentRegistryRecord| record.enrollment.reserved_agent_id@ == agent_id
}

/// Wanted: the enrollment of a token request.
pub open spec fn of_token_request(tenant_id: Seq<char>, request_id: Seq<char>) -> spec_fn(
    AgentRegistryRecord,
) -> bool {
    |record: AgentRegistryRecord|
        record.enrollment.tenant_id@ == tenant_id && record.enrollment.token_request_id@
            == request_id
}

/// Wanted: the enrollment of a bootstrap token.
pub open spec fn of_token(digest: ContentDigest) -> spec_fn(AgentRegistryRecord) -> bool {
    |record: AgentRegistryRecord| record.enrollment.bootstrap_token_digest == digest
}

/// Wanted: the enrollment of a bootstrap request.
pub open spec fn of_bootstrap_request(tenant_id: Seq<char>, request_id: Seq<char>) -> spec_fn(
    AgentRegistryRecord,
) -> bool {
    |record: AgentRegistryRecord|
        record.enrollment.tenant_id@ == tenant_id && names(
            record.enrollment.bootstrap_request_id,
            request_id,
        )
}

/// Wanted: the enrollment of a decision.
pub open spec fn of_decision_request(tenant_id: Seq<char>, request_id: Seq<char>) -> spec_fn(
    AgentRegistryRecord,
) -> bool {
    |record: AgentRegistryRecord|
        record.enrollment.tenant_id@ == tenant_id && (
        record.enrollment.decision_request matches Some(request) && request.decision_request_id@
            == request_id)
}

/// Wanted: the enrollment of an installation.
pub open spec fn of_installation(installation_id: Seq<char>) -> spec_fn(
    AgentRegistryRecord,
) -> bool {
    |record: AgentRegistryRecord|
        record.candidate matches Some(candidate) && candidate.installation_id@ == installation_id
}

/// Wanted: the enrollment of a public key.
pub open spec fn of_public_key(fingerprint: ContentDigest) -> spec_fn(AgentRegistryRecord) -> bool {
    |record: AgentRegistryRecord|
        record.candidate matches Some(candidate) && candidate.public_key_fingerprint == fingerprint
}

/// Wanted: the enrollment that owns a Volume.
pub open spec fn owning(tenant_id: Seq<char>, storage_volume_id: Seq<char>) -> spec_fn(
    AgentRegistryRecord,
) -> bool {
    |record: AgentRegistryRecord|
        {
            &&& record.enrollment.tenant_id@ == tenant_id
            &&& record.enrollment.storage_volume_id@ == storage_volume_id
            &&& record.enrollment.state is Approved
        }
}

/// Wanted: an open enrollment of a claim.
pub open spec fn claiming(edge_cluster_id: Seq<char>, digest: PvcIdentityDigest) -> spec_fn(
    AgentRegistryRecord,
) -> bool {
    |record: AgentRegistryRecord|
        {
            &&& record.enrollment.edge_cluster_id@ == edge_cluster_id
            &&& record.enrollment.pvc_identity_digest == digest
            &&& !is_closed(record.enrollment.state)
        }
}

/// An enrollment that is not there.
pub open spec fn missing_fault(message: Seq<char>) -> Fault {
    final_fault(CentralErrorCode::EnrollmentNotFound, message)
}

/// The failure of an enrollment that is not there.
pub fn missing(message: &str) -> (failure: CentralError)
    ensures
        failure@ == missing_fault(message@),
{
    final_failure(CentralErrorCode::EnrollmentNotFound, message)
}

/// Some other aggregate stands in a relation to a record.
pub open spec fn clashes(
    records: Map<Seq<char>, RegistryEntry>,
    record: AgentRegistryRecord,
    related: spec_fn(AgentRegistryRecord, AgentRegistryRecord) -> bool,
) -> bool {
    exists|name: Seq<char>|
        {
            &&& #[trigger] records.contains_key(name)
            &&& name != record.enrollment.enrollment_id@
            &&& related(records[name].record, record)
        }
}

/// Two aggregates of one installation or one key.
pub open spec fn by_candidate() -> spec_fn(AgentRegistryRecord, AgentRegistryRecord) -> bool {
    |left: AgentRegistryRecord, right: AgentRegistryRecord| candidates_conflict(left, right)
}

/// Two aggregates of one decision.
pub open spec fn by_decision() -> spec_fn(AgentRegistryRecord, AgentRegistryRecord) -> bool {
    |left: AgentRegistryRecord, right: AgentRegistryRecord| decision_requests_conflict(left, right)
}

/// Two aggregates of one bootstrap request.
pub open spec fn by_bootstrap() -> spec_fn(AgentRegistryRecord, AgentRegistryRecord) -> bool {
    |left: AgentRegistryRecord, right: AgentRegistryRecord|
        bootstrap_requests_conflict(left, right)
}

/// Why an update may not take an identity that another aggregate has.
pub open spec fn clash_fault(
    records: Map<Seq<char>, RegistryEntry>,
    record: AgentRegistryRecord,
) -> Option<Fault> {
    if clashes(records, record, by_candidate()) {
        Some(
            final_fault(
                CentralErrorCode::AgentIdentityMismatch,
                "Agent candidate identity is already bound to another enrollment"@,
            ),
        )
    } else if clashes(records, record, by_decision()) {
        Some(
            final_fault(
                CentralErrorCode::EnrollmentDecisionConflict,
                "Agent decision request identity is already bound to another enrollment"@,
            ),
        )
    } else if clashes(records, record, by_bootstrap()) {
        Some(
            final_fault(
                CentralErrorCode::EnrollmentIdReused,
                "Agent registry request identity is already bound to another enrollment"@,
            ),
        )
    } else {
        None
    }
}

/// Why an aggregate may not be replaced, apart from identities that others have.
pub open spec fn replace_fault(
    stored: Option<AgentRegistryRecord>,
    expected_resource_version: u64,
    record: AgentRegistryRecord,
    derived_pvc_identity: Option<PvcIdentityDigest>,
) -> Option<Fault> {
    if registry_record_fault(record, derived_pvc_identity) is Some {
        registry_record_fault(record, derived_pvc_identity)
    } else {
        match stored {
            None => Some(missing_fault("Agent enrollment disappeared during update"@)),
            Some(stored) => if expected_resource_version == u64::MAX {
                Some(corruption_fault("Agent registry ResourceVersion is exhausted"@))
            } else if stored.resource_version != expected_resource_version
                || record.resource_version != expected_resource_version + 1 {
                Some(
                    fault(
                        CentralErrorCode::ConcurrentUpdate,
                        "Agent registry ResourceVersion changed"@,
                    ),
                )
            } else if !registry_scope_is_kept(stored, record) {
                Some(
                    final_fault(
                        CentralErrorCode::AgentIdentityMismatch,
                        "Agent registry update attempted to change immutable identity or Volume scope"@,
                    ),
                )
            } else {
                replace_transition_fault(stored, record)
            },
        }
    }
}

/// Checks the replacement of an aggregate against the stored one.
pub fn validate_replace(
    stored: Option<&AgentRegistryRecord>,
    expected_resource_version: u64,
    record: &AgentRegistryRecord,
    derived_pvc_identity: Option<PvcIdentityDigest>,
) -> (result: CentralResult<()>)
    ensures
        fault_of(result) == replace_fault(
            match stored {
                Some(present) => Some(*present),
                None => None,
            },
            expected_resource_version,
            *record,
            derived_pvc_identity,
        ),
{
    validate_registry_record(record, derived_pvc_identity)?;
    let stored = match stored {
        Some(stored) => stored,
        None => return Err(missing("Agent enrollment disappeared during update")),
    };
    let next: u64 = checked_next_registry_resource_version(expected_resource_version)?;
    if stored.resource_version != expected_resource_version || record.resource_version != next {
        return Err(
            failure(
                CentralErrorCode::ConcurrentUpdate,
                "Agent registry ResourceVersion changed",
            ),
        );
    }
    ensure_immutable_registry_scope(stored, record)?;
    validate_registry_replace_transition(stored, record)
}

/// Why one write may not revoke an owner and activate its replacement, apart from identities that
/// others have.
pub open spec fn activation_fault(
    stored_previous: Option<AgentRegistryRecord>,
    expected_previous: u64,
    revoked: RegistryEntry,
    stored_replacement: Option<AgentRegistryRecord>,
    expected_replacement: u64,
    replacement: RegistryEntry,
) -> Option<Fault> {
    if registry_record_fault(revoked.record, revoked.derived_pvc_identity) is Some {
        registry_record_fault(revoked.record, revoked.derived_pvc_identity)
    } else if registry_record_fault(replacement.record, replacement.derived_pvc_identity) is Some {
        registry_record_fault(replacement.record, replacement.derived_pvc_identity)
    } else if stored_previous is None {
        Some(missing_fault("replacement target enrollment is missing"@))
    } else if stored_replacement is None {
        Some(missing_fault("replacement enrollment is missing"@))
    } else {
        let transition = replacement_transition_fault(
            stored_previous->0,
            expected_previous,
            revoked.record,
            stored_replacement->0,
            expected_replacement,
            replacement.record,
        );
        if transition is Some {
            transition
        } else if !registry_scope_is_kept(stored_previous->0, revoked.record)
            || !registry_scope_is_kept(stored_replacement->0, replacement.record) {
            Some(
                final_fault(
                    CentralErrorCode::AgentIdentityMismatch,
                    "Agent registry update attempted to change immutable identity or Volume scope"@,
                ),
            )
        } else {
            None
        }
    }
}

/// Checks a write that revokes an owner and activates its replacement.
pub fn validate_activation(
    stored_previous: Option<&AgentRegistryRecord>,
    expected_previous: u64,
    revoked: &RegistryEntry,
    stored_replacement: Option<&AgentRegistryRecord>,
    expected_replacement: u64,
    replacement: &RegistryEntry,
) -> (result: CentralResult<()>)
    ensures
        fault_of(result) == activation_fault(
            match stored_previous {
                Some(present) => Some(*present),
                None => None,
            },
            expected_previous,
            *revoked,
            match stored_replacement {
                Some(present) => Some(*present),
                None => None,
            },
            expected_replacement,
            *replacement,
        ),
{
    validate_registry_record(&revoked.record, revoked.derived_pvc_identity)?;
    validate_registry_record(&replacement.record, replacement.derived_pvc_identity)?;
    let stored_previous = match stored_previous {
        Some(stored) => stored,
        None => return Err(missing("replacement target enrollment is missing")),
    };
    let stored_replacement = match stored_replacement {
        Some(stored) => stored,
        None => return Err(missing("replacement enrollment is missing")),
    };
    validate_registry_replacement_transition(
        stored_previous,
        expected_previous,
        &revoked.record,
        stored_replacement,
        expected_replacement,
        &replacement.record,
    )?;
    ensure_immutable_registry_scope(stored_previous, &revoked.record)?;
    ensure_immutable_registry_scope(stored_replacement, &replacement.record)
}

/// An ordinary write changes the role of an enrollment only to give it up.
pub proof fn lemma_replace_keeps_role(stored: AgentRegistryRecord, updated: AgentRegistryRecord)
    requires
        registry_scope_is_kept(stored, updated),
        replace_transition_fault(stored, updated) is None,
    ensures
        binding_role(updated) is Some ==> binding_role(updated) == binding_role(stored),
{
}

/// An ordinary write leaves every other aggregate apart, unless it takes a candidate, a decision
/// or a bootstrap request that another one has.
proof fn lemma_replace_stays_apart(
    stored: AgentRegistryRecord,
    updated: AgentRegistryRecord,
    other: AgentRegistryRecord,
)
    requires
        registry_scope_is_kept(stored, updated),
        binding_role(updated) is Some ==> binding_role(updated) == binding_role(stored),
        are_apart(stored, other),
        !candidates_conflict(other, updated),
        !decision_requests_conflict(other, updated),
        !bootstrap_requests_conflict(other, updated),
    ensures
        are_apart(updated, other),
        are_apart(other, updated),
{
}

/// When a replacement is activated, no third enrollment holds the Volume or the claim.
proof fn lemma_activation_stays_apart(
    stored_previous: AgentRegistryRecord,
    revoked: AgentRegistryRecord,
    stored_replacement: AgentRegistryRecord,
    replacement: AgentRegistryRecord,
    other: AgentRegistryRecord,
)
    requires
        stored_previous.enrollment.state is Approved,
        stored_replacement.enrollment.state is PendingApproval,
        stored_replacement.enrollment.replaces_enrollment_id is Some,
        revoked.enrollment.state is Revoked,
        replacement.enrollment.state is Approved,
        registry_scope_is_kept(stored_previous, revoked),
        registry_scope_is_kept(stored_replacement, replacement),
        same_volume(stored_previous, stored_replacement),
        same_claim(stored_previous, stored_replacement),
        are_apart(stored_previous, other),
        are_apart(stored_replacement, other),
    ensures
        roles_are_apart(revoked, other),
        roles_are_apart(other, revoked),
        roles_are_apart(replacement, other),
        roles_are_apart(other, replacement),
        roles_are_apart(revoked, replacement),
        roles_are_apart(replacement, revoked),
{
}

impl InMemoryAgentRegistry {
    pub closed spec fn well_formed(self) -> bool {
        &&& self.records.well_formed()
        &&& self.watermarks.well_formed()
        &&& self@.is_consistent()
    }

    /// The aggregates in the order of their identities.
    pub closed spec fn ordered(self) -> Seq<AgentRegistryRecord> {
        self.records.entries().map_values(|entry: (Identifier, RegistryEntry)| entry.1.record)
    }

    /// A well-formed registry is consistent, and its order lists exactly its aggregates, each
    /// once, by ascending identity.
    pub proof fn lemma_consistent(&self)
        requires
            self.well_formed(),
        ensures
            self@.is_consistent(),
            forall|i: int|
                0 <= i < self.ordered().len() ==> self@.records.contains_key(
                    (#[trigger] self.ordered()[i]).enrollment.enrollment_id@,
                ) && self@.records[self.ordered()[i].enrollment.enrollment_id@].record
                    == self.ordered()[i],
            forall|name: Seq<char>| #[trigger]
                self@.records.contains_key(name) ==> self.ordered().contains(
                    self@.records[name].record,
                ),
            forall|i: int, j: int|
                0 <= i < j < self.ordered().len() ==> Identifier::precedes(
                    (#[trigger] self.ordered()[i]).enrollment.enrollment_id@,
                    (#[trigger] self.ordered()[j]).enrollment.enrollment_id@,
                ),
    {
        let entries = self.records.entries();
        assert forall|i: int| 0 <= i < self.ordered().len() implies self@.records.contains_key(
            (#[trigger] self.ordered()[i]).enrollment.enrollment_id@,
        ) && self@.records[self.ordered()[i].enrollment.enrollment_id@].record
            == self.ordered()[i] by {
            lemma_entry_is_mapped(entries, i);
            assert(self@.records.contains_key(entries[i].0.name()));
        }
        assert forall|name: Seq<char>| #[trigger]
            self@.records.contains_key(name) implies self.ordered().contains(
            self@.records[name].record,
        ) by {
            let at = lemma_mapped_is_entry(entries, name);
            assert(self.ordered()[at] == self@.records[name].record);
        }
        assert forall|i: int, j: int|
            0 <= i < j < self.ordered().len() implies Identifier::precedes(
            (#[trigger] self.ordered()[i]).enrollment.enrollment_id@,
            (#[trigger] self.ordered()[j]).enrollment.enrollment_id@,
        ) by {
            lemma_entry_is_mapped(entries, i);
            lemma_entry_is_mapped(entries, j);
            assert(self@.records.contains_key(entries[i].0.name()));
            assert(self@.records.contains_key(entries[j].0.name()));
        }
    }

    #[must_use]
    pub fn new() -> (registry: Self)
        ensures
            registry.well_formed(),
            registry@.records == Map::<Seq<char>, RegistryEntry>::empty(),
            registry@.watermarks == Map::<Seq<char>, UnixMillis>::empty(),
    {
        Self { records: Table::new(), watermarks: Table::new() }
    }

    #[must_use]
    pub fn get(&self, enrollment_id: &AgentEnrollmentId) -> (found: Option<AgentRegistryRecord>)
        requires
            self.well_formed(),
        ensures
            found is Some <==> self@.records.contains_key(enrollment_id@),
            found matches Some(record) ==> record.same(self@.records[enrollment_id@].record),
    {
        match self.records.get(enrollment_id) {
            Some(entry) => Some(entry.record.clone()),
            None => None,
        }
    }

    #[must_use]
    pub fn get_for_tenant(
        &self,
        tenant_id: &TenantId,
        enrollment_id: &AgentEnrollmentId,
    ) -> (found: Option<AgentRegistryRecord>)
        requires
            self.well_formed(),
        ensures
            found is Some <==> self@.records.contains_key(enrollment_id@)
                && self@.records[enrollment_id@].record.enrollment.tenant_id@ == tenant_id@,
            found matches Some(record) ==> record.same(self@.records[enrollment_id@].record),
    {
        match self.records.get(enrollment_id) {
            Some(entry) => if entry.record.enrollment.tenant_id == *tenant_id {
                Some(entry.record.clone())
            } else {
                None
            },
            None => None,
        }
    }

    fn find<F: Fn(&AgentRegistryRecord) -> bool>(
        &self,
        test: F,
        Ghost(wanted): Ghost<spec_fn(AgentRegistryRecord) -> bool>,
    ) -> (found: Option<AgentRegistryRecord>)
        requires
            self.well_formed(),
            forall|record: &AgentRegistryRecord| #[trigger] call_requires(test, (record,)),
            forall|record: &AgentRegistryRecord, verdict: bool| #[trigger]
                call_ensures(test, (record,), verdict) ==> verdict == wanted(*record),
        ensures
            is_found(self@.records, wanted, found),
    {
        let ghost entries = self.records.entries();
        let mut index: usize = 0;
        while index < self.records.len()
            invariant
                entries == self.records.entries(),
                self.well_formed(),
                index <= entries.len(),
                forall|record: &AgentRegistryRecord| #[trigger] call_requires(test, (record,)),
                forall|record: &AgentRegistryRecord, verdict: bool| #[trigger]
                    call_ensures(test, (record,), verdict) ==> verdict == wanted(*record),
                forall|i: int| 0 <= i < index ==> !wanted((#[trigger] entries[i]).1.record),
            decreases entries.len() - index,
        {
            let entry = &self.records.entry_at(index).1;
            if test(&entry.record) {
                proof {
                    lemma_entry_is_mapped(entries, index as int);
                    assert(self@.records.contains_key(entries[index as int].0.name()));
                }
                return Some(entry.record.clone());
            }
            index += 1;
        }
        proof {
            assert forall|name: Seq<char>| #[trigger]
                self@.records.contains_key(name) implies !wanted(self@.records[name].record) by {
                let at = lemma_mapped_is_entry(entries, name);
                assert(!wanted(entries[at].1.record));
            }
        }
        None
    }

    #[must_use]
    pub fn get_by_agent(&self, agent_id: &AgentId) -> (found: Option<AgentRegistryRecord>)
        requires
            self.well_formed(),
        ensures
            is_found(self@.records, of_agent(agent_id@), found),
    {
        let test = |record: &AgentRegistryRecord| -> (wanted: bool)
            ensures
                wanted == of_agent(agent_id@)(*record),
            { record.enrollment.reserved_agent_id == *agent_id };
        self.find(test, Ghost(of_agent(agent_id@)))
    }

    /// The claim identity that the descriptor of a stored enrollment was found to have.
    #[must_use]
    pub fn derived_pvc_identity(&self, enrollment_id: &AgentEnrollmentId) -> (identity: Option<
        PvcIdentityDigest,
    >)
        requires
            self.well_formed(),
        ensures
            identity == if self@.records.contains_key(enrollment_id@) {
                self@.records[enrollment_id@].derived_pvc_identity
            } else {
                None
            },
    {
        match self.records.get(enrollment_id) {
            Some(entry) => entry.derived_pvc_identity,
            None => None,
        }
    }

    #[must_use]
    pub fn get_by_token_request_id(
        &self,
        tenant_id: &TenantId,
        token_request_id: &RequestId,
    ) -> (found: Option<AgentRegistryRecord>)
        requires
            self.well_formed(),
        ensures
            is_found(self@.records, of_token_request(tenant_id@, token_request_id@), found),
    {
        let test = |record: &AgentRegistryRecord| -> (wanted: bool)
            ensures
                wanted == of_token_request(tenant_id@, token_request_id@)(*record),
            {
                record.enrollment.tenant_id == *tenant_id && record.enrollment.token_request_id
                    == *token_request_id
            };
        self.find(test, Ghost(of_token_request(tenant_id@, token_request_id@)))
    }

    #[must_use]
    pub fn get_by_token_digest(&self, token_digest: &ContentDigest) -> (found: Option<
        AgentRegistryRecord,
    >)
        requires
            self.well_formed(),
        ensures
            is_found(self@.records, of_token(*token_digest), found),
    {
        let test = |record: &AgentRegistryRecord| -> (wanted: bool)
            ensures
                wanted == of_token(*token_digest)(*record),
            { record.enrollment.bootstrap_token_digest == *token_digest };
        self.find(test, Ghost(of_token(*token_digest)))
    }

    #[must_use]
    pub fn get_by_bootstrap_request_id(
        &self,
        tenant_id: &TenantId,
        bootstrap_request_id: &RequestId,
    ) -> (found: Option<AgentRegistryRecord>)
        requires
            self.well_formed(),
        ensures
            is_found(self@.records, of_bootstrap_request(tenant_id@, bootstrap_request_id@), found),
    {
        let test = |record: &AgentRegistryRecord| -> (wanted: bool)
            ensures
                wanted == of_bootstrap_request(tenant_id@, bootstrap_request_id@)(*record),
            {
                record.enrollment.tenant_id == *tenant_id
                    && match &record.enrollment.bootstrap_request_id {
                    Some(request_id) => *request_id == *bootstrap_request_id,
                    None => false,
                }
            };
        self.find(test, Ghost(of_bootstrap_request(tenant_id@, bootstrap_request_id@)))
    }

    #[must_use]
    pub fn get_by_decision_request_id(
        &self,
        tenant_id: &TenantId,
        decision_request_id: &RequestId,
    ) -> (found: Option<AgentRegistryRecord>)
        requires
            self.well_formed(),
        ensures
            is_found(self@.records, of_decision_request(tenant_id@, decision_request_id@), found),
    {
        let test = |record: &AgentRegistryRecord| -> (wanted: bool)
            ensures
                wanted == of_decision_request(tenant_id@, decision_request_id@)(*record),
            {
                record.enrollment.tenant_id == *tenant_id
                    && match &record.enrollment.decision_request {
                    Some(request) => request.decision_request_id == *decision_request_id,
                    None => false,
                }
            };
        self.find(test, Ghost(of_decision_request(tenant_id@, decision_request_id@)))
    }

    #[must_use]
    pub fn get_by_installation_id(&self, installation_id: &AgentInstallationId) -> (found: Option<
        AgentRegistryRecord,
    >)
        requires
            self.well_formed(),
        ensures
            is_found(self@.records, of_installation(installation_id@), found),
    {
        let test = |record: &AgentRegistryRecord| -> (wanted: bool)
            ensures
                wanted == of_installation(installation_id@)(*record),
            {
                match &record.candidate {
                    Some(candidate) => candidate.installation_id == *installation_id,
                    None => false,
                }
            };
        self.find(test, Ghost(of_installation(installation_id@)))
    }

    #[must_use]
    pub fn get_by_public_key_fingerprint(&self, public_key_fingerprint: &ContentDigest) -> (found:
        Option<AgentRegistryRecord>)
        requires
            self.well_formed(),
        ensures
            is_found(self@.records, of_public_key(*public_key_fingerprint), found),
    {
        let test = |record: &AgentRegistryRecord| -> (wanted: bool)
            ensures
                wanted == of_public_key(*public_key_fingerprint)(*record),
            {
                match &record.candidate {
                    Some(candidate) => candidate.public_key_fingerprint == *public_key_fingerprint,
                    None => false,
                }
            };
        self.find(test, Ghost(of_public_key(*public_key_fingerprint)))
    }

    /// The enrollment that owns a Volume. There is never more than one.
    #[must_use]
    pub fn get_current_by_volume(
        &self,
        tenant_id: &TenantId,
        storage_volume_id: &StorageVolumeId,
    ) -> (found: Option<AgentRegistryRecord>)
        requires
            self.well_formed(),
        ensures
            is_found(self@.records, owning(tenant_id@, storage_volume_id@), found),
    {
        let test = |record: &AgentRegistryRecord| -> (wanted: bool)
            ensures
                wanted == owning(tenant_id@, storage_volume_id@)(*record),
            {
                record.enrollment.tenant_id == *tenant_id && record.enrollment.storage_volume_id
                    == *storage_volume_id && record.enrollment.state
                    == AgentEnrollmentState::Approved
            };
        self.find(test, Ghost(owning(tenant_id@, storage_volume_id@)))
    }

    /// The Volume that a claim is bound to. There is never more than one.
    #[must_use]
    pub fn get_pvc_binding(
        &self,
        edge_cluster_id: &EdgeClusterId,
        pvc_identity_digest: &PvcIdentityDigest,
    ) -> (binding: Option<PvcVolumeBinding>)
        requires
            self.well_formed(),
        ensures
            match binding {
                Some(bound) => {
                    &&& exists|name: Seq<char>|
                        {
                            &&& #[trigger] self@.records.contains_key(name)
                            &&& claiming(edge_cluster_id@, *pvc_identity_digest)(
                                self@.records[name].record,
                            )
                        }
                    &&& forall|name: Seq<char>| #[trigger]
                        self@.records.contains_key(name) && claiming(
                            edge_cluster_id@,
                            *pvc_identity_digest,
                        )(self@.records[name].record) ==> is_binding_of(
                            bound,
                            self@.records[name].record,
                        )
                },
                None => forall|name: Seq<char>| #[trigger]
                    self@.records.contains_key(name) ==> !claiming(
                        edge_cluster_id@,
                        *pvc_identity_digest,
                    )(self@.records[name].record),
            },
    {
        let test = |record: &AgentRegistryRecord| -> (wanted: bool)
            ensures
                wanted == claiming(edge_cluster_id@, *pvc_identity_digest)(*record),
            {
                record.enrollment.edge_cluster_id == *edge_cluster_id
                    && record.enrollment.pvc_identity_digest == *pvc_identity_digest
                    && !is_terminal(record.enrollment.state)
            };
        let ghost wanted = claiming(edge_cluster_id@, *pvc_identity_digest);
        match self.find(test, Ghost(wanted)) {
            Some(record) => {
                let bound = pvc_binding(&record);
                proof {
                    let at = choose|name: Seq<char>|
                        {
                            &&& #[trigger] self@.records.contains_key(name)
                            &&& wanted(self@.records[name].record)
                            &&& record.same(self@.records[name].record)
                        };
                    assert forall|name: Seq<char>| #[trigger]
                        self@.records.contains_key(name) && wanted(
                            self@.records[name].record,
                        ) implies is_binding_of(bound, self@.records[name].record) by {
                        if name != at {
                            assert(are_apart(self@.records[at].record, self@.records[name].record));
                        }
                    }
                }
                Some(bound)
            },
            None => None,
        }
    }
}


/// Why an aggregate is not inserted.
pub open spec fn insert_fault(
    registry: InMemoryAgentRegistry,
    record: AgentRegistryRecord,
    derived_pvc_identity: Option<PvcIdentityDigest>,
) -> Option<Fault> {
    if registry_insert_fault(record, derived_pvc_identity) is Some {
        registry_insert_fault(record, derived_pvc_identity)
    } else if registry@.records.contains_key(record.enrollment.enrollment_id@) {
        None
    } else if exists|index: int|
        #![auto]
        is_first_decisive(registry.ordered(), record, index) && !same_token_request(
            registry.ordered()[index],
            record,
        ) {
        Some(active_enrollment_fault())
    } else {
        None
    }
}

/// What an insert returns and what it leaves behind.
pub open spec fn is_inserted(
    before: InMemoryAgentRegistry,
    after: RegistryView,
    record: AgentRegistryRecord,
    derived_pvc_identity: Option<PvcIdentityDigest>,
    outcome: AgentRegistryInsertOutcome,
) -> bool {
    let name = record.enrollment.enrollment_id@;
    match outcome {
        AgentRegistryInsertOutcome::Inserted(stored) => {
            &&& !before@.records.contains_key(name)
            &&& forall|i: int|
                0 <= i < before.ordered().len() ==> !decides_insert(
                    #[trigger] before.ordered()[i],
                    record,
                )
            &&& after.records == before@.records.insert(
                name,
                RegistryEntry { record, derived_pvc_identity },
            )
            &&& after.watermarks == before@.watermarks
            &&& stored.same(record)
        },
        AgentRegistryInsertOutcome::Existing(found) => {
            &&& after == before@
            &&& if before@.records.contains_key(name) {
                found.same(before@.records[name].record)
            } else {
                exists|index: int|
                    #![auto]
                    is_first_decisive(before.ordered(), record, index) && found.same(
                        before.ordered()[index],
                    )
            }
        },
    }
}

/// A fresh token intent stands apart from every aggregate that does not keep it out.
proof fn lemma_intent_stands_apart(
    existing: AgentRegistryRecord,
    intent: AgentRegistryRecord,
    derived_pvc_identity: Option<PvcIdentityDigest>,
)
    requires
        registry_insert_fault(intent, derived_pvc_identity) is None,
        !keeps_out(existing, intent),
    ensures
        are_apart(existing, intent),
        are_apart(intent, existing),
{
}

/// The latest signing time of an enrollment, where one was accepted.
pub open spec fn watermark_fault(
    registry: RegistryView,
    enrollment_id: Seq<char>,
    signed_at: UnixMillis,
) -> Option<Fault> {
    if !registry.records.contains_key(enrollment_id) {
        Some(fault(CentralErrorCode::StorageFailure, "Agent registry storage operation failed"@))
    } else if registry.watermarks.contains_key(enrollment_id) && signed_at
        <= registry.watermarks[enrollment_id] {
        Some(
            fault(
                CentralErrorCode::ConcurrentUpdate,
                "Agent bootstrap status replay watermark changed"@,
            ),
        )
    } else {
        None
    }
}

/// Both records of an activated replacement.
pub struct AgentRegistryReplacementRecords {
    pub revoked: AgentRegistryRecord,
    pub replacement: AgentRegistryRecord,
}

/// The stored aggregate of an enrollment.
pub open spec fn stored_record(
    records: Map<Seq<char>, RegistryEntry>,
    name: Seq<char>,
) -> Option<AgentRegistryRecord> {
    if records.contains_key(name) {
        Some(records[name].record)
    } else {
        None
    }
}

impl InMemoryAgentRegistry {
    /// Inserts a token intent, or finds the aggregate that answers it.
    pub fn insert_or_load(
        &mut self,
        record: AgentRegistryRecord,
        derived_pvc_identity: Option<PvcIdentityDigest>,
    ) -> (result: CentralResult<AgentRegistryInsertOutcome>)
        requires
            old(self).well_formed(),
        ensures
            final(self).well_formed(),
            fault_of(result) == insert_fault(*old(self), record, derived_pvc_identity),
            result matches Ok(outcome) ==> is_inserted(
                *old(self),
                final(self)@,
                record,
                derived_pvc_identity,
                outcome,
            ),
            result is Err ==> final(self)@ == old(self)@,
    {
        validate_registry_insert(&record, derived_pvc_identity)?;
        if let Some(entry) = self.records.get(&record.enrollment.enrollment_id) {
            return Ok(AgentRegistryInsertOutcome::Existing(entry.record.clone()));
        }
        let ghost entries = self.records.entries();
        let mut index: usize = 0;
        while index < self.records.len()
            invariant
                *self == *old(self),
                self.well_formed(),
                entries == self.records.entries(),
                index <= entries.len(),
                registry_insert_fault(record, derived_pvc_identity) is None,
                !self@.records.contains_key(record.enrollment.enrollment_id@),
                forall|i: int|
                    0 <= i < index ==> !decides_insert(#[trigger] self.ordered()[i], record),
            decreases entries.len() - index,
        {
            let stored = &self.records.entry_at(index).1.record;
            assert(*stored == self.ordered()[index as int]);
            if stored.enrollment.tenant_id == record.enrollment.tenant_id
                && stored.enrollment.token_request_id == record.enrollment.token_request_id {
                assert(is_first_decisive(self.ordered(), record, index as int));
                return Ok(AgentRegistryInsertOutcome::Existing(stored.clone()));
            }
            if blocks(stored, &record) {
                assert(is_first_decisive(self.ordered(), record, index as int));
                return Err(active_enrollment_failure());
            }
            index += 1;
        }
        let ghost name = record.enrollment.enrollment_id@;
        let ghost before = self@.records;
        proof {
            self.lemma_consistent();
            assert forall|other: Seq<char>| #[trigger] before.contains_key(other) implies are_apart(
                before[other].record,
                record,
            ) && are_apart(record, before[other].record) by {
                let at = choose|i: int|
                    0 <= i < self.ordered().len() && self.ordered()[i] == before[other].record;
                assert(!decides_insert(self.ordered()[at], record));
                lemma_intent_stands_apart(before[other].record, record, derived_pvc_identity);
            }
        }
        let inserted = record.clone();
        let enrollment_id = record.enrollment.enrollment_id.clone();
        self.records.insert(enrollment_id, RegistryEntry { record, derived_pvc_identity });
        assert(self@.watermarks == old(self)@.watermarks);
        Ok(AgentRegistryInsertOutcome::Inserted(inserted))
    }

    /// Refuses a record that takes an identity which another aggregate has.
    fn ensure_unclaimed(&self, record: &AgentRegistryRecord) -> (result: CentralResult<()>)
        requires
            self.records.well_formed(),
        ensures
            fault_of(result) == clash_fault(self.records@, *record),
    {
        let ghost entries = self.records.entries();
        let ghost name = record.enrollment.enrollment_id@;
        let mut candidate: bool = false;
        let mut decision: bool = false;
        let mut bootstrap: bool = false;
        let mut index: usize = 0;
        while index < self.records.len()
            invariant
                self.records.well_formed(),
                entries == self.records.entries(),
                index <= entries.len(),
                name == record.enrollment.enrollment_id@,
                candidate ==> clashes(self.records@, *record, by_candidate()),
                decision ==> clashes(self.records@, *record, by_decision()),
                bootstrap ==> clashes(self.records@, *record, by_bootstrap()),
                forall|i: int|
                    0 <= i < index && (#[trigger] entries[i]).0@ != name ==> {
                        &&& candidates_conflict(entries[i].1.record, *record) ==> candidate
                        &&& decision_requests_conflict(entries[i].1.record, *record) ==> decision
                        &&& bootstrap_requests_conflict(entries[i].1.record, *record) ==> bootstrap
                    },
            decreases entries.len() - index,
        {
            let entry = self.records.entry_at(index);
            if entry.0 != record.enrollment.enrollment_id {
                let stored = &entry.1.record;
                proof {
                    lemma_entry_is_mapped(entries, index as int);
                    assert(self.records@.contains_key(entries[index as int].0.name()));
                    assert(self.records@[entries[index as int].0.name()].record == *stored);
                }
                candidate = candidate || candidate_identity_conflicts(stored, record);
                decision = decision || decision_request_identity_conflicts(stored, record);
                bootstrap = bootstrap || bootstrap_request_identity_conflicts(stored, record);
            }
            index += 1;
        }
        proof {
            assert forall|other: Seq<char>| #[trigger]
                self.records@.contains_key(other) && other != name implies {
                &&& candidates_conflict(self.records@[other].record, *record) ==> candidate
                &&& decision_requests_conflict(self.records@[other].record, *record) ==> decision
                &&& bootstrap_requests_conflict(self.records@[other].record, *record) ==> bootstrap
            } by {
                let at = lemma_mapped_is_entry(entries, other);
                assert(entries[at].0@ == other);
            }
        }
        if candidate {
            return Err(
                final_failure(
                    CentralErrorCode::AgentIdentityMismatch,
                    "Agent candidate identity is already bound to another enrollment",
                ),
            );
        }
        if decision {
            return Err(
                final_failure(
                    CentralErrorCode::EnrollmentDecisionConflict,
                    "Agent decision request identity is already bound to another enrollment",
                ),
            );
        }
        if bootstrap {
            return Err(
                final_failure(
                    CentralErrorCode::EnrollmentIdReused,
                    "Agent registry request identity is already bound to another enrollment",
                ),
            );
        }
        Ok(())
    }

    /// Replaces an aggregate whose version is the expected one by its successor.
    pub fn replace(
        &mut self,
        expected_resource_version: u64,
        record: AgentRegistryRecord,
        derived_pvc_identity: Option<PvcIdentityDigest>,
    ) -> (result: CentralResult<AgentRegistryRecord>)
        requires
            old(self).well_formed(),
        ensures
            final(self).well_formed(),
            fault_of(result) == {
                let refused = replace_fault(
                    stored_record(old(self)@.records, record.enrollment.enrollment_id@),
                    expected_resource_version,
                    record,
                    derived_pvc_identity,
                );
                if refused is Some {
                    refused
                } else {
                    clash_fault(old(self)@.records, record)
                }
            },
            result matches Ok(stored) ==> {
                &&& stored.same(record)
                &&& final(self)@.records == old(self)@.records.insert(
                    record.enrollment.enrollment_id@,
                    RegistryEntry { record, derived_pvc_identity },
                )
                &&& final(self)@.watermarks == old(self)@.watermarks
            },
            result is Err ==> final(self)@ == old(self)@,
    {
        let ghost name = record.enrollment.enrollment_id@;
        let stored = match self.records.get(&record.enrollment.enrollment_id) {
            Some(entry) => Some(&entry.record),
            None => None,
        };
        validate_replace(stored, expected_resource_version, &record, derived_pvc_identity)?;
        self.ensure_unclaimed(&record)?;
        let ghost before = self@.records;
        proof {
            lemma_replace_keeps_role(before[name].record, record);
            assert forall|other: Seq<char>| #[trigger]
                before.contains_key(other) && other != name implies are_apart(
                before[other].record,
                record,
            ) && are_apart(record, before[other].record) by {
                assert(are_apart(before[name].record, before[other].record));
                lemma_replace_stays_apart(before[name].record, record, before[other].record);
            }
        }
        let updated = record.clone();
        let enrollment_id = record.enrollment.enrollment_id.clone();
        self.records.insert(enrollment_id, RegistryEntry { record, derived_pvc_identity });
        assert(self@.watermarks == old(self)@.watermarks);
        Ok(updated)
    }

    /// Revokes the owner of a Volume and activates its replacement in one write.
    pub fn activate_replacement(
        &mut self,
        expected_previous_resource_version: u64,
        revoked: RegistryEntry,
        expected_replacement_resource_version: u64,
        replacement: RegistryEntry,
    ) -> (result: CentralResult<AgentRegistryReplacementRecords>)
        requires
            old(self).well_formed(),
        ensures
            final(self).well_formed(),
            fault_of(result) == {
                let before = old(self)@.records;
                let revoked_name = revoked.record.enrollment.enrollment_id@;
                let refused = activation_fault(
                    stored_record(before, revoked_name),
                    expected_previous_resource_version,
                    revoked,
                    stored_record(before, replacement.record.enrollment.enrollment_id@),
                    expected_replacement_resource_version,
                    replacement,
                );
                if refused is Some {
                    refused
                } else if clash_fault(before, revoked.record) is Some {
                    clash_fault(before, revoked.record)
                } else {
                    clash_fault(before.insert(revoked_name, revoked), replacement.record)
                }
            },
            result matches Ok(activated) ==> {
                &&& activated.revoked.same(revoked.record)
                &&& activated.replacement.same(replacement.record)
                &&& final(self)@.records == old(self)@.records.insert(
                    revoked.record.enrollment.enrollment_id@,
                    revoked,
                ).insert(replacement.record.enrollment.enrollment_id@, replacement)
                &&& final(self)@.watermarks == old(self)@.watermarks
            },
            result is Err ==> final(self)@ == old(self)@,
    {
        let ghost revoked_name = revoked.record.enrollment.enrollment_id@;
        let ghost replacement_name = replacement.record.enrollment.enrollment_id@;
        let ghost before = self@.records;
        {
            let stored_previous = match self.records.get(&revoked.record.enrollment.enrollment_id) {
                Some(entry) => Some(&entry.record),
                None => None,
            };
            let stored_replacement = match self.records.get(
                &replacement.record.enrollment.enrollment_id,
            ) {
                Some(entry) => Some(&entry.record),
                None => None,
            };
            validate_activation(
                stored_previous,
                expected_previous_resource_version,
                &revoked,
                stored_replacement,
                expected_replacement_resource_version,
                &replacement,
            )?;
        }
        self.ensure_unclaimed(&revoked.record)?;
        let result = AgentRegistryReplacementRecords {
            revoked: revoked.record.clone(),
            replacement: replacement.record.clone(),
        };
        let revoked_id = revoked.record.enrollment.enrollment_id.clone();
        let replacement_id = replacement.record.enrollment.enrollment_id.clone();
        let previous = match self.records.take(&revoked_id) {
            Some(previous) => previous,
            None => return Err(missing("replacement target enrollment is missing")),
        };
        self.records.insert(revoked_id.clone(), revoked);
        proof {
            assert(self.records@ =~= before.insert(revoked_name, revoked));
        }
        if let Err(problem) = self.ensure_unclaimed(&replacement.record) {
            self.records.insert(revoked_id, previous);
            proof {
                assert(self.records@ =~= before);
                assert(self@ =~= old(self)@);
            }
            return Err(problem);
        }
        proof {
            let between = before.insert(revoked_name, revoked);
            let after = between.insert(replacement_name, replacement);
            let old_previous = before[revoked_name].record;
            let old_replacement = before[replacement_name].record;
            assert(are_apart(old_previous, old_replacement));
            assert forall|other: Seq<char>| #[trigger]
                before.contains_key(other) && other != revoked_name && other
                    != replacement_name implies {
                &&& are_apart(revoked.record, before[other].record)
                &&& are_apart(before[other].record, revoked.record)
                &&& are_apart(replacement.record, before[other].record)
                &&& are_apart(before[other].record, replacement.record)
            } by {
                assert(are_apart(old_previous, before[other].record));
                assert(are_apart(old_replacement, before[other].record));
                assert(between.contains_key(other));
                lemma_activation_stays_apart(
                    old_previous,
                    revoked.record,
                    old_replacement,
                    replacement.record,
                    before[other].record,
                );
            }
            assert(are_apart(revoked.record, replacement.record) && are_apart(
                replacement.record,
                revoked.record,
            )) by {
                assert(between.contains_key(revoked_name));
                assert(!candidates_conflict(revoked.record, replacement.record));
            }
        }
        self.records.insert(replacement_id, replacement);
        assert(self@.watermarks == old(self)@.watermarks);
        Ok(result)
    }

    /// Accepts a signing time that is later than every one accepted before.
    pub fn consume_bootstrap_status_signed_at(
        &mut self,
        enrollment_id: &AgentEnrollmentId,
        signed_at_unix_ms: UnixMillis,
    ) -> (result: CentralResult<()>)
        requires
            old(self).well_formed(),
        ensures
            final(self).well_formed(),
            fault_of(result) == watermark_fault(old(self)@, enrollment_id@, signed_at_unix_ms),
            result is Ok ==> final(self)@ == (RegistryView {
                watermarks: old(self)@.watermarks.insert(enrollment_id@, signed_at_unix_ms),
                ..old(self)@
            }),
            result is Err ==> final(self)@ == old(self)@,
    {
        if !self.records.contains(enrollment_id) {
            return Err(
                failure(
                    CentralErrorCode::StorageFailure,
                    "Agent registry storage operation failed",
                ),
            );
        }
        if let Some(watermark) = self.watermarks.get(enrollment_id) {
            if signed_at_unix_ms <= *watermark {
                return Err(
                    failure(
                        CentralErrorCode::ConcurrentUpdate,
                        "Agent bootstrap status replay watermark changed",
                    ),
                );
            }
        }
        self.watermarks.insert(enrollment_id.clone(), signed_at_unix_ms);
        assert(self@.records == old(self)@.records);
        Ok(())
    }
}

} // verus!
