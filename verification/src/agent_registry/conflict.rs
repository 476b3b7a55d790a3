//! Which enrollments may stand beside each other.
use vstd::prelude::*;

use crate::agent_registry::intent::PvcVolumeBinding;
use crate::agent_registry::records::{AgentEnrollmentState, AgentRegistryRecord};
use crate::equality::Same;
use crate::error::{
    corruption, corruption_fault, fault_of, final_failure, final_fault, CentralError,
    CentralErrorCode, CentralResult, Fault,
};
use crate::identifier::{is_named, names};
use crate::text::{contains_text, text_contains};

verus! {

/// An enrollment that holds nothing any more.
pub open spec fn is_closed(state: AgentEnrollmentState) -> bool {
    state is Rejected || state is Expired || state is Revoked
}

/// Tells whether an enrollment holds nothing any more.
pub fn is_terminal(state: AgentEnrollmentState) -> (terminal: bool)
    ensures
        terminal == is_closed(state),
{
    matches!(
        state,
        AgentEnrollmentState::Rejected
            | AgentEnrollmentState::Expired
            | AgentEnrollmentState::Revoked
    )
}

/// In which of two roles an enrollment holds its Volume and its claim.
#[derive(Debug, Clone, Copy, PartialEq, Eq, Structural)]
pub enum PvcBindingRole {
    Owner,
    Replacement,
}

/// The role in which an enrollment holds its Volume, while it does.
pub open spec fn binding_role(record: AgentRegistryRecord) -> Option<PvcBindingRole> {
    if is_closed(record.enrollment.state) {
        None
    } else if record.enrollment.state is Approved || record.enrollment.replaces_enrollment_id is None {
        Some(PvcBindingRole::Owner)
    } else {
        Some(PvcBindingRole::Replacement)
    }
}

/// Tells in which role an enrollment holds its Volume.
pub fn pvc_binding_role(record: &AgentRegistryRecord) -> (role: Option<PvcBindingRole>)
    ensures
        role == binding_role(*record),
{
    if is_terminal(record.enrollment.state) {
        None
    } else if record.enrollment.state == AgentEnrollmentState::Approved
        || record.enrollment.replaces_enrollment_id.is_none() {
        Some(PvcBindingRole::Owner)
    } else {
        Some(PvcBindingRole::Replacement)
    }
}

/// The name of a role, as it is stored.
pub open spec fn binding_role_text(role: PvcBindingRole) -> Seq<char> {
    match role {
        PvcBindingRole::Owner => "owner"@,
        PvcBindingRole::Replacement => "replacement"@,
    }
}

impl PvcBindingRole {
    pub fn name(self) -> (name: &'static str)
        ensures
            name@ == binding_role_text(self),
    {
        match self {
            PvcBindingRole::Owner => "owner",
            PvcBindingRole::Replacement => "replacement",
        }
    }
}

/// The Volume that the claim of an enrollment is bound to.
pub open spec fn is_binding_of(binding: PvcVolumeBinding, record: AgentRegistryRecord) -> bool {
    &&& binding.pvc_identity_digest == record.enrollment.pvc_identity_digest
    &&& binding.tenant_id@ == record.enrollment.tenant_id@
    &&& binding.edge_cluster_id@ == record.enrollment.edge_cluster_id@
    &&& binding.storage_volume_id@ == record.enrollment.storage_volume_id@
}

pub fn pvc_binding(record: &AgentRegistryRecord) -> (binding: PvcVolumeBinding)
    ensures
        is_binding_of(binding, *record),
{
    PvcVolumeBinding {
        pvc_identity_digest: record.enrollment.pvc_identity_digest,
        tenant_id: record.enrollment.tenant_id.clone(),
        edge_cluster_id: record.enrollment.edge_cluster_id.clone(),
        storage_volume_id: record.enrollment.storage_volume_id.clone(),
    }
}

/// Two enrollments of one token request.
pub open spec fn same_token_request(
    existing: AgentRegistryRecord,
    candidate: AgentRegistryRecord,
) -> bool {
    &&& existing.enrollment.tenant_id@ == candidate.enrollment.tenant_id@
    &&& existing.enrollment.token_request_id@ == candidate.enrollment.token_request_id@
}

/// Two enrollments that claim one identity.
pub open spec fn identities_conflict(
    existing: AgentRegistryRecord,
    candidate: AgentRegistryRecord,
) -> bool {
    ||| existing.enrollment.reserved_agent_id@ == candidate.enrollment.reserved_agent_id@
    ||| existing.enrollment.token_id@ == candidate.enrollment.token_id@
    ||| same_token_request(existing, candidate)
    ||| existing.enrollment.bootstrap_token_digest == candidate.enrollment.bootstrap_token_digest
}

fn shares_token_request(existing: &AgentRegistryRecord, candidate: &AgentRegistryRecord) -> (shared:
    bool)
    ensures
        shared == same_token_request(*existing, *candidate),
{
    existing.enrollment.tenant_id == candidate.enrollment.tenant_id
        && existing.enrollment.token_request_id == candidate.enrollment.token_request_id
}

pub fn identity_conflicts(existing: &AgentRegistryRecord, candidate: &AgentRegistryRecord) -> (found:
    bool)
    ensures
        found == identities_conflict(*existing, *candidate),
{
    existing.enrollment.reserved_agent_id == candidate.enrollment.reserved_agent_id
        || existing.enrollment.token_id == candidate.enrollment.token_id || shares_token_request(
        existing,
        candidate,
    ) || existing.enrollment.bootstrap_token_digest == candidate.enrollment.bootstrap_token_digest
}

/// Two enrollments that one bootstrap request claims.
pub open spec fn bootstrap_requests_conflict(
    existing: AgentRegistryRecord,
    candidate: AgentRegistryRecord,
) -> bool {
    &&& existing.enrollment.tenant_id@ == candidate.enrollment.tenant_id@
    &&& existing.enrollment.bootstrap_request_id is Some
    &&& existing.enrollment.bootstrap_request_id.same(candidate.enrollment.bootstrap_request_id)
}

pub fn bootstrap_request_identity_conflicts(
    existing: &AgentRegistryRecord,
    candidate: &AgentRegistryRecord,
) -> (found: bool)
    ensures
        found == bootstrap_requests_conflict(*existing, *candidate),
{
    existing.enrollment.tenant_id == candidate.enrollment.tenant_id
        && existing.enrollment.bootstrap_request_id.is_some()
        && existing.enrollment.bootstrap_request_id == candidate.enrollment.bootstrap_request_id
}

/// Two enrollments that one decision claims.
pub open spec fn decision_requests_conflict(
    existing: AgentRegistryRecord,
    candidate: AgentRegistryRecord,
) -> bool {
    &&& existing.enrollment.tenant_id@ == candidate.enrollment.tenant_id@
    &&& existing.enrollment.decision_request matches Some(left)
    &&& candidate.enrollment.decision_request matches Some(right)
    &&& left.decision_request_id@ == right.decision_request_id@
}

pub fn decision_request_identity_conflicts(
    existing: &AgentRegistryRecord,
    candidate: &AgentRegistryRecord,
) -> (found: bool)
    ensures
        found == decision_requests_conflict(*existing, *candidate),
{
    if existing.enrollment.tenant_id != candidate.enrollment.tenant_id {
        return false;
    }
    match (&existing.enrollment.decision_request, &candidate.enrollment.decision_request) {
        (Some(left), Some(right)) => left.decision_request_id == right.decision_request_id,
        _ => false,
    }
}

/// Two enrollments of one installation or one key.
pub open spec fn candidates_conflict(
    existing: AgentRegistryRecord,
    candidate: AgentRegistryRecord,
) -> bool {
    &&& existing.candidate matches Some(left)
    &&& candidate.candidate matches Some(right)
    &&& {
        ||| left.installation_id@ == right.installation_id@
        ||| left.public_key_fingerprint == right.public_key_fingerprint
    }
}

pub fn candidate_identity_conflicts(
    existing: &AgentRegistryRecord,
    candidate: &AgentRegistryRecord,
) -> (found: bool)
    ensures
        found == candidates_conflict(*existing, *candidate),
{
    match (&existing.candidate, &candidate.candidate) {
        (Some(left), Some(right)) => left.installation_id == right.installation_id
            || left.public_key_fingerprint == right.public_key_fingerprint,
        _ => false,
    }
}

/// A candidate that asks to take over from an enrollment which owns its Volume.
pub open spec fn takes_over(existing: AgentRegistryRecord, candidate: AgentRegistryRecord) -> bool {
    &&& names(candidate.enrollment.replaces_enrollment_id, existing.enrollment.enrollment_id@)
    &&& existing.enrollment.state is Approved
}

/// Two enrollments of one Volume.
pub open spec fn same_volume(left: AgentRegistryRecord, right: AgentRegistryRecord) -> bool {
    &&& left.enrollment.tenant_id@ == right.enrollment.tenant_id@
    &&& left.enrollment.storage_volume_id@ == right.enrollment.storage_volume_id@
}

/// Two enrollments of one claim.
pub open spec fn same_claim(left: AgentRegistryRecord, right: AgentRegistryRecord) -> bool {
    &&& left.enrollment.edge_cluster_id@ == right.enrollment.edge_cluster_id@
    &&& left.enrollment.pvc_identity_digest == right.enrollment.pvc_identity_digest
}

/// The Volume of a candidate is held by an enrollment that it does not take over from.
pub open spec fn volume_intents_conflict(
    existing: AgentRegistryRecord,
    candidate: AgentRegistryRecord,
) -> bool {
    &&& same_volume(existing, candidate)
    &&& !is_closed(existing.enrollment.state)
    &&& !takes_over(existing, candidate)
}

/// The claim of a candidate is held by an enrollment that it does not take over from, or for
/// another Volume.
pub open spec fn claims_conflict(
    existing: AgentRegistryRecord,
    candidate: AgentRegistryRecord,
) -> bool {
    &&& same_claim(existing, candidate)
    &&& !is_closed(existing.enrollment.state)
    &&& !(same_volume(existing, candidate) && takes_over(existing, candidate))
}

pub fn volume_intent_conflicts(existing: &AgentRegistryRecord, candidate: &AgentRegistryRecord) -> (found:
    bool)
    ensures
        found == volume_intents_conflict(*existing, *candidate),
{
    if existing.enrollment.tenant_id != candidate.enrollment.tenant_id
        || existing.enrollment.storage_volume_id != candidate.enrollment.storage_volume_id
        || is_terminal(existing.enrollment.state) {
        return false;
    }
    !is_named(&candidate.enrollment.replaces_enrollment_id, &existing.enrollment.enrollment_id)
        || existing.enrollment.state != AgentEnrollmentState::Approved
}

pub fn pvc_identity_conflicts(existing: &AgentRegistryRecord, candidate: &AgentRegistryRecord) -> (found:
    bool)
    ensures
        found == claims_conflict(*existing, *candidate),
{
    if existing.enrollment.edge_cluster_id != candidate.enrollment.edge_cluster_id
        || existing.enrollment.pvc_identity_digest != candidate.enrollment.pvc_identity_digest
        || is_terminal(existing.enrollment.state) {
        return false;
    }
    existing.enrollment.tenant_id != candidate.enrollment.tenant_id
        || existing.enrollment.storage_volume_id != candidate.enrollment.storage_volume_id
        || !is_named(
        &candidate.enrollment.replaces_enrollment_id,
        &existing.enrollment.enrollment_id,
    ) || existing.enrollment.state != AgentEnrollmentState::Approved
}

/// A stored enrollment keeps a candidate out.
pub open spec fn keeps_out(existing: AgentRegistryRecord, candidate: AgentRegistryRecord) -> bool {
    ||| identities_conflict(existing, candidate)
    ||| volume_intents_conflict(existing, candidate)
    ||| claims_conflict(existing, candidate)
}

pub(crate) fn blocks(existing: &AgentRegistryRecord, candidate: &AgentRegistryRecord) -> (found: bool)
    ensures
        found == keeps_out(*existing, *candidate),
{
    identity_conflicts(existing, candidate) || volume_intent_conflicts(existing, candidate)
        || pvc_identity_conflicts(existing, candidate)
}

/// The failure of a candidate that a stored enrollment keeps out.
pub open spec fn active_enrollment_fault() -> Fault {
    final_fault(
        CentralErrorCode::VolumeOwnerConflict,
        "Agent identity or Tenant Volume already has an active enrollment"@,
    )
}

pub(crate) fn active_enrollment_failure() -> (failure: CentralError)
    ensures
        failure@ == active_enrollment_fault(),
{
    final_failure(
        CentralErrorCode::VolumeOwnerConflict,
        "Agent identity or Tenant Volume already has an active enrollment",
    )
}

/// What a candidate meets among stored enrollments.
#[derive(Debug, Clone, Copy, PartialEq, Eq, Structural)]
pub enum InsertVerdict {
    /// Nothing stands in its way.
    Free,
    /// The enrollment at this index answers the same token request.
    Replay(usize),
}

/// A stored enrollment decides what becomes of a candidate.
pub open spec fn decides_insert(
    existing: AgentRegistryRecord,
    candidate: AgentRegistryRecord,
) -> bool {
    same_token_request(existing, candidate) || keeps_out(existing, candidate)
}

/// The first enrollment that decides what becomes of a candidate.
pub open spec fn is_first_decisive(
    existing: Seq<AgentRegistryRecord>,
    candidate: AgentRegistryRecord,
    index: int,
) -> bool {
    &&& 0 <= index < existing.len()
    &&& decides_insert(existing[index], candidate)
    &&& forall|i: int| 0 <= i < index ==> !decides_insert(#[trigger] existing[i], candidate)
}

/// Decides what becomes of a candidate, given the stored enrollments that share an identity, a
/// Volume or a claim with it, in the order in which they are considered.
pub fn resolve_insert(existing: &Vec<AgentRegistryRecord>, candidate: &AgentRegistryRecord) -> (result:
    CentralResult<InsertVerdict>)
    ensures
        fault_of(result) == (if exists|index: int|
            is_first_decisive(existing@, *candidate, index) && !same_token_request(
                existing@[index],
                *candidate,
            ) {
            Some(active_enrollment_fault())
        } else {
            None
        }),
        result matches Ok(InsertVerdict::Free) ==> forall|i: int|
            0 <= i < existing@.len() ==> !decides_insert(#[trigger] existing@[i], *candidate),
        result matches Ok(InsertVerdict::Replay(index)) ==> is_first_decisive(
            existing@,
            *candidate,
            index as int,
        ) && same_token_request(existing@[index as int], *candidate),
{
    let mut index: usize = 0;
    while index < existing.len()
        invariant
            index <= existing.len(),
            forall|i: int| 0 <= i < index ==> !decides_insert(#[trigger] existing@[i], *candidate),
        decreases existing.len() - index,
    {
        let stored = &existing[index];
        if shares_token_request(stored, candidate) {
            assert(is_first_decisive(existing@, *candidate, index as int));
            return Ok(InsertVerdict::Replay(index));
        }
        if blocks(stored, candidate) {
            assert(is_first_decisive(existing@, *candidate, index as int));
            return Err(active_enrollment_failure());
        }
        index += 1;
    }
    Ok(InsertVerdict::Free)
}

/// Some stored enrollment stands in a relation to a candidate.
pub open spec fn any_related(
    existing: Seq<AgentRegistryRecord>,
    candidate: AgentRegistryRecord,
    related: spec_fn(AgentRegistryRecord, AgentRegistryRecord) -> bool,
) -> bool {
    exists|i: int| 0 <= i < existing.len() && related(#[trigger] existing[i], candidate)
}

/// Relations between a stored enrollment and a candidate, as values.
pub open spec fn equal_record() -> spec_fn(AgentRegistryRecord, AgentRegistryRecord) -> bool {
    |existing: AgentRegistryRecord, candidate: AgentRegistryRecord| existing.same(candidate)
}

/// The stored enrollment has the candidate's identity or answers its token request.
pub open spec fn same_request() -> spec_fn(AgentRegistryRecord, AgentRegistryRecord) -> bool {
    |existing: AgentRegistryRecord, candidate: AgentRegistryRecord|
        existing.enrollment.enrollment_id@ == candidate.enrollment.enrollment_id@
            || same_token_request(existing, candidate)
}

/// The stored enrollment keeps the candidate out.
pub open spec fn blocking() -> spec_fn(AgentRegistryRecord, AgentRegistryRecord) -> bool {
    |existing: AgentRegistryRecord, candidate: AgentRegistryRecord| keeps_out(existing, candidate)
}

/// The stored enrollment has the candidate's bootstrap request.
pub open spec fn same_bootstrap() -> spec_fn(AgentRegistryRecord, AgentRegistryRecord) -> bool {
    |existing: AgentRegistryRecord, candidate: AgentRegistryRecord|
        bootstrap_requests_conflict(existing, candidate)
}

/// The stored enrollment has the candidate's decision.
pub open spec fn same_decision() -> spec_fn(AgentRegistryRecord, AgentRegistryRecord) -> bool {
    |existing: AgentRegistryRecord, candidate: AgentRegistryRecord|
        decision_requests_conflict(existing, candidate)
}

/// The stored enrollment has the candidate's installation or key.
pub open spec fn same_candidate() -> spec_fn(AgentRegistryRecord, AgentRegistryRecord) -> bool {
    |existing: AgentRegistryRecord, candidate: AgentRegistryRecord|
        candidates_conflict(existing, candidate)
}

/// A relation by which stored enrollments are searched.
#[derive(Debug, Clone, Copy, PartialEq, Eq, Structural)]
enum Relation {
    Equal,
    SameRequest,
    Blocking,
    SameBootstrap,
    SameDecision,
    SameCandidate,
}

spec fn meaning(relation: Relation) -> spec_fn(AgentRegistryRecord, AgentRegistryRecord) -> bool {
    match relation {
        Relation::Equal => equal_record(),
        Relation::SameRequest => same_request(),
        Relation::Blocking => blocking(),
        Relation::SameBootstrap => same_bootstrap(),
        Relation::SameDecision => same_decision(),
        Relation::SameCandidate => same_candidate(),
    }
}

fn find_related(
    existing: &Vec<AgentRegistryRecord>,
    candidate: &AgentRegistryRecord,
    relation: Relation,
) -> (place: Option<usize>)
    ensures
        place is Some <==> any_related(existing@, *candidate, meaning(relation)),
        place matches Some(index) ==> {
            &&& index < existing@.len()
            &&& meaning(relation)(existing@[index as int], *candidate)
            &&& forall|i: int|
                0 <= i < index ==> !meaning(relation)(#[trigger] existing@[i], *candidate)
        },
{
    let mut index: usize = 0;
    while index < existing.len()
        invariant
            index <= existing.len(),
            forall|i: int|
                0 <= i < index ==> !meaning(relation)(#[trigger] existing@[i], *candidate),
        decreases existing.len() - index,
    {
        let stored = &existing[index];
        let related = match relation {
            Relation::Equal => *stored == *candidate,
            Relation::SameRequest => stored.enrollment.enrollment_id
                == candidate.enrollment.enrollment_id || shares_token_request(stored, candidate),
            Relation::Blocking => blocks(stored, candidate),
            Relation::SameBootstrap => bootstrap_request_identity_conflicts(stored, candidate),
            Relation::SameDecision => decision_request_identity_conflicts(stored, candidate),
            Relation::SameCandidate => candidate_identity_conflicts(stored, candidate),
        };
        assert(related == meaning(relation)(existing@[index as int], *candidate));
        if related {
            return Some(index);
        }
        index += 1;
    }
    None
}

/// The first stored enrollment that stands in a relation to a candidate.
pub open spec fn is_first_related(
    existing: Seq<AgentRegistryRecord>,
    candidate: AgentRegistryRecord,
    related: spec_fn(AgentRegistryRecord, AgentRegistryRecord) -> bool,
    index: int,
) -> bool {
    &&& 0 <= index < existing.len()
    &&& related(existing[index], candidate)
    &&& forall|i: int| 0 <= i < index ==> !related(#[trigger] existing[i], candidate)
}

/// Why an insert that met a unique index fails.
pub open spec fn unique_insert_fault(
    existing: Seq<AgentRegistryRecord>,
    candidate: AgentRegistryRecord,
) -> Option<Fault> {
    if any_related(existing, candidate, equal_record()) || any_related(
        existing,
        candidate,
        same_request(),
    ) {
        None
    } else if any_related(existing, candidate, blocking()) {
        Some(active_enrollment_fault())
    } else if any_related(existing, candidate, same_bootstrap()) {
        Some(
            final_fault(
                CentralErrorCode::EnrollmentIdReused,
                "Agent bootstrap request identity is already bound to another enrollment"@,
            ),
        )
    } else if any_related(existing, candidate, same_decision()) {
        Some(
            final_fault(
                CentralErrorCode::EnrollmentDecisionConflict,
                "Agent decision request identity is already bound to another enrollment"@,
            ),
        )
    } else if any_related(existing, candidate, same_candidate()) {
        Some(
            final_fault(
                CentralErrorCode::AgentIdentityMismatch,
                "Agent candidate identity is already bound to another enrollment"@,
            ),
        )
    } else {
        Some(corruption_fault("unique Agent enrollment conflict disappeared before reload"@))
    }
}

/// Answers an insert that met a unique index, given the enrollments that it may have met: the
/// index of the one that stands for it, or why it fails.
pub fn resolve_unique_insert_conflict(
    existing: &Vec<AgentRegistryRecord>,
    candidate: &AgentRegistryRecord,
) -> (result: CentralResult<usize>)
    ensures
        fault_of(result) == unique_insert_fault(existing@, *candidate),
        result matches Ok(index) ==> if any_related(existing@, *candidate, equal_record()) {
            is_first_related(existing@, *candidate, equal_record(), index as int)
        } else {
            is_first_related(existing@, *candidate, same_request(), index as int)
        },
{
    if let Some(index) = find_related(existing, candidate, Relation::Equal) {
        return Ok(index);
    }
    if let Some(index) = find_related(existing, candidate, Relation::SameRequest) {
        return Ok(index);
    }
    if find_related(existing, candidate, Relation::Blocking).is_some() {
        return Err(active_enrollment_failure());
    }
    if find_related(existing, candidate, Relation::SameBootstrap).is_some() {
        return Err(
            final_failure(
                CentralErrorCode::EnrollmentIdReused,
                "Agent bootstrap request identity is already bound to another enrollment",
            ),
        );
    }
    if find_related(existing, candidate, Relation::SameDecision).is_some() {
        return Err(
            final_failure(
                CentralErrorCode::EnrollmentDecisionConflict,
                "Agent decision request identity is already bound to another enrollment",
            ),
        );
    }
    if find_related(existing, candidate, Relation::SameCandidate).is_some() {
        return Err(
            final_failure(
                CentralErrorCode::AgentIdentityMismatch,
                "Agent candidate identity is already bound to another enrollment",
            ),
        );
    }
    Err(corruption("unique Agent enrollment conflict disappeared before reload"))
}

/// What the violation of a unique index says, read off the columns that the database names.
pub open spec fn unique_update_fault(message: Seq<char>) -> Fault {
    if contains_text(message, "pvc_binding_role"@) {
        final_fault(
            CentralErrorCode::VolumeOwnerConflict,
            "Agent registry Volume or PVC binding is already active"@,
        )
    } else if contains_text(message, "installation_id"@) || contains_text(
        message,
        "public_key_fingerprint"@,
    ) {
        final_fault(
            CentralErrorCode::AgentIdentityMismatch,
            "Agent candidate identity is already bound to another enrollment"@,
        )
    } else if contains_text(message, "decision_request_id"@) {
        final_fault(
            CentralErrorCode::EnrollmentDecisionConflict,
            "Agent decision request identity is already bound to another enrollment"@,
        )
    } else {
        final_fault(
            CentralErrorCode::EnrollmentIdReused,
            "Agent registry request identity is already bound to another enrollment"@,
        )
    }
}

/// The failure of an update that met a unique index.
pub fn registry_update_error(message: &str) -> (failure: CentralError)
    ensures
        failure@ == unique_update_fault(message@),
{
    if text_contains(message, "pvc_binding_role") {
        final_failure(
            CentralErrorCode::VolumeOwnerConflict,
            "Agent registry Volume or PVC binding is already active",
        )
    } else if text_contains(message, "installation_id") || text_contains(
        message,
        "public_key_fingerprint",
    ) {
        final_failure(
            CentralErrorCode::AgentIdentityMismatch,
            "Agent candidate identity is already bound to another enrollment",
        )
    } else if text_contains(message, "decision_request_id") {
        final_failure(
            CentralErrorCode::EnrollmentDecisionConflict,
            "Agent decision request identity is already bound to another enrollment",
        )
    } else {
        final_failure(
            CentralErrorCode::EnrollmentIdReused,
            "Agent registry request identity is already bound to another enrollment",
        )
    }
}

/// A fresh token intent that nothing keeps out holds its Volume and its claim alone, or beside
/// the one owner that it is to take over from.
pub proof fn lemma_free_insert_keeps_roles_apart(
    existing: AgentRegistryRecord,
    candidate: AgentRegistryRecord,
)
    requires
        candidate.enrollment.state is TokenIssued,
        !keeps_out(existing, candidate),
        same_volume(existing, candidate) || same_claim(existing, candidate),
    ensures
        binding_role(existing) is Some ==> binding_role(existing) != binding_role(candidate)
            && same_volume(existing, candidate),
{
}

} // verus!
