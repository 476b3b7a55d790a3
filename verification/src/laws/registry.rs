//! What the Agent registry promises: which enrollments keep each other out, and what is found,
//! stored and replaced.
use vstd::prelude::*;

use crate::agent_registry::conflict::{
    bootstrap_request_identity_conflicts, candidate_identity_conflicts,
    decision_request_identity_conflicts, identity_conflicts, is_first_decisive, is_terminal,
    pvc_binding, pvc_binding_role, pvc_identity_conflicts, resolve_insert, volume_intent_conflicts,
    InsertVerdict, PvcBindingRole,
};
use crate::agent_registry::intent::{AgentRegistryInsertOutcome, PvcVolumeBinding};
use crate::agent_registry::records::{AgentEnrollmentState, AgentRegistryRecord};
use crate::agent_registry::repository::{
    AgentRegistryReplacementRecords, InMemoryAgentRegistry, RegistryEntry, RegistryView,
};
use crate::digest::{ContentDigest, PvcIdentityDigest};
use crate::equality::Same;
use crate::error::{CentralErrorCode, CentralResult};
use crate::identifier::{
    AgentEnrollmentId, AgentId, AgentInstallationId, EdgeClusterId, RequestId, StorageVolumeId,
    TenantId, UnixMillis,
};
use crate::laws::jobs::fails_with;

verus! {

/// An enrollment is over: rejected, expired or revoked. An issued token, a candidate that waits and
/// an approved Agent are not.
pub open spec fn is_over(state: AgentEnrollmentState) -> bool {
    match state {
        AgentEnrollmentState::Rejected
        | AgentEnrollmentState::Expired
        | AgentEnrollmentState::Revoked => true,
        AgentEnrollmentState::TokenIssued
        | AgentEnrollmentState::PendingApproval
        | AgentEnrollmentState::Approved => false,
    }
}

/// Two enrollments answer the same token request of a tenant.
pub open spec fn share_a_request(left: AgentRegistryRecord, right: AgentRegistryRecord) -> bool {
    &&& left.enrollment.tenant_id@ == right.enrollment.tenant_id@
    &&& left.enrollment.token_request_id@ == right.enrollment.token_request_id@
}

/// Two enrollments are about the same volume of a tenant.
pub open spec fn share_a_volume(left: AgentRegistryRecord, right: AgentRegistryRecord) -> bool {
    &&& left.enrollment.tenant_id@ == right.enrollment.tenant_id@
    &&& left.enrollment.storage_volume_id@ == right.enrollment.storage_volume_id@
}

/// Two enrollments are about the same claim of an edge cluster.
pub open spec fn share_a_claim(left: AgentRegistryRecord, right: AgentRegistryRecord) -> bool {
    &&& left.enrollment.edge_cluster_id@ == right.enrollment.edge_cluster_id@
    &&& left.enrollment.pvc_identity_digest == right.enrollment.pvc_identity_digest
}

/// Two enrollments share an Agent, a token or a token request.
pub open spec fn share_an_identity(left: AgentRegistryRecord, right: AgentRegistryRecord) -> bool {
    ||| left.enrollment.reserved_agent_id@ == right.enrollment.reserved_agent_id@
    ||| left.enrollment.token_id@ == right.enrollment.token_id@
    ||| share_a_request(left, right)
    ||| left.enrollment.bootstrap_token_digest == right.enrollment.bootstrap_token_digest
}

/// A candidate is the replacement of an approved enrollment.
pub open spec fn replaces(candidate: AgentRegistryRecord, existing: AgentRegistryRecord) -> bool {
    &&& candidate.enrollment.replaces_enrollment_id is Some
    &&& candidate.enrollment.replaces_enrollment_id->0@ == existing.enrollment.enrollment_id@
    &&& existing.enrollment.state is Approved
}

/// An enrollment keeps a new one out: they share an identity, or the older one is not over and they
/// share a volume or a claim without the new one being its replacement.
pub open spec fn stands_in_the_way(
    existing: AgentRegistryRecord,
    candidate: AgentRegistryRecord,
) -> bool {
    ||| share_an_identity(existing, candidate)
    ||| share_a_volume(existing, candidate) && !is_over(existing.enrollment.state) && !replaces(
        candidate,
        existing,
    )
    ||| share_a_claim(existing, candidate) && !is_over(existing.enrollment.state) && !(
    share_a_volume(existing, candidate) && replaces(candidate, existing))
}

/// Which enrollments keep each other out, one question at a time.
pub proof fn lemma_enrollments_keep_each_other_out(
    existing: &AgentRegistryRecord,
    candidate: &AgentRegistryRecord,
    by_identity: bool,
    by_volume: bool,
    by_claim: bool,
    by_bootstrap: bool,
    by_decision: bool,
    by_candidate: bool,
    over: bool,
)
    requires
        call_ensures(identity_conflicts, (existing, candidate), by_identity),
        call_ensures(volume_intent_conflicts, (existing, candidate), by_volume),
        call_ensures(pvc_identity_conflicts, (existing, candidate), by_claim),
        call_ensures(bootstrap_request_identity_conflicts, (existing, candidate), by_bootstrap),
        call_ensures(decision_request_identity_conflicts, (existing, candidate), by_decision),
        call_ensures(candidate_identity_conflicts, (existing, candidate), by_candidate),
        call_ensures(is_terminal, (existing.enrollment.state,), over),
    ensures
        over <==> is_over(existing.enrollment.state),
        by_identity <==> share_an_identity(*existing, *candidate),
        by_volume <==> share_a_volume(*existing, *candidate) && !is_over(existing.enrollment.state)
            && !replaces(*candidate, *existing),
        by_claim <==> share_a_claim(*existing, *candidate) && !is_over(existing.enrollment.state)
            && !(share_a_volume(*existing, *candidate) && replaces(*candidate, *existing)),
        by_bootstrap <==> {
            &&& existing.enrollment.tenant_id@ == candidate.enrollment.tenant_id@
            &&& existing.enrollment.bootstrap_request_id is Some
            &&& candidate.enrollment.bootstrap_request_id is Some
            &&& existing.enrollment.bootstrap_request_id->0@
                == candidate.enrollment.bootstrap_request_id->0@
        },
        by_decision <==> {
            &&& existing.enrollment.tenant_id@ == candidate.enrollment.tenant_id@
            &&& existing.enrollment.decision_request is Some
            &&& candidate.enrollment.decision_request is Some
            &&& existing.enrollment.decision_request->0.decision_request_id@
                == candidate.enrollment.decision_request->0.decision_request_id@
        },
        by_candidate <==> {
            &&& existing.candidate is Some
            &&& candidate.candidate is Some
            &&& existing.candidate->0.installation_id@ == candidate.candidate->0.installation_id@
                || existing.candidate->0.public_key_fingerprint
                == candidate.candidate->0.public_key_fingerprint
        },
{
}

/// An enrollment that is not over binds its claim: as the owner where it is approved or replaces
/// nobody, and as a replacement otherwise.
pub proof fn lemma_open_enrollment_binds_its_claim(
    record: &AgentRegistryRecord,
    role: Option<PvcBindingRole>,
    binding: PvcVolumeBinding,
)
    requires
        call_ensures(pvc_binding_role, (record,), role),
        call_ensures(pvc_binding, (record,), binding),
    ensures
        role is None <==> is_over(record.enrollment.state),
        role == Some(PvcBindingRole::Owner) <==> !is_over(record.enrollment.state) && (
        record.enrollment.state is Approved || record.enrollment.replaces_enrollment_id is None),
        role == Some(PvcBindingRole::Replacement) <==> !is_over(record.enrollment.state) && !(
        record.enrollment.state is Approved) && record.enrollment.replaces_enrollment_id is Some,
        binding.pvc_identity_digest == record.enrollment.pvc_identity_digest,
        binding.tenant_id@ == record.enrollment.tenant_id@,
        binding.edge_cluster_id@ == record.enrollment.edge_cluster_id@,
        binding.storage_volume_id@ == record.enrollment.storage_volume_id@,
{
}

/// Where no enrollment stands in the way of a new one, it may go in. Where the first that does
/// answers the same token request, that is its replay; otherwise the new one is refused as a
/// conflict of owners.
pub proof fn lemma_first_in_the_way_decides(
    existing: &Vec<AgentRegistryRecord>,
    candidate: &AgentRegistryRecord,
    result: CentralResult<InsertVerdict>,
    first: int,
)
    requires
        call_ensures(resolve_insert, (existing, candidate), result),
        0 <= first < existing@.len(),
        stands_in_the_way(existing@[first], *candidate),
        forall|i: int|
            0 <= i < first ==> !stands_in_the_way(#[trigger] existing@[i], *candidate),
    ensures
        share_a_request(existing@[first], *candidate) ==> (result matches Ok(
            InsertVerdict::Replay(index),
        ) && index == first),
        !share_a_request(existing@[first], *candidate) ==> fails_with(
            result,
            CentralErrorCode::VolumeOwnerConflict,
        ),
{
    assert(is_first_decisive(existing@, *candidate, first));
    assert forall|index: int| is_first_decisive(existing@, *candidate, index) implies index
        == first by {
        if index < first {
            assert(!stands_in_the_way(existing@[index], *candidate));
        }
    }
}

/// Where no enrollment stands in the way of a new one, it may go in.
pub proof fn lemma_nothing_in_the_way(
    existing: &Vec<AgentRegistryRecord>,
    candidate: &AgentRegistryRecord,
    result: CentralResult<InsertVerdict>,
)
    requires
        call_ensures(resolve_insert, (existing, candidate), result),
        forall|i: int|
            0 <= i < existing@.len() ==> !stands_in_the_way(#[trigger] existing@[i], *candidate),
    ensures
        result is Ok && result->Ok_0 is Free,
{
    assert forall|index: int| !is_first_decisive(existing@, *candidate, index) by {
        if 0 <= index < existing@.len() {
            assert(!stands_in_the_way(existing@[index], *candidate));
        }
    }
}

/// A record is what is stored for some enrollment that is wanted, and there is nothing where none is.
pub open spec fn is_one_of(
    registry: RegistryView,
    wanted: spec_fn(AgentRegistryRecord) -> bool,
    found: Option<AgentRegistryRecord>,
) -> bool {
    match found {
        Some(record) => exists|name: Seq<char>| #[trigger]
            registry.records.contains_key(name) && wanted(registry.records[name].record)
                && record.same(registry.records[name].record),
        None => forall|name: Seq<char>| #[trigger]
            registry.records.contains_key(name) ==> !wanted(registry.records[name].record),
    }
}

/// An enrollment is read back under its identity, and for a tenant only where it is its own.
pub proof fn lemma_enrollment_is_read_back(
    registry: InMemoryAgentRegistry,
    tenant_id: &TenantId,
    enrollment_id: &AgentEnrollmentId,
    found: Option<AgentRegistryRecord>,
    own: Option<AgentRegistryRecord>,
)
    requires
        call_ensures(InMemoryAgentRegistry::get, (&registry, enrollment_id), found),
        call_ensures(
            InMemoryAgentRegistry::get_for_tenant,
            (&registry, tenant_id, enrollment_id),
            own,
        ),
    ensures
        found is Some <==> registry@.records.contains_key(enrollment_id@),
        found is Some ==> found->0.same(registry@.records[enrollment_id@].record),
        own is Some <==> registry@.records.contains_key(enrollment_id@)
            && registry@.records[enrollment_id@].record.enrollment.tenant_id@ == tenant_id@,
        own is Some ==> own->0.same(registry@.records[enrollment_id@].record),
{
}

/// An enrollment is found by its Agent, by its token, by the requests of its tenant that asked for
/// its token, redeemed it or decided on it, and by the installation and the key of its candidate.
pub proof fn lemma_enrollment_is_found_by_what_it_holds(
    registry: InMemoryAgentRegistry,
    agent_id: &AgentId,
    digest: &ContentDigest,
    tenant_id: &TenantId,
    request_id: &RequestId,
    installation_id: &AgentInstallationId,
    by_agent: Option<AgentRegistryRecord>,
    by_token: Option<AgentRegistryRecord>,
    by_token_request: Option<AgentRegistryRecord>,
    by_bootstrap_request: Option<AgentRegistryRecord>,
    by_decision_request: Option<AgentRegistryRecord>,
    by_installation: Option<AgentRegistryRecord>,
    by_key: Option<AgentRegistryRecord>,
)
    requires
        call_ensures(InMemoryAgentRegistry::get_by_agent, (&registry, agent_id), by_agent),
        call_ensures(InMemoryAgentRegistry::get_by_token_digest, (&registry, digest), by_token),
        call_ensures(
            InMemoryAgentRegistry::get_by_token_request_id,
            (&registry, tenant_id, request_id),
            by_token_request,
        ),
        call_ensures(
            InMemoryAgentRegistry::get_by_bootstrap_request_id,
            (&registry, tenant_id, request_id),
            by_bootstrap_request,
        ),
        call_ensures(
            InMemoryAgentRegistry::get_by_decision_request_id,
            (&registry, tenant_id, request_id),
            by_decision_request,
        ),
        call_ensures(
            InMemoryAgentRegistry::get_by_installation_id,
            (&registry, installation_id),
            by_installation,
        ),
        call_ensures(
            InMemoryAgentRegistry::get_by_public_key_fingerprint,
            (&registry, digest),
            by_key,
        ),
    ensures
        is_one_of(
            registry@,
            |record: AgentRegistryRecord| record.enrollment.reserved_agent_id@ == agent_id@,
            by_agent,
        ),
        is_one_of(
            registry@,
            |record: AgentRegistryRecord| record.enrollment.bootstrap_token_digest == *digest,
            by_token,
        ),
        is_one_of(
            registry@,
            |record: AgentRegistryRecord|
                record.enrollment.tenant_id@ == tenant_id@ && record.enrollment.token_request_id@
                    == request_id@,
            by_token_request,
        ),
        is_one_of(
            registry@,
            |record: AgentRegistryRecord|
                record.enrollment.tenant_id@ == tenant_id@
                    && record.enrollment.bootstrap_request_id is Some
                    && record.enrollment.bootstrap_request_id->0@ == request_id@,
            by_bootstrap_request,
        ),
        is_one_of(
            registry@,
            |record: AgentRegistryRecord|
                record.enrollment.tenant_id@ == tenant_id@
                    && record.enrollment.decision_request is Some
                    && record.enrollment.decision_request->0.decision_request_id@ == request_id@,
            by_decision_request,
        ),
        is_one_of(
            registry@,
            |record: AgentRegistryRecord|
                record.candidate is Some && record.candidate->0.installation_id@
                    == installation_id@,
            by_installation,
        ),
        is_one_of(
            registry@,
            |record: AgentRegistryRecord|
                record.candidate is Some && record.candidate->0.public_key_fingerprint == *digest,
            by_key,
        ),
{
}

/// The current Agent of a volume is the approved one, and a claim is bound by every enrollment that
/// is not over.
pub proof fn lemma_volume_gives_its_agent(
    registry: InMemoryAgentRegistry,
    tenant_id: &TenantId,
    storage_volume_id: &StorageVolumeId,
    edge_cluster_id: &EdgeClusterId,
    digest: &PvcIdentityDigest,
    current: Option<AgentRegistryRecord>,
    binding: Option<PvcVolumeBinding>,
)
    requires
        call_ensures(
            InMemoryAgentRegistry::get_current_by_volume,
            (&registry, tenant_id, storage_volume_id),
            current,
        ),
        call_ensures(
            InMemoryAgentRegistry::get_pvc_binding,
            (&registry, edge_cluster_id, digest),
            binding,
        ),
    ensures
        is_one_of(
            registry@,
            |record: AgentRegistryRecord|
                record.enrollment.tenant_id@ == tenant_id@ && record.enrollment.storage_volume_id@
                    == storage_volume_id@ && record.enrollment.state is Approved,
            current,
        ),
        forall|name: Seq<char>| #[trigger]
            registry@.records.contains_key(name)
                && registry@.records[name].record.enrollment.edge_cluster_id@ == edge_cluster_id@
                && registry@.records[name].record.enrollment.pvc_identity_digest == *digest
                && !is_over(registry@.records[name].record.enrollment.state) ==> {
                &&& binding is Some
                &&& binding->0.pvc_identity_digest == *digest
                &&& binding->0.edge_cluster_id@ == edge_cluster_id@
                &&& binding->0.tenant_id@
                    == registry@.records[name].record.enrollment.tenant_id@
                &&& binding->0.storage_volume_id@
                    == registry@.records[name].record.enrollment.storage_volume_id@
            },
        binding is Some ==> exists|name: Seq<char>| #[trigger]
            registry@.records.contains_key(name)
                && registry@.records[name].record.enrollment.edge_cluster_id@ == edge_cluster_id@
                && registry@.records[name].record.enrollment.pvc_identity_digest == *digest
                && !is_over(registry@.records[name].record.enrollment.state),
{
}

/// An enrollment is inserted once under its identity: a new one is stored as it is given, an identity
/// that is there gives the stored one, and what fails changes nothing.
pub proof fn lemma_enrollment_is_inserted_once(
    record: AgentRegistryRecord,
    identity: Option<PvcIdentityDigest>,
    result: CentralResult<AgentRegistryInsertOutcome>,
)
    ensures
        forall|registry: &mut InMemoryAgentRegistry|
            #[trigger] call_ensures(
                InMemoryAgentRegistry::insert_or_load,
                (registry, record, identity),
                result,
            ) ==> {
                let before = (*registry)@;
                let after = final(registry)@;
                let name = record.enrollment.enrollment_id@;
                &&& result is Err ==> after == before
                &&& result matches Ok(AgentRegistryInsertOutcome::Existing(found)) ==> {
                    &&& after == before
                    &&& before.records.contains_key(name) ==> found.same(
                        before.records[name].record,
                    )
                }
                &&& result matches Ok(AgentRegistryInsertOutcome::Inserted(stored)) ==> {
                    &&& !before.records.contains_key(name)
                    &&& stored.same(record)
                    &&& after == RegistryView {
                        records: before.records.insert(
                            name,
                            RegistryEntry { record, derived_pvc_identity: identity },
                        ),
                        ..before
                    }
                }
            },
{
}

/// An enrollment is replaced only at the version that was read, by the version that follows, and
/// where no other enrollment has its candidate's installation or key or its requests; it is stored as
/// it is given, and what fails changes nothing.
pub proof fn lemma_enrollment_is_replaced_at_its_version(
    expected: u64,
    record: AgentRegistryRecord,
    identity: Option<PvcIdentityDigest>,
    result: CentralResult<AgentRegistryRecord>,
)
    ensures
        forall|registry: &mut InMemoryAgentRegistry|
            #[trigger] call_ensures(
                InMemoryAgentRegistry::replace,
                (registry, expected, record, identity),
                result,
            ) ==> {
                let before = (*registry)@;
                let after = final(registry)@;
                let name = record.enrollment.enrollment_id@;
                &&& result is Err ==> after == before
                &&& result is Ok ==> {
                    &&& before.records.contains_key(name)
                    &&& before.records[name].record.resource_version == expected
                    &&& record.resource_version == expected + 1
                    &&& result->Ok_0.same(record)
                    &&& after == RegistryView {
                        records: before.records.insert(
                            name,
                            RegistryEntry { record, derived_pvc_identity: identity },
                        ),
                        ..before
                    }
                    &&& forall|other: Seq<char>| #[trigger]
                        before.records.contains_key(other) && other != name
                            && before.records[other].record.candidate is Some
                            && record.candidate is Some ==> {
                            let held = before.records[other].record.candidate->0;
                            &&& held.installation_id@ != record.candidate->0.installation_id@
                            &&& held.public_key_fingerprint
                                != record.candidate->0.public_key_fingerprint
                        }
                }
            },
{
}

/// A replacement is activated in one write: the revoked enrollment and the new one are both stored as
/// they are given, or neither is.
pub proof fn lemma_replacement_is_activated_whole(
    expected_previous: u64,
    revoked: RegistryEntry,
    expected_replacement: u64,
    replacement: RegistryEntry,
    result: CentralResult<AgentRegistryReplacementRecords>,
)
    ensures
        forall|registry: &mut InMemoryAgentRegistry|
            #[trigger] call_ensures(
                InMemoryAgentRegistry::activate_replacement,
                (registry, expected_previous, revoked, expected_replacement, replacement),
                result,
            ) ==> {
                let before = (*registry)@;
                let after = final(registry)@;
                &&& result is Err ==> after == before
                &&& result matches Ok(activated) ==> {
                    &&& before.records.contains_key(revoked.record.enrollment.enrollment_id@)
                    &&& before.records.contains_key(replacement.record.enrollment.enrollment_id@)
                    &&& activated.revoked.same(revoked.record)
                    &&& activated.replacement.same(replacement.record)
                    &&& after == RegistryView {
                        records: before.records.insert(
                            revoked.record.enrollment.enrollment_id@,
                            revoked,
                        ).insert(replacement.record.enrollment.enrollment_id@, replacement),
                        ..before
                    }
                }
            },
{
}

/// A signed status question moves the watermark of its enrollment forward, strictly: one that is not
/// newer than the last is refused, and so is one for an enrollment that is not there.
pub proof fn lemma_watermark_moves_forward(
    enrollment_id: &AgentEnrollmentId,
    signed_at: UnixMillis,
    result: CentralResult<()>,
)
    ensures
        forall|registry: &mut InMemoryAgentRegistry|
            #[trigger] call_ensures(
                InMemoryAgentRegistry::consume_bootstrap_status_signed_at,
                (registry, enrollment_id, signed_at),
                result,
            ) ==> {
                let before = (*registry)@;
                let after = final(registry)@;
                let name = enrollment_id@;
                if !before.records.contains_key(name) {
                    fails_with(result, CentralErrorCode::StorageFailure) && after == before
                } else if before.watermarks.contains_key(name) && signed_at
                    <= before.watermarks[name] {
                    fails_with(result, CentralErrorCode::ConcurrentUpdate) && after == before
                } else {
                    result is Ok && after == RegistryView {
                        watermarks: before.watermarks.insert(name, signed_at),
                        ..before
                    }
                }
            },
{
}

} // verus!
