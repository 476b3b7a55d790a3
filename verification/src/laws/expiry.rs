//! What expires, and when: a token that nobody redeemed and a candidate that nobody decided on.
use vstd::prelude::*;

use crate::agent_registry::records::{AgentRegistryRecord, StorageEnrollmentState};
use crate::agent_registry::repository::expiry::{
    expire_if_stale, is_closed_at, stale_anywhere, stale_intents, stale_is_exhausted, stale_reviews,
    AgentEnrollmentExpiryReconciliation,
};
use crate::agent_registry::repository::InMemoryAgentRegistry;
use crate::digest::PvcIdentityDigest;
use crate::error::CentralResult;
use crate::identifier::{EdgeClusterId, StorageVolumeId, TenantId, UnixMillis};
use crate::laws::enrollment::{is_closed, lemma_events};

verus! {

/// A token that was not redeemed is due from its expiry on.
pub open spec fn token_is_due(record: AgentRegistryRecord, now: UnixMillis) -> bool {
    record.enrollment.state is TokenIssued && now >= record.enrollment.expires_at_unix_ms
}

/// A candidate that waits is due from the end of its review on.
pub open spec fn review_is_due(record: AgentRegistryRecord, now: UnixMillis) -> bool {
    &&& record.enrollment.state is PendingApproval
    &&& record.enrollment.review_expires_at_unix_ms is Some
    &&& now >= record.enrollment.review_expires_at_unix_ms->0
}

/// A record was closed for being due: one that had a candidate shows as expired then.
pub open spec fn is_closed_for_being_due(
    before: AgentRegistryRecord,
    after: AgentRegistryRecord,
    now: UnixMillis,
) -> bool {
    &&& before.enrollment.state is TokenIssued ==> is_closed(before, after, None, now)
    &&& before.enrollment.state is PendingApproval ==> is_closed(
        before,
        after,
        Some(StorageEnrollmentState::Expired),
        now,
    )
}

proof fn lemma_closed(before: AgentRegistryRecord, after: AgentRegistryRecord, now: UnixMillis)
    requires
        is_closed_at(before, after, now),
        before.resource_version < u64::MAX,
        before.enrollment.state is TokenIssued || before.enrollment.state is PendingApproval,
    ensures
        is_closed_for_being_due(before, after, now),
{
    if !(before.storage_enrollment.record_format is LegacyV2) {
        lemma_events(before.storage_enrollment, after.storage_enrollment);
    }
}

/// An enrollment that is due is closed, and one that is not is left as it is.
pub proof fn lemma_due_enrollment_is_closed(
    record: AgentRegistryRecord,
    derived: Option<PvcIdentityDigest>,
    now: UnixMillis,
    result: CentralResult<Option<AgentRegistryRecord>>,
)
    requires
        call_ensures(expire_if_stale, (record, derived, now), result),
        record.resource_version < u64::MAX,
    ensures
        !token_is_due(record, now) && !review_is_due(record, now) ==> result == CentralResult::<
            Option<AgentRegistryRecord>,
        >::Ok(None),
        (token_is_due(record, now) || review_is_due(record, now)) && result is Ok ==> {
            &&& result->Ok_0 is Some
            &&& is_closed_for_being_due(record, result->Ok_0->0, now)
        },
{
    if result is Ok && (token_is_due(record, now) || review_is_due(record, now)) {
        lemma_closed(record, result->Ok_0->0, now);
    }
}

/// A sweep closes every enrollment of the registry that is due, of every tenant, and touches no other.
pub proof fn lemma_sweep_closes_what_is_due(
    now: UnixMillis,
    name: Seq<char>,
    result: CentralResult<AgentEnrollmentExpiryReconciliation>,
)
    ensures
        forall|registry: &mut InMemoryAgentRegistry|
            #[trigger] call_ensures(
                InMemoryAgentRegistry::reconcile_expired_enrollments,
                (registry, now),
                result,
            ) && (*registry)@.records.contains_key(name) ==> {
                let before = (*registry)@.records[name];
                let after = final(registry)@.records[name];
                &&& final(registry)@.watermarks == (*registry)@.watermarks
                &&& final(registry)@.records.contains_key(name)
                &&& result is Err ==> after == before
                &&& !token_is_due(before.record, now) && !review_is_due(before.record, now)
                    ==> after == before
                &&& result is Ok && (token_is_due(before.record, now) || review_is_due(
                    before.record,
                    now,
                )) ==> is_closed_for_being_due(before.record, after.record, now)
            },
{
    assert forall|registry: &mut InMemoryAgentRegistry|
        #[trigger] call_ensures(
            InMemoryAgentRegistry::reconcile_expired_enrollments,
            (registry, now),
            result,
        ) && (*registry)@.records.contains_key(name) implies {
        let before = (*registry)@.records[name];
        let after = final(registry)@.records[name];
        &&& final(registry)@.watermarks == (*registry)@.watermarks
        &&& final(registry)@.records.contains_key(name)
        &&& result is Err ==> after == before
        &&& !token_is_due(before.record, now) && !review_is_due(before.record, now) ==> after
            == before
        &&& result is Ok && (token_is_due(before.record, now) || review_is_due(before.record, now))
            ==> is_closed_for_being_due(before.record, after.record, now)
    } by {
        let before = (*registry)@.records[name];
        let after = final(registry)@.records[name];
        let stale = stale_anywhere(now);
        assert(stale(before.record) == (token_is_due(before.record, now) || review_is_due(
            before.record,
            now,
        )));
        assert((*registry)@.records.dom().contains(name));
        if result is Ok {
            assert(final(registry)@.records.dom().contains(name));
            if stale(before.record) {
                assert(!stale_is_exhausted((*registry)@.records, stale));
                lemma_closed(before.record, after.record, now);
            }
        }
    }
}

/// Before a token is issued, the tokens that are due are closed: those of the tenant's volume and
/// those of the claim, and no other enrollment is touched.
pub proof fn lemma_due_tokens_make_way(
    tenant_id: &TenantId,
    storage_volume_id: &StorageVolumeId,
    edge_cluster_id: &EdgeClusterId,
    pvc_identity_digest: &PvcIdentityDigest,
    now: UnixMillis,
    name: Seq<char>,
    result: CentralResult<usize>,
)
    ensures
        forall|registry: &mut InMemoryAgentRegistry|
            #[trigger] call_ensures(
                InMemoryAgentRegistry::expire_stale_token_intents,
                (
                    registry,
                    tenant_id,
                    storage_volume_id,
                    edge_cluster_id,
                    pvc_identity_digest,
                    now,
                ),
                result,
            ) && (*registry)@.records.contains_key(name) ==> {
                let before = (*registry)@.records[name];
                let after = final(registry)@.records[name];
                let enrollment = before.record.enrollment;
                let in_the_way = (enrollment.tenant_id@ == tenant_id@
                    && enrollment.storage_volume_id@ == storage_volume_id@) || (
                enrollment.edge_cluster_id@ == edge_cluster_id@ && enrollment.pvc_identity_digest
                    == *pvc_identity_digest);
                &&& result is Err ==> after == before
                &&& !(token_is_due(before.record, now) && in_the_way) ==> after == before
                &&& result is Ok && token_is_due(before.record, now) && in_the_way
                    ==> is_closed_for_being_due(before.record, after.record, now)
            },
{
    assert forall|registry: &mut InMemoryAgentRegistry|
        #[trigger] call_ensures(
            InMemoryAgentRegistry::expire_stale_token_intents,
            (registry, tenant_id, storage_volume_id, edge_cluster_id, pvc_identity_digest, now),
            result,
        ) && (*registry)@.records.contains_key(name) implies {
        let before = (*registry)@.records[name];
        let after = final(registry)@.records[name];
        let enrollment = before.record.enrollment;
        let in_the_way = (enrollment.tenant_id@ == tenant_id@ && enrollment.storage_volume_id@
            == storage_volume_id@) || (enrollment.edge_cluster_id@ == edge_cluster_id@
            && enrollment.pvc_identity_digest == *pvc_identity_digest);
        &&& result is Err ==> after == before
        &&& !(token_is_due(before.record, now) && in_the_way) ==> after == before
        &&& result is Ok && token_is_due(before.record, now) && in_the_way
            ==> is_closed_for_being_due(before.record, after.record, now)
    } by {
        let before = (*registry)@.records[name];
        let after = final(registry)@.records[name];
        let stale = stale_intents(
            tenant_id@,
            storage_volume_id@,
            edge_cluster_id@,
            *pvc_identity_digest,
            now,
        );
        if result is Ok {
            if stale(before.record) {
                assert(!stale_is_exhausted((*registry)@.records, stale));
                lemma_closed(before.record, after.record, now);
            }
        }
    }
}

/// The reviews of a tenant that are due are closed, and no other enrollment is touched.
pub proof fn lemma_due_reviews_are_closed(
    tenant_id: &TenantId,
    now: UnixMillis,
    name: Seq<char>,
    result: CentralResult<usize>,
)
    ensures
        forall|registry: &mut InMemoryAgentRegistry|
            #[trigger] call_ensures(
                InMemoryAgentRegistry::expire_stale_review_enrollments,
                (registry, tenant_id, now),
                result,
            ) && (*registry)@.records.contains_key(name) ==> {
                let before = (*registry)@.records[name];
                let after = final(registry)@.records[name];
                let due = review_is_due(before.record, now) && before.record.enrollment.tenant_id@
                    == tenant_id@;
                &&& result is Err ==> after == before
                &&& !due ==> after == before
                &&& result is Ok && due ==> is_closed_for_being_due(
                    before.record,
                    after.record,
                    now,
                )
            },
{
    assert forall|registry: &mut InMemoryAgentRegistry|
        #[trigger] call_ensures(
            InMemoryAgentRegistry::expire_stale_review_enrollments,
            (registry, tenant_id, now),
            result,
        ) && (*registry)@.records.contains_key(name) implies {
        let before = (*registry)@.records[name];
        let after = final(registry)@.records[name];
        let due = review_is_due(before.record, now) && before.record.enrollment.tenant_id@
            == tenant_id@;
        &&& result is Err ==> after == before
        &&& !due ==> after == before
        &&& result is Ok && due ==> is_closed_for_being_due(before.record, after.record, now)
    } by {
        let before = (*registry)@.records[name];
        let after = final(registry)@.records[name];
        let stale = stale_reviews(tenant_id@, now);
        if result is Ok {
            if stale(before.record) {
                assert(!stale_is_exhausted((*registry)@.records, stale));
                lemma_closed(before.record, after.record, now);
            }
        }
    }
}

/// A sweep succeeds as long as no enrollment has used up its versions.
pub proof fn lemma_sweep_succeeds(
    now: UnixMillis,
    result: CentralResult<AgentEnrollmentExpiryReconciliation>,
)
    ensures
        forall|registry: &mut InMemoryAgentRegistry|
            #[trigger] call_ensures(
                InMemoryAgentRegistry::reconcile_expired_enrollments,
                (registry, now),
                result,
            ) && (forall|name: Seq<char>| #[trigger]
                (*registry)@.records.contains_key(name)
                    ==> (*registry)@.records[name].record.resource_version < u64::MAX)
                ==> result is Ok,
{
}

} // verus!
