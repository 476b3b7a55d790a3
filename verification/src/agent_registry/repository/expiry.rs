//! Closing enrollments whose time has passed.
use vstd::prelude::*;

use super::{are_apart, InMemoryAgentRegistry, RegistryEntry};
use crate::agent_registry::bootstrap::{expire_record, is_expired_from};
use crate::agent_registry::records::{
    AgentEnrollmentState, AgentRegistryRecord, StorageEnrollmentState,
};
use crate::agent_registry::transition::checked_next_registry_resource_version;
use crate::agent_registry::validation::{
    lifecycle_entry_is_valid, registry_record_fault, validate_registry_record,
};
use crate::digest::PvcIdentityDigest;
use crate::equality::Same;
use crate::error::{corruption, corruption_fault, fault_of, CentralResult, Fault};
use crate::identifier::{EdgeClusterId, Identifier, StorageVolumeId, TenantId, UnixMillis};
use crate::table::{
    lemma_entry_is_mapped, lemma_filter_next, lemma_mapped_is_entry, lemma_names_differ, Named,
};

verus! {

/// How many enrollments one reconciliation closed.
#[derive(Debug, Clone, Copy, PartialEq, Eq, Structural)]
pub struct AgentEnrollmentExpiryReconciliation {
    pub expired_token_intents: usize,
    pub expired_review_enrollments: usize,
}

/// A bootstrap token that nobody used in time.
pub open spec fn token_is_stale(record: AgentRegistryRecord, now: UnixMillis) -> bool {
    record.enrollment.state is TokenIssued && record.enrollment.expires_at_unix_ms <= now
}

/// A candidate that nobody decided about in time.
pub open spec fn review_is_stale(record: AgentRegistryRecord, now: UnixMillis) -> bool {
    record.enrollment.state is PendingApproval && (
    record.enrollment.review_expires_at_unix_ms matches Some(expires_at) && expires_at <= now)
}

/// The public state of a stale enrollment once it is closed.
pub open spec fn public_state_when_expired(record: AgentRegistryRecord) -> Option<
    StorageEnrollmentState,
> {
    if record.enrollment.state is TokenIssued {
        None
    } else {
        Some(StorageEnrollmentState::Expired)
    }
}

/// A stored enrollment was closed at `now`.
pub open spec fn is_closed_at(
    before: AgentRegistryRecord,
    after: AgentRegistryRecord,
    now: UnixMillis,
) -> bool {
    is_expired_from(before, after, public_state_when_expired(before), now)
}

/// A closed enrollment breaks a rule.
pub open spec fn closing_breaks_rules(
    before: AgentRegistryRecord,
    derived_pvc_identity: Option<PvcIdentityDigest>,
    now: UnixMillis,
    problem: Fault,
) -> bool {
    exists|after: AgentRegistryRecord| #[trigger]
        is_closed_at(before, after, now) && registry_record_fault(after, derived_pvc_identity)
            == Some(problem)
}

/// An enrollment that obeys its rules still does once it is closed for being stale.
pub proof fn lemma_expiry_keeps_rules(
    before: AgentRegistryRecord,
    after: AgentRegistryRecord,
    derived_pvc_identity: Option<PvcIdentityDigest>,
    now: UnixMillis,
)
    requires
        registry_record_fault(before, derived_pvc_identity) is None,
        token_is_stale(before, now) || review_is_stale(before, now),
        before.resource_version < u64::MAX,
        is_closed_at(before, after, now),
    ensures
        registry_record_fault(after, derived_pvc_identity) is None,
{
    if before.storage_enrollment.record_format is CurrentV3 {
        let old_events = before.storage_enrollment.lifecycle_audit_events@;
        let events = after.storage_enrollment.lifecycle_audit_events@;
        assert forall|i: int| 0 <= i < events.len() implies #[trigger] lifecycle_entry_is_valid(
            after,
            i,
        ) by {
            assert(forall|j: int|
                0 <= j < old_events.len() ==> #[trigger] events.drop_last()[j] == events[j]);
            if i < old_events.len() {
                assert(lifecycle_entry_is_valid(before, i));
                assert(events[i] == old_events[i]);
                if i > 0 {
                    assert(events[i - 1] == old_events[i - 1]);
                }
            } else {
                assert(lifecycle_entry_is_valid(before, old_events.len() - 1));
                assert(events[i - 1] == old_events[i - 1]);
            }
        }
        assert(events[0] == events.drop_last()[0]);
    }
}

/// Aggregates that stand apart still do once either is closed.
proof fn lemma_expiry_stays_apart(
    left: AgentRegistryRecord,
    right: AgentRegistryRecord,
    new_left: AgentRegistryRecord,
    new_right: AgentRegistryRecord,
    now: UnixMillis,
)
    requires
        are_apart(left, right),
        new_left == left || is_closed_at(left, new_left, now),
        new_right == right || is_closed_at(right, new_right, now),
    ensures
        are_apart(new_left, new_right),
{
}

/// Closes one stored enrollment if it is stale, and checks the result.
pub fn expire_if_stale(
    record: AgentRegistryRecord,
    derived_pvc_identity: Option<PvcIdentityDigest>,
    now: UnixMillis,
) -> (result: CentralResult<Option<AgentRegistryRecord>>)
    ensures
        !token_is_stale(record, now) && !review_is_stale(record, now) ==> result
            == CentralResult::<Option<AgentRegistryRecord>>::Ok(None),
        token_is_stale(record, now) || review_is_stale(record, now) ==> match result {
            Ok(closed) => {
                &&& closed matches Some(after)
                &&& is_closed_at(record, after, now)
                &&& registry_record_fault(after, derived_pvc_identity) is None
            },
            Err(problem) => if record.resource_version == u64::MAX {
                problem@ == corruption_fault("Agent registry ResourceVersion is exhausted"@)
            } else {
                closing_breaks_rules(record, derived_pvc_identity, now, problem@)
            },
        },
        registry_record_fault(record, derived_pvc_identity) is None && record.resource_version
            < u64::MAX ==> result is Ok,
{
    let public_state = match record.enrollment.state {
        AgentEnrollmentState::TokenIssued => {
            if record.enrollment.expires_at_unix_ms > now {
                return Ok(None);
            }
            None
        },
        AgentEnrollmentState::PendingApproval => match record.enrollment.review_expires_at_unix_ms {
            Some(expires_at) => {
                if expires_at > now {
                    return Ok(None);
                }
                Some(StorageEnrollmentState::Expired)
            },
            None => return Ok(None),
        },
        _ => return Ok(None),
    };
    let _ = checked_next_registry_resource_version(record.resource_version)?;
    let ghost before = record;
    let after = match expire_record(record, public_state, now) {
        Ok(after) => after,
        Err(problem) => return Err(problem),
    };
    proof {
        assert(is_closed_at(before, after, now));
        if registry_record_fault(before, derived_pvc_identity) is None {
            lemma_expiry_keeps_rules(before, after, derived_pvc_identity, now);
        }
    }
    validate_registry_record(&after, derived_pvc_identity)?;
    Ok(Some(after))
}

/// Stale token intents of a Volume or of a claim.
pub open spec fn stale_intents(
    tenant_id: Seq<char>,
    storage_volume_id: Seq<char>,
    edge_cluster_id: Seq<char>,
    pvc_identity_digest: PvcIdentityDigest,
    now: UnixMillis,
) -> spec_fn(AgentRegistryRecord) -> bool {
    |record: AgentRegistryRecord|
        {
            &&& token_is_stale(record, now)
            &&& {
                ||| record.enrollment.tenant_id@ == tenant_id
                    && record.enrollment.storage_volume_id@ == storage_volume_id
                ||| record.enrollment.edge_cluster_id@ == edge_cluster_id
                    && record.enrollment.pvc_identity_digest == pvc_identity_digest
            }
        }
}

/// Stale reviews of a tenant.
pub open spec fn stale_reviews(tenant_id: Seq<char>, now: UnixMillis) -> spec_fn(
    AgentRegistryRecord,
) -> bool {
    |record: AgentRegistryRecord|
        record.enrollment.tenant_id@ == tenant_id && review_is_stale(record, now)
}

/// Everything that is stale: token intents and reviews of every tenant and of every record format.
pub open spec fn stale_anywhere(now: UnixMillis) -> spec_fn(AgentRegistryRecord) -> bool {
    |record: AgentRegistryRecord| token_is_stale(record, now) || review_is_stale(record, now)
}

/// Every stale token intent.
pub open spec fn stale_tokens_anywhere(now: UnixMillis) -> spec_fn(AgentRegistryRecord) -> bool {
    |record: AgentRegistryRecord| token_is_stale(record, now)
}

/// Every stale review.
pub open spec fn stale_reviews_anywhere(now: UnixMillis) -> spec_fn(AgentRegistryRecord) -> bool {
    |record: AgentRegistryRecord| review_is_stale(record, now)
}

/// The aggregates after those that `stale` picks were closed.
pub open spec fn are_closed(
    before: Map<Seq<char>, RegistryEntry>,
    after: Map<Seq<char>, RegistryEntry>,
    stale: spec_fn(AgentRegistryRecord) -> bool,
    now: UnixMillis,
) -> bool {
    &&& after.dom() == before.dom()
    &&& forall|name: Seq<char>| #[trigger]
        before.contains_key(name) ==> if stale(before[name].record) {
            &&& is_closed_at(before[name].record, after[name].record, now)
            &&& after[name].derived_pvc_identity == before[name].derived_pvc_identity
        } else {
            after[name] == before[name]
        }
}

/// Some stale aggregate cannot be written again.
pub open spec fn stale_is_exhausted(
    records: Map<Seq<char>, RegistryEntry>,
    stale: spec_fn(AgentRegistryRecord) -> bool,
) -> bool {
    exists|name: Seq<char>| #[trigger]
        records.contains_key(name) && stale(records[name].record)
            && records[name].record.resource_version == u64::MAX
}

/// Why stale aggregates are not closed: none of them is, if one cannot be.
pub open spec fn expiry_sweep_fault(
    records: Map<Seq<char>, RegistryEntry>,
    stale: spec_fn(AgentRegistryRecord) -> bool,
) -> Option<Fault> {
    if stale_is_exhausted(records, stale) {
        Some(corruption_fault("Agent registry ResourceVersion is exhausted"@))
    } else {
        None
    }
}

/// The names of stale aggregates, in order, with their places.
spec fn is_collected(
    entries: Seq<(Identifier, RegistryEntry)>,
    stale: spec_fn(AgentRegistryRecord) -> bool,
    upto: int,
    keys: Seq<Identifier>,
    places: Seq<int>,
) -> bool {
    &&& places.len() == keys.len()
    &&& forall|j: int|
        #![trigger places[j]]
        #![trigger keys[j]]
        0 <= j < places.len() ==> {
            &&& 0 <= places[j] < upto
            &&& keys[j]@ == entries[places[j]].0@
            &&& stale(entries[places[j]].1.record)
        }
    &&& forall|i: int, j: int| 0 <= i < j < places.len() ==> places[i] < places[j]
    &&& forall|i: int|
        0 <= i < upto && stale((#[trigger] entries[i]).1.record) ==> places.contains(i)
}

/// How many aggregates `stale` picks.
pub open spec fn stale_count(
    records: Seq<AgentRegistryRecord>,
    stale: spec_fn(AgentRegistryRecord) -> bool,
) -> nat {
    records.filter(stale).len()
}

proof fn lemma_split_count(
    records: Seq<AgentRegistryRecord>,
    all: spec_fn(AgentRegistryRecord) -> bool,
    first: spec_fn(AgentRegistryRecord) -> bool,
    second: spec_fn(AgentRegistryRecord) -> bool,
)
    requires
        forall|record: AgentRegistryRecord| #[trigger]
            all(record) == (first(record) || second(record)),
        forall|record: AgentRegistryRecord| !(#[trigger] first(record) && second(record)),
    ensures
        stale_count(records, all) == stale_count(records, first) + stale_count(records, second),
    decreases records.len(),
{
    reveal(Seq::filter);
    if records.len() > 0 {
        lemma_split_count(records.drop_last(), all, first, second);
        let last = records.last();
        assert(all(last) == (first(last) || second(last)));
        assert(!(first(last) && second(last)));
    }
}

proof fn lemma_none_is_counted(
    records: Seq<AgentRegistryRecord>,
    stale: spec_fn(AgentRegistryRecord) -> bool,
)
    requires
        forall|i: int| 0 <= i < records.len() ==> !stale(#[trigger] records[i]),
    ensures
        stale_count(records, stale) == 0,
    decreases records.len(),
{
    reveal(Seq::filter);
    if records.len() > 0 {
        let rest = records.drop_last();
        assert forall|i: int| 0 <= i < rest.len() implies !stale(#[trigger] rest[i]) by {
            assert(rest[i] == records[i]);
        }
        lemma_none_is_counted(rest, stale);
        assert(!stale(records[records.len() - 1]));
    }
}

/// After a sweep of the whole registry nothing that is stored is stale: every enrollment that was
/// is expired, and a second sweep at the same time succeeds, counts nothing and changes nothing.
pub proof fn lemma_sweep_settles(
    before: InMemoryAgentRegistry,
    after: InMemoryAgentRegistry,
    later: Map<Seq<char>, RegistryEntry>,
    now: UnixMillis,
)
    requires
        after.well_formed(),
        are_closed(before@.records, after@.records, stale_anywhere(now), now),
        are_closed(after@.records, later, stale_anywhere(now), now),
    ensures
        forall|name: Seq<char>| #[trigger]
            before@.records.contains_key(name) ==> {
                let found = before@.records[name].record;
                token_is_stale(found, now) || review_is_stale(found, now)
                    ==> after@.records[name].record.enrollment.state is Expired
            },
        forall|name: Seq<char>| #[trigger]
            after@.records.contains_key(name) ==> !stale_anywhere(now)(
                after@.records[name].record,
            ),
        expiry_sweep_fault(after@.records, stale_anywhere(now)) is None,
        stale_count(after.ordered(), stale_tokens_anywhere(now)) == 0,
        stale_count(after.ordered(), stale_reviews_anywhere(now)) == 0,
        later == after@.records,
{
    let stale = stale_anywhere(now);
    assert forall|name: Seq<char>| #[trigger] after@.records.contains_key(name) implies !stale(
        after@.records[name].record,
    ) by {
        assert(before@.records.contains_key(name));
    }
    after.lemma_consistent();
    let ordered = after.ordered();
    assert forall|i: int| 0 <= i < ordered.len() implies !stale(#[trigger] ordered[i]) by {
        assert(after@.records.contains_key(ordered[i].enrollment.enrollment_id@));
    }
    lemma_none_is_counted(ordered, stale_tokens_anywhere(now));
    lemma_none_is_counted(ordered, stale_reviews_anywhere(now));
    assert(later =~= after@.records);
}

impl InMemoryAgentRegistry {
    fn expire_where<F: Fn(&AgentRegistryRecord) -> bool>(
        &mut self,
        test: F,
        Ghost(stale): Ghost<spec_fn(AgentRegistryRecord) -> bool>,
        now: UnixMillis,
    ) -> (result: CentralResult<usize>)
        requires
            old(self).well_formed(),
            forall|record: &AgentRegistryRecord| #[trigger] call_requires(test, (record,)),
            forall|record: &AgentRegistryRecord, verdict: bool| #[trigger]
                call_ensures(test, (record,), verdict) ==> verdict == stale(*record),
            forall|record: AgentRegistryRecord| #[trigger]
                stale(record) ==> token_is_stale(record, now) || review_is_stale(record, now),
        ensures
            final(self).well_formed(),
            fault_of(result) == expiry_sweep_fault(old(self)@.records, stale),
            result matches Ok(count) ==> {
                &&& are_closed(old(self)@.records, final(self)@.records, stale, now)
                &&& final(self)@.watermarks == old(self)@.watermarks
                &&& count == stale_count(old(self).ordered(), stale)
            },
            result is Err ==> final(self)@ == old(self)@,
    {
        let ghost entries = self.records.entries();
        let ghost ordered = self.ordered();
        let ghost before = self@.records;
        let mut keys: Vec<Identifier> = Vec::new();
        let ghost mut places: Seq<int> = Seq::empty();
        let mut index: usize = 0;
        proof {
            reveal(Seq::filter);
            assert(ordered.take(0) =~= Seq::<AgentRegistryRecord>::empty());
        }
        while index < self.records.len()
            invariant
                *self == *old(self),
                self.well_formed(),
                entries == self.records.entries(),
                ordered == self.ordered(),
                ordered.len() == entries.len(),
                before == self@.records,
                index <= entries.len(),
                forall|record: &AgentRegistryRecord| #[trigger] call_requires(test, (record,)),
                forall|record: &AgentRegistryRecord, verdict: bool| #[trigger]
                    call_ensures(test, (record,), verdict) ==> verdict == stale(*record),
                is_collected(entries, stale, index as int, keys@, places),
                keys@.len() == ordered.take(index as int).filter(stale).len(),
                forall|i: int|
                    0 <= i < index && stale((#[trigger] entries[i]).1.record)
                        ==> entries[i].1.record.resource_version < u64::MAX,
            decreases entries.len() - index,
        {
            let entry = self.records.entry_at(index);
            proof {
                lemma_filter_next(ordered, stale, index as int);
                assert(ordered[index as int] == entries[index as int].1.record);
            }
            if test(&entry.1.record) {
                if entry.1.record.resource_version == u64::MAX {
                    proof {
                        lemma_entry_is_mapped(entries, index as int);
                        assert(before.contains_key(entries[index as int].0.name()));
                    }
                    return Err(corruption("Agent registry ResourceVersion is exhausted"));
                }
                let ghost earlier = places;
                keys.push(entry.0.clone());
                proof {
                    places = earlier.push(index as int);
                    assert forall|i: int|
                        0 <= i < index + 1 && stale(
                            (#[trigger] entries[i]).1.record,
                        ) implies places.contains(i) by {
                        if i < index {
                            let j = choose|j: int| 0 <= j < earlier.len() && earlier[j] == i;
                            assert(places[j] == i);
                        } else {
                            assert(places[earlier.len() as int] == i);
                        }
                    }
                }
            }
            index += 1;
        }
        proof {
            assert(ordered.take(index as int) =~= ordered);
            assert forall|name: Seq<char>| #[trigger]
                before.contains_key(name) && stale(
                    before[name].record,
                ) implies before[name].record.resource_version < u64::MAX by {
                let at = lemma_mapped_is_entry(entries, name);
                assert(stale(entries[at].1.record));
            }
        }
        let count = keys.len();
        let mut done: usize = 0;
        while done < keys.len()
            invariant
                old(self).well_formed(),
                self.records.well_formed(),
                self.watermarks == old(self).watermarks,
                before == old(self)@.records,
                entries == old(self).records.entries(),
                is_collected(entries, stale, entries.len() as int, keys@, places),
                done <= keys@.len(),
                keys@.len() == count,
                forall|record: AgentRegistryRecord| #[trigger]
                    stale(record) ==> token_is_stale(record, now) || review_is_stale(record, now),
                forall|name: Seq<char>| #[trigger]
                    before.contains_key(name) && stale(before[name].record)
                        ==> before[name].record.resource_version < u64::MAX,
                self.records@.dom() == before.dom(),
                forall|j: int|
                    0 <= j < done ==> {
                        let name = (#[trigger] keys@[j])@;
                        &&& is_closed_at(before[name].record, self.records@[name].record, now)
                        &&& self.records@[name].derived_pvc_identity
                            == before[name].derived_pvc_identity
                    },
                forall|name: Seq<char>| #[trigger]
                    before.contains_key(name) && (forall|j: int|
                        0 <= j < done ==> (#[trigger] keys@[j])@ != name) ==> self.records@[name]
                        == before[name],
            decreases keys.len() - done,
        {
            let key = &keys[done];
            proof {
                let at = places[done as int];
                lemma_entry_is_mapped(entries, at);
                assert(before.contains_key(entries[at].0.name()));
                assert forall|j: int| 0 <= j < done implies (#[trigger] keys@[j])@ != key@ by {
                    assert(places[j] < places[done as int]);
                    lemma_names_differ(entries, places[j], at);
                }
            }
            let ghost current = self.records@;
            if let Some(entry) = self.records.take(key) {
                let derived_pvc_identity = entry.derived_pvc_identity;
                let public_state = if entry.record.enrollment.state
                    == AgentEnrollmentState::TokenIssued {
                    None
                } else {
                    Some(StorageEnrollmentState::Expired)
                };
                let ghost old_record = entry.record;
                if let Ok(record) = expire_record(entry.record, public_state, now) {
                    proof {
                        assert(is_closed_at(old_record, record, now));
                    }
                    self.records.insert(
                        key.clone(),
                        RegistryEntry { record, derived_pvc_identity },
                    );
                    proof {
                        assert(self.records@.dom() =~= before.dom());
                        assert forall|name: Seq<char>| #[trigger]
                            before.contains_key(name) && (forall|j: int|
                                0 <= j < done + 1 ==> (#[trigger] keys@[j])@
                                    != name) implies self.records@[name] == before[name] by {
                            assert(keys@[done as int]@ != name);
                        }
                    }
                }
            }
            done += 1;
        }
        proof {
            let after = self.records@;
            assert forall|name: Seq<char>| #[trigger] before.contains_key(name) implies if stale(
                before[name].record,
            ) {
                &&& is_closed_at(before[name].record, after[name].record, now)
                &&& after[name].derived_pvc_identity == before[name].derived_pvc_identity
            } else {
                after[name] == before[name]
            } by {
                let at = lemma_mapped_is_entry(entries, name);
                if stale(before[name].record) {
                    assert(places.contains(at));
                    let j = choose|j: int| 0 <= j < places.len() && places[j] == at;
                    assert(keys@[j]@ == name);
                } else {
                    assert forall|j: int| 0 <= j < done implies (#[trigger] keys@[j])@ != name by {
                        lemma_entry_is_mapped(entries, places[j]);
                        assert(stale(entries[places[j]].1.record));
                    }
                }
            }
            assert(are_closed(before, after, stale, now));
            assert forall|name: Seq<char>| #[trigger] after.contains_key(name) implies {
                &&& after[name].record.enrollment.enrollment_id@ == name
                &&& registry_record_fault(
                    after[name].record,
                    after[name].derived_pvc_identity,
                ) is None
            } by {
                assert(before.contains_key(name));
                if stale(before[name].record) {
                    lemma_expiry_keeps_rules(
                        before[name].record,
                        after[name].record,
                        before[name].derived_pvc_identity,
                        now,
                    );
                }
            }
            assert forall|left: Seq<char>, right: Seq<char>|
                left != right && #[trigger] after.contains_key(left)
                    && #[trigger] after.contains_key(right) implies are_apart(
                after[left].record,
                after[right].record,
            ) by {
                assert(before.contains_key(left) && before.contains_key(right));
                lemma_expiry_stays_apart(
                    before[left].record,
                    before[right].record,
                    after[left].record,
                    after[right].record,
                    now,
                );
            }
            assert(self@.watermarks == old(self)@.watermarks);
            assert forall|name: Seq<char>| #[trigger]
                self@.watermarks.contains_key(name) implies after.contains_key(name) by {
                assert(before.contains_key(name));
            }
        }
        Ok(count)
    }

    /// Closes the stale token intents that hold a Volume or a claim.
    pub fn expire_stale_token_intents(
        &mut self,
        tenant_id: &TenantId,
        storage_volume_id: &StorageVolumeId,
        edge_cluster_id: &EdgeClusterId,
        pvc_identity_digest: &PvcIdentityDigest,
        now_unix_ms: UnixMillis,
    ) -> (result: CentralResult<usize>)
        requires
            old(self).well_formed(),
        ensures
            final(self).well_formed(),
            ({
                let stale = stale_intents(
                    tenant_id@,
                    storage_volume_id@,
                    edge_cluster_id@,
                    *pvc_identity_digest,
                    now_unix_ms,
                );
                &&& fault_of(result) == expiry_sweep_fault(old(self)@.records, stale)
                &&& result matches Ok(count) ==> {
                    &&& are_closed(
                        old(self)@.records,
                        final(self)@.records,
                        stale,
                        now_unix_ms,
                    )
                    &&& final(self)@.watermarks == old(self)@.watermarks
                    &&& count == stale_count(old(self).ordered(), stale)
                }
            }),
            result is Err ==> final(self)@ == old(self)@,
    {
        let ghost stale = stale_intents(
            tenant_id@,
            storage_volume_id@,
            edge_cluster_id@,
            *pvc_identity_digest,
            now_unix_ms,
        );
        let test = |record: &AgentRegistryRecord| -> (verdict: bool)
            ensures
                verdict == stale(*record),
            {
                let enrollment = &record.enrollment;
                enrollment.state == AgentEnrollmentState::TokenIssued
                    && enrollment.expires_at_unix_ms <= now_unix_ms && ((enrollment.tenant_id
                    == *tenant_id && enrollment.storage_volume_id == *storage_volume_id) || (
                enrollment.edge_cluster_id == *edge_cluster_id && enrollment.pvc_identity_digest
                    == *pvc_identity_digest))
            };
        self.expire_where(test, Ghost(stale), now_unix_ms)
    }

    /// Closes the stale reviews of a tenant.
    pub fn expire_stale_review_enrollments(
        &mut self,
        tenant_id: &TenantId,
        now_unix_ms: UnixMillis,
    ) -> (result: CentralResult<usize>)
        requires
            old(self).well_formed(),
        ensures
            final(self).well_formed(),
            ({
                let stale = stale_reviews(tenant_id@, now_unix_ms);
                &&& fault_of(result) == expiry_sweep_fault(old(self)@.records, stale)
                &&& result matches Ok(count) ==> {
                    &&& are_closed(
                        old(self)@.records,
                        final(self)@.records,
                        stale,
                        now_unix_ms,
                    )
                    &&& final(self)@.watermarks == old(self)@.watermarks
                    &&& count == stale_count(old(self).ordered(), stale)
                }
            }),
            result is Err ==> final(self)@ == old(self)@,
    {
        let ghost stale = stale_reviews(tenant_id@, now_unix_ms);
        let test = |record: &AgentRegistryRecord| -> (verdict: bool)
            ensures
                verdict == stale(*record),
            {
                let enrollment = &record.enrollment;
                enrollment.tenant_id == *tenant_id && enrollment.state
                    == AgentEnrollmentState::PendingApproval
                    && match enrollment.review_expires_at_unix_ms {
                    Some(expires_at) => expires_at <= now_unix_ms,
                    None => false,
                }
            };
        self.expire_where(test, Ghost(stale), now_unix_ms)
    }

    fn count_where<F: Fn(&AgentRegistryRecord) -> bool>(
        &self,
        test: F,
        Ghost(wanted): Ghost<spec_fn(AgentRegistryRecord) -> bool>,
    ) -> (count: usize)
        requires
            self.well_formed(),
            forall|record: &AgentRegistryRecord| #[trigger] call_requires(test, (record,)),
            forall|record: &AgentRegistryRecord, verdict: bool| #[trigger]
                call_ensures(test, (record,), verdict) ==> verdict == wanted(*record),
        ensures
            count == stale_count(self.ordered(), wanted),
    {
        let ghost ordered = self.ordered();
        let mut count: usize = 0;
        let mut index: usize = 0;
        proof {
            reveal(Seq::filter);
            assert(ordered.take(0) =~= Seq::<AgentRegistryRecord>::empty());
        }
        while index < self.records.len()
            invariant
                ordered == self.ordered(),
                ordered.len() == self.records.entries().len(),
                index <= ordered.len(),
                count <= index,
                forall|record: &AgentRegistryRecord| #[trigger] call_requires(test, (record,)),
                forall|record: &AgentRegistryRecord, verdict: bool| #[trigger]
                    call_ensures(test, (record,), verdict) ==> verdict == wanted(*record),
                count == ordered.take(index as int).filter(wanted).len(),
            decreases ordered.len() - index,
        {
            let entry = self.records.entry_at(index);
            proof {
                lemma_filter_next(ordered, wanted, index as int);
            }
            if test(&entry.1.record) {
                count += 1;
            }
            index += 1;
        }
        proof {
            assert(ordered.take(index as int) =~= ordered);
        }
        count
    }

    /// Closes every stale token intent and every stale review of the registry, or none, and says
    /// how many there were of each.
    pub fn reconcile_expired_enrollments(&mut self, now_unix_ms: UnixMillis) -> (result: CentralResult<
        AgentEnrollmentExpiryReconciliation,
    >)
        requires
            old(self).well_formed(),
        ensures
            final(self).well_formed(),
            fault_of(result) == expiry_sweep_fault(
                old(self)@.records,
                stale_anywhere(now_unix_ms),
            ),
            result matches Ok(reconciliation) ==> {
                &&& are_closed(
                    old(self)@.records,
                    final(self)@.records,
                    stale_anywhere(now_unix_ms),
                    now_unix_ms,
                )
                &&& final(self)@.watermarks == old(self)@.watermarks
                &&& reconciliation.expired_token_intents == stale_count(
                    old(self).ordered(),
                    stale_tokens_anywhere(now_unix_ms),
                )
                &&& reconciliation.expired_review_enrollments == stale_count(
                    old(self).ordered(),
                    stale_reviews_anywhere(now_unix_ms),
                )
            },
            result is Err ==> final(self)@ == old(self)@,
    {
        let ghost stale = stale_anywhere(now_unix_ms);
        let ghost tokens = stale_tokens_anywhere(now_unix_ms);
        let ghost reviews = stale_reviews_anywhere(now_unix_ms);
        let token_test = |record: &AgentRegistryRecord| -> (verdict: bool)
            ensures
                verdict == tokens(*record),
            {
                record.enrollment.state == AgentEnrollmentState::TokenIssued
                    && record.enrollment.expires_at_unix_ms <= now_unix_ms
            };
        let expired_token_intents = self.count_where(token_test, Ghost(tokens));
        let test = |record: &AgentRegistryRecord| -> (verdict: bool)
            ensures
                verdict == stale(*record),
            {
                match record.enrollment.state {
                    AgentEnrollmentState::TokenIssued => record.enrollment.expires_at_unix_ms
                        <= now_unix_ms,
                    AgentEnrollmentState::PendingApproval => match record.enrollment.review_expires_at_unix_ms {
                        Some(expires_at) => expires_at <= now_unix_ms,
                        None => false,
                    },
                    _ => false,
                }
            };
        proof {
            lemma_split_count(self.ordered(), stale, tokens, reviews);
        }
        let expired: usize = self.expire_where(test, Ghost(stale), now_unix_ms)?;
        Ok(
            AgentEnrollmentExpiryReconciliation {
                expired_token_intents,
                expired_review_enrollments: expired - expired_token_intents,
            },
        )
    }
}

} // verus!
