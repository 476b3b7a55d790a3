//! Gateway pools, replicas and Agent routes, in memory.
use vstd::prelude::*;

use crate::agent_registry::records::AgentRegistryRecord;
use crate::agent_registry::repository::{
    clash_fault, of_agent, replace_fault, stored_record, InMemoryAgentRegistry, RegistryEntry,
    RegistryView,
};
use crate::agent_registry::session::{
    next_generation, next_session_generation, open_session, open_session_fault, session_opened,
    OpenAgentSessionRequest, OpenSessionStep,
};
use crate::digest::ContentDigest;
use crate::equality::Same;
use crate::error::{fault_of, CentralResult, Fault};
use crate::gateway::{
    agent_missing, agent_not_found, identity_conflict, identity_fault, invalid, invalid_fault,
    knows_request, pool_missing, pool_not_found, pools_clash, pools_share_endpoint,
    replica_missing, replica_not_found, replicas_clash, replicas_share_identity,
    route_knows_request, route_missing, route_not_found, AcquireAgentRouteLeaseRequest,
    AgentRouteLease, AgentRouteLeaseAcquireOutcome, AgentRouteLeaseMutationOutcome,
    GatewayConnectionId, GatewayCredentialState, GatewayInsertOutcome, GatewayPoolId,
    GatewayPoolRecord, GatewayPoolState, GatewayReplicaId, GatewayReplicaRecord,
    GatewayReplicaState,
};
use crate::identifier::{
    names, AgentId, EdgeClusterId, Identifier, RequestId, SessionGeneration, SessionId, UnixMillis,
};
use crate::table::{
    any_value, any_wanted, first_kept, is_walk, lemma_entry_is_mapped, lemma_filter_next,
    lemma_filter_prefix, lemma_mapped_is_entry, select, Named, Table,
};
use crate::text::text_before;

verus! {

/// What the registry holds, by identity; routes by Agent.
#[verifier::ext_equal]
pub ghost struct GatewayView {
    pub pools: Map<Seq<char>, GatewayPoolRecord>,
    pub replicas: Map<Seq<char>, GatewayReplicaRecord>,
    pub routes: Map<Seq<char>, AgentRouteLease>,
}

impl GatewayView {
    /// Every record goes by its own identity; pools share neither an EdgeCluster nor an endpoint,
    /// and replicas neither an endpoint nor an activation token.
    pub open spec fn is_consistent(self) -> bool {
        &&& forall|name: Seq<char>| #[trigger]
            self.pools.contains_key(name) ==> self.pools[name].gateway_pool_id@ == name
        &&& forall|left: Seq<char>, right: Seq<char>|
            left != right && #[trigger] self.pools.contains_key(left)
                && #[trigger] self.pools.contains_key(right) ==> {
                &&& self.pools[left].edge_cluster_id@ != self.pools[right].edge_cluster_id@
                &&& !pools_clash(self.pools[left], self.pools[right])
            }
        &&& forall|name: Seq<char>| #[trigger]
            self.replicas.contains_key(name) ==> self.replicas[name].gateway_replica_id@ == name
        &&& forall|left: Seq<char>, right: Seq<char>|
            left != right && #[trigger] self.replicas.contains_key(left)
                && #[trigger] self.replicas.contains_key(right) ==> !replicas_clash(
                self.replicas[left],
                self.replicas[right],
            )
        &&& forall|name: Seq<char>| #[trigger]
            self.routes.contains_key(name) ==> self.routes[name].agent_id@ == name
    }
}

/// Pools of an EdgeCluster.
pub open spec fn in_cluster(edge_cluster_id: Seq<char>) -> spec_fn(GatewayPoolRecord) -> bool {
    |pool: GatewayPoolRecord| pool.edge_cluster_id@ == edge_cluster_id
}

/// Other pools that share an endpoint with one.
pub open spec fn clashing_pools(record: GatewayPoolRecord) -> spec_fn(GatewayPoolRecord) -> bool {
    |pool: GatewayPoolRecord|
        pool.gateway_pool_id@ != record.gateway_pool_id@ && pools_clash(pool, record)
}

/// Other replicas that share an endpoint or an activation token with one.
pub open spec fn clashing_replicas(record: GatewayReplicaRecord) -> spec_fn(
    GatewayReplicaRecord,
) -> bool {
    |replica: GatewayReplicaRecord|
        replica.gateway_replica_id@ != record.gateway_replica_id@ && replicas_clash(replica, record)
}

/// Routes of other Agents that know a request.
pub open spec fn knowing_request(request_id: Seq<char>, agent_id: Seq<char>) -> spec_fn(
    AgentRouteLease,
) -> bool {
    |lease: AgentRouteLease| lease.agent_id@ != agent_id && route_knows_request(lease, request_id)
}

/// Routes of other Agents over a connection.
pub open spec fn over_connection(connection_id: Seq<char>, agent_id: Seq<char>) -> spec_fn(
    AgentRouteLease,
) -> bool {
    |lease: AgentRouteLease| lease.agent_id@ != agent_id && lease.connection_id@ == connection_id
}

/// Why a pool is not inserted. `validity` is what its own rules say.
pub open spec fn pool_insert_fault(
    pools: Map<Seq<char>, GatewayPoolRecord>,
    record: GatewayPoolRecord,
    validity: CentralResult<()>,
) -> Option<Fault> {
    let name = record.gateway_pool_id@;
    if validity is Err {
        fault_of(validity)
    } else if record.resource_version != 1 || record.config_generation != 1 {
        Some(
            invalid_fault(
                "new GatewayPool must begin at ResourceVersion/config generation 1"@,
            ),
        )
    } else if pools.contains_key(name) {
        if pools[name].same(record) {
            None
        } else {
            Some(identity_fault("GatewayPool ID is already used"@))
        }
    } else if any_wanted(pools, in_cluster(record.edge_cluster_id@)) {
        Some(identity_fault("EdgeCluster already has a GatewayPool"@))
    } else if any_wanted(pools, clashing_pools(record)) {
        Some(identity_fault("GatewayPool endpoint is already registered"@))
    } else {
        None
    }
}

/// A replica that has done nothing yet.
pub open spec fn is_fresh(record: GatewayReplicaRecord) -> bool {
    &&& record.resource_version == 1
    &&& record.state is Pending
    &&& record.credential.state is PendingActivation
    &&& record.last_heartbeat_at_unix_ms is None
}

/// Why the pool of a replica does not take it.
pub open spec fn replica_pool_fault(
    pools: Map<Seq<char>, GatewayPoolRecord>,
    record: GatewayReplicaRecord,
) -> Option<Fault> {
    let name = record.gateway_pool_id@;
    if !pools.contains_key(name) {
        Some(pool_missing())
    } else if pools[name].edge_cluster_id@ != record.edge_cluster_id@
        || pools[name].state is Draining || pools[name].state is Disabled {
        Some(identity_fault("GatewayReplica scope differs from its GatewayPool"@))
    } else {
        None
    }
}

/// Why a replica is not inserted. `validity` is what its own rules say.
pub open spec fn replica_insert_fault(
    view: GatewayView,
    record: GatewayReplicaRecord,
    validity: CentralResult<()>,
) -> Option<Fault> {
    let name = record.gateway_replica_id@;
    if validity is Err {
        fault_of(validity)
    } else if !is_fresh(record) {
        Some(invalid_fault("new GatewayReplica must begin pending at ResourceVersion 1"@))
    } else if view.replicas.contains_key(name) {
        if view.replicas[name].same(record) {
            None
        } else {
            Some(identity_fault("GatewayReplica ID is already used"@))
        }
    } else if replica_pool_fault(view.pools, record) is Some {
        replica_pool_fault(view.pools, record)
    } else if any_wanted(view.replicas, clashing_replicas(record)) {
        Some(
            identity_fault("GatewayReplica endpoint or activation token is already registered"@),
        )
    } else {
        None
    }
}

/// Why a route may not take a request or a connection that another Agent's route has.
pub open spec fn route_claim_fault(
    routes: Map<Seq<char>, AgentRouteLease>,
    agent_id: Seq<char>,
    request_id: Seq<char>,
    connection_id: Option<Seq<char>>,
) -> Option<Fault> {
    if any_wanted(routes, knowing_request(request_id, agent_id)) {
        Some(identity_fault("Gateway route RequestId is already bound to another Agent"@))
    } else if connection_id matches Some(connection) && any_wanted(
        routes,
        over_connection(connection, agent_id),
    ) {
        Some(identity_fault("Gateway connection ID is already bound to another Agent"@))
    } else {
        None
    }
}

/// Why the pool and the replica of a route cannot be found.
pub open spec fn route_parents_fault(
    view: GatewayView,
    pool_id: Seq<char>,
    replica_id: Seq<char>,
) -> Option<Fault> {
    if !view.pools.contains_key(pool_id) {
        Some(pool_missing())
    } else if !view.replicas.contains_key(replica_id) {
        Some(replica_missing())
    } else {
        None
    }
}

/// The route of an Agent, where it has one.
pub open spec fn route_of(view: GatewayView, agent_id: Seq<char>) -> Option<AgentRouteLease> {
    if view.routes.contains_key(agent_id) {
        Some(view.routes[agent_id])
    } else {
        None
    }
}

/// What is left after the route of an Agent was written.
pub open spec fn with_route(
    view: GatewayView,
    agent_id: Seq<char>,
    lease: AgentRouteLease,
) -> GatewayView {
    GatewayView { routes: view.routes.insert(agent_id, lease), ..view }
}

pub struct InMemoryGatewayRegistry {
    pools: Table<Identifier, GatewayPoolRecord>,
    replicas: Table<Identifier, GatewayReplicaRecord>,
    routes: Table<Identifier, AgentRouteLease>,
}

impl View for InMemoryGatewayRegistry {
    type V = GatewayView;

    closed spec fn view(&self) -> GatewayView {
        GatewayView { pools: self.pools@, replicas: self.replicas@, routes: self.routes@ }
    }
}

/// A page of pools.
pub struct GatewayPoolListRequest {
    pub edge_cluster_id: Option<EdgeClusterId>,
    pub state: Option<GatewayPoolState>,
    pub after: Option<GatewayPoolId>,
    pub limit: usize,
}

/// A page of a pool's replicas.
pub struct GatewayReplicaListRequest {
    pub gateway_pool_id: GatewayPoolId,
    pub state: Option<GatewayReplicaState>,
    pub after: Option<GatewayReplicaId>,
    pub limit: usize,
}

/// A page of a pool's routes.
pub struct AgentRouteLeaseListRequest {
    pub gateway_pool_id: GatewayPoolId,
    pub gateway_replica_id: Option<GatewayReplicaId>,
    pub after: Option<AgentId>,
    pub limit: usize,
}

/// An identity that comes strictly after a cursor, if there is one.
pub open spec fn is_past(id: Seq<char>, after: Option<Identifier>) -> bool {
    after matches Some(cursor) ==> text_before(cursor@, id)
}

fn comes_past(id: &Identifier, after: &Option<Identifier>) -> (past: bool)
    ensures
        past == is_past(id@, *after),
{
    match after {
        Some(cursor) => cursor.is_before(id),
        None => true,
    }
}

fn admitted(wanted: &Option<Identifier>, id: &Identifier) -> (admitted: bool)
    ensures
        admitted == (*wanted matches Some(named) ==> named@ == id@),
{
    match wanted {
        Some(named) => *named == *id,
        None => true,
    }
}

/// Pools that a request asks for.
pub open spec fn wanted_pools(request: GatewayPoolListRequest) -> spec_fn(
    (Identifier, GatewayPoolRecord),
) -> bool {
    |entry: (Identifier, GatewayPoolRecord)|
        {
            &&& is_past(entry.0@, request.after)
            &&& request.edge_cluster_id matches Some(cluster) ==> entry.1.edge_cluster_id@
                == cluster@
            &&& request.state matches Some(state) ==> entry.1.state.same(state)
        }
}

/// Replicas that a request asks for.
pub open spec fn wanted_replicas(request: GatewayReplicaListRequest) -> spec_fn(
    (Identifier, GatewayReplicaRecord),
) -> bool {
    |entry: (Identifier, GatewayReplicaRecord)|
        {
            &&& is_past(entry.0@, request.after)
            &&& entry.1.gateway_pool_id@ == request.gateway_pool_id@
            &&& request.state matches Some(state) ==> entry.1.state.same(state)
        }
}

/// Routes that a request asks for and that are in force.
pub open spec fn wanted_routes(
    request: AgentRouteLeaseListRequest,
    in_force: spec_fn(AgentRouteLease) -> bool,
) -> spec_fn((Identifier, AgentRouteLease)) -> bool {
    |entry: (Identifier, AgentRouteLease)|
        {
            &&& is_past(entry.0@, request.after)
            &&& entry.1.gateway_pool_id@ == request.gateway_pool_id@
            &&& request.gateway_replica_id matches Some(replica) ==> entry.1.gateway_replica_id@
                == replica@
            &&& in_force(entry.1)
        }
}

impl InMemoryGatewayRegistry {
    pub closed spec fn well_formed(self) -> bool {
        &&& self.pools.well_formed()
        &&& self.replicas.well_formed()
        &&& self.routes.well_formed()
        &&& self@.is_consistent()
    }

    /// A registry that was built by its operations is consistent.
    pub proof fn lemma_consistent(&self)
        requires
            self.well_formed(),
        ensures
            self@.is_consistent(),
    {
    }

    /// The pools in the order of their identities.
    pub closed spec fn pool_entries(self) -> Seq<(Identifier, GatewayPoolRecord)> {
        self.pools.entries()
    }

    /// The replicas in the order of their identities.
    pub closed spec fn replica_entries(self) -> Seq<(Identifier, GatewayReplicaRecord)> {
        self.replicas.entries()
    }

    /// The routes in the order of their Agents.
    pub closed spec fn route_entries(self) -> Seq<(Identifier, AgentRouteLease)> {
        self.routes.entries()
    }

    #[must_use]
    pub fn new() -> (registry: Self)
        ensures
            registry.well_formed(),
            registry@.pools == Map::<Seq<char>, GatewayPoolRecord>::empty(),
            registry@.replicas == Map::<Seq<char>, GatewayReplicaRecord>::empty(),
            registry@.routes == Map::<Seq<char>, AgentRouteLease>::empty(),
    {
        Self { pools: Table::new(), replicas: Table::new(), routes: Table::new() }
    }

    #[must_use]
    pub fn get_pool(&self, gateway_pool_id: &GatewayPoolId) -> (found: Option<GatewayPoolRecord>)
        requires
            self.well_formed(),
        ensures
            found is Some <==> self@.pools.contains_key(gateway_pool_id@),
            found matches Some(pool) ==> pool == self@.pools[gateway_pool_id@],
    {
        match self.pools.get(gateway_pool_id) {
            Some(pool) => Some(pool.clone()),
            None => None,
        }
    }

    /// The pool of an EdgeCluster. There is never more than one.
    #[must_use]
    pub fn get_pool_by_edge_cluster(&self, edge_cluster_id: &EdgeClusterId) -> (found: Option<
        GatewayPoolRecord,
    >)
        requires
            self.well_formed(),
        ensures
            match found {
                Some(pool) => {
                    &&& self@.pools.contains_key(pool.gateway_pool_id@)
                    &&& self@.pools[pool.gateway_pool_id@] == pool
                    &&& forall|name: Seq<char>| #[trigger]
                        self@.pools.contains_key(name) ==> (self@.pools[name].edge_cluster_id@
                            == edge_cluster_id@ <==> name == pool.gateway_pool_id@)
                },
                None => !any_wanted(self@.pools, in_cluster(edge_cluster_id@)),
            },
    {
        let ghost entries = self.pools.entries();
        let mut index: usize = 0;
        while index < self.pools.len()
            invariant
                self.well_formed(),
                entries == self.pools.entries(),
                index <= entries.len(),
                forall|i: int|
                    0 <= i < index ==> (#[trigger] entries[i]).1.edge_cluster_id@
                        != edge_cluster_id@,
            decreases entries.len() - index,
        {
            let pool = &self.pools.entry_at(index).1;
            if pool.edge_cluster_id == *edge_cluster_id {
                proof {
                    lemma_entry_is_mapped(entries, index as int);
                    assert(self@.pools.contains_key(entries[index as int].0.name()));
                }
                return Some(pool.clone());
            }
            index += 1;
        }
        proof {
            assert forall|name: Seq<char>| #[trigger]
                self@.pools.contains_key(name) implies self@.pools[name].edge_cluster_id@
                != edge_cluster_id@ by {
                let at = lemma_mapped_is_entry(entries, name);
                assert(entries[at].1.edge_cluster_id@ != edge_cluster_id@);
            }
        }
        None
    }

    /// The pools that a request asks for. `validity` is what the rules of page requests say.
    pub fn list_pools(&self, request: &GatewayPoolListRequest, validity: CentralResult<()>) -> (result:
        CentralResult<Vec<GatewayPoolRecord>>)
        requires
            self.well_formed(),
        ensures
            fault_of(result) == fault_of(validity),
            is_walk(self.pool_entries(), self@.pools),
            result matches Ok(pools) ==> pools@.same(
                first_kept(self.pool_entries(), wanted_pools(*request), request.limit as nat),
            ),
    {
        validity?;
        let keep = |id: &Identifier, pool: &GatewayPoolRecord| -> (verdict: bool)
            ensures
                verdict == wanted_pools(*request)((*id, *pool)),
            {
                comes_past(id, &request.after) && admitted(
                    &request.edge_cluster_id,
                    &pool.edge_cluster_id,
                ) && match &request.state {
                    Some(state) => pool.state == *state,
                    None => true,
                }
            };
        Ok(select(&self.pools, keep, Ghost(wanted_pools(*request)), request.limit))
    }

    /// Inserts a pool, or recognises that it is there. `validity` is what its own rules say.
    pub fn insert_pool(&mut self, record: GatewayPoolRecord, validity: CentralResult<()>) -> (result:
        CentralResult<GatewayInsertOutcome<GatewayPoolRecord>>)
        requires
            old(self).well_formed(),
        ensures
            final(self).well_formed(),
            fault_of(result) == pool_insert_fault(old(self)@.pools, record, validity),
            result matches Ok(GatewayInsertOutcome::Inserted(pool)) ==> pool == record
                && !old(self)@.pools.contains_key(record.gateway_pool_id@) && final(self)@ == (
            GatewayView {
                pools: old(self)@.pools.insert(record.gateway_pool_id@, record),
                ..old(self)@
            }),
            result matches Ok(GatewayInsertOutcome::Existing(pool)) ==> pool
                == old(self)@.pools[record.gateway_pool_id@] && old(self)@.pools.contains_key(
                record.gateway_pool_id@,
            ) && final(self)@ == old(self)@,
            result is Err ==> final(self)@ == old(self)@,
    {
        validity?;
        if record.resource_version != 1 || record.config_generation != 1 {
            return Err(
                invalid("new GatewayPool must begin at ResourceVersion/config generation 1"),
            );
        }
        if let Some(existing) = self.pools.get(&record.gateway_pool_id) {
            return if *existing == record {
                Ok(GatewayInsertOutcome::Existing(existing.clone()))
            } else {
                Err(identity_conflict("GatewayPool ID is already used"))
            };
        }
        let same_cluster = |pool: &GatewayPoolRecord| -> (verdict: bool)
            ensures
                verdict == in_cluster(record.edge_cluster_id@)(*pool),
            { pool.edge_cluster_id == record.edge_cluster_id };
        if any_value(&self.pools, same_cluster, Ghost(in_cluster(record.edge_cluster_id@))) {
            return Err(identity_conflict("EdgeCluster already has a GatewayPool"));
        }
        self.ensure_pool_endpoints_unique(&record)?;
        let inserted = record.clone();
        self.pools.insert(record.gateway_pool_id.clone(), record);
        assert(self@.replicas == old(self)@.replicas);
        assert(self@.routes == old(self)@.routes);
        Ok(GatewayInsertOutcome::Inserted(inserted))
    }

    fn ensure_pool_endpoints_unique(&self, record: &GatewayPoolRecord) -> (result: CentralResult<()>)
        requires
            self.well_formed(),
        ensures
            fault_of(result) == (if any_wanted(self@.pools, clashing_pools(*record)) {
                Some(identity_fault("GatewayPool endpoint is already registered"@))
            } else {
                None
            }),
    {
        let clash = |pool: &GatewayPoolRecord| -> (verdict: bool)
            ensures
                verdict == clashing_pools(*record)(*pool),
            {
                pool.gateway_pool_id != record.gateway_pool_id && pools_share_endpoint(pool, record)
            };
        if any_value(&self.pools, clash, Ghost(clashing_pools(*record))) {
            return Err(identity_conflict("GatewayPool endpoint is already registered"));
        }
        Ok(())
    }

    /// Replaces a pool. `validate` says whether the stored one may become this one; it keeps the
    /// EdgeCluster.
    pub fn replace_pool<F: Fn(&GatewayPoolRecord) -> CentralResult<()>>(
        &mut self,
        record: GatewayPoolRecord,
        validate: F,
    ) -> (result: CentralResult<GatewayPoolRecord>)
        requires
            old(self).well_formed(),
            forall|stored: &GatewayPoolRecord| #[trigger] call_requires(validate, (stored,)),
            forall|stored: &GatewayPoolRecord, verdict: CentralResult<()>| #[trigger]
                call_ensures(validate, (stored,), verdict) && verdict is Ok
                    ==> stored.edge_cluster_id@ == record.edge_cluster_id@,
        ensures
            final(self).well_formed(),
            ({
                let name = record.gateway_pool_id@;
                if !old(self)@.pools.contains_key(name) {
                    final(self)@ == old(self)@ && fault_of(result) == Some(pool_missing())
                } else {
                    exists|verdict: CentralResult<()>|
                        {
                            &&& #[trigger] call_ensures(
                                validate,
                                (&old(self)@.pools[record.gateway_pool_id@],),
                                verdict,
                            )
                            &&& if verdict is Err {
                                final(self)@ == old(self)@ && fault_of(result) == fault_of(verdict)
                            } else if any_wanted(old(self)@.pools, clashing_pools(record)) {
                                final(self)@ == old(self)@ && fault_of(result) == Some(
                                    identity_fault("GatewayPool endpoint is already registered"@),
                                )
                            } else {
                                &&& result matches Ok(pool)
                                &&& pool == record
                                &&& final(self)@ == (GatewayView {
                                    pools: old(self)@.pools.insert(name, record),
                                    ..old(self)@
                                })
                            }
                        }
                }
            }),
    {
        let stored = match self.pools.get(&record.gateway_pool_id) {
            Some(stored) => stored,
            None => return Err(pool_not_found()),
        };
        let ghost before = *stored;
        let verdict = validate(stored);
        let ghost given = verdict;
        assert(call_ensures(validate, (&before,), given));
        verdict?;
        self.ensure_pool_endpoints_unique(&record)?;
        let updated = record.clone();
        self.pools.insert(record.gateway_pool_id.clone(), record);
        assert(self@.replicas == old(self)@.replicas);
        assert(self@.routes == old(self)@.routes);
        Ok(updated)
    }

    #[must_use]
    pub fn get_replica(&self, gateway_replica_id: &GatewayReplicaId) -> (found: Option<
        GatewayReplicaRecord,
    >)
        requires
            self.well_formed(),
        ensures
            found is Some <==> self@.replicas.contains_key(gateway_replica_id@),
            found matches Some(replica) ==> replica == self@.replicas[gateway_replica_id@],
    {
        match self.replicas.get(gateway_replica_id) {
            Some(replica) => Some(replica.clone()),
            None => None,
        }
    }

    /// The replica of an activation token. There is never more than one.
    #[must_use]
    pub fn get_replica_by_activation_token_digest(&self, token_digest: &ContentDigest) -> (found:
        Option<GatewayReplicaRecord>)
        requires
            self.well_formed(),
        ensures
            match found {
                Some(replica) => {
                    &&& self@.replicas.contains_key(replica.gateway_replica_id@)
                    &&& self@.replicas[replica.gateway_replica_id@] == replica
                    &&& forall|name: Seq<char>| #[trigger]
                        self@.replicas.contains_key(name) ==> (
                        self@.replicas[name].credential.activation_token_digest == *token_digest
                            <==> name == replica.gateway_replica_id@)
                },
                None => forall|name: Seq<char>| #[trigger]
                    self@.replicas.contains_key(name)
                        ==> self@.replicas[name].credential.activation_token_digest
                        != *token_digest,
            },
    {
        let ghost entries = self.replicas.entries();
        let mut index: usize = 0;
        while index < self.replicas.len()
            invariant
                self.well_formed(),
                entries == self.replicas.entries(),
                index <= entries.len(),
                forall|i: int|
                    0 <= i < index ==> (#[trigger] entries[i]).1.credential.activation_token_digest
                        != *token_digest,
            decreases entries.len() - index,
        {
            let replica = &self.replicas.entry_at(index).1;
            if replica.credential.activation_token_digest == *token_digest {
                proof {
                    lemma_entry_is_mapped(entries, index as int);
                    assert(self@.replicas.contains_key(entries[index as int].0.name()));
                }
                return Some(replica.clone());
            }
            index += 1;
        }
        proof {
            assert forall|name: Seq<char>| #[trigger]
                self@.replicas.contains_key(
                    name,
                ) implies self@.replicas[name].credential.activation_token_digest
                != *token_digest by {
                let at = lemma_mapped_is_entry(entries, name);
                assert(entries[at].1.credential.activation_token_digest != *token_digest);
            }
        }
        None
    }

    /// The replicas that a request asks for. `validity` is what the rules of page requests say.
    pub fn list_replicas(
        &self,
        request: &GatewayReplicaListRequest,
        validity: CentralResult<()>,
    ) -> (result: CentralResult<Vec<GatewayReplicaRecord>>)
        requires
            self.well_formed(),
        ensures
            fault_of(result) == fault_of(validity),
            is_walk(self.replica_entries(), self@.replicas),
            result matches Ok(replicas) ==> replicas@.same(
                first_kept(
                    self.replica_entries(),
                    wanted_replicas(*request),
                    request.limit as nat,
                ),
            ),
    {
        validity?;
        let keep = |id: &Identifier, replica: &GatewayReplicaRecord| -> (verdict: bool)
            ensures
                verdict == wanted_replicas(*request)((*id, *replica)),
            {
                comes_past(id, &request.after) && replica.gateway_pool_id
                    == request.gateway_pool_id && match &request.state {
                    Some(state) => replica.state == *state,
                    None => true,
                }
            };
        Ok(select(&self.replicas, keep, Ghost(wanted_replicas(*request)), request.limit))
    }

    fn ensure_replica_unique(&self, record: &GatewayReplicaRecord) -> (result: CentralResult<()>)
        requires
            self.well_formed(),
        ensures
            fault_of(result) == (if any_wanted(self@.replicas, clashing_replicas(*record)) {
                Some(
                    identity_fault(
                        "GatewayReplica endpoint or activation token is already registered"@,
                    ),
                )
            } else {
                None
            }),
    {
        let clash = |replica: &GatewayReplicaRecord| -> (verdict: bool)
            ensures
                verdict == clashing_replicas(*record)(*replica),
            {
                replica.gateway_replica_id != record.gateway_replica_id && replicas_share_identity(
                    replica,
                    record,
                )
            };
        if any_value(&self.replicas, clash, Ghost(clashing_replicas(*record))) {
            return Err(
                identity_conflict(
                    "GatewayReplica endpoint or activation token is already registered",
                ),
            );
        }
        Ok(())
    }

    fn require_replica_pool(&self, record: &GatewayReplicaRecord) -> (result: CentralResult<()>)
        requires
            self.well_formed(),
        ensures
            fault_of(result) == replica_pool_fault(self@.pools, *record),
    {
        let pool = match self.pools.get(&record.gateway_pool_id) {
            Some(pool) => pool,
            None => return Err(pool_not_found()),
        };
        if pool.edge_cluster_id != record.edge_cluster_id || matches!(
            pool.state,
            GatewayPoolState::Draining | GatewayPoolState::Disabled
        ) {
            return Err(identity_conflict("GatewayReplica scope differs from its GatewayPool"));
        }
        Ok(())
    }

    /// Inserts a replica, or recognises that it is there. `validity` is what its own rules say.
    pub fn insert_replica(
        &mut self,
        record: GatewayReplicaRecord,
        validity: CentralResult<()>,
    ) -> (result: CentralResult<GatewayInsertOutcome<GatewayReplicaRecord>>)
        requires
            old(self).well_formed(),
        ensures
            final(self).well_formed(),
            fault_of(result) == replica_insert_fault(old(self)@, record, validity),
            result matches Ok(GatewayInsertOutcome::Inserted(replica)) ==> replica == record
                && !old(self)@.replicas.contains_key(record.gateway_replica_id@) && final(self)@
                == (GatewayView {
                replicas: old(self)@.replicas.insert(record.gateway_replica_id@, record),
                ..old(self)@
            }),
            result matches Ok(GatewayInsertOutcome::Existing(replica)) ==> replica
                == old(self)@.replicas[record.gateway_replica_id@]
                && old(self)@.replicas.contains_key(record.gateway_replica_id@) && final(self)@
                == old(self)@,
            result is Err ==> final(self)@ == old(self)@,
    {
        validity?;
        if record.resource_version != 1 || !matches!(record.state, GatewayReplicaState::Pending)
            || !matches!(record.credential.state, GatewayCredentialState::PendingActivation)
            || record.last_heartbeat_at_unix_ms.is_some() {
            return Err(invalid("new GatewayReplica must begin pending at ResourceVersion 1"));
        }
        if let Some(existing) = self.replicas.get(&record.gateway_replica_id) {
            return if *existing == record {
                Ok(GatewayInsertOutcome::Existing(existing.clone()))
            } else {
                Err(identity_conflict("GatewayReplica ID is already used"))
            };
        }
        self.require_replica_pool(&record)?;
        self.ensure_replica_unique(&record)?;
        proof {
            lemma_clash_is_mutual(self@.replicas, record);
        }
        let inserted = record.clone();
        self.replicas.insert(record.gateway_replica_id.clone(), record);
        assert(self@.pools == old(self)@.pools);
        assert(self@.routes == old(self)@.routes);
        Ok(GatewayInsertOutcome::Inserted(inserted))
    }
}

/// A replica that no other one clashes with clashes with no other one.
proof fn lemma_clash_is_mutual(
    replicas: Map<Seq<char>, GatewayReplicaRecord>,
    record: GatewayReplicaRecord,
)
    requires
        !any_wanted(replicas, clashing_replicas(record)),
        forall|name: Seq<char>| #[trigger]
            replicas.contains_key(name) ==> replicas[name].gateway_replica_id@ == name,
    ensures
        forall|name: Seq<char>| #[trigger]
            replicas.contains_key(name) && name != record.gateway_replica_id@ ==> !replicas_clash(
                replicas[name],
                record,
            ) && !replicas_clash(record, replicas[name]),
{
    assert forall|name: Seq<char>| #[trigger]
        replicas.contains_key(name) && name != record.gateway_replica_id@ implies !replicas_clash(
        replicas[name],
        record,
    ) && !replicas_clash(record, replicas[name]) by {
        assert(!clashing_replicas(record)(replicas[name]));
    }
}

/// An Agent session that a route is opened for.
pub struct AgentSessionOpening {
    pub entry: RegistryEntry,
    pub expected_resource_version: u64,
    pub replayed: bool,
}

/// The route that was opened together with a session.
pub struct AgentSessionRouteAcquireOutcome {
    pub record: AgentRegistryRecord,
    pub session_replayed: bool,
    pub route: AgentRouteLeaseAcquireOutcome,
}

/// Why no route is looked for: no Agent is registered, or it may not take the route.
pub open spec fn admission_fault(admission: Option<CentralResult<()>>) -> Option<Fault> {
    match admission {
        None => Some(agent_missing()),
        Some(verdict) => fault_of(verdict),
    }
}

/// Why the session of a route does not replace the stored aggregate of its Agent.
pub open spec fn session_write_fault(agents: RegistryView, session: AgentSessionOpening) -> Option<
    Fault,
> {
    if session.replayed {
        None
    } else {
        let record = session.entry.record;
        let refused = replace_fault(
            stored_record(agents.records, record.enrollment.enrollment_id@),
            session.expected_resource_version,
            record,
            session.entry.derived_pvc_identity,
        );
        if refused is Some {
            refused
        } else {
            clash_fault(agents.records, record)
        }
    }
}

/// What writing a session and its route comes to, where `applied` is what the request makes of the
/// stored route. Registry and Agents stand side by side, before and after.
pub open spec fn settles_session_route(
    before: (GatewayView, RegistryView),
    after: (GatewayView, RegistryView),
    agent_id: Seq<char>,
    session: AgentSessionOpening,
    applied: CentralResult<AgentRouteLeaseAcquireOutcome>,
    result: CentralResult<AgentSessionRouteAcquireOutcome>,
) -> bool {
    match applied {
        Err(problem) => fault_of(result) == Some(problem@),
        Ok(route) => if session_write_fault(before.1, session) is Some {
            fault_of(result) == session_write_fault(before.1, session)
        } else {
            &&& result matches Ok(outcome)
            &&& outcome.record.same(session.entry.record)
            &&& outcome.session_replayed == session.replayed
            &&& outcome.route == route
            &&& after.1 == if session.replayed {
                before.1
            } else {
                RegistryView {
                    records: before.1.records.insert(
                        session.entry.record.enrollment.enrollment_id@,
                        session.entry,
                    ),
                    ..before.1
                }
            }
            &&& after.0 == if route.replayed {
                before.0
            } else {
                with_route(before.0, agent_id, route.lease)
            }
        },
    }
}

/// A request to open a session of an Agent and to route it.
pub struct AcquireAgentSessionRouteRequest {
    pub session: OpenAgentSessionRequest,
    pub edge_cluster_id: EdgeClusterId,
    pub gateway_pool_id: GatewayPoolId,
    pub gateway_replica_id: GatewayReplicaId,
    pub connection_id: GatewayConnectionId,
    pub request_id: RequestId,
    pub observed_at_unix_ms: UnixMillis,
    pub heartbeat_timeout_ms: u64,
}

impl AcquireAgentSessionRouteRequest {
    /// The route that is asked for: that of the Agent whose session is opened, at the time at which
    /// it is.
    #[must_use]
    pub fn route_request(&self) -> (request: AcquireAgentRouteLeaseRequest)
        ensures
            request == route_of_session(*self),
    {
        AcquireAgentRouteLeaseRequest {
            agent_id: self.session.agent_id.clone(),
            edge_cluster_id: self.edge_cluster_id.clone(),
            gateway_pool_id: self.gateway_pool_id.clone(),
            gateway_replica_id: self.gateway_replica_id.clone(),
            connection_id: self.connection_id.clone(),
            request_id: self.request_id.clone(),
            acquired_at_unix_ms: self.observed_at_unix_ms,
        }
    }
}

/// The route that a request for a session asks for.
pub open spec fn route_of_session(
    request: AcquireAgentSessionRouteRequest,
) -> AcquireAgentRouteLeaseRequest {
    AcquireAgentRouteLeaseRequest {
        agent_id: request.session.agent_id,
        edge_cluster_id: request.edge_cluster_id,
        gateway_pool_id: request.gateway_pool_id,
        gateway_replica_id: request.gateway_replica_id,
        connection_id: request.connection_id,
        request_id: request.request_id,
        acquired_at_unix_ms: request.observed_at_unix_ms,
    }
}

/// What is said of an Agent: nothing where it is not registered, else what `validate` says of its
/// enrollment.
pub open spec fn is_admission<T: Fn(&AgentRegistryRecord) -> CentralResult<()>>(
    agents: RegistryView,
    agent_id: Seq<char>,
    validate: T,
    admission: Option<CentralResult<()>>,
) -> bool {
    match admission {
        None => !has_agent(agents, agent_id),
        Some(verdict) => exists|record: AgentRegistryRecord| #[trigger]
            is_agent_record(agents, agent_id, record) && call_ensures(
                validate,
                (&record,),
                verdict,
            ),
    }
}

/// Looks an Agent up and asks whether it may have what it wants.
fn agent_admission<T: Fn(&AgentRegistryRecord) -> CentralResult<()>>(
    agents: &InMemoryAgentRegistry,
    agent_id: &AgentId,
    validate: T,
) -> (admission: Option<CentralResult<()>>)
    requires
        agents.well_formed(),
        forall|record: &AgentRegistryRecord| #[trigger] call_requires(validate, (record,)),
    ensures
        is_admission(agents@, agent_id@, validate, admission),
{
    proof {
        agents.lemma_consistent();
    }
    match agents.get_by_agent(agent_id) {
        Some(record) => {
            assert(is_agent_record(agents@, agent_id@, record));
            Some(validate(&record))
        },
        None => None,
    }
}

/// `record` is the stored enrollment that is reserved for an Agent.
pub open spec fn is_agent_record(
    agents: RegistryView,
    agent_id: Seq<char>,
    record: AgentRegistryRecord,
) -> bool {
    let name = record.enrollment.enrollment_id@;
    &&& agents.records.contains_key(name)
    &&& of_agent(agent_id)(agents.records[name].record)
    &&& record.same(agents.records[name].record)
}

/// Some enrollment is reserved for an Agent.
pub open spec fn has_agent(agents: RegistryView, agent_id: Seq<char>) -> bool {
    exists|name: Seq<char>| #[trigger]
        agents.records.contains_key(name) && of_agent(agent_id)(agents.records[name].record)
}

/// `record` is the stored enrollment of the Agent, and `session_id` the name of its next session.
pub open spec fn is_agent_session<D: Fn(SessionGeneration) -> SessionId>(
    agents: RegistryView,
    request: AcquireAgentSessionRouteRequest,
    derive: D,
    record: AgentRegistryRecord,
    session_id: SessionId,
) -> bool {
    let generation = match record.instance {
        Some(instance) => match next_generation(instance) {
            Some(generation) => generation,
            None => 0,
        },
        None => 0,
    };
    &&& is_agent_record(agents, request.session.agent_id@, record)
    &&& call_ensures(derive, (generation,), session_id)
}

/// The session that a request opens against the stored enrollment of its Agent.
pub open spec fn session_opening(
    agents: RegistryView,
    record: AgentRegistryRecord,
    request: AcquireAgentSessionRouteRequest,
    session_id: SessionId,
) -> AgentSessionOpening {
    let replayed = names(record.instance->0.active_boot_id, request.session.boot_id@);
    AgentSessionOpening {
        entry: RegistryEntry {
            record: if replayed {
                record
            } else {
                session_opened(record, request.session, session_id, request.observed_at_unix_ms)
            },
            derived_pvc_identity: agents.records[record.enrollment.enrollment_id@]
                .derived_pvc_identity,
        },
        expected_resource_version: request.session.expected_resource_version,
        replayed,
    }
}

/// The generation of an opened session.
pub open spec fn generation_of(session: AgentSessionOpening) -> SessionGeneration {
    session.entry.record.instance->0.session_generation->0
}

/// How a request for a session and its route is answered where the Agent is registered: by why the
/// session is not opened, by why the route is not taken, or by both.
pub open spec fn answers_session_route<
    T: Fn(&AgentRegistryRecord) -> CentralResult<()>,
    O: Fn(&GatewayPoolRecord, &GatewayReplicaRecord) -> CentralResult<()>,
    A: Fn(
        Option<&AgentRouteLease>,
        SessionGeneration,
    ) -> CentralResult<AgentRouteLeaseAcquireOutcome>,
>(
    before: (GatewayView, RegistryView),
    after: (GatewayView, RegistryView),
    request: AcquireAgentSessionRouteRequest,
    record: AgentRegistryRecord,
    session_id: SessionId,
    validate_target: T,
    validate_owner: O,
    acquire: A,
    result: CentralResult<AgentSessionRouteAcquireOutcome>,
) -> bool {
    let unopened = open_session_fault(
        record,
        request.session,
        request.observed_at_unix_ms,
        request.heartbeat_timeout_ms,
    );
    let session = session_opening(before.1, record, request, session_id);
    let agent_id = request.session.agent_id@;
    if unopened is Some {
        fault_of(result) == unopened
    } else {
        exists|target: CentralResult<()>| #[trigger]
            call_ensures(validate_target, (&session.entry.record,), target) && if target is Err {
                fault_of(result) == fault_of(target)
            } else {
                exists|refused: Option<Fault>| #[trigger]
                    is_admitted(before.0, route_of_session(request), validate_owner, refused)
                        && if refused is Some {
                        fault_of(result) == refused
                    } else {
                        exists|
                            stored: Option<&AgentRouteLease>,
                            applied: CentralResult<AgentRouteLeaseAcquireOutcome>,
                        |
                            {
                                &&& is_route(before.0, agent_id, stored)
                                &&& #[trigger] call_ensures(
                                    acquire,
                                    (stored, generation_of(session)),
                                    applied,
                                )
                                &&& settles_session_route(
                                    before,
                                    after,
                                    agent_id,
                                    session,
                                    applied,
                                    result,
                                )
                            }
                    }
            }
    }
}

impl InMemoryGatewayRegistry {
    /// Replaces a replica. `validate` says whether the stored one may become this one, and
    /// `validate_parent` whether its pool allows it.
    pub fn replace_replica<
        F: Fn(&GatewayReplicaRecord) -> CentralResult<()>,
        G: Fn(&GatewayPoolRecord, &GatewayReplicaRecord) -> CentralResult<()>,
    >(&mut self, record: GatewayReplicaRecord, validate: F, validate_parent: G) -> (result:
        CentralResult<GatewayReplicaRecord>)
        requires
            old(self).well_formed(),
            forall|stored: &GatewayReplicaRecord| #[trigger] call_requires(validate, (stored,)),
            forall|pool: &GatewayPoolRecord, stored: &GatewayReplicaRecord| #[trigger]
                call_requires(validate_parent, (pool, stored)),
        ensures
            final(self).well_formed(),
            ({
                let name = record.gateway_replica_id@;
                let pool_name = record.gateway_pool_id@;
                if !old(self)@.replicas.contains_key(name) {
                    final(self)@ == old(self)@ && fault_of(result) == Some(replica_missing())
                } else {
                    exists|verdict: CentralResult<()>|
                        {
                            &&& #[trigger] call_ensures(
                                validate,
                                (&old(self)@.replicas[record.gateway_replica_id@],),
                                verdict,
                            )
                            &&& if verdict is Err {
                                final(self)@ == old(self)@ && fault_of(result) == fault_of(verdict)
                            } else if !old(self)@.pools.contains_key(pool_name) {
                                final(self)@ == old(self)@ && fault_of(result) == Some(
                                    pool_missing(),
                                )
                            } else {
                                exists|allowed: CentralResult<()>|
                                    {
                                        &&& #[trigger] call_ensures(
                                            validate_parent,
                                            (
                                                &old(self)@.pools[record.gateway_pool_id@],
                                                &old(self)@.replicas[record.gateway_replica_id@],
                                            ),
                                            allowed,
                                        )
                                        &&& if allowed is Err {
                                            final(self)@ == old(self)@ && fault_of(result)
                                                == fault_of(allowed)
                                        } else if any_wanted(
                                            old(self)@.replicas,
                                            clashing_replicas(record),
                                        ) {
                                            final(self)@ == old(self)@ && fault_of(result) == Some(
                                                identity_fault(
                                                    "GatewayReplica endpoint or activation token is already registered"@,
                                                ),
                                            )
                                        } else {
                                            &&& result matches Ok(replica)
                                            &&& replica == record
                                            &&& final(self)@ == (GatewayView {
                                                replicas: old(self)@.replicas.insert(name, record),
                                                ..old(self)@
                                            })
                                        }
                                    }
                            }
                        }
                }
            }),
    {
        let stored = match self.replicas.get(&record.gateway_replica_id) {
            Some(stored) => stored,
            None => return Err(replica_not_found()),
        };
        let ghost before = *stored;
        let verdict = validate(stored);
        let ghost given = verdict;
        assert(call_ensures(validate, (&before,), given));
        verdict?;
        let pool = match self.pools.get(&record.gateway_pool_id) {
            Some(pool) => pool,
            None => return Err(pool_not_found()),
        };
        let ghost parent = *pool;
        let allowed = validate_parent(pool, stored);
        let ghost permission = allowed;
        assert(call_ensures(validate_parent, (&parent, &before), permission));
        allowed?;
        self.ensure_replica_unique(&record)?;
        proof {
            lemma_clash_is_mutual(self@.replicas, record);
        }
        let updated = record.clone();
        self.replicas.insert(record.gateway_replica_id.clone(), record);
        assert(self@.pools == old(self)@.pools);
        assert(self@.routes == old(self)@.routes);
        Ok(updated)
    }

    #[must_use]
    pub fn get_agent_route(&self, agent_id: &AgentId) -> (found: Option<AgentRouteLease>)
        requires
            self.well_formed(),
        ensures
            found == route_of(self@, agent_id@),
    {
        match self.routes.get(agent_id) {
            Some(lease) => Some(lease.clone()),
            None => None,
        }
    }

    /// The routes that a request asks for. `validity` is what the rules of page requests say, and
    /// `in_force` tells which routes are in force at the time that the request names.
    pub fn list_agent_routes<F: Fn(&AgentRouteLease) -> bool>(
        &self,
        request: &AgentRouteLeaseListRequest,
        validity: CentralResult<()>,
        in_force: F,
    ) -> (result: CentralResult<Vec<AgentRouteLease>>)
        requires
            self.well_formed(),
            forall|lease: &AgentRouteLease| #[trigger] call_requires(in_force, (lease,)),
            exists|meaning: spec_fn(AgentRouteLease) -> bool| #[trigger]
                means(in_force, meaning),
        ensures
            fault_of(result) == fault_of(validity),
            is_walk(self.route_entries(), self@.routes),
            result matches Ok(leases) ==> exists|meaning: spec_fn(AgentRouteLease) -> bool|
                {
                    &&& #[trigger] means(in_force, meaning)
                    &&& leases@ == first_kept(
                        self.route_entries(),
                        wanted_routes(*request, meaning),
                        request.limit as nat,
                    )
                },
    {
        validity?;
        let ghost meaning = choose|meaning: spec_fn(AgentRouteLease) -> bool| #[trigger]
            means(in_force, meaning);
        let ghost kept = wanted_routes(*request, meaning);
        let ghost entries = self.routes.entries();
        let mut leases: Vec<AgentRouteLease> = Vec::new();
        let mut index: usize = 0;
        proof {
            assert(entries.take(0) =~= Seq::<(Identifier, AgentRouteLease)>::empty());
            reveal(Seq::filter);
        }
        while index < self.routes.len() && leases.len() < request.limit
            invariant
                entries == self.routes.entries(),
                index <= entries.len(),
                leases@.len() <= request.limit,
                kept == wanted_routes(*request, meaning),
                forall|lease: &AgentRouteLease| #[trigger] call_requires(in_force, (lease,)),
                means(in_force, meaning),
                leases@.len() == entries.take(index as int).filter(kept).len(),
                forall|i: int|
                    0 <= i < leases@.len() ==> #[trigger] leases@[i] == entries.take(
                        index as int,
                    ).filter(kept)[i].1,
            decreases entries.len() - index,
        {
            let entry = self.routes.entry_at(index);
            let lease = &entry.1;
            proof {
                lemma_filter_next(entries, kept, index as int);
            }
            if comes_past(&entry.0, &request.after) && lease.gateway_pool_id
                == request.gateway_pool_id && admitted(
                &request.gateway_replica_id,
                &lease.gateway_replica_id,
            ) && in_force(lease) {
                leases.push(lease.clone());
            }
            index += 1;
        }
        proof {
            lemma_filter_prefix(entries, kept, index as int);
            if index == entries.len() {
                assert(entries.take(index as int) =~= entries);
            }
            assert(leases@ =~= first_kept(entries, kept, request.limit as nat));
        }
        Ok(leases)
    }

    fn ensure_route_unclaimed(
        &self,
        agent_id: &AgentId,
        request_id: &RequestId,
        connection_id: Option<&GatewayConnectionId>,
    ) -> (result: CentralResult<()>)
        requires
            self.well_formed(),
        ensures
            fault_of(result) == route_claim_fault(
                self@.routes,
                agent_id@,
                request_id@,
                match connection_id {
                    Some(connection) => Some(connection@),
                    None => None,
                },
            ),
    {
        let knows = |lease: &AgentRouteLease| -> (verdict: bool)
            ensures
                verdict == knowing_request(request_id@, agent_id@)(*lease),
            { lease.agent_id != *agent_id && knows_request(lease, request_id) };
        if any_value(&self.routes, knows, Ghost(knowing_request(request_id@, agent_id@))) {
            return Err(
                identity_conflict("Gateway route RequestId is already bound to another Agent"),
            );
        }
        if let Some(connection) = connection_id {
            let shares = |lease: &AgentRouteLease| -> (verdict: bool)
                ensures
                    verdict == over_connection(connection@, agent_id@)(*lease),
                { lease.agent_id != *agent_id && lease.connection_id == *connection };
            if any_value(&self.routes, shares, Ghost(over_connection(connection@, agent_id@))) {
                return Err(
                    identity_conflict("Gateway connection ID is already bound to another Agent"),
                );
            }
        }
        Ok(())
    }

    fn route_parents(
        &self,
        pool_id: &GatewayPoolId,
        replica_id: &GatewayReplicaId,
    ) -> (result: CentralResult<(&GatewayPoolRecord, &GatewayReplicaRecord)>)
        requires
            self.well_formed(),
        ensures
            fault_of(result) == route_parents_fault(self@, pool_id@, replica_id@),
            result matches Ok(parents) ==> *parents.0 == self@.pools[pool_id@] && *parents.1
                == self@.replicas[replica_id@],
    {
        let pool = match self.pools.get(pool_id) {
            Some(pool) => pool,
            None => return Err(pool_not_found()),
        };
        let replica = match self.replicas.get(replica_id) {
            Some(replica) => replica,
            None => return Err(replica_not_found()),
        };
        Ok((pool, replica))
    }

    /// Checks everything about a new route but the route itself.
    fn admit_route<O: Fn(&GatewayPoolRecord, &GatewayReplicaRecord) -> CentralResult<()>>(
        &self,
        request: &AcquireAgentRouteLeaseRequest,
        validate_owner: O,
    ) -> (result: CentralResult<()>)
        requires
            self.well_formed(),
            forall|pool: &GatewayPoolRecord, replica: &GatewayReplicaRecord| #[trigger]
                call_requires(validate_owner, (pool, replica)),
        ensures
            is_admitted(self@, *request, validate_owner, fault_of(result)),
    {
        let (pool, replica) = self.route_parents(
            &request.gateway_pool_id,
            &request.gateway_replica_id,
        )?;
        let ghost given_pool = *pool;
        let ghost given_replica = *replica;
        let verdict = validate_owner(pool, replica);
        let ghost given = verdict;
        assert(call_ensures(validate_owner, (&given_pool, &given_replica), given));
        verdict?;
        self.ensure_route_unclaimed(
            &request.agent_id,
            &request.request_id,
            Some(&request.connection_id),
        )
    }

    /// Acquires the route of a registered Agent. `validate_target` tells whether the Agent may take
    /// the route, `validate_owner` whether the replica may own it, and `acquire` what the request
    /// makes of the stored route.
    pub fn acquire_agent_route<
        T: Fn(&AgentRegistryRecord) -> CentralResult<()>,
        O: Fn(&GatewayPoolRecord, &GatewayReplicaRecord) -> CentralResult<()>,
        A: Fn(Option<&AgentRouteLease>) -> CentralResult<AgentRouteLeaseAcquireOutcome>,
    >(
        &mut self,
        agents: &InMemoryAgentRegistry,
        request: &AcquireAgentRouteLeaseRequest,
        validate_target: T,
        validate_owner: O,
        acquire: A,
    ) -> (result: CentralResult<AgentRouteLeaseAcquireOutcome>)
        requires
            old(self).well_formed(),
            agents.well_formed(),
            forall|record: &AgentRegistryRecord| #[trigger]
                call_requires(validate_target, (record,)),
            forall|pool: &GatewayPoolRecord, replica: &GatewayReplicaRecord| #[trigger]
                call_requires(validate_owner, (pool, replica)),
            acquires_for(acquire, request.agent_id@),
        ensures
            final(self).well_formed(),
            exists|admission: Option<CentralResult<()>>| #[trigger]
                is_admission(agents@, request.agent_id@, validate_target, admission) && if admission_fault(admission) is Some {
                    final(self)@ == old(self)@ && fault_of(result) == admission_fault(admission)
                } else {
                    exists|refused: Option<Fault>| #[trigger]
                        is_admitted(old(self)@, *request, validate_owner, refused) && if refused is Some {
                            final(self)@ == old(self)@ && fault_of(result) == refused
                        } else {
                            exists|
                                stored: Option<&AgentRouteLease>,
                                applied: CentralResult<AgentRouteLeaseAcquireOutcome>,
                            |
                                {
                                    &&& is_route(old(self)@, request.agent_id@, stored)
                                    &&& #[trigger] call_ensures(acquire, (stored,), applied)
                                    &&& match applied {
                                        Err(problem) => final(self)@ == old(self)@ && fault_of(result)
                                            == Some(problem@),
                                        Ok(outcome) => {
                                            &&& result == CentralResult::<
                                                AgentRouteLeaseAcquireOutcome,
                                            >::Ok(outcome)
                                            &&& final(self)@ == with_route(
                                                old(self)@,
                                                request.agent_id@,
                                                outcome.lease,
                                            )
                                        },
                                    }
                                }
                        }
                },
    {
        let admission = agent_admission(agents, &request.agent_id, validate_target);
        let ghost verdict = admission;
        assert(is_admission(agents@, request.agent_id@, validate_target, verdict));
        match admission {
            None => return Err(agent_not_found()),
            Some(verdict) => verdict?,
        }
        let admitted = self.admit_route(request, validate_owner);
        let ghost refused = fault_of(admitted);
        assert(is_admitted(self@, *request, validate_owner, refused));
        admitted?;
        let stored = self.routes.get(&request.agent_id);
        let ghost given = stored;
        assert(is_route(self@, request.agent_id@, given));
        let applied = acquire(stored);
        let ghost made = applied;
        assert(call_ensures(acquire, (given,), made));
        let outcome = match applied {
            Ok(outcome) => outcome,
            Err(problem) => return Err(problem),
        };
        self.routes.insert(request.agent_id.clone(), outcome.lease.clone());
        assert(self@ =~= with_route(old(self)@, request.agent_id@, outcome.lease));
        Ok(outcome)
    }

    /// Acquires the route of an Agent together with a session that was opened for it: either both
    /// are written or neither is.
    fn acquire_opened_session_route<
        O: Fn(&GatewayPoolRecord, &GatewayReplicaRecord) -> CentralResult<()>,
        A: Fn(Option<&AgentRouteLease>) -> CentralResult<AgentRouteLeaseAcquireOutcome>,
    >(
        &mut self,
        agents: &mut InMemoryAgentRegistry,
        request: &AcquireAgentRouteLeaseRequest,
        session: AgentSessionOpening,
        target: CentralResult<()>,
        validate_owner: O,
        acquire: A,
    ) -> (result: CentralResult<AgentSessionRouteAcquireOutcome>)
        requires
            old(self).well_formed(),
            old(agents).well_formed(),
            forall|pool: &GatewayPoolRecord, replica: &GatewayReplicaRecord| #[trigger]
                call_requires(validate_owner, (pool, replica)),
            acquires_for(acquire, request.agent_id@),
        ensures
            final(self).well_formed(),
            final(agents).well_formed(),
            result is Err ==> final(self)@ == old(self)@ && final(agents)@ == old(agents)@,
            if target is Err {
                fault_of(result) == fault_of(target)
            } else {
                exists|refused: Option<Fault>| #[trigger]
                    is_admitted(old(self)@, *request, validate_owner, refused) && if refused is Some {
                        fault_of(result) == refused
                    } else {
                        exists|
                            stored: Option<&AgentRouteLease>,
                            applied: CentralResult<AgentRouteLeaseAcquireOutcome>,
                        |
                            {
                                &&& is_route(old(self)@, request.agent_id@, stored)
                                &&& #[trigger] call_ensures(acquire, (stored,), applied)
                                &&& settles_session_route(
                                    (old(self)@, old(agents)@),
                                    (final(self)@, final(agents)@),
                                    request.agent_id@,
                                    session,
                                    applied,
                                    result,
                                )
                            }
                    }
            },
    {
        target?;
        let admitted = self.admit_route(request, validate_owner);
        let ghost refused = fault_of(admitted);
        assert(is_admitted(self@, *request, validate_owner, refused));
        admitted?;
        let stored = self.routes.get(&request.agent_id);
        let ghost given = stored;
        assert(is_route(self@, request.agent_id@, given));
        let applied = acquire(stored);
        let ghost made = applied;
        assert(call_ensures(acquire, (given,), made));
        let route = match applied {
            Ok(route) => route,
            Err(problem) => return Err(problem),
        };
        let record = session.entry.record.clone();
        if !session.replayed {
            agents.replace(
                session.expected_resource_version,
                session.entry.record,
                session.entry.derived_pvc_identity,
            )?;
        }
        if !route.replayed {
            self.routes.insert(request.agent_id.clone(), route.lease.clone());
            assert(self@ =~= with_route(old(self)@, request.agent_id@, route.lease));
        }
        Ok(AgentSessionRouteAcquireOutcome { record, session_replayed: session.replayed, route })
    }

    /// Opens a session of a registered Agent and acquires the route for it: either both are written
    /// or neither is.
    ///
    /// `derive` names the session of a generation, `validate_target` tells whether the Agent with
    /// that session may take the route, `validate_owner` whether the replica may own it, and
    /// `acquire` what the request makes of the stored route for the generation of the session.
    pub fn acquire_agent_session_route<
        D: Fn(SessionGeneration) -> SessionId,
        T: Fn(&AgentRegistryRecord) -> CentralResult<()>,
        O: Fn(&GatewayPoolRecord, &GatewayReplicaRecord) -> CentralResult<()>,
        A: Fn(
            Option<&AgentRouteLease>,
            SessionGeneration,
        ) -> CentralResult<AgentRouteLeaseAcquireOutcome>,
    >(
        &mut self,
        agents: &mut InMemoryAgentRegistry,
        request: &AcquireAgentSessionRouteRequest,
        derive: D,
        validate_target: T,
        validate_owner: O,
        acquire: A,
    ) -> (result: CentralResult<AgentSessionRouteAcquireOutcome>)
        requires
            old(self).well_formed(),
            old(agents).well_formed(),
            forall|generation: SessionGeneration| #[trigger] call_requires(derive, (generation,)),
            forall|record: &AgentRegistryRecord| #[trigger]
                call_requires(validate_target, (record,)),
            forall|pool: &GatewayPoolRecord, replica: &GatewayReplicaRecord| #[trigger]
                call_requires(validate_owner, (pool, replica)),
            acquires_session_for(acquire, request.session.agent_id@),
        ensures
            final(self).well_formed(),
            final(agents).well_formed(),
            result is Err ==> final(self)@ == old(self)@ && final(agents)@ == old(agents)@,
            if !has_agent(old(agents)@, request.session.agent_id@) {
                fault_of(result) == Some(agent_missing())
            } else {
                exists|record: AgentRegistryRecord, session_id: SessionId| #[trigger]
                    is_agent_session(old(agents)@, *request, derive, record, session_id)
                        && answers_session_route(
                        (old(self)@, old(agents)@),
                        (final(self)@, final(agents)@),
                        *request,
                        record,
                        session_id,
                        validate_target,
                        validate_owner,
                        acquire,
                        result,
                    )
            },
    {
        let ghost before = (self@, agents@);
        proof {
            agents.lemma_consistent();
        }
        let record = match agents.get_by_agent(&request.session.agent_id) {
            Some(record) => record,
            None => return Err(agent_not_found()),
        };
        let ghost found = record;
        let identity = agents.derived_pvc_identity(&record.enrollment.enrollment_id);
        let next: Option<SessionGeneration> = match &record.instance {
            Some(instance) => next_session_generation(instance),
            None => None,
        };
        let generation: SessionGeneration = match next {
            Some(generation) => generation,
            None => 0,
        };
        let session_id = derive(generation);
        let ghost named = session_id;
        assert(call_ensures(derive, (generation,), named));
        assert(is_agent_session(before.1, *request, derive, found, named));
        let step = match open_session(
            record,
            &request.session,
            session_id,
            request.observed_at_unix_ms,
            request.heartbeat_timeout_ms,
        ) {
            Ok(step) => step,
            Err(problem) => return Err(problem),
        };
        let expected: u64 = request.session.expected_resource_version;
        let (session, generation) = match step {
            OpenSessionStep::Replayed { record, session_generation, .. } => (
                AgentSessionOpening {
                    entry: RegistryEntry { record, derived_pvc_identity: identity },
                    expected_resource_version: expected,
                    replayed: true,
                },
                session_generation,
            ),
            OpenSessionStep::Store { record, session_generation, .. } => (
                AgentSessionOpening {
                    entry: RegistryEntry { record, derived_pvc_identity: identity },
                    expected_resource_version: expected,
                    replayed: false,
                },
                session_generation,
            ),
        };
        let ghost opened = session;
        assert(opened == session_opening(before.1, found, *request, named));
        assert(generation == generation_of(opened));
        let target = validate_target(&session.entry.record);
        let ghost verdict = target;
        assert(call_ensures(validate_target, (&opened.entry.record,), verdict));
        let route = request.route_request();
        let ghost gives = |
            stored: Option<&AgentRouteLease>,
            applied: CentralResult<AgentRouteLeaseAcquireOutcome>,
        | call_ensures(acquire, (stored, generation), applied);
        let acquire_here = |stored: Option<&AgentRouteLease>| -> (applied: CentralResult<
            AgentRouteLeaseAcquireOutcome,
        >)
            ensures
                gives(stored, applied),
            { acquire(stored, generation) };
        let result = self.acquire_opened_session_route(
            agents,
            &route,
            session,
            target,
            validate_owner,
            acquire_here,
        );
        proof {
            let after = (self@, agents@);
            let agent_id = request.session.agent_id@;
            if verdict is Ok && !exists|refused: Option<Fault>| #[trigger]
                is_admitted(before.0, route, validate_owner, refused) && refused is Some
                    && fault_of(result) == refused {
                let (stored, applied) = choose|
                    stored: Option<&AgentRouteLease>,
                    applied: CentralResult<AgentRouteLeaseAcquireOutcome>,
                |
                    {
                        &&& is_route(before.0, agent_id, stored)
                        &&& #[trigger] call_ensures(acquire_here, (stored,), applied)
                        &&& settles_session_route(before, after, agent_id, opened, applied, result)
                    };
                assert(call_ensures(acquire_here, (stored,), applied));
                assert(gives(stored, applied));
                assert(call_ensures(acquire, (stored, generation_of(opened)), applied));
            }
        }
        assert(answers_session_route(
            before,
            (self@, agents@),
            *request,
            found,
            named,
            validate_target,
            validate_owner,
            acquire,
            result,
        ));
        result
    }

    /// Renews the route of a registered Agent. `validate_session` tells whether the Agent has the
    /// session, `validate_owner` whether the replica may still own the route, and `renew` what the
    /// request makes of the stored route.
    pub fn renew_agent_route<
        S: Fn(&AgentRegistryRecord) -> CentralResult<()>,
        O: Fn(&GatewayPoolRecord, &GatewayReplicaRecord) -> CentralResult<()>,
        R: Fn(&AgentRouteLease) -> CentralResult<AgentRouteLeaseMutationOutcome>,
    >(
        &mut self,
        agents: &InMemoryAgentRegistry,
        agent_id: &AgentId,
        request_id: &RequestId,
        validate_session: S,
        validate_owner: O,
        renew: R,
    ) -> (result: CentralResult<AgentRouteLeaseMutationOutcome>)
        requires
            old(self).well_formed(),
            agents.well_formed(),
            forall|record: &AgentRegistryRecord| #[trigger]
                call_requires(validate_session, (record,)),
            forall|pool: &GatewayPoolRecord, replica: &GatewayReplicaRecord| #[trigger]
                call_requires(validate_owner, (pool, replica)),
            changes_for(renew, agent_id@),
        ensures
            final(self).well_formed(),
            exists|admission: Option<CentralResult<()>>| #[trigger]
                is_admission(agents@, agent_id@, validate_session, admission) && ({
                    let early = mutation_fault(old(self)@, agent_id@, request_id@, admission);
                    if early is Some {
                        final(self)@ == old(self)@ && fault_of(result) == early
                    } else {
                        let stored = old(self)@.routes[agent_id@];
                        let parents = route_parents_fault(
                            old(self)@,
                            stored.gateway_pool_id@,
                            stored.gateway_replica_id@,
                        );
                        if parents is Some {
                            final(self)@ == old(self)@ && fault_of(result) == parents
                        } else {
                            exists|verdict: CentralResult<()>|
                                {
                                    &&& #[trigger] call_ensures(
                                        validate_owner,
                                        (
                                            &old(self)@.pools[old(
                                                self,
                                            )@.routes[agent_id@].gateway_pool_id@],
                                            &old(self)@.replicas[old(
                                                self,
                                            )@.routes[agent_id@].gateway_replica_id@],
                                        ),
                                        verdict,
                                    )
                                    &&& if verdict is Err {
                                        final(self)@ == old(self)@ && fault_of(result) == fault_of(
                                            verdict,
                                        )
                                    } else {
                                        exists|applied: CentralResult<AgentRouteLeaseMutationOutcome>|
                                            {
                                                &&& #[trigger] call_ensures(
                                                    renew,
                                                    (&old(self)@.routes[agent_id@],),
                                                    applied,
                                                )
                                                &&& is_changed(
                                                    old(self)@,
                                                    final(self)@,
                                                    agent_id@,
                                                    applied,
                                                    result,
                                                )
                                            }
                                    }
                                }
                        }
                    }
                }),
    {
        let admission = agent_admission(agents, agent_id, validate_session);
        let ghost said = admission;
        assert(is_admission(agents@, agent_id@, validate_session, said));
        match admission {
            None => return Err(agent_not_found()),
            Some(verdict) => verdict?,
        }
        self.ensure_route_unclaimed(agent_id, request_id, None)?;
        let stored = match self.routes.get(agent_id) {
            Some(stored) => stored,
            None => return Err(route_not_found()),
        };
        let (pool, replica) = self.route_parents(
            &stored.gateway_pool_id,
            &stored.gateway_replica_id,
        )?;
        let ghost given_pool = *pool;
        let ghost given_replica = *replica;
        let verdict = validate_owner(pool, replica);
        let ghost given = verdict;
        assert(call_ensures(validate_owner, (&given_pool, &given_replica), given));
        verdict?;
        let ghost before = *stored;
        let applied = renew(stored);
        let ghost made = applied;
        assert(call_ensures(renew, (&before,), made));
        let outcome = match applied {
            Ok(outcome) => outcome,
            Err(problem) => return Err(problem),
        };
        self.routes.insert(agent_id.clone(), outcome.lease.clone());
        assert(self@ =~= with_route(old(self)@, agent_id@, outcome.lease));
        Ok(outcome)
    }

    /// Releases the route of a registered Agent. `validate_session` tells whether the Agent has the
    /// session, and `release` what the request makes of the stored route.
    pub fn release_agent_route<
        S: Fn(&AgentRegistryRecord) -> CentralResult<()>,
        R: Fn(&AgentRouteLease) -> CentralResult<AgentRouteLeaseMutationOutcome>,
    >(
        &mut self,
        agents: &InMemoryAgentRegistry,
        agent_id: &AgentId,
        request_id: &RequestId,
        validate_session: S,
        release: R,
    ) -> (result: CentralResult<AgentRouteLeaseMutationOutcome>)
        requires
            old(self).well_formed(),
            agents.well_formed(),
            forall|record: &AgentRegistryRecord| #[trigger]
                call_requires(validate_session, (record,)),
            changes_for(release, agent_id@),
        ensures
            final(self).well_formed(),
            exists|admission: Option<CentralResult<()>>| #[trigger]
                is_admission(agents@, agent_id@, validate_session, admission) && ({
                    let early = mutation_fault(old(self)@, agent_id@, request_id@, admission);
                    if early is Some {
                        final(self)@ == old(self)@ && fault_of(result) == early
                    } else {
                        exists|applied: CentralResult<AgentRouteLeaseMutationOutcome>|
                            {
                                &&& #[trigger] call_ensures(
                                    release,
                                    (&old(self)@.routes[agent_id@],),
                                    applied,
                                )
                                &&& is_changed(old(self)@, final(self)@, agent_id@, applied, result)
                            }
                    }
                }),
    {
        let admission = agent_admission(agents, agent_id, validate_session);
        let ghost said = admission;
        assert(is_admission(agents@, agent_id@, validate_session, said));
        match admission {
            None => return Err(agent_not_found()),
            Some(verdict) => verdict?,
        }
        self.ensure_route_unclaimed(agent_id, request_id, None)?;
        let stored = match self.routes.get(agent_id) {
            Some(stored) => stored,
            None => return Err(route_not_found()),
        };
        let ghost before = *stored;
        let applied = release(stored);
        let ghost made = applied;
        assert(call_ensures(release, (&before,), made));
        let outcome = match applied {
            Ok(outcome) => outcome,
            Err(problem) => return Err(problem),
        };
        self.routes.insert(agent_id.clone(), outcome.lease.clone());
        assert(self@ =~= with_route(old(self)@, agent_id@, outcome.lease));
        Ok(outcome)
    }
}

/// What a test of routes means.
pub open spec fn means<F: Fn(&AgentRouteLease) -> bool>(
    test: F,
    meaning: spec_fn(AgentRouteLease) -> bool,
) -> bool {
    forall|lease: &AgentRouteLease, verdict: bool| #[trigger]
        call_ensures(test, (lease,), verdict) ==> verdict == meaning(*lease)
}

/// The stored route of an Agent, as it is handed out.
pub open spec fn is_route(
    view: GatewayView,
    agent_id: Seq<char>,
    stored: Option<&AgentRouteLease>,
) -> bool {
    match stored {
        Some(lease) => route_of(view, agent_id) == Some(*lease),
        None => route_of(view, agent_id) is None,
    }
}

/// What keeps a new route out, if anything does.
pub open spec fn is_admitted<
    O: Fn(&GatewayPoolRecord, &GatewayReplicaRecord) -> CentralResult<()>,
>(
    view: GatewayView,
    request: AcquireAgentRouteLeaseRequest,
    validate_owner: O,
    refused: Option<Fault>,
) -> bool {
    let parents = route_parents_fault(
        view,
        request.gateway_pool_id@,
        request.gateway_replica_id@,
    );
    if parents is Some {
        refused == parents
    } else {
        exists|verdict: CentralResult<()>|
            {
                &&& #[trigger] call_ensures(
                    validate_owner,
                    (
                        &view.pools[request.gateway_pool_id@],
                        &view.replicas[request.gateway_replica_id@],
                    ),
                    verdict,
                )
                &&& refused == if verdict is Err {
                    fault_of(verdict)
                } else {
                    route_claim_fault(
                        view.routes,
                        request.agent_id@,
                        request.request_id@,
                        Some(request.connection_id@),
                    )
                }
            }
    }
}

/// Acquiring gives a route of the Agent.
pub open spec fn acquires_for<
    A: Fn(Option<&AgentRouteLease>) -> CentralResult<AgentRouteLeaseAcquireOutcome>,
>(acquire: A, agent_id: Seq<char>) -> bool {
    &&& forall|stored: Option<&AgentRouteLease>| #[trigger] call_requires(acquire, (stored,))
    &&& forall|
        stored: Option<&AgentRouteLease>,
        applied: CentralResult<AgentRouteLeaseAcquireOutcome>,
    | #[trigger]
        call_ensures(acquire, (stored,), applied) ==> (applied matches Ok(outcome)
            ==> outcome.lease.agent_id@ == agent_id)
}

/// Acquiring for a session gives a route of the Agent.
pub open spec fn acquires_session_for<
    A: Fn(
        Option<&AgentRouteLease>,
        SessionGeneration,
    ) -> CentralResult<AgentRouteLeaseAcquireOutcome>,
>(acquire: A, agent_id: Seq<char>) -> bool {
    &&& forall|stored: Option<&AgentRouteLease>, generation: SessionGeneration| #[trigger]
        call_requires(acquire, (stored, generation))
    &&& forall|
        stored: Option<&AgentRouteLease>,
        generation: SessionGeneration,
        applied: CentralResult<AgentRouteLeaseAcquireOutcome>,
    | #[trigger]
        call_ensures(acquire, (stored, generation), applied) ==> (applied matches Ok(outcome)
            ==> outcome.lease.agent_id@ == agent_id)
}

/// Renewing or releasing gives a route of the Agent.
pub open spec fn changes_for<
    R: Fn(&AgentRouteLease) -> CentralResult<AgentRouteLeaseMutationOutcome>,
>(change: R, agent_id: Seq<char>) -> bool {
    &&& forall|stored: &AgentRouteLease| #[trigger] call_requires(change, (stored,))
    &&& forall|stored: &AgentRouteLease, applied: CentralResult<AgentRouteLeaseMutationOutcome>|
        #[trigger]
        call_ensures(change, (stored,), applied) ==> (applied matches Ok(outcome)
            ==> outcome.lease.agent_id@ == agent_id)
}

/// What keeps a route from being renewed or released before it is looked at.
pub open spec fn mutation_fault(
    view: GatewayView,
    agent_id: Seq<char>,
    request_id: Seq<char>,
    admission: Option<CentralResult<()>>,
) -> Option<Fault> {
    if admission_fault(admission) is Some {
        admission_fault(admission)
    } else if route_claim_fault(view.routes, agent_id, request_id, None) is Some {
        route_claim_fault(view.routes, agent_id, request_id, None)
    } else if !view.routes.contains_key(agent_id) {
        Some(route_missing())
    } else {
        None
    }
}

/// What renewing or releasing a route gives and leaves behind.
pub open spec fn is_changed(
    before: GatewayView,
    after: GatewayView,
    agent_id: Seq<char>,
    applied: CentralResult<AgentRouteLeaseMutationOutcome>,
    result: CentralResult<AgentRouteLeaseMutationOutcome>,
) -> bool {
    match applied {
        Err(problem) => after == before && fault_of(result) == Some(problem@),
        Ok(outcome) => {
            &&& result == CentralResult::<AgentRouteLeaseMutationOutcome>::Ok(outcome)
            &&& after == with_route(before, agent_id, outcome.lease)
        },
    }
}

} // verus!
