//! What the gateway registry promises.
use vstd::prelude::*;

use crate::agent_registry::records::AgentRegistryRecord;
use crate::agent_registry::repository::InMemoryAgentRegistry;
use crate::digest::ContentDigest;
use crate::equality::Same;
use crate::error::{CentralError, CentralErrorCode, CentralResult};
use crate::gateway::{
    endpoints, AcquireAgentRouteLeaseRequest, AgentRouteLease, AgentRouteLeaseAcquireOutcome,
    AgentRouteLeaseMutationOutcome, GatewayInsertOutcome, GatewayPoolId, GatewayPoolRecord,
    GatewayPoolState, GatewayReplicaId, GatewayReplicaRecord, GatewayReplicaState,
};
use crate::identifier::{AgentId, EdgeClusterId, Identifier, RequestId};
use crate::laws::jobs::fails_with;
use crate::laws::listing::{is_reached, lemma_kept_names, lemma_listing, shows};
use crate::memory::gateway::{
    clashing_pools, clashing_replicas, means, wanted_pools, wanted_replicas, wanted_routes,
    AcquireAgentSessionRouteRequest, AgentRouteLeaseListRequest, GatewayPoolListRequest,
    GatewayReplicaListRequest, GatewayView, InMemoryGatewayRegistry,
};
use crate::table::first_kept;
use crate::text::text_before;

verus! {

/// A name comes after a cursor; without a cursor every name does.
pub open spec fn is_beyond(name: Seq<char>, after: Option<Identifier>) -> bool {
    match after {
        None => true,
        Some(cursor) => text_before(cursor@, name),
    }
}

/// Two pools are in the same state.
pub open spec fn same_pool_state(left: GatewayPoolState, right: GatewayPoolState) -> bool {
    match (left, right) {
        (GatewayPoolState::Draining, GatewayPoolState::Draining) => true,
        (GatewayPoolState::Disabled, GatewayPoolState::Disabled) => true,
        (GatewayPoolState::Other(left), GatewayPoolState::Other(right)) => left@ == right@,
        _ => false,
    }
}

/// Two replicas are in the same state.
pub open spec fn same_replica_state(left: GatewayReplicaState, right: GatewayReplicaState) -> bool {
    match (left, right) {
        (GatewayReplicaState::Pending, GatewayReplicaState::Pending) => true,
        (GatewayReplicaState::Other(left), GatewayReplicaState::Other(right)) => left@ == right@,
        _ => false,
    }
}

/// A pool agrees with everything that a request names.
pub open spec fn pool_is_asked_for(
    name: Seq<char>,
    pool: GatewayPoolRecord,
    request: GatewayPoolListRequest,
) -> bool {
    &&& is_beyond(name, request.after)
    &&& request.edge_cluster_id matches Some(asked) ==> pool.edge_cluster_id@ == asked@
    &&& request.state matches Some(asked) ==> same_pool_state(pool.state, asked)
}

/// The pools that agree with everything that a request names are listed in order after the cursor:
/// only those, and every one of those that fits.
pub proof fn lemma_asked_pools_are_listed(
    registry: InMemoryGatewayRegistry,
    request: &GatewayPoolListRequest,
    pools: Vec<GatewayPoolRecord>,
) -> (names: Seq<Seq<char>>)
    requires
        call_ensures(
            InMemoryGatewayRegistry::list_pools,
            (&registry, request, Ok(())),
            Ok::<Vec<GatewayPoolRecord>, CentralError>(pools),
        ),
    ensures
        shows::<Identifier, GatewayPoolRecord>(
            pools@,
            names,
            registry@.pools,
            request.limit as nat,
        ),
        forall|i: int|
            0 <= i < names.len() ==> pool_is_asked_for(
                #[trigger] names[i],
                registry@.pools[names[i]],
                *request,
            ),
        forall|name: Seq<char>| #[trigger]
            registry@.pools.contains_key(name) && pool_is_asked_for(
                name,
                registry@.pools[name],
                *request,
            ) ==> is_reached::<Identifier>(names, name, request.limit as nat),
{
    lemma_listing(
        registry.pool_entries(),
        registry@.pools,
        wanted_pools(*request),
        |name: Seq<char>, pool: GatewayPoolRecord| pool_is_asked_for(name, pool, *request),
        request.limit as nat,
        pools@,
    )
}

/// A replica agrees with everything that a request names.
pub open spec fn replica_is_asked_for(
    name: Seq<char>,
    replica: GatewayReplicaRecord,
    request: GatewayReplicaListRequest,
) -> bool {
    &&& is_beyond(name, request.after)
    &&& replica.gateway_pool_id@ == request.gateway_pool_id@
    &&& request.state matches Some(asked) ==> same_replica_state(replica.state, asked)
}

/// The replicas of a pool that agree with everything that a request names are listed in order after
/// the cursor: only those, and every one of those that fits.
pub proof fn lemma_asked_replicas_are_listed(
    registry: InMemoryGatewayRegistry,
    request: &GatewayReplicaListRequest,
    replicas: Vec<GatewayReplicaRecord>,
) -> (names: Seq<Seq<char>>)
    requires
        call_ensures(
            InMemoryGatewayRegistry::list_replicas,
            (&registry, request, Ok(())),
            Ok::<Vec<GatewayReplicaRecord>, CentralError>(replicas),
        ),
    ensures
        shows::<Identifier, GatewayReplicaRecord>(
            replicas@,
            names,
            registry@.replicas,
            request.limit as nat,
        ),
        forall|i: int|
            0 <= i < names.len() ==> replica_is_asked_for(
                #[trigger] names[i],
                registry@.replicas[names[i]],
                *request,
            ),
        forall|name: Seq<char>| #[trigger]
            registry@.replicas.contains_key(name) && replica_is_asked_for(
                name,
                registry@.replicas[name],
                *request,
            ) ==> is_reached::<Identifier>(names, name, request.limit as nat),
{
    lemma_listing(
        registry.replica_entries(),
        registry@.replicas,
        wanted_replicas(*request),
        |name: Seq<char>, replica: GatewayReplicaRecord|
            replica_is_asked_for(name, replica, *request),
        request.limit as nat,
        replicas@,
    )
}

/// A route agrees with everything that a request names.
pub open spec fn route_is_asked_for(
    name: Seq<char>,
    lease: AgentRouteLease,
    request: AgentRouteLeaseListRequest,
) -> bool {
    &&& is_beyond(name, request.after)
    &&& lease.gateway_pool_id@ == request.gateway_pool_id@
    &&& request.gateway_replica_id matches Some(asked) ==> lease.gateway_replica_id@ == asked@
}

/// The routes through a pool that agree with everything that a request names and are in force are
/// listed in order after the cursor: only those, and every one of those that fits.
pub proof fn lemma_asked_routes_are_listed<F: Fn(&AgentRouteLease) -> bool>(
    registry: InMemoryGatewayRegistry,
    request: &AgentRouteLeaseListRequest,
    in_force: F,
    leases: Vec<AgentRouteLease>,
) -> (names: Seq<Seq<char>>)
    requires
        call_ensures(
            InMemoryGatewayRegistry::list_agent_routes::<F>,
            (&registry, request, Ok(()), in_force),
            Ok::<Vec<AgentRouteLease>, CentralError>(leases),
        ),
    ensures
        names.len() == leases@.len() <= request.limit,
        forall|i: int|
            0 <= i < names.len() ==> {
                &&& registry@.routes.contains_key(#[trigger] names[i])
                &&& leases@[i] == registry@.routes[names[i]]
                &&& route_is_asked_for(names[i], leases@[i], *request)
                &&& !call_ensures(in_force, (&leases@[i],), false)
            },
        forall|i: int, j: int|
            0 <= i < j < names.len() ==> text_before(#[trigger] names[i], #[trigger] names[j]),
        forall|name: Seq<char>| #[trigger]
            registry@.routes.contains_key(name) && route_is_asked_for(
                name,
                registry@.routes[name],
                *request,
            ) && call_ensures(in_force, (&registry@.routes[name],), true) ==> is_reached::<
                Identifier,
            >(names, name, request.limit as nat),
{
    let meaning = choose|meaning: spec_fn(AgentRouteLease) -> bool|
        {
            &&& #[trigger] means(in_force, meaning)
            &&& leases@ == first_kept(
                registry.route_entries(),
                wanted_routes(*request, meaning),
                request.limit as nat,
            )
        };
    lemma_kept_names(
        registry.route_entries(),
        registry@.routes,
        wanted_routes(*request, meaning),
        |name: Seq<char>, lease: AgentRouteLease|
            route_is_asked_for(name, lease, *request) && meaning(lease),
        request.limit as nat,
    )
}

/// Pools, replicas and routes are read back under their own identities; a pool also by its edge
/// cluster and a replica by the digest of its activation token, which only one of them has.
pub proof fn lemma_gateway_records_are_read_back(
    registry: InMemoryGatewayRegistry,
    pool_id: &GatewayPoolId,
    edge_cluster_id: &EdgeClusterId,
    replica_id: &GatewayReplicaId,
    token_digest: &ContentDigest,
    agent_id: &AgentId,
    pool: Option<GatewayPoolRecord>,
    clustered: Option<GatewayPoolRecord>,
    replica: Option<GatewayReplicaRecord>,
    activated: Option<GatewayReplicaRecord>,
    route: Option<AgentRouteLease>,
)
    requires
        call_ensures(InMemoryGatewayRegistry::get_pool, (&registry, pool_id), pool),
        call_ensures(
            InMemoryGatewayRegistry::get_pool_by_edge_cluster,
            (&registry, edge_cluster_id),
            clustered,
        ),
        call_ensures(InMemoryGatewayRegistry::get_replica, (&registry, replica_id), replica),
        call_ensures(
            InMemoryGatewayRegistry::get_replica_by_activation_token_digest,
            (&registry, token_digest),
            activated,
        ),
        call_ensures(InMemoryGatewayRegistry::get_agent_route, (&registry, agent_id), route),
    ensures
        match pool {
            Some(found) => registry@.pools.contains_key(pool_id@) && found
                == registry@.pools[pool_id@],
            None => !registry@.pools.contains_key(pool_id@),
        },
        match replica {
            Some(found) => registry@.replicas.contains_key(replica_id@) && found
                == registry@.replicas[replica_id@],
            None => !registry@.replicas.contains_key(replica_id@),
        },
        match route {
            Some(found) => registry@.routes.contains_key(agent_id@) && found
                == registry@.routes[agent_id@],
            None => !registry@.routes.contains_key(agent_id@),
        },
        forall|name: Seq<char>| #[trigger]
            registry@.pools.contains_key(name) && registry@.pools[name].edge_cluster_id@
                == edge_cluster_id@ ==> clustered == Some(registry@.pools[name]),
        clustered matches Some(found) ==> {
            &&& found.edge_cluster_id@ == edge_cluster_id@
            &&& registry@.pools.contains_key(found.gateway_pool_id@)
            &&& registry@.pools[found.gateway_pool_id@] == found
        },
        forall|name: Seq<char>| #[trigger]
            registry@.replicas.contains_key(name)
                && registry@.replicas[name].credential.activation_token_digest == *token_digest
                ==> activated == Some(registry@.replicas[name]),
        activated matches Some(found) ==> {
            &&& found.credential.activation_token_digest == *token_digest
            &&& registry@.replicas.contains_key(found.gateway_replica_id@)
            &&& registry@.replicas[found.gateway_replica_id@] == found
        },
{
}

/// Two pools answer under the same Agent endpoint or the same object endpoint.
pub open spec fn pools_collide(left: GatewayPoolRecord, right: GatewayPoolRecord) -> bool {
    ||| left.agent_endpoint@ == right.agent_endpoint@
    ||| left.s3_endpoint is Some && right.s3_endpoint is Some && left.s3_endpoint->0@
        == right.s3_endpoint->0@
}

/// A pool is registered once, at its first version and configuration, one per edge cluster, and at
/// endpoints of its own: the same record again gives the stored one back, and everything else is
/// refused as a conflict of identities.
pub proof fn lemma_pool_is_registered_once(
    record: GatewayPoolRecord,
    result: CentralResult<GatewayInsertOutcome<GatewayPoolRecord>>,
)
    ensures
        forall|registry: &mut InMemoryGatewayRegistry|
            #[trigger] call_ensures(
                InMemoryGatewayRegistry::insert_pool,
                (registry, record, Ok(())),
                result,
            ) ==> {
                let before = (*registry)@;
                let after = final(registry)@;
                let name = record.gateway_pool_id@;
                if record.resource_version != 1 || record.config_generation != 1 {
                    fails_with(result, CentralErrorCode::InvalidState) && after == before
                } else if before.pools.contains_key(name) {
                    &&& after == before
                    &&& if before.pools[name].same(record) {
                        result == Ok::<GatewayInsertOutcome<GatewayPoolRecord>, CentralError>(
                            GatewayInsertOutcome::Existing(before.pools[name]),
                        )
                    } else {
                        fails_with(result, CentralErrorCode::GatewayIdentityConflict)
                    }
                } else if exists|other: Seq<char>| #[trigger]
                    before.pools.contains_key(other) && (before.pools[other].edge_cluster_id@
                        == record.edge_cluster_id@ || (before.pools[other].gateway_pool_id@ != name
                        && pools_collide(before.pools[other], record))) {
                    fails_with(result, CentralErrorCode::GatewayIdentityConflict) && after == before
                } else {
                    &&& result == Ok::<GatewayInsertOutcome<GatewayPoolRecord>, CentralError>(
                        GatewayInsertOutcome::Inserted(record),
                    )
                    &&& after == GatewayView { pools: before.pools.insert(name, record), ..before }
                }
            },
{
    assert forall|registry: &mut InMemoryGatewayRegistry|
        #[trigger] call_ensures(
            InMemoryGatewayRegistry::insert_pool,
            (registry, record, Ok(())),
            result,
        ) implies {
        let pools = (*registry)@.pools;
        (exists|other: Seq<char>| #[trigger]
            pools.contains_key(other) && (pools[other].edge_cluster_id@ == record.edge_cluster_id@
                || (pools[other].gateway_pool_id@ != record.gateway_pool_id@ && pools_collide(
                pools[other],
                record,
            )))) == (crate::table::any_wanted(
            pools,
            crate::memory::gateway::in_cluster(record.edge_cluster_id@),
        ) || crate::table::any_wanted(pools, clashing_pools(record)))
    } by {
        let pools = (*registry)@.pools;
        if exists|other: Seq<char>| #[trigger]
            pools.contains_key(other) && (pools[other].edge_cluster_id@ == record.edge_cluster_id@
                || (pools[other].gateway_pool_id@ != record.gateway_pool_id@ && pools_collide(
                pools[other],
                record,
            ))) {
            let other = choose|other: Seq<char>| #[trigger]
                pools.contains_key(other) && (pools[other].edge_cluster_id@
                    == record.edge_cluster_id@ || (pools[other].gateway_pool_id@
                    != record.gateway_pool_id@ && pools_collide(pools[other], record)));
            if pools[other].edge_cluster_id@ == record.edge_cluster_id@ {
                assert(crate::memory::gateway::in_cluster(record.edge_cluster_id@)(pools[other]));
            } else {
                assert(clashing_pools(record)(pools[other]));
            }
        }
        if crate::table::any_wanted(
            pools,
            crate::memory::gateway::in_cluster(record.edge_cluster_id@),
        ) {
            let other = choose|other: Seq<char>| #[trigger]
                pools.contains_key(other) && crate::memory::gateway::in_cluster(
                    record.edge_cluster_id@,
                )(pools[other]);
            assert(pools.contains_key(other));
        }
        if crate::table::any_wanted(pools, clashing_pools(record)) {
            let other = choose|other: Seq<char>| #[trigger]
                pools.contains_key(other) && clashing_pools(record)(pools[other]);
            assert(pools.contains_key(other));
        }
    }
}

/// A pool that is stored is replaced where the change is allowed and no other pool has one of its
/// endpoints; it is stored as it is given, and nothing else changes.
pub proof fn lemma_pool_is_replaced_as_given<F: Fn(&GatewayPoolRecord) -> CentralResult<()>>(
    record: GatewayPoolRecord,
    validate: F,
    result: CentralResult<GatewayPoolRecord>,
)
    ensures
        forall|registry: &mut InMemoryGatewayRegistry|
            #[trigger] call_ensures(
                InMemoryGatewayRegistry::replace_pool::<F>,
                (registry, record, validate),
                result,
            ) ==> {
                let before = (*registry)@;
                let after = final(registry)@;
                let name = record.gateway_pool_id@;
                &&& result is Err ==> after == before
                &&& !before.pools.contains_key(name) ==> fails_with(
                    result,
                    CentralErrorCode::GatewayPoolNotFound,
                )
                &&& before.pools.contains_key(name) && (forall|verdict: CentralResult<()>|
                    #[trigger]
                    call_ensures(
                        validate,
                        (&before.pools[record.gateway_pool_id@],),
                        verdict,
                    ) ==> verdict is Ok) ==> if exists|other: Seq<char>| #[trigger]
                    before.pools.contains_key(other) && before.pools[other].gateway_pool_id@ != name
                        && pools_collide(before.pools[other], record) {
                    fails_with(result, CentralErrorCode::GatewayIdentityConflict)
                } else {
                    &&& result == Ok::<GatewayPoolRecord, CentralError>(record)
                    &&& after == GatewayView { pools: before.pools.insert(name, record), ..before }
                }
                &&& before.pools.contains_key(name) && (forall|verdict: CentralResult<()>|
                    #[trigger]
                    call_ensures(
                        validate,
                        (&before.pools[record.gateway_pool_id@],),
                        verdict,
                    ) ==> verdict is Err) ==> result is Err
            },
{
    assert forall|registry: &mut InMemoryGatewayRegistry|
        #[trigger] call_ensures(
            InMemoryGatewayRegistry::replace_pool::<F>,
            (registry, record, validate),
            result,
        ) implies (exists|other: Seq<char>| #[trigger]
        (*registry)@.pools.contains_key(other) && (*registry)@.pools[other].gateway_pool_id@
            != record.gateway_pool_id@ && pools_collide((*registry)@.pools[other], record))
        == crate::table::any_wanted((*registry)@.pools, clashing_pools(record)) by {
        let pools = (*registry)@.pools;
        if exists|other: Seq<char>| #[trigger]
            pools.contains_key(other) && pools[other].gateway_pool_id@ != record.gateway_pool_id@
                && pools_collide(pools[other], record) {
            let other = choose|other: Seq<char>| #[trigger]
                pools.contains_key(other) && pools[other].gateway_pool_id@
                    != record.gateway_pool_id@ && pools_collide(pools[other], record);
            assert(clashing_pools(record)(pools[other]));
        }
    }
}

/// Two replicas answer under a common endpoint, or share an activation token.
pub open spec fn replicas_collide(left: GatewayReplicaRecord, right: GatewayReplicaRecord) -> bool {
    ||| left.credential.activation_token_digest == right.credential.activation_token_digest
    ||| has_endpoint(right, left.control_endpoint@)
    ||| has_endpoint(right, left.peer_endpoint@)
    ||| has_endpoint(right, left.bootstrap_endpoint@)
}

/// A replica answers under an endpoint.
pub open spec fn has_endpoint(replica: GatewayReplicaRecord, endpoint: Seq<char>) -> bool {
    ||| replica.control_endpoint@ == endpoint
    ||| replica.peer_endpoint@ == endpoint
    ||| replica.bootstrap_endpoint@ == endpoint
}

proof fn lemma_collision(left: GatewayReplicaRecord, right: GatewayReplicaRecord)
    ensures
        replicas_collide(left, right) == crate::gateway::replicas_clash(left, right),
{
    if replicas_collide(left, right) {
        assert(endpoints(left)[0] == left.control_endpoint@);
        assert(endpoints(left)[1] == left.peer_endpoint@);
        assert(endpoints(left)[2] == left.bootstrap_endpoint@);
        assert(endpoints(right)[0] == right.control_endpoint@);
        assert(endpoints(right)[1] == right.peer_endpoint@);
        assert(endpoints(right)[2] == right.bootstrap_endpoint@);
    }
}

proof fn lemma_colliding_replicas(
    replicas: Map<Seq<char>, GatewayReplicaRecord>,
    record: GatewayReplicaRecord,
)
    ensures
        (exists|other: Seq<char>| #[trigger]
            replicas.contains_key(other) && replicas[other].gateway_replica_id@
                != record.gateway_replica_id@ && replicas_collide(replicas[other], record))
            == crate::table::any_wanted(replicas, clashing_replicas(record)),
{
    assert forall|other: GatewayReplicaRecord|
        (other.gateway_replica_id@ != record.gateway_replica_id@ && replicas_collide(
            other,
            record,
        )) == #[trigger] clashing_replicas(record)(other) by {
        lemma_collision(other, record);
    }
    if exists|other: Seq<char>| #[trigger]
        replicas.contains_key(other) && replicas[other].gateway_replica_id@
            != record.gateway_replica_id@ && replicas_collide(replicas[other], record) {
        let other = choose|other: Seq<char>| #[trigger]
            replicas.contains_key(other) && replicas[other].gateway_replica_id@
                != record.gateway_replica_id@ && replicas_collide(replicas[other], record);
        assert(clashing_replicas(record)(replicas[other]));
    }
}

/// A replica is registered once, pending and at its first version, in a pool of its own edge cluster
/// that takes replicas, at endpoints and with an activation token of its own: the same record again
/// gives the stored one back, and everything else is refused.
pub proof fn lemma_replica_is_registered_once(
    record: GatewayReplicaRecord,
    result: CentralResult<GatewayInsertOutcome<GatewayReplicaRecord>>,
)
    ensures
        forall|registry: &mut InMemoryGatewayRegistry|
            #[trigger] call_ensures(
                InMemoryGatewayRegistry::insert_replica,
                (registry, record, Ok(())),
                result,
            ) ==> {
                let before = (*registry)@;
                let after = final(registry)@;
                let name = record.gateway_replica_id@;
                let pool = before.pools[record.gateway_pool_id@];
                if record.resource_version != 1 || !(record.state is Pending) || !(
                record.credential.state is PendingActivation)
                    || record.last_heartbeat_at_unix_ms is Some {
                    fails_with(result, CentralErrorCode::InvalidState) && after == before
                } else if before.replicas.contains_key(name) {
                    &&& after == before
                    &&& if before.replicas[name].same(record) {
                        result == Ok::<GatewayInsertOutcome<GatewayReplicaRecord>, CentralError>(
                            GatewayInsertOutcome::Existing(before.replicas[name]),
                        )
                    } else {
                        fails_with(result, CentralErrorCode::GatewayIdentityConflict)
                    }
                } else if !before.pools.contains_key(record.gateway_pool_id@) {
                    fails_with(result, CentralErrorCode::GatewayPoolNotFound) && after == before
                } else if pool.edge_cluster_id@ != record.edge_cluster_id@ || pool.state is Draining
                    || pool.state is Disabled || exists|other: Seq<char>| #[trigger]
                    before.replicas.contains_key(other) && before.replicas[other].gateway_replica_id@
                        != name && replicas_collide(before.replicas[other], record) {
                    fails_with(result, CentralErrorCode::GatewayIdentityConflict) && after == before
                } else {
                    &&& result == Ok::<GatewayInsertOutcome<GatewayReplicaRecord>, CentralError>(
                        GatewayInsertOutcome::Inserted(record),
                    )
                    &&& after == GatewayView {
                        replicas: before.replicas.insert(name, record),
                        ..before
                    }
                }
            },
{
    assert forall|registry: &mut InMemoryGatewayRegistry|
        #[trigger] call_ensures(
            InMemoryGatewayRegistry::insert_replica,
            (registry, record, Ok(())),
            result,
        ) implies (exists|other: Seq<char>| #[trigger]
        (*registry)@.replicas.contains_key(other)
            && (*registry)@.replicas[other].gateway_replica_id@ != record.gateway_replica_id@
            && replicas_collide((*registry)@.replicas[other], record)) == crate::table::any_wanted(
        (*registry)@.replicas,
        clashing_replicas(record),
    ) by {
        lemma_colliding_replicas((*registry)@.replicas, record);
    }
}

/// A replica that is stored is replaced where the change is allowed, its pool is there and allows it,
/// and no other replica has one of its endpoints or its token; it is stored as it is given, and
/// nothing else changes.
pub proof fn lemma_replica_is_replaced_as_given<
    F: Fn(&GatewayReplicaRecord) -> CentralResult<()>,
    G: Fn(&GatewayPoolRecord, &GatewayReplicaRecord) -> CentralResult<()>,
>(
    record: GatewayReplicaRecord,
    validate: F,
    validate_parent: G,
    result: CentralResult<GatewayReplicaRecord>,
)
    ensures
        forall|registry: &mut InMemoryGatewayRegistry|
            #[trigger] call_ensures(
                InMemoryGatewayRegistry::replace_replica::<F, G>,
                (registry, record, validate, validate_parent),
                result,
            ) ==> {
                let before = (*registry)@;
                let after = final(registry)@;
                let name = record.gateway_replica_id@;
                &&& result is Err ==> after == before
                &&& !before.replicas.contains_key(name) ==> fails_with(
                    result,
                    CentralErrorCode::GatewayReplicaNotFound,
                )
                &&& !before.pools.contains_key(record.gateway_pool_id@) ==> result is Err
                &&& result matches Ok(stored) ==> {
                    &&& stored == record
                    &&& after == GatewayView {
                        replicas: before.replicas.insert(name, record),
                        ..before
                    }
                    &&& forall|other: Seq<char>| #[trigger]
                        before.replicas.contains_key(other)
                            && before.replicas[other].gateway_replica_id@ != name
                            ==> !replicas_collide(before.replicas[other], record)
                }
            },
{
    assert forall|registry: &mut InMemoryGatewayRegistry|
        #[trigger] call_ensures(
            InMemoryGatewayRegistry::replace_replica::<F, G>,
            (registry, record, validate, validate_parent),
            result,
        ) implies (exists|other: Seq<char>| #[trigger]
        (*registry)@.replicas.contains_key(other)
            && (*registry)@.replicas[other].gateway_replica_id@ != record.gateway_replica_id@
            && replicas_collide((*registry)@.replicas[other], record)) == crate::table::any_wanted(
        (*registry)@.replicas,
        clashing_replicas(record),
    ) by {
        lemma_colliding_replicas((*registry)@.replicas, record);
    }
}

/// A route was acquired, last renewed or released by a request.
pub open spec fn came_from(lease: AgentRouteLease, request_id: Seq<char>) -> bool {
    ||| lease.acquire_request_id@ == request_id
    ||| lease.last_renew_request_id is Some && lease.last_renew_request_id->0@ == request_id
    ||| lease.release_request_id is Some && lease.release_request_id->0@ == request_id
}

/// An Agent is registered.
pub open spec fn is_registered(agents: InMemoryAgentRegistry, agent_id: Seq<char>) -> bool {
    exists|name: Seq<char>| #[trigger]
        agents@.records.contains_key(name)
            && agents@.records[name].record.enrollment.reserved_agent_id@ == agent_id
}

/// A route is acquired by a registered Agent through a pool and a replica that are there, by a
/// request and over a connection that no other Agent has; what is stored for the Agent is the lease
/// that is given, and nothing else changes. What fails changes nothing.
pub proof fn lemma_route_is_acquired_by_one_agent<
    T: Fn(&AgentRegistryRecord) -> CentralResult<()>,
    O: Fn(&GatewayPoolRecord, &GatewayReplicaRecord) -> CentralResult<()>,
    A: Fn(Option<&AgentRouteLease>) -> CentralResult<AgentRouteLeaseAcquireOutcome>,
>(
    agents: &InMemoryAgentRegistry,
    request: &AcquireAgentRouteLeaseRequest,
    validate_target: T,
    validate_owner: O,
    acquire: A,
    result: CentralResult<AgentRouteLeaseAcquireOutcome>,
)
    ensures
        forall|registry: &mut InMemoryGatewayRegistry|
            #[trigger] call_ensures(
                InMemoryGatewayRegistry::acquire_agent_route::<T, O, A>,
                (registry, agents, request, validate_target, validate_owner, acquire),
                result,
            ) ==> {
                let before = (*registry)@;
                let after = final(registry)@;
                &&& result is Err ==> after == before
                &&& !is_registered(*agents, request.agent_id@) ==> fails_with(
                    result,
                    CentralErrorCode::GatewayRouteUnavailable,
                )
                &&& result matches Ok(outcome) ==> {
                    &&& is_registered(*agents, request.agent_id@)
                    &&& before.pools.contains_key(request.gateway_pool_id@)
                    &&& before.replicas.contains_key(request.gateway_replica_id@)
                    &&& forall|other: Seq<char>| #[trigger]
                        before.routes.contains_key(other) && before.routes[other].agent_id@
                            != request.agent_id@ ==> {
                            &&& !came_from(before.routes[other], request.request_id@)
                            &&& before.routes[other].connection_id@ != request.connection_id@
                        }
                    &&& after == GatewayView {
                        routes: before.routes.insert(request.agent_id@, outcome.lease),
                        ..before
                    }
                    &&& exists|stored: Option<&AgentRouteLease>| #[trigger]
                        call_ensures(
                            acquire,
                            (stored,),
                            Ok::<AgentRouteLeaseAcquireOutcome, CentralError>(outcome),
                        ) && match stored {
                            Some(lease) => before.routes.contains_key(request.agent_id@)
                                && before.routes[request.agent_id@] == *lease,
                            None => !before.routes.contains_key(request.agent_id@),
                        }
                }
            },
{
    assert forall|registry: &mut InMemoryGatewayRegistry|
        #[trigger] call_ensures(
            InMemoryGatewayRegistry::acquire_agent_route::<T, O, A>,
            (registry, agents, request, validate_target, validate_owner, acquire),
            result,
        ) implies {
        &&& is_registered(*agents, request.agent_id@) == crate::memory::gateway::has_agent(
            agents@,
            request.agent_id@,
        )
        &&& forall|other: Seq<char>| #[trigger]
            (*registry)@.routes.contains_key(other) ==> {
                &&& crate::memory::gateway::knowing_request(request.request_id@, request.agent_id@)(
                    (*registry)@.routes[other],
                ) == ((*registry)@.routes[other].agent_id@ != request.agent_id@ && came_from(
                    (*registry)@.routes[other],
                    request.request_id@,
                ))
                &&& crate::memory::gateway::over_connection(
                    request.connection_id@,
                    request.agent_id@,
                )((*registry)@.routes[other]) == ((*registry)@.routes[other].agent_id@
                    != request.agent_id@ && (*registry)@.routes[other].connection_id@
                    == request.connection_id@)
            }
    } by {}
}

/// A route is renewed or released by its own registered Agent, by a request that no other Agent has,
/// and only where there is one: what is stored for the Agent is the lease that is given, and nothing
/// else changes. What fails changes nothing.
pub proof fn lemma_route_is_changed_by_its_agent<
    S: Fn(&AgentRegistryRecord) -> CentralResult<()>,
    O: Fn(&GatewayPoolRecord, &GatewayReplicaRecord) -> CentralResult<()>,
    R: Fn(&AgentRouteLease) -> CentralResult<AgentRouteLeaseMutationOutcome>,
>(
    agents: &InMemoryAgentRegistry,
    agent_id: &AgentId,
    request_id: &RequestId,
    validate_session: S,
    validate_owner: O,
    change: R,
    result: CentralResult<AgentRouteLeaseMutationOutcome>,
)
    ensures
        forall|registry: &mut InMemoryGatewayRegistry|
            #[trigger] call_ensures(
                InMemoryGatewayRegistry::renew_agent_route::<S, O, R>,
                (registry, agents, agent_id, request_id, validate_session, validate_owner, change),
                result,
            ) ==> route_is_changed(
                *agents,
                (*registry)@,
                final(registry)@,
                agent_id@,
                request_id@,
                result,
            ) && (result is Ok ==> (*registry)@.pools.contains_key(
                (*registry)@.routes[agent_id@].gateway_pool_id@,
            ) && (*registry)@.replicas.contains_key(
                (*registry)@.routes[agent_id@].gateway_replica_id@,
            ) && call_ensures(change, (&(*registry)@.routes[agent_id@],), result)),
        forall|registry: &mut InMemoryGatewayRegistry|
            #[trigger] call_ensures(
                InMemoryGatewayRegistry::release_agent_route::<S, R>,
                (registry, agents, agent_id, request_id, validate_session, change),
                result,
            ) ==> route_is_changed(
                *agents,
                (*registry)@,
                final(registry)@,
                agent_id@,
                request_id@,
                result,
            ) && (result is Ok ==> call_ensures(change, (&(*registry)@.routes[agent_id@],), result)),
{
    assert forall|registry: GatewayView, other: Seq<char>| #[trigger]
        registry.routes.contains_key(other) implies {
        crate::memory::gateway::knowing_request(request_id@, agent_id@)(registry.routes[other]) == (
        registry.routes[other].agent_id@ != agent_id@ && came_from(
            registry.routes[other],
            request_id@,
        ))
    } by {}
    assert(is_registered(*agents, agent_id@) == crate::memory::gateway::has_agent(
        agents@,
        agent_id@,
    ));
}

/// The route of an Agent was changed, or nothing was.
pub open spec fn route_is_changed(
    agents: InMemoryAgentRegistry,
    before: GatewayView,
    after: GatewayView,
    agent_id: Seq<char>,
    request_id: Seq<char>,
    result: CentralResult<AgentRouteLeaseMutationOutcome>,
) -> bool {
    &&& result is Err ==> after == before
    &&& !is_registered(agents, agent_id) || !before.routes.contains_key(agent_id) ==> result is Err
    &&& result matches Ok(outcome) ==> {
        &&& forall|other: Seq<char>| #[trigger]
            before.routes.contains_key(other) && before.routes[other].agent_id@ != agent_id
                ==> !came_from(before.routes[other], request_id)
        &&& after == GatewayView { routes: before.routes.insert(agent_id, outcome.lease), ..before }
    }
}

/// The route of a session is asked for by the Agent of the session, through the pool, the replica and
/// the connection that the request names, at the time of the observation.
pub proof fn lemma_session_route_is_its_own(
    request: &AcquireAgentSessionRouteRequest,
    route: AcquireAgentRouteLeaseRequest,
)
    requires
        call_ensures(AcquireAgentSessionRouteRequest::route_request, (request,), route),
    ensures
        route.agent_id@ == request.session.agent_id@,
        route.edge_cluster_id@ == request.edge_cluster_id@,
        route.gateway_pool_id@ == request.gateway_pool_id@,
        route.gateway_replica_id@ == request.gateway_replica_id@,
        route.connection_id@ == request.connection_id@,
        route.request_id@ == request.request_id@,
        route.acquired_at_unix_ms == request.observed_at_unix_ms,
{
}

} // verus!
