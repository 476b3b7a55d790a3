//! What opening a session together with its route promises: both happen, or neither does.
use vstd::prelude::*;

use crate::agent_registry::records::AgentRegistryRecord;
use crate::agent_registry::repository::InMemoryAgentRegistry;
use crate::equality::Same;
use crate::error::{CentralErrorCode, CentralResult};
use crate::gateway::{
    AgentRouteLease, AgentRouteLeaseAcquireOutcome, GatewayPoolRecord, GatewayReplicaRecord,
};
use crate::identifier::{SessionGeneration, SessionId};
use crate::laws::jobs::fails_with;
use crate::memory::gateway::{
    AcquireAgentSessionRouteRequest, AgentSessionRouteAcquireOutcome, InMemoryGatewayRegistry,
};

verus! {

/// A session is not opened for an Agent that is not registered, and a request that is refused for any
/// reason changes neither the Agents nor the routes.
pub proof fn lemma_refused_session_changes_nothing<
    D: Fn(SessionGeneration) -> SessionId,
    T: Fn(&AgentRegistryRecord) -> CentralResult<()>,
    O: Fn(&GatewayPoolRecord, &GatewayReplicaRecord) -> CentralResult<()>,
    A: Fn(
        Option<&AgentRouteLease>,
        SessionGeneration,
    ) -> CentralResult<AgentRouteLeaseAcquireOutcome>,
>(
    request: &AcquireAgentSessionRouteRequest,
    derive: D,
    validate_target: T,
    validate_owner: O,
    acquire: A,
    result: CentralResult<AgentSessionRouteAcquireOutcome>,
)
    ensures
        forall|gateways: &mut InMemoryGatewayRegistry, agents: &mut InMemoryAgentRegistry|
            #[trigger] call_ensures(
                InMemoryGatewayRegistry::acquire_agent_session_route::<D, T, O, A>,
                (gateways, agents, request, derive, validate_target, validate_owner, acquire),
                result,
            ) ==> {
                &&& result is Err ==> final(gateways)@ == (*gateways)@ && final(agents)@
                    == (*agents)@
                &&& (forall|name: Seq<char>| #[trigger]
                    (*agents)@.records.contains_key(name)
                        ==> (*agents)@.records[name].record.enrollment.reserved_agent_id@
                        != request.session.agent_id@) ==> fails_with(
                    result,
                    CentralErrorCode::GatewayRouteUnavailable,
                )
            },
{
}

/// A session that was opened with its route is that of the registered Agent, on its own installation
/// and mount and under the boot that asked for it. It is stored with the Agent unless that boot had
/// it before, and the route is stored for the Agent unless it was there before. Nothing else changes.
pub proof fn lemma_session_and_route_are_stored<
    D: Fn(SessionGeneration) -> SessionId,
    T: Fn(&AgentRegistryRecord) -> CentralResult<()>,
    O: Fn(&GatewayPoolRecord, &GatewayReplicaRecord) -> CentralResult<()>,
    A: Fn(
        Option<&AgentRouteLease>,
        SessionGeneration,
    ) -> CentralResult<AgentRouteLeaseAcquireOutcome>,
>(
    request: &AcquireAgentSessionRouteRequest,
    derive: D,
    validate_target: T,
    validate_owner: O,
    acquire: A,
    outcome: AgentSessionRouteAcquireOutcome,
)
    ensures
        forall|gateways: &mut InMemoryGatewayRegistry, agents: &mut InMemoryAgentRegistry|
            #[trigger] call_ensures(
                InMemoryGatewayRegistry::acquire_agent_session_route::<D, T, O, A>,
                (gateways, agents, request, derive, validate_target, validate_owner, acquire),
                Ok(outcome),
            ) ==> {
                let name = outcome.record.enrollment.enrollment_id@;
                let agent_id = request.session.agent_id@;
                &&& (*agents)@.records.contains_key(name)
                &&& (*agents)@.records[name].record.enrollment.reserved_agent_id@ == agent_id
                &&& outcome.record.enrollment.state is Approved
                &&& outcome.record.instance is Some
                &&& outcome.record.instance->0.installation_id@ == request.session.installation_id@
                &&& outcome.record.instance->0.active_boot_id is Some
                &&& outcome.record.instance->0.active_boot_id->0@ == request.session.boot_id@
                &&& outcome.session_replayed ==> final(agents)@ == (*agents)@
                &&& !outcome.session_replayed ==> {
                    &&& final(agents)@.watermarks == (*agents)@.watermarks
                    &&& final(agents)@.records.contains_key(name)
                    &&& outcome.record.same(final(agents)@.records[name].record)
                    &&& forall|other: Seq<char>|
                        other != name && #[trigger] (*agents)@.records.contains_key(other)
                            ==> final(agents)@.records.contains_key(other)
                            && final(agents)@.records[other] == (*agents)@.records[other]
                }
                &&& outcome.route.replayed ==> final(gateways)@ == (*gateways)@
                &&& !outcome.route.replayed ==> {
                    &&& final(gateways)@.routes == (*gateways)@.routes.insert(
                        agent_id,
                        outcome.route.lease,
                    )
                    &&& final(gateways)@.pools == (*gateways)@.pools
                    &&& final(gateways)@.replicas == (*gateways)@.replicas
                }
            },
{
}

} // verus!
