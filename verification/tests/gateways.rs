use neoengramd::agent_registry::intent::{plan_token_intent, AgentEnrollmentTokenCreateRequest};
use neoengramd::agent_registry::records::MountAccessMode;
use neoengramd::agent_registry::repository::InMemoryAgentRegistry;
use neoengramd::digest::ContentDigest;
use neoengramd::error::{CentralError, CentralErrorCode, CentralResult};
use neoengramd::gateway::{
    replica_endpoints, AcquireAgentRouteLeaseRequest, AgentRouteLease,
    AgentRouteLeaseAcquireOutcome, AgentRouteLeaseMutationOutcome, GatewayCredential,
    GatewayCredentialState, GatewayInsertOutcome, GatewayPoolRecord, GatewayPoolState,
    GatewayReplicaRecord, GatewayReplicaState,
};
use neoengramd::identifier::Identifier;
use neoengramd::memory::gateway::{
    AgentRouteLeaseListRequest, GatewayPoolListRequest, GatewayReplicaListRequest,
    InMemoryGatewayRegistry,
};

fn id(text: &str) -> Identifier {
    Identifier::new(text.to_owned())
}

fn code<T>(result: CentralResult<T>) -> CentralErrorCode {
    match result {
        Ok(_) => panic!("expected a failure"),
        Err(error) => error.code(),
    }
}

fn pool(name: &str, cluster: &str, endpoint: &str) -> GatewayPoolRecord {
    GatewayPoolRecord {
        gateway_pool_id: id(name),
        edge_cluster_id: id(cluster),
        resource_version: 1,
        config_generation: 1,
        state: GatewayPoolState::Other(id("active")),
        agent_endpoint: endpoint.to_owned(),
        s3_endpoint: None,
        detail: id(""),
    }
}

fn replica(name: &str, token: u8) -> GatewayReplicaRecord {
    GatewayReplicaRecord {
        gateway_replica_id: id(name),
        gateway_pool_id: id("pool-1"),
        edge_cluster_id: id("cluster-1"),
        resource_version: 1,
        state: GatewayReplicaState::Pending,
        credential: GatewayCredential {
            state: GatewayCredentialState::PendingActivation,
            activation_token_digest: ContentDigest::from_bytes([token; 32]),
        },
        control_endpoint: format!("{name}-control"),
        peer_endpoint: format!("{name}-peer"),
        bootstrap_endpoint: format!("{name}-bootstrap"),
        last_heartbeat_at_unix_ms: None,
        detail: id(""),
    }
}

fn registry() -> InMemoryGatewayRegistry {
    let mut registry = InMemoryGatewayRegistry::new();
    assert!(registry
        .insert_pool(pool("pool-1", "cluster-1", "agents-1"), Ok(()))
        .is_ok());
    assert!(registry.insert_replica(replica("replica-1", 1), Ok(())).is_ok());
    registry
}

#[test]
fn a_pool_is_inserted_once_per_cluster_and_endpoint() {
    let mut registry = registry();
    match registry.insert_pool(pool("pool-1", "cluster-1", "agents-1"), Ok(())) {
        Ok(GatewayInsertOutcome::Existing(_)) => {}
        _ => panic!("expected the stored pool"),
    }
    assert_eq!(
        code(registry.insert_pool(pool("pool-2", "cluster-1", "agents-2"), Ok(()))),
        CentralErrorCode::GatewayIdentityConflict
    );
    assert_eq!(
        code(registry.insert_pool(pool("pool-2", "cluster-2", "agents-1"), Ok(()))),
        CentralErrorCode::GatewayIdentityConflict
    );
    assert!(registry
        .insert_pool(pool("pool-2", "cluster-2", "agents-2"), Ok(()))
        .is_ok());
    let mut late = pool("pool-3", "cluster-3", "agents-3");
    late.resource_version = 2;
    assert!(registry.insert_pool(late, Ok(())).is_err());
    let invalid = CentralError::new(CentralErrorCode::ProtocolInvalid, "pool".to_owned());
    assert_eq!(
        code(registry.insert_pool(pool("pool-4", "cluster-4", "agents-4"), Err(invalid))),
        CentralErrorCode::ProtocolInvalid
    );
    assert!(registry
        .get_pool_by_edge_cluster(&id("cluster-2"))
        .is_some_and(|found| found.gateway_pool_id == id("pool-2")));
    let listed = registry.list_pools(
        &GatewayPoolListRequest {
            edge_cluster_id: None,
            state: None,
            after: Some(id("pool-1")),
            limit: 10,
        },
        Ok(()),
    );
    assert!(listed.is_ok_and(|pools| pools.len() == 1));
}

#[test]
fn a_replica_belongs_to_a_pool_of_its_cluster() {
    let mut registry = registry();
    let mut orphan = replica("replica-2", 2);
    orphan.gateway_pool_id = id("pool-9");
    assert_eq!(
        code(registry.insert_replica(orphan, Ok(()))),
        CentralErrorCode::GatewayPoolNotFound
    );
    assert_eq!(
        code(registry.insert_replica(replica("replica-2", 1), Ok(()))),
        CentralErrorCode::GatewayIdentityConflict
    );
    assert!(registry.insert_replica(replica("replica-2", 2), Ok(())).is_ok());
    assert!(registry
        .get_replica_by_activation_token_digest(&ContentDigest::from_bytes([2; 32]))
        .is_some_and(|found| found.gateway_replica_id == id("replica-2")));
    let listed = registry.list_replicas(
        &GatewayReplicaListRequest {
            gateway_pool_id: id("pool-1"),
            state: None,
            after: None,
            limit: 1,
        },
        Ok(()),
    );
    assert!(listed.is_ok_and(|replicas| replicas.len() == 1));
    let stored = replica("replica-1", 1);
    assert_eq!(
        replica_endpoints(&stored),
        ["replica-1-control", "replica-1-peer", "replica-1-bootstrap"]
    );
}

#[test]
fn replacing_asks_the_rules_of_the_stored_record() {
    let mut registry = registry();
    let mut next = pool("pool-1", "cluster-1", "agents-9");
    next.resource_version = 2;
    assert!(registry
        .replace_pool(next.clone(), |stored| {
            assert_eq!(stored.resource_version, 1);
            Ok(())
        })
        .is_ok());
    assert!(registry.get_pool(&id("pool-1")) == Some(next));
    assert_eq!(
        code(registry.replace_pool(pool("pool-9", "cluster-9", "agents-9"), |_| Ok(()))),
        CentralErrorCode::GatewayPoolNotFound
    );
    let mut moved = replica("replica-1", 1);
    moved.resource_version = 2;
    moved.state = GatewayReplicaState::Other(id("ready"));
    assert!(registry
        .replace_replica(moved.clone(), |_| Ok(()), |_, _| Ok(()))
        .is_ok());
    assert!(registry.get_replica(&id("replica-1")) == Some(moved));
    assert_eq!(
        code(registry.replace_replica(replica("replica-9", 9), |_| Ok(()), |_, _| Ok(()))),
        CentralErrorCode::GatewayReplicaNotFound
    );
}

fn lease(request: &str) -> AgentRouteLease {
    AgentRouteLease {
        agent_id: id("agent-1"),
        edge_cluster_id: id("cluster-1"),
        gateway_pool_id: id("pool-1"),
        gateway_replica_id: id("replica-1"),
        connection_id: id("connection-1"),
        session_generation: 1,
        acquire_request_id: id(request),
        last_renew_request_id: None,
        release_request_id: None,
        detail: id(""),
    }
}

fn acquire_request(agent: &str, request: &str) -> AcquireAgentRouteLeaseRequest {
    AcquireAgentRouteLeaseRequest {
        agent_id: id(agent),
        edge_cluster_id: id("cluster-1"),
        gateway_pool_id: id("pool-1"),
        gateway_replica_id: id("replica-1"),
        connection_id: id("connection-1"),
        request_id: id(request),
        acquired_at_unix_ms: 10,
    }
}

fn digest(byte: u8) -> ContentDigest {
    ContentDigest::from_bytes([byte; 32])
}

/// A registry with an enrollment for each Agent, each on a Volume of its own.
fn agents(numbers: &[u8]) -> InMemoryAgentRegistry {
    let mut registry = InMemoryAgentRegistry::new();
    for number in numbers {
        let request = AgentEnrollmentTokenCreateRequest {
            token_id: id(&format!("token-{number}")),
            token_request_id: id(&format!("token-request-{number}")),
            enrollment_id: id(&format!("enrollment-{number}")),
            tenant_id: id("tenant-1"),
            edge_cluster_id: id("cluster-1"),
            storage_volume_id: id(&format!("volume-{number}")),
            volume_descriptor_digest: digest(50),
            pvc_identity_digest: digest(50 + number),
            agent_id: id(&format!("agent-{number}")),
            agent_mount_id: id(&format!("mount-{number}")),
            bootstrap_token_digest: digest(*number),
            created_at_unix_ms: 10,
            expires_at_unix_ms: 1_000,
            expected_volume_marker: id(&format!("volume-{number}")),
            desired_access_mode: MountAccessMode::ReadWrite,
            extensions: id(""),
        };
        let intent = plan_token_intent(request, &None, &None, &None)
            .unwrap_or_else(|error| panic!("{}", error.display()));
        assert!(registry.insert_or_load(intent, None).is_ok());
    }
    registry
}

#[test]
fn a_route_is_acquired_renewed_and_released() {
    let mut registry = registry();
    let agents = agents(&[1]);
    let acquired = registry.acquire_agent_route(
        &agents,
        &acquire_request("agent-1", "acquire-1"),
        |record| {
            assert!(record.enrollment.enrollment_id == id("enrollment-1"));
            Ok(())
        },
        |_, _| Ok(()),
        |current| {
            assert!(current.is_none());
            Ok(AgentRouteLeaseAcquireOutcome {
                lease: lease("acquire-1"),
                replayed: false,
            })
        },
    );
    assert!(acquired.is_ok_and(|outcome| outcome.lease == lease("acquire-1")));
    assert!(registry.get_agent_route(&id("agent-1")) == Some(lease("acquire-1")));
    let renewed = registry.renew_agent_route(
        &agents,
        &id("agent-1"),
        &id("renew-1"),
        |_| Ok(()),
        |_, _| Ok(()),
        |current| {
            let mut next = current.clone();
            next.last_renew_request_id = Some(id("renew-1"));
            Ok(AgentRouteLeaseMutationOutcome {
                lease: next,
                replayed: false,
            })
        },
    );
    assert!(renewed.is_ok());
    let listed = registry.list_agent_routes(
        &AgentRouteLeaseListRequest {
            gateway_pool_id: id("pool-1"),
            gateway_replica_id: None,
            after: None,
            limit: 10,
        },
        Ok(()),
        |lease| lease.release_request_id.is_none(),
    );
    assert!(listed.is_ok_and(|routes| routes.len() == 1));
    let released = registry.release_agent_route(
        &agents,
        &id("agent-1"),
        &id("release-1"),
        |_| Ok(()),
        |current| {
            let mut next = current.clone();
            next.release_request_id = Some(id("release-1"));
            Ok(AgentRouteLeaseMutationOutcome {
                lease: next,
                replayed: false,
            })
        },
    );
    assert!(released.is_ok());
    assert!(registry
        .get_agent_route(&id("agent-1"))
        .is_some_and(|route| route.release_request_id == Some(id("release-1"))));
}

#[test]
fn a_route_needs_an_agent_and_a_connection_of_its_own() {
    let mut registry = registry();
    let known = agents(&[1, 2, 9]);
    let take = |registry: &mut InMemoryGatewayRegistry,
                agents: &InMemoryAgentRegistry,
                agent: &'static str,
                request: &'static str| {
        registry.acquire_agent_route(
            agents,
            &acquire_request(agent, request),
            |_| Ok(()),
            |_, _| Ok(()),
            move |_| {
                let mut taken = lease(request);
                taken.agent_id = id(agent);
                Ok(AgentRouteLeaseAcquireOutcome {
                    lease: taken,
                    replayed: false,
                })
            },
        )
    };
    let renew = |registry: &mut InMemoryGatewayRegistry, agent: &str, known_agents: &[u8]| {
        registry.renew_agent_route(
            &agents(known_agents),
            &id(agent),
            &id("renew-1"),
            |_| Ok(()),
            |_, _| Ok(()),
            |current| {
                Ok(AgentRouteLeaseMutationOutcome {
                    lease: current.clone(),
                    replayed: false,
                })
            },
        )
    };
    let unknown = take(&mut registry, &agents(&[]), "agent-1", "acquire-1");
    let missing = unknown.err().unwrap_or_else(|| panic!("expected a failure"));
    assert!(take(&mut registry, &known, "agent-1", "acquire-1").is_ok());
    assert_eq!(
        code(take(&mut registry, &known, "agent-2", "acquire-2")),
        CentralErrorCode::GatewayIdentityConflict
    );
    assert_eq!(code(renew(&mut registry, "agent-1", &[])), missing.code());
    assert_eq!(
        code(renew(&mut registry, "agent-9", &[9])),
        CentralErrorCode::GatewayRouteUnavailable
    );
    assert!(renew(&mut registry, "agent-1", &[1]).is_ok());
}
