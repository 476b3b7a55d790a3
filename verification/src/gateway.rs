//! Gateways between Agents and the control plane: pools, their replicas and the routes of Agents.
//!
//! What a record keeps beyond the fields that the registry compares is carried as one opaque text.
use vstd::prelude::*;

use crate::digest::ContentDigest;
use crate::equality::Same;
use crate::error::{
    failure, fault, final_failure, final_fault, CentralError, CentralErrorCode, Fault,
};
use crate::identifier::{
    AgentId, EdgeClusterId, Identifier, OpaqueText, RequestId, ResourceVersion, SessionGeneration,
    UnixMillis,
};
use crate::table::Replicate;
use crate::text::text_equals;

verus! {

pub type GatewayPoolId = Identifier;

pub type GatewayReplicaId = Identifier;

pub type GatewayConnectionId = Identifier;

/// Lifecycle of a pool. Only the states in which it takes no new replica matter here.
#[derive(Debug, Eq)]
pub enum GatewayPoolState {
    Draining,
    Disabled,
    Other(OpaqueText),
}

impl PartialEq for GatewayPoolState {
    fn eq(&self, other: &Self) -> (equal: bool) {
        match (self, other) {
            (Self::Draining, Self::Draining) => true,
            (Self::Disabled, Self::Disabled) => true,
            (Self::Other(value), Self::Other(other_value)) => *value == *other_value,
            _ => false,
        }
    }
}

impl Same for GatewayPoolState {
    open spec fn same(self, other: Self) -> bool {
        match (self, other) {
            (Self::Draining, Self::Draining) => true,
            (Self::Disabled, Self::Disabled) => true,
            (Self::Other(value), Self::Other(other_value)) => value.same(other_value),
            _ => false,
        }
    }
}

impl vstd::std_specs::cmp::PartialEqSpecImpl for GatewayPoolState {
    open spec fn obeys_eq_spec() -> bool {
        true
    }

    open spec fn eq_spec(&self, other: &Self) -> bool {
        self.same(*other)
    }
}

impl Clone for GatewayPoolState {
    fn clone(&self) -> (copy: Self)
        ensures
            copy.same(*self),
            copy == *self,
    {
        match self {
            Self::Draining => Self::Draining,
            Self::Disabled => Self::Disabled,
            Self::Other(value) => Self::Other(value.clone()),
        }
    }
}

/// Lifecycle of a replica. Only its first state matters here.
#[derive(Debug, Eq)]
pub enum GatewayReplicaState {
    Pending,
    Other(OpaqueText),
}

impl PartialEq for GatewayReplicaState {
    fn eq(&self, other: &Self) -> (equal: bool) {
        match (self, other) {
            (Self::Pending, Self::Pending) => true,
            (Self::Other(value), Self::Other(other_value)) => *value == *other_value,
            _ => false,
        }
    }
}

impl Same for GatewayReplicaState {
    open spec fn same(self, other: Self) -> bool {
        match (self, other) {
            (Self::Pending, Self::Pending) => true,
            (Self::Other(value), Self::Other(other_value)) => value.same(other_value),
            _ => false,
        }
    }
}

impl vstd::std_specs::cmp::PartialEqSpecImpl for GatewayReplicaState {
    open spec fn obeys_eq_spec() -> bool {
        true
    }

    open spec fn eq_spec(&self, other: &Self) -> bool {
        self.same(*other)
    }
}

impl Clone for GatewayReplicaState {
    fn clone(&self) -> (copy: Self)
        ensures
            copy.same(*self),
            copy == *self,
    {
        match self {
            Self::Pending => Self::Pending,
            Self::Other(value) => Self::Other(value.clone()),
        }
    }
}

/// Lifecycle of a credential. Only its first state matters here.
#[derive(Debug, Eq)]
pub enum GatewayCredentialState {
    PendingActivation,
    Other(OpaqueText),
}

impl PartialEq for GatewayCredentialState {
    fn eq(&self, other: &Self) -> (equal: bool) {
        match (self, other) {
            (Self::PendingActivation, Self::PendingActivation) => true,
            (Self::Other(value), Self::Other(other_value)) => *value == *other_value,
            _ => false,
        }
    }
}

impl Same for GatewayCredentialState {
    open spec fn same(self, other: Self) -> bool {
        match (self, other) {
            (Self::PendingActivation, Self::PendingActivation) => true,
            (Self::Other(value), Self::Other(other_value)) => value.same(other_value),
            _ => false,
        }
    }
}

impl vstd::std_specs::cmp::PartialEqSpecImpl for GatewayCredentialState {
    open spec fn obeys_eq_spec() -> bool {
        true
    }

    open spec fn eq_spec(&self, other: &Self) -> bool {
        self.same(*other)
    }
}

impl Clone for GatewayCredentialState {
    fn clone(&self) -> (copy: Self)
        ensures
            copy.same(*self),
            copy == *self,
    {
        match self {
            Self::PendingActivation => Self::PendingActivation,
            Self::Other(value) => Self::Other(value.clone()),
        }
    }
}

/// The Gateways of one EdgeCluster.
#[derive(Debug, Eq)]
pub struct GatewayPoolRecord {
    pub gateway_pool_id: GatewayPoolId,
    pub edge_cluster_id: EdgeClusterId,
    pub resource_version: ResourceVersion,
    pub config_generation: u64,
    pub state: GatewayPoolState,
    pub agent_endpoint: String,
    pub s3_endpoint: Option<OpaqueText>,
    pub detail: OpaqueText,
}

impl PartialEq for GatewayPoolRecord {
    fn eq(&self, other: &Self) -> (equal: bool) {
        self.gateway_pool_id == other.gateway_pool_id
            && self.edge_cluster_id == other.edge_cluster_id
            && self.resource_version == other.resource_version
            && self.config_generation == other.config_generation
            && self.state == other.state
            && text_equals(self.agent_endpoint.as_str(), other.agent_endpoint.as_str())
            && self.s3_endpoint == other.s3_endpoint
            && self.detail == other.detail
    }
}

impl Same for GatewayPoolRecord {
    open spec fn same(self, other: Self) -> bool {
        &&& self.gateway_pool_id.same(other.gateway_pool_id)
        &&& self.edge_cluster_id.same(other.edge_cluster_id)
        &&& self.resource_version == other.resource_version
        &&& self.config_generation == other.config_generation
        &&& self.state.same(other.state)
        &&& self.agent_endpoint@ == other.agent_endpoint@
        &&& self.s3_endpoint.same(other.s3_endpoint)
        &&& self.detail.same(other.detail)
    }
}

impl vstd::std_specs::cmp::PartialEqSpecImpl for GatewayPoolRecord {
    open spec fn obeys_eq_spec() -> bool {
        true
    }

    open spec fn eq_spec(&self, other: &Self) -> bool {
        self.same(*other)
    }
}

impl Clone for GatewayPoolRecord {
    fn clone(&self) -> (copy: Self)
        ensures
            copy.same(*self),
            copy == *self,
    {
        Self {
            gateway_pool_id: self.gateway_pool_id.clone(),
            edge_cluster_id: self.edge_cluster_id.clone(),
            resource_version: self.resource_version,
            config_generation: self.config_generation,
            state: self.state.clone(),
            agent_endpoint: self.agent_endpoint.clone(),
            s3_endpoint: self.s3_endpoint.clone(),
            detail: self.detail.clone(),
        }
    }
}

impl Replicate for GatewayPoolRecord {
    fn replica(&self) -> (copy: Self) {
        self.clone()
    }
}

/// How a replica proves who it is.
#[derive(Debug, Eq)]
pub struct GatewayCredential {
    pub state: GatewayCredentialState,
    pub activation_token_digest: ContentDigest,
}

impl PartialEq for GatewayCredential {
    fn eq(&self, other: &Self) -> (equal: bool) {
        self.state == other.state
            && self.activation_token_digest == other.activation_token_digest
    }
}

impl Same for GatewayCredential {
    open spec fn same(self, other: Self) -> bool {
        &&& self.state.same(other.state)
        &&& self.activation_token_digest == other.activation_token_digest
    }
}

impl vstd::std_specs::cmp::PartialEqSpecImpl for GatewayCredential {
    open spec fn obeys_eq_spec() -> bool {
        true
    }

    open spec fn eq_spec(&self, other: &Self) -> bool {
        self.same(*other)
    }
}

impl Clone for GatewayCredential {
    fn clone(&self) -> (copy: Self)
        ensures
            copy.same(*self),
            copy == *self,
    {
        Self {
            state: self.state.clone(),
            activation_token_digest: self.activation_token_digest,
        }
    }
}

/// One Gateway process.
#[derive(Debug, Eq)]
pub struct GatewayReplicaRecord {
    pub gateway_replica_id: GatewayReplicaId,
    pub gateway_pool_id: GatewayPoolId,
    pub edge_cluster_id: EdgeClusterId,
    pub resource_version: ResourceVersion,
    pub state: GatewayReplicaState,
    pub credential: GatewayCredential,
    pub control_endpoint: String,
    pub peer_endpoint: String,
    pub bootstrap_endpoint: String,
    pub last_heartbeat_at_unix_ms: Option<UnixMillis>,
    pub detail: OpaqueText,
}

impl PartialEq for GatewayReplicaRecord {
    fn eq(&self, other: &Self) -> (equal: bool) {
        self.gateway_replica_id == other.gateway_replica_id
            && self.gateway_pool_id == other.gateway_pool_id
            && self.edge_cluster_id == other.edge_cluster_id
            && self.resource_version == other.resource_version
            && self.state == other.state
            && self.credential == other.credential
            && text_equals(self.control_endpoint.as_str(), other.control_endpoint.as_str())
            && text_equals(self.peer_endpoint.as_str(), other.peer_endpoint.as_str())
            && text_equals(self.bootstrap_endpoint.as_str(), other.bootstrap_endpoint.as_str())
            && self.last_heartbeat_at_unix_ms == other.last_heartbeat_at_unix_ms
            && self.detail == other.detail
    }
}

impl Same for GatewayReplicaRecord {
    open spec fn same(self, other: Self) -> bool {
        &&& self.gateway_replica_id.same(other.gateway_replica_id)
        &&& self.gateway_pool_id.same(other.gateway_pool_id)
        &&& self.edge_cluster_id.same(other.edge_cluster_id)
        &&& self.resource_version == other.resource_version
        &&& self.state.same(other.state)
        &&& self.credential.same(other.credential)
        &&& self.control_endpoint@ == other.control_endpoint@
        &&& self.peer_endpoint@ == other.peer_endpoint@
        &&& self.bootstrap_endpoint@ == other.bootstrap_endpoint@
        &&& self.last_heartbeat_at_unix_ms == other.last_heartbeat_at_unix_ms
        &&& self.detail.same(other.detail)
    }
}

impl vstd::std_specs::cmp::PartialEqSpecImpl for GatewayReplicaRecord {
    open spec fn obeys_eq_spec() -> bool {
        true
    }

    open spec fn eq_spec(&self, other: &Self) -> bool {
        self.same(*other)
    }
}

impl Clone for GatewayReplicaRecord {
    fn clone(&self) -> (copy: Self)
        ensures
            copy.same(*self),
            copy == *self,
    {
        Self {
            gateway_replica_id: self.gateway_replica_id.clone(),
            gateway_pool_id: self.gateway_pool_id.clone(),
            edge_cluster_id: self.edge_cluster_id.clone(),
            resource_version: self.resource_version,
            state: self.state.clone(),
            credential: self.credential.clone(),
            control_endpoint: self.control_endpoint.clone(),
            peer_endpoint: self.peer_endpoint.clone(),
            bootstrap_endpoint: self.bootstrap_endpoint.clone(),
            last_heartbeat_at_unix_ms: self.last_heartbeat_at_unix_ms,
            detail: self.detail.clone(),
        }
    }
}

impl Replicate for GatewayReplicaRecord {
    fn replica(&self) -> (copy: Self) {
        self.clone()
    }
}

/// The replica through which an Agent is reached, for a while.
#[derive(Debug, Eq)]
pub struct AgentRouteLease {
    pub agent_id: AgentId,
    pub edge_cluster_id: EdgeClusterId,
    pub gateway_pool_id: GatewayPoolId,
    pub gateway_replica_id: GatewayReplicaId,
    pub connection_id: GatewayConnectionId,
    pub session_generation: SessionGeneration,
    pub acquire_request_id: RequestId,
    pub last_renew_request_id: Option<RequestId>,
    pub release_request_id: Option<RequestId>,
    pub detail: OpaqueText,
}

impl PartialEq for AgentRouteLease {
    fn eq(&self, other: &Self) -> (equal: bool) {
        self.agent_id == other.agent_id
            && self.edge_cluster_id == other.edge_cluster_id
            && self.gateway_pool_id == other.gateway_pool_id
            && self.gateway_replica_id == other.gateway_replica_id
            && self.connection_id == other.connection_id
            && self.session_generation == other.session_generation
            && self.acquire_request_id == other.acquire_request_id
            && self.last_renew_request_id == other.last_renew_request_id
            && self.release_request_id == other.release_request_id
            && self.detail == other.detail
    }
}

impl Same for AgentRouteLease {
    open spec fn same(self, other: Self) -> bool {
        &&& self.agent_id.same(other.agent_id)
        &&& self.edge_cluster_id.same(other.edge_cluster_id)
        &&& self.gateway_pool_id.same(other.gateway_pool_id)
        &&& self.gateway_replica_id.same(other.gateway_replica_id)
        &&& self.connection_id.same(other.connection_id)
        &&& self.session_generation == other.session_generation
        &&& self.acquire_request_id.same(other.acquire_request_id)
        &&& self.last_renew_request_id.same(other.last_renew_request_id)
        &&& self.release_request_id.same(other.release_request_id)
        &&& self.detail.same(other.detail)
    }
}

impl vstd::std_specs::cmp::PartialEqSpecImpl for AgentRouteLease {
    open spec fn obeys_eq_spec() -> bool {
        true
    }

    open spec fn eq_spec(&self, other: &Self) -> bool {
        self.same(*other)
    }
}

impl Clone for AgentRouteLease {
    fn clone(&self) -> (copy: Self)
        ensures
            copy.same(*self),
            copy == *self,
    {
        Self {
            agent_id: self.agent_id.clone(),
            edge_cluster_id: self.edge_cluster_id.clone(),
            gateway_pool_id: self.gateway_pool_id.clone(),
            gateway_replica_id: self.gateway_replica_id.clone(),
            connection_id: self.connection_id.clone(),
            session_generation: self.session_generation,
            acquire_request_id: self.acquire_request_id.clone(),
            last_renew_request_id: self.last_renew_request_id.clone(),
            release_request_id: self.release_request_id.clone(),
            detail: self.detail.clone(),
        }
    }
}

impl Replicate for AgentRouteLease {
    fn replica(&self) -> (copy: Self) {
        self.clone()
    }
}

/// What an insert found.
pub enum GatewayInsertOutcome<T> {
    Inserted(T),
    Existing(T),
}

/// Asks for the route of an Agent.
pub struct AcquireAgentRouteLeaseRequest {
    pub agent_id: AgentId,
    pub edge_cluster_id: EdgeClusterId,
    pub gateway_pool_id: GatewayPoolId,
    pub gateway_replica_id: GatewayReplicaId,
    pub connection_id: GatewayConnectionId,
    pub request_id: RequestId,
    pub acquired_at_unix_ms: UnixMillis,
}

/// A route that was acquired, or recognised as acquired before.
pub struct AgentRouteLeaseAcquireOutcome {
    pub lease: AgentRouteLease,
    pub replayed: bool,
}

/// A route that was renewed or released, or recognised as such.
pub struct AgentRouteLeaseMutationOutcome {
    pub lease: AgentRouteLease,
    pub replayed: bool,
}

/// A pool that is not there.
pub open spec fn pool_missing() -> Fault {
    final_fault(CentralErrorCode::GatewayPoolNotFound, "GatewayPool does not exist"@)
}

pub fn pool_not_found() -> (failure: CentralError)
    ensures
        failure@ == pool_missing(),
{
    final_failure(CentralErrorCode::GatewayPoolNotFound, "GatewayPool does not exist")
}

/// A replica that is not there.
pub open spec fn replica_missing() -> Fault {
    final_fault(CentralErrorCode::GatewayReplicaNotFound, "GatewayReplica does not exist"@)
}

pub fn replica_not_found() -> (failure: CentralError)
    ensures
        failure@ == replica_missing(),
{
    final_failure(CentralErrorCode::GatewayReplicaNotFound, "GatewayReplica does not exist")
}

/// An Agent that is not registered.
pub open spec fn agent_missing() -> Fault {
    final_fault(
        CentralErrorCode::GatewayRouteUnavailable,
        "Agent route requires a registered Agent"@,
    )
}

pub fn agent_not_found() -> (failure: CentralError)
    ensures
        failure@ == agent_missing(),
{
    final_failure(
        CentralErrorCode::GatewayRouteUnavailable,
        "Agent route requires a registered Agent",
    )
}

/// A route that is not there.
pub open spec fn route_missing() -> Fault {
    fault(CentralErrorCode::GatewayRouteUnavailable, "Agent route lease does not exist"@)
}

pub fn route_not_found() -> (problem: CentralError)
    ensures
        problem@ == route_missing(),
{
    failure(CentralErrorCode::GatewayRouteUnavailable, "Agent route lease does not exist")
}

/// A record that may not be stored as it is.
pub open spec fn invalid_fault(message: Seq<char>) -> Fault {
    final_fault(CentralErrorCode::InvalidState, message)
}

pub fn invalid(message: &str) -> (failure: CentralError)
    ensures
        failure@ == invalid_fault(message@),
{
    final_failure(CentralErrorCode::InvalidState, message)
}

/// A record that claims an identity which another one has.
pub open spec fn identity_fault(message: Seq<char>) -> Fault {
    final_fault(CentralErrorCode::GatewayIdentityConflict, message)
}

pub fn identity_conflict(message: &str) -> (failure: CentralError)
    ensures
        failure@ == identity_fault(message@),
{
    final_failure(CentralErrorCode::GatewayIdentityConflict, message)
}

/// The endpoints of a replica.
pub open spec fn endpoints(record: GatewayReplicaRecord) -> Seq<Seq<char>> {
    seq![record.control_endpoint@, record.peer_endpoint@, record.bootstrap_endpoint@]
}

pub fn replica_endpoints(record: &GatewayReplicaRecord) -> (texts: [&str; 3])
    ensures
        texts@.len() == 3,
        forall|i: int| 0 <= i < 3 ==> (#[trigger] texts@[i])@ == endpoints(*record)[i],
{
    [
        record.control_endpoint.as_str(),
        record.peer_endpoint.as_str(),
        record.bootstrap_endpoint.as_str(),
    ]
}

/// Two pools share an endpoint.
pub open spec fn pools_clash(left: GatewayPoolRecord, right: GatewayPoolRecord) -> bool {
    ||| left.agent_endpoint@ == right.agent_endpoint@
    ||| left.s3_endpoint is Some && left.s3_endpoint.same(right.s3_endpoint)
}

pub(crate) fn pools_share_endpoint(left: &GatewayPoolRecord, right: &GatewayPoolRecord) -> (shared:
    bool)
    ensures
        shared == pools_clash(*left, *right),
{
    text_equals(left.agent_endpoint.as_str(), right.agent_endpoint.as_str()) || (
    left.s3_endpoint.is_some() && left.s3_endpoint == right.s3_endpoint)
}

/// Two replicas share an endpoint or an activation token.
pub open spec fn replicas_clash(left: GatewayReplicaRecord, right: GatewayReplicaRecord) -> bool {
    ||| exists|i: int, j: int|
        0 <= i < 3 && 0 <= j < 3 && #[trigger] endpoints(left)[i] == #[trigger] endpoints(right)[j]
    ||| left.credential.activation_token_digest == right.credential.activation_token_digest
}

pub(crate) fn replicas_share_identity(
    left: &GatewayReplicaRecord,
    right: &GatewayReplicaRecord,
) -> (shared: bool)
    ensures
        shared == replicas_clash(*left, *right),
{
    if left.credential.activation_token_digest == right.credential.activation_token_digest {
        return true;
    }
    let own = replica_endpoints(left);
    let others = replica_endpoints(right);
    let mut i: usize = 0;
    while i < 3
        invariant
            i <= 3,
            own@.len() == 3,
            others@.len() == 3,
            forall|k: int| 0 <= k < 3 ==> (#[trigger] own@[k])@ == endpoints(*left)[k],
            forall|k: int| 0 <= k < 3 ==> (#[trigger] others@[k])@ == endpoints(*right)[k],
            forall|k: int, l: int|
                0 <= k < i && 0 <= l < 3 ==> #[trigger] endpoints(*left)[k]
                    != #[trigger] endpoints(*right)[l],
        decreases 3 - i,
    {
        let mut j: usize = 0;
        while j < 3
            invariant
                i < 3,
                j <= 3,
                own@.len() == 3,
                others@.len() == 3,
                forall|k: int| 0 <= k < 3 ==> (#[trigger] own@[k])@ == endpoints(*left)[k],
                forall|k: int| 0 <= k < 3 ==> (#[trigger] others@[k])@ == endpoints(*right)[k],
                forall|l: int|
                    0 <= l < j ==> endpoints(*left)[i as int] != #[trigger] endpoints(*right)[l],
            decreases 3 - j,
        {
            if text_equals(own[i], others[j]) {
                assert(endpoints(*left)[i as int] == endpoints(*right)[j as int]);
                return true;
            }
            j += 1;
        }
        i += 1;
    }
    false
}

/// A request belongs to the route of an Agent.
pub open spec fn route_knows_request(lease: AgentRouteLease, request_id: Seq<char>) -> bool {
    ||| lease.acquire_request_id@ == request_id
    ||| lease.last_renew_request_id matches Some(id) && id@ == request_id
    ||| lease.release_request_id matches Some(id) && id@ == request_id
}

pub(crate) fn knows_request(lease: &AgentRouteLease, request_id: &RequestId) -> (known: bool)
    ensures
        known == route_knows_request(*lease, request_id@),
{
    lease.acquire_request_id == *request_id || match &lease.last_renew_request_id {
        Some(id) => *id == *request_id,
        None => false,
    } || match &lease.release_request_id {
        Some(id) => *id == *request_id,
        None => false,
    }
}

} // verus!
