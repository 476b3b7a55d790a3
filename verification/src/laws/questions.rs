//! The small questions that the operations decide by, each answered by what the records say.
use vstd::prelude::*;
use vstd::utf8::*;

use crate::agent_registry::decision::validate_replacement_scope;
use crate::agent_registry::records::{AgentInstanceRecord, AgentRegistryRecord};
use crate::catalog::records::{
    ArtifactHeadExpectation, ArtifactRecord, PlaygroundRecord, SnapshotRecord, StorageVolumeRecord,
    TenantRecord,
};
use crate::catalog::rules::{
    artifact_matches, playground_create_matches, playground_matches_insert,
    snapshot_request_matches, tenant_create_matches, volume_matches,
};
use crate::control_plane::create::{audit_event, authorization_request, query_authorization};
use crate::control_plane::expiry::expiry_result;
use crate::control_plane::finalize::finalization_result;
use crate::control_plane::message::bounded_control_error_message;
use crate::control_plane::report::{validate_report_identity, validate_terminal_state};
use crate::control_plane::staging::validate_descriptor_scope;
use crate::equality::Same;
use crate::error::{CentralError, CentralErrorCode, CentralResult};
use crate::gateway::{replica_endpoints, GatewayReplicaRecord};
use crate::identifier::{
    AgentId, AssignmentGeneration, AssignmentId, JobId, PlacementGeneration, PrincipalRef, TenantId,
    UnixMillis,
};
use crate::laws::catalog_changes::{
    begins_the_same, claims_the_same, exports_the_same, says_the_same,
};
use crate::laws::jobs::fails_with;
use crate::laws::transitions::{share_a_volume, stays};
use crate::memory::jobs::{mapper_recovery_predicate, pending_decision_for_agent};
use crate::memory::objects::{evidence_answers, validate_placement_generation, PlacementQuery};
use crate::model::{
    Action, Actor, AddJobSpec, AuditEvent, AuditKind, AuthorizationRequest, ExpireAddJobResult,
    FinalizeAddResult, IndexPublishRequest, JobRecord,
};
use crate::precommit::{precommit_is_active, PreCommitRecord};
use crate::protocol::{AddAssignment, JobState, MetadataBatchDescriptor, ObjectPlacementEvidence};
use crate::publication::{resolve_stored_publication, validate_publication_scope};
use crate::text::text_is_blank;

verus! {

/// A Pre-commit is active while it runs, while it is ready and while it is abnormal: it ends only by
/// being cancelled or committed.
pub proof fn lemma_precommit_is_active_until_it_ends(record: &PreCommitRecord, active: bool)
    requires
        call_ensures(precommit_is_active, (record,), active),
    ensures
        record.state is Running ==> active,
        record.state is Ready ==> active,
        record.state is Abnormal ==> active,
        record.state is Cancelled || record.state is Committed ==> !active,
{
}

/// A job waits for its Agent: it was assigned or accepted, or it runs.
pub open spec fn waits_for_its_agent(job: JobRecord) -> bool {
    job.state is Assigned || job.state is Accepted || job.state is Running
}

/// A job that makes a workspace or mounts a Snapshot is recovered until it ends. An add is recovered
/// where the control plane has the next step: queued, prepared or publishing, or past its deadline
/// while its Agent has it or is to cancel it.
pub proof fn lemma_job_is_recovered(job: &JobRecord, now: UnixMillis, recoverable: bool)
    requires
        call_ensures(mapper_recovery_predicate, (job, now), recoverable),
    ensures
        job.operation is WorkspaceMaterialize || job.operation is SnapshotMount ==> (recoverable
            <==> job.state is Queued || waits_for_its_agent(*job)),
        !(job.operation is WorkspaceMaterialize || job.operation is SnapshotMount) ==> (recoverable
            <==> {
            ||| job.state is Queued
            ||| job.state is Prepared
            ||| job.state is Publishing
            ||| now >= job.spec.deadline_unix_ms && waits_for_its_agent(*job)
            ||| now >= job.spec.deadline_unix_ms && job.state is CancelRequested
        }),
{
}

/// A decision is pending for the Agent of the assignment until that Agent acknowledged the end.
pub proof fn lemma_decision_is_pending(job: &JobRecord, agent_id: &AgentId, pending: bool)
    requires
        call_ensures(pending_decision_for_agent, (job, agent_id), pending),
    ensures
        pending <==> {
            &&& job.decision is Some
            &&& job.finalized_ack is None
            &&& job.assignment is Some
            &&& job.assignment->0.agent_id@ == agent_id@
        },
{
}

/// A report belongs to an assignment where it names its job, its identity and its generation.
pub proof fn lemma_report_belongs(
    assignment: &AddAssignment,
    job_id: &JobId,
    assignment_id: &AssignmentId,
    generation: AssignmentGeneration,
    result: CentralResult<()>,
)
    requires
        call_ensures(
            validate_report_identity,
            (assignment, job_id, assignment_id, generation),
            result,
        ),
    ensures
        result is Ok <==> {
            &&& job_id@ == assignment.job_id@
            &&& assignment_id@ == assignment.assignment_id@
            &&& generation == assignment.assignment_generation
        },
        job_id@ != assignment.job_id@ || assignment_id@ != assignment.assignment_id@ ==> fails_with(
            result,
            CentralErrorCode::AssignmentMismatch,
        ),
        job_id@ == assignment.job_id@ && assignment_id@ == assignment.assignment_id@ && result is Err
            ==> fails_with(result, CentralErrorCode::GenerationMismatch),
{
}

/// An Agent may give a job up as rejected, failed, cancelled or timed out, and in no other state.
pub proof fn lemma_agent_gives_up(state: JobState, result: CentralResult<()>)
    requires
        call_ensures(validate_terminal_state, (state,), result),
    ensures
        result is Ok <==> {
            ||| state is Rejected
            ||| state is Failed
            ||| state is Cancelled
            ||| state is TimedOut
        },
        result is Err ==> fails_with(result, CentralErrorCode::InvalidState),
{
}

/// A metadata batch belongs to an assignment where tenant, Artifact, Playground and job are its own.
pub proof fn lemma_batch_belongs(
    assignment: &AddAssignment,
    descriptor: &MetadataBatchDescriptor,
    result: CentralResult<()>,
)
    requires
        call_ensures(validate_descriptor_scope, (assignment, descriptor), result),
    ensures
        result is Ok <==> {
            &&& descriptor.scope.tenant_id@ == assignment.tenant_id@
            &&& descriptor.scope.artifact_id@ == assignment.artifact_id@
            &&& descriptor.scope.playground_id@ == assignment.playground_id@
            &&& descriptor.scope.job_id@ == assignment.job_id@
        },
        result is Err ==> fails_with(result, CentralErrorCode::AssignmentMismatch),
{
}

/// What a job asks for permission for is its own tenant, Artifact, Playground and identity.
pub proof fn lemma_permission_is_asked_for_the_job(
    actor: Actor,
    action: Action,
    spec: &AddJobSpec,
    request: AuthorizationRequest,
)
    requires
        call_ensures(authorization_request, (actor, action, spec), request),
    ensures
        request.actor == actor,
        request.action == action,
        request.tenant_id@ == spec.tenant_id@,
        request.artifact_id@ == spec.artifact_id@,
        request.playground_id@ == spec.playground_id@,
        request.job_id@ == spec.job_id@,
{
}

/// A query asks permission for the principal, to query the job of the tenant.
pub proof fn lemma_query_asks_permission(
    actor: PrincipalRef,
    tenant_id: &TenantId,
    job_id: &JobId,
    request: AuthorizationRequest,
)
    requires
        call_ensures(query_authorization, (actor, tenant_id, job_id), request),
    ensures
        request.actor == Actor::Principal(actor),
        request.action is QueryJob,
        request.tenant_id@ == tenant_id@,
        request.job_id@ == job_id@,
{
}

/// An audit event tells of the job, the state that it is in and the time; two events of one version
/// and one suffix are the same one.
pub proof fn lemma_event_tells_of_the_job(
    job: &JobRecord,
    kind: AuditKind,
    other_kind: AuditKind,
    suffix: &str,
    now: UnixMillis,
    later: UnixMillis,
    event: AuditEvent,
    again: AuditEvent,
)
    requires
        call_ensures(audit_event, (job, kind, suffix, now), event),
        call_ensures(audit_event, (job, other_kind, suffix, later), again),
    ensures
        event.kind == kind,
        event.state == job.state,
        event.occurred_at_unix_ms == now,
        event.job_key.tenant_id@ == job.spec.tenant_id@,
        event.job_key.job_id@ == job.spec.job_id@,
        again.event_id@ == event.event_id@,
{
}

/// What expiring or finalizing a job answers is what the job holds then.
pub proof fn lemma_answer_is_what_the_job_holds(
    job: JobRecord,
    replayed: bool,
    expired: ExpireAddJobResult,
    finalized: Option<FinalizeAddResult>,
)
    requires
        call_ensures(expiry_result, (job, replayed), expired),
        call_ensures(finalization_result, (job, replayed), finalized),
    ensures
        expired.job == job,
        expired.decision == job.decision,
        expired.finalized == job.finalized,
        expired.replayed == replayed,
        finalized is Some <==> job.decision is Some && job.finalized is Some,
        finalized matches Some(answer) ==> {
            &&& answer.job == job
            &&& Some(answer.decision) == job.decision
            &&& Some(answer.finalized) == job.finalized
            &&& answer.replayed == replayed
        },
{
}

/// A message that is not blank and has at most 4096 bytes is kept as it is; any other is replaced by
/// one that is neither blank nor longer.
pub proof fn lemma_message_is_bounded(
    message: String,
    text: &str,
    blank: bool,
    bounded: String,
    read: &str,
    still_blank: bool,
)
    requires
        call_ensures(bounded_control_error_message, (message,), bounded),
        call_ensures(text_is_blank, (text,), blank),
        text@ == message@,
        call_ensures(text_is_blank, (read,), still_blank),
        read@ == bounded@,
    ensures
        !blank && encode_utf8(message@).len() <= 4096 ==> bounded@ == message@,
        !still_blank,
        encode_utf8(bounded@).len() <= 4096,
{
}

/// A publication is of one tenant; one that its job made before must have asked for the same.
pub proof fn lemma_publication_is_of_one_tenant(
    stored: &IndexPublishRequest,
    request: &IndexPublishRequest,
    scope: CentralResult<()>,
    replay: CentralResult<()>,
)
    requires
        call_ensures(validate_publication_scope, (request,), scope),
        call_ensures(resolve_stored_publication, (stored, request), replay),
    ensures
        scope is Ok <==> request.job_key.tenant_id@ == request.index_key.tenant_id@,
        scope is Err ==> fails_with(scope, CentralErrorCode::MetadataInvalid),
        stored.same(*request) <==> replay is Ok,
        replay is Err ==> fails_with(replay, CentralErrorCode::JobIdReused),
{
}

/// Evidence answers a query where it is of the same object, at the same place of the same tenant and
/// Artifact, in the same generation; no generation is zero.
pub proof fn lemma_evidence_answers(
    evidence: &ObjectPlacementEvidence,
    query: &PlacementQuery,
    generation: PlacementGeneration,
    verdict: bool,
    result: CentralResult<()>,
)
    requires
        call_ensures(evidence_answers, (evidence, query), verdict),
        call_ensures(validate_placement_generation, (generation,), result),
    ensures
        verdict <==> {
            &&& query.tenant_id@ == evidence.receipt.tenant_id@
            &&& query.artifact_id@ == evidence.receipt.artifact_id@
            &&& query.storage_volume_id@ == evidence.receipt.storage_volume_id@
            &&& query.artifact_placement_id@ == evidence.receipt.artifact_placement_id@
            &&& query.placement_generation == evidence.placement_generation
            &&& query.object_id == evidence.receipt.object_id
        },
        result is Ok <==> generation > 0,
        result is Err ==> fails_with(result, CentralErrorCode::GenerationMismatch),
{
}

/// A failure that may pass is marked so: a concurrent update, a storage failure and an internal one,
/// and no other, unless it is said otherwise.
pub proof fn lemma_failure_may_pass(
    code: CentralErrorCode,
    message: String,
    retryable: bool,
    problem: CentralError,
    shown: CentralErrorCode,
    passes: bool,
    changed: CentralError,
)
    requires
        call_ensures(CentralError::new, (code, message), problem),
        call_ensures(CentralError::code, (&problem,), shown),
        call_ensures(CentralError::retryable, (&problem,), passes),
        call_ensures(CentralError::with_retryable, (problem, retryable), changed),
    ensures
        shown == code,
        problem@.message == message@,
        passes <==> {
            ||| code is ConcurrentUpdate
            ||| code is StorageFailure
            ||| code is Internal
        },
        changed@.code == code,
        changed@.message == message@,
        changed@.retryable == retryable,
{
}

/// A digest that does not match is a tampered batch, and every other break of the protocol is invalid.
pub proof fn lemma_protocol_failure(stable_code: &str, message: String, problem: CentralError)
    requires
        call_ensures(CentralError::from_protocol, (stable_code, message), problem),
    ensures
        stable_code@ == "PROTOCOL_DIGEST_MISMATCH"@ <==> problem@.code is BatchTampered,
        stable_code@ != "PROTOCOL_DIGEST_MISMATCH"@ <==> problem@.code is ProtocolInvalid,
        problem@.message == message@,
        !problem@.retryable,
{
}

/// The endpoints of a replica are the ones for control, for its peers and for bootstrapping.
pub proof fn lemma_replica_has_three_endpoints(record: &GatewayReplicaRecord, texts: [&str; 3])
    requires
        call_ensures(replica_endpoints, (record,), texts),
    ensures
        texts@[0]@ == record.control_endpoint@,
        texts@[1]@ == record.peer_endpoint@,
        texts@[2]@ == record.bootstrap_endpoint@,
{
}

/// A create request is the one that a tenant, an Artifact or a StorageVolume was made for where it
/// says the same in everything that a request says; versions, times and states do not count.
pub proof fn lemma_create_requests_match(
    tenant: &TenantRecord,
    other_tenant: &TenantRecord,
    artifact: &ArtifactRecord,
    other_artifact: &ArtifactRecord,
    volume: &StorageVolumeRecord,
    other_volume: &StorageVolumeRecord,
    tenants: bool,
    artifacts: bool,
    volumes: bool,
)
    requires
        call_ensures(tenant_create_matches, (tenant, other_tenant), tenants),
        call_ensures(artifact_matches, (artifact, other_artifact), artifacts),
        call_ensures(volume_matches, (volume, other_volume), volumes),
    ensures
        tenants <==> {
            &&& tenant.tenant_id@ == other_tenant.tenant_id@
            &&& tenant.display_name@ == other_tenant.display_name@
            &&& says_the_same(tenant.description, other_tenant.description)
        },
        artifacts <==> {
            &&& artifact.tenant_id@ == other_artifact.tenant_id@
            &&& artifact.project_id@ == other_artifact.project_id@
            &&& artifact.artifact_id@ == other_artifact.artifact_id@
            &&& artifact.display_name@ == other_artifact.display_name@
            &&& says_the_same(artifact.description, other_artifact.description)
            &&& begins_the_same(artifact.initialization, other_artifact.initialization)
        },
        volumes <==> {
            &&& volume.tenant_id@ == other_volume.tenant_id@
            &&& volume.storage_volume_id@ == other_volume.storage_volume_id@
            &&& volume.display_name@ == other_volume.display_name@
            &&& volume.edge_cluster_id@ == other_volume.edge_cluster_id@
            &&& volume.region@ == other_volume.region@
            &&& volume.backend_type == other_volume.backend_type
            &&& volume.access_mode == other_volume.access_mode
            &&& claims_the_same(*volume, *other_volume)
            &&& exports_the_same(*volume, *other_volume)
        },
{
}

/// A Playground is the one that a request asks for where it is of the same Artifact, name and place;
/// its commits count where no Head was observed. A Snapshot is where it is of the same request,
/// commit and place.
pub proof fn lemma_placed_requests_match(
    playground: &PlaygroundRecord,
    other: &PlaygroundRecord,
    head: &ArtifactHeadExpectation,
    snapshot: &SnapshotRecord,
    other_snapshot: &SnapshotRecord,
    inserted: bool,
    created: bool,
    snapshots: bool,
)
    requires
        call_ensures(playground_matches_insert, (playground, other, head), inserted),
        call_ensures(playground_create_matches, (playground, other), created),
        call_ensures(snapshot_request_matches, (snapshot, other_snapshot), snapshots),
    ensures
        ({
            let placed = {
                &&& playground.tenant_id@ == other.tenant_id@
                &&& playground.project_id@ == other.project_id@
                &&& playground.artifact_id@ == other.artifact_id@
                &&& playground.playground_id@ == other.playground_id@
                &&& playground.storage_volume_id@ == other.storage_volume_id@
                &&& playground.display_name@ == other.display_name@
                &&& playground.relative_root@ == other.relative_root@
            };
            &&& inserted <==> {
                &&& placed
                &&& playground.region@ == other.region@
                &&& *head is Any ==> playground.base_commit_id == other.base_commit_id
                &&& *head is Any ==> playground.head_commit_id == other.head_commit_id
            }
            &&& created <==> placed && playground.base_commit_id == other.base_commit_id
        }),
        snapshots <==> {
            &&& snapshot.tenant_id@ == other_snapshot.tenant_id@
            &&& snapshot.project_id@ == other_snapshot.project_id@
            &&& snapshot.artifact_id@ == other_snapshot.artifact_id@
            &&& snapshot.snapshot_request_id@ == other_snapshot.snapshot_request_id@
            &&& snapshot.commit_id == other_snapshot.commit_id
            &&& snapshot.storage_volume_id@ == other_snapshot.storage_volume_id@
            &&& snapshot.region@ == other_snapshot.region@
            &&& snapshot.relative_root@ == other_snapshot.relative_root@
        },
{
}

/// A replacement takes over exactly where there is an Agent to replace, both are of one volume and,
/// unless the old record has the earlier format, one description, and they share no identity.
pub proof fn lemma_replacement_takes_over(
    previous: &AgentRegistryRecord,
    replacement: &AgentRegistryRecord,
    instance: &AgentInstanceRecord,
    result: CentralResult<()>,
)
    requires
        call_ensures(validate_replacement_scope, (previous, replacement, instance), result),
    ensures
        result is Ok <==> {
            &&& previous.instance is Some
            &&& share_a_volume(*previous, *replacement)
            &&& previous.storage_enrollment.record_format is CurrentV3 ==> {
                &&& previous.storage_enrollment.descriptor is Some
                    <==> replacement.storage_enrollment.descriptor is Some
                &&& stays(
                    previous.storage_enrollment.descriptor,
                    replacement.storage_enrollment.descriptor,
                )
            }
            &&& previous.instance->0.agent_id@ != instance.agent_id@
            &&& previous.instance->0.installation_id@ != instance.installation_id@
            &&& previous.instance->0.public_key_fingerprint != instance.public_key_fingerprint
            &&& previous.mount.agent_mount_id@ != replacement.mount.agent_mount_id@
        },
        result is Err ==> fails_with(result, CentralErrorCode::AgentIdentityMismatch),
{
}

} // verus!
