//! What `==` means for jobs, messages, publications and Pre-commits: every field counts.
use vstd::prelude::*;

use crate::equality::Same;
use crate::model::{
    Actor, AddJobSpec, AddOperation, AssignmentTarget, AuditEvent, AuthorizationRequest,
    DurableObject, IndexKey, IndexPublishOutcome, IndexPublishRejection, IndexPublishRequest,
    JobKey, JobRecord, PublicationCandidate, PublishedIndex,
};
use crate::precommit::{
    CommitRecord, PreCommitCancelRequest, PreCommitCommitRequest, PreCommitCommitSnapshot,
    PreCommitKey, PreCommitRecord, PreCommitRestartRequest, PreCommitStartRequest,
};
use crate::protocol::{
    AddAssignment, AssignmentIdentity, AssignmentOperation, ControlError, FileRecord,
    IndexDeltaRecord, JobAccepted, JobAssignment, JobDecision, JobFailed, JobFinalized, JobPrepared,
    JobProgress, LeaseGrant, Manifest, MetadataBatchDescriptor, MetadataBatchPage,
    MetadataBatchScope, ObjectPlacementEvidence, ObjectReceipt, PublishDecision, WireIndexVersion,
};

verus! {

/// Two values are equal exactly where they agree in kind and content.
pub proof fn lemma_equal_actor(left: &Actor, right: &Actor, equal: bool)
    requires
        call_ensures(Actor::eq, (left, right), equal),
    ensures
        equal <==> match (*left, *right) {
            (Actor::Principal(left), Actor::Principal(right)) => left@ == right@,
            (Actor::Agent(left), Actor::Agent(right)) => left@ == right@,
            _ => false,
        },
{
}

/// Two values are equal exactly where they agree in every field.
pub proof fn lemma_equal_add_assignment(left: &AddAssignment, right: &AddAssignment, equal: bool)
    requires
        call_ensures(AddAssignment::eq, (left, right), equal),
    ensures
        equal <==> {
            &&& left.job_id@ == right.job_id@
            &&& left.assignment_id@ == right.assignment_id@
            &&& left.assignment_generation == right.assignment_generation
            &&& left.agent_id@ == right.agent_id@
            &&& left.principal@ == right.principal@
            &&& left.tenant_id@ == right.tenant_id@
            &&& left.project_id@ == right.project_id@
            &&& left.artifact_id@ == right.artifact_id@
            &&& left.playground_id@ == right.playground_id@
            &&& left.edge_cluster_id@ == right.edge_cluster_id@
            &&& left.storage_volume_id@ == right.storage_volume_id@
            &&& left.artifact_placement_id@ == right.artifact_placement_id@
            &&& left.placement_generation == right.placement_generation
            &&& left.agent_mount_id@ == right.agent_mount_id@
            &&& left.mount_generation == right.mount_generation
            &&& left.owner_generation == right.owner_generation
            &&& left.expected_index_version.same(right.expected_index_version)
            &&& match (left.lease, right.lease) {
                (None, None) => true,
                (Some(left), Some(right)) => left.same(right),
                _ => false,
            }
            &&& left.request_digest == right.request_digest
            &&& left.deadline_unix_ms == right.deadline_unix_ms
            &&& left.paths@.len() == right.paths@.len()
            &&& forall|i: int|
                0 <= i < left.paths@.len()
                    ==> (#[trigger] left.paths@[i])@ == right.paths@[i]@
            &&& left.all == right.all
            &&& left.extensions@ == right.extensions@
        },
{
}

/// Two values are equal exactly where they agree in every field.
pub proof fn lemma_equal_add_job_spec(left: &AddJobSpec, right: &AddJobSpec, equal: bool)
    requires
        call_ensures(AddJobSpec::eq, (left, right), equal),
    ensures
        equal <==> {
            &&& left.job_id@ == right.job_id@
            &&& left.principal@ == right.principal@
            &&& left.tenant_id@ == right.tenant_id@
            &&& left.project_id@ == right.project_id@
            &&& left.artifact_id@ == right.artifact_id@
            &&& left.playground_id@ == right.playground_id@
            &&& left.expected_index_version.same(right.expected_index_version)
            &&& left.request_digest == right.request_digest
            &&& left.deadline_unix_ms == right.deadline_unix_ms
            &&& left.paths@.len() == right.paths@.len()
            &&& forall|i: int|
                0 <= i < left.paths@.len()
                    ==> (#[trigger] left.paths@[i])@ == right.paths@[i]@
            &&& left.all == right.all
            &&& left.extensions@ == right.extensions@
        },
{
}

/// Two values are equal exactly where they agree in every field.
pub proof fn lemma_equal_add_operation(left: &AddOperation, right: &AddOperation, equal: bool)
    requires
        call_ensures(AddOperation::eq, (left, right), equal),
    ensures
        equal <==> {
            &&& left.job_id@ == right.job_id@
            &&& left.principal@ == right.principal@
            &&& left.tenant_id@ == right.tenant_id@
            &&& left.project_id@ == right.project_id@
            &&& left.artifact_id@ == right.artifact_id@
            &&& left.playground_id@ == right.playground_id@
            &&& left.expected_index_version.same(right.expected_index_version)
            &&& left.deadline_unix_ms == right.deadline_unix_ms
            &&& left.paths@.len() == right.paths@.len()
            &&& forall|i: int|
                0 <= i < left.paths@.len()
                    ==> (#[trigger] left.paths@[i])@ == right.paths@[i]@
            &&& left.all == right.all
            &&& left.extensions@ == right.extensions@
        },
{
}

/// Two values are equal exactly where they agree in every field.
pub proof fn lemma_equal_assignment_identity(
    left: &AssignmentIdentity,
    right: &AssignmentIdentity,
    equal: bool,
)
    requires
        call_ensures(AssignmentIdentity::eq, (left, right), equal),
    ensures
        equal <==> {
            &&& left.tenant_id@ == right.tenant_id@
            &&& left.job_id@ == right.job_id@
            &&& left.assignment_id@ == right.assignment_id@
            &&& left.agent_id@ == right.agent_id@
        },
{
}

/// Two values are equal exactly where they agree in kind and content.
pub proof fn lemma_equal_assignment_operation(
    left: &AssignmentOperation,
    right: &AssignmentOperation,
    equal: bool,
)
    requires
        call_ensures(AssignmentOperation::eq, (left, right), equal),
    ensures
        equal <==> match (*left, *right) {
            (
                AssignmentOperation::Add { input, extensions },
                AssignmentOperation::Add { input: other_input, extensions: other_extensions },
            ) => {
                &&& (input.same(other_input))
                &&& (extensions@ == other_extensions@)
            },
            (
                AssignmentOperation::Other { identity, payload },
                AssignmentOperation::Other { identity: other_identity, payload: other_payload },
            ) => {
                &&& (identity.same(other_identity))
                &&& (payload@ == other_payload@)
            },
            _ => false,
        },
{
}

/// Two values are equal exactly where they agree in every field.
pub proof fn lemma_equal_assignment_target(
    left: &AssignmentTarget,
    right: &AssignmentTarget,
    equal: bool,
)
    requires
        call_ensures(AssignmentTarget::eq, (left, right), equal),
    ensures
        equal <==> {
            &&& left.assignment_id@ == right.assignment_id@
            &&& left.assignment_generation == right.assignment_generation
            &&& left.agent_id@ == right.agent_id@
            &&& left.edge_cluster_id@ == right.edge_cluster_id@
            &&& left.storage_volume_id@ == right.storage_volume_id@
            &&& left.artifact_placement_id@ == right.artifact_placement_id@
            &&& left.placement_generation == right.placement_generation
            &&& left.agent_mount_id@ == right.agent_mount_id@
            &&& left.mount_generation == right.mount_generation
            &&& left.owner_generation == right.owner_generation
            &&& match (left.lease, right.lease) {
                (None, None) => true,
                (Some(left), Some(right)) => left.same(right),
                _ => false,
            }
        },
{
}

/// Two values are equal exactly where they agree in every field.
pub proof fn lemma_equal_audit_event(left: &AuditEvent, right: &AuditEvent, equal: bool)
    requires
        call_ensures(AuditEvent::eq, (left, right), equal),
    ensures
        equal <==> {
            &&& left.event_id@ == right.event_id@
            &&& left.kind == right.kind
            &&& left.job_key.same(right.job_key)
            &&& left.state == right.state
            &&& left.occurred_at_unix_ms == right.occurred_at_unix_ms
        },
{
}

/// Two values are equal exactly where they agree in every field.
pub proof fn lemma_equal_authorization_request(
    left: &AuthorizationRequest,
    right: &AuthorizationRequest,
    equal: bool,
)
    requires
        call_ensures(AuthorizationRequest::eq, (left, right), equal),
    ensures
        equal <==> {
            &&& left.actor.same(right.actor)
            &&& left.action == right.action
            &&& left.tenant_id@ == right.tenant_id@
            &&& left.artifact_id@ == right.artifact_id@
            &&& left.playground_id@ == right.playground_id@
            &&& left.job_id@ == right.job_id@
        },
{
}

/// Two values are equal exactly where they agree in every field.
pub proof fn lemma_equal_commit_record(left: &CommitRecord, right: &CommitRecord, equal: bool)
    requires
        call_ensures(CommitRecord::eq, (left, right), equal),
    ensures
        equal <==> {
            &&& left.tenant_id@ == right.tenant_id@
            &&& left.project_id@ == right.project_id@
            &&& left.artifact_id@ == right.artifact_id@
            &&& left.commit_id == right.commit_id
            &&& left.commit_request_id@ == right.commit_request_id@
            &&& left.source_precommit_id@ == right.source_precommit_id@
            &&& left.records@.len() == right.records@.len()
            &&& forall|i: int|
                0 <= i < left.records@.len()
                    ==> (#[trigger] left.records@[i]).same(right.records@[i])
            &&& left.detail@ == right.detail@
        },
{
}

/// Two values are equal exactly where they agree in every field.
pub proof fn lemma_equal_control_error(left: &ControlError, right: &ControlError, equal: bool)
    requires
        call_ensures(ControlError::eq, (left, right), equal),
    ensures
        equal <==> {
            &&& left.code@ == right.code@
            &&& left.message@ == right.message@
            &&& left.retryable == right.retryable
            &&& left.retry_after_ms == right.retry_after_ms
            &&& left.extensions@ == right.extensions@
        },
{
}

/// Two values are equal exactly where they agree in every field.
pub proof fn lemma_equal_durable_object(left: &DurableObject, right: &DurableObject, equal: bool)
    requires
        call_ensures(DurableObject::eq, (left, right), equal),
    ensures
        equal <==> {
            &&& left.object_id == right.object_id
            &&& left.size == right.size
            &&& left.verified_digest == right.verified_digest
            &&& left.storage_version@ == right.storage_version@
        },
{
}

/// Two values are equal exactly where they agree in every field.
pub proof fn lemma_equal_file_record(left: &FileRecord, right: &FileRecord, equal: bool)
    requires
        call_ensures(FileRecord::eq, (left, right), equal),
    ensures
        equal <==> {
            &&& left.path@ == right.path@
            &&& left.manifest_id == right.manifest_id
            &&& left.total_size == right.total_size
            &&& left.chunk_count == right.chunk_count
        },
{
}

/// Two values are equal exactly where they agree in kind and content.
pub proof fn lemma_equal_index_delta_record(
    left: &IndexDeltaRecord,
    right: &IndexDeltaRecord,
    equal: bool,
)
    requires
        call_ensures(IndexDeltaRecord::eq, (left, right), equal),
    ensures
        equal <==> match (*left, *right) {
            (
                IndexDeltaRecord::Upsert { path, manifest_id, total_size, chunk_count, extensions },
                IndexDeltaRecord::Upsert { path: other_path, manifest_id: other_manifest_id, total_size: other_total_size, chunk_count: other_chunk_count, extensions: other_extensions },
            ) => {
                &&& (path@ == other_path@)
                &&& (manifest_id == other_manifest_id)
                &&& (total_size == other_total_size)
                &&& (chunk_count == other_chunk_count)
                &&& (extensions@ == other_extensions@)
            },
            (
                IndexDeltaRecord::Delete { path, extensions },
                IndexDeltaRecord::Delete { path: other_path, extensions: other_extensions },
            ) => {
                &&& (path@ == other_path@)
                &&& (extensions@ == other_extensions@)
            },
            _ => false,
        },
{
}

/// Two values are equal exactly where they agree in every field.
pub proof fn lemma_equal_index_key(left: &IndexKey, right: &IndexKey, equal: bool)
    requires
        call_ensures(IndexKey::eq, (left, right), equal),
    ensures
        equal <==> {
            &&& left.tenant_id@ == right.tenant_id@
            &&& left.artifact_id@ == right.artifact_id@
            &&& left.playground_id@ == right.playground_id@
        },
{
}

/// Two values are equal exactly where they agree in kind and content.
pub proof fn lemma_equal_index_publish_outcome(
    left: &IndexPublishOutcome,
    right: &IndexPublishOutcome,
    equal: bool,
)
    requires
        call_ensures(IndexPublishOutcome::eq, (left, right), equal),
    ensures
        equal <==> match (*left, *right) {
            (IndexPublishOutcome::Published(left), IndexPublishOutcome::Published(right)) => left.same(right),
            (IndexPublishOutcome::Conflict(left), IndexPublishOutcome::Conflict(right)) => left.same(right),
            (IndexPublishOutcome::Rejected(left), IndexPublishOutcome::Rejected(right)) => left.same(right),
            _ => false,
        },
{
}

/// Two values are equal exactly where they agree in kind and content.
pub proof fn lemma_equal_index_publish_rejection(
    left: &IndexPublishRejection,
    right: &IndexPublishRejection,
    equal: bool,
)
    requires
        call_ensures(IndexPublishRejection::eq, (left, right), equal),
    ensures
        equal <==> match (*left, *right) {
            (
                IndexPublishRejection::InvalidMetadata { message },
                IndexPublishRejection::InvalidMetadata { message: other_message },
            ) => {
                &&& (message@ == other_message@)
            },
            (
                IndexPublishRejection::ResultDigestMismatch { expected_digest, observed_digest },
                IndexPublishRejection::ResultDigestMismatch { expected_digest: other_expected_digest, observed_digest: other_observed_digest },
            ) => {
                &&& (expected_digest == other_expected_digest)
                &&& (observed_digest == other_observed_digest)
            },
            (IndexPublishRejection::RevisionExhausted, IndexPublishRejection::RevisionExhausted) => true,
            _ => false,
        },
{
}

/// Two values are equal exactly where they agree in every field.
pub proof fn lemma_equal_index_publish_request(
    left: &IndexPublishRequest,
    right: &IndexPublishRequest,
    equal: bool,
)
    requires
        call_ensures(IndexPublishRequest::eq, (left, right), equal),
    ensures
        equal <==> {
            &&& left.job_key.same(right.job_key)
            &&& left.index_key.same(right.index_key)
            &&& left.expected_index_version.same(right.expected_index_version)
            &&& left.expected_result_digest == right.expected_result_digest
            &&& left.manifests@.len() == right.manifests@.len()
            &&& forall|i: int|
                0 <= i < left.manifests@.len()
                    ==> (#[trigger] left.manifests@[i]).same(right.manifests@[i])
            &&& left.mutations@.len() == right.mutations@.len()
            &&& forall|i: int|
                0 <= i < left.mutations@.len()
                    ==> (#[trigger] left.mutations@[i]).same(right.mutations@[i])
        },
{
}

/// Two values are equal exactly where they agree in every field.
pub proof fn lemma_equal_job_accepted(left: &JobAccepted, right: &JobAccepted, equal: bool)
    requires
        call_ensures(JobAccepted::eq, (left, right), equal),
    ensures
        equal <==> {
            &&& left.job_id@ == right.job_id@
            &&& left.assignment_id@ == right.assignment_id@
            &&& left.assignment_generation == right.assignment_generation
            &&& left.request_digest == right.request_digest
            &&& left.extensions@ == right.extensions@
        },
{
}

/// Two values are equal exactly where they agree in every field.
pub proof fn lemma_equal_job_assignment(left: &JobAssignment, right: &JobAssignment, equal: bool)
    requires
        call_ensures(JobAssignment::eq, (left, right), equal),
    ensures
        equal <==> {
            &&& left.assignment.same(right.assignment)
            &&& left.extensions@ == right.extensions@
        },
{
}

/// Two values are equal exactly where they agree in every field.
pub proof fn lemma_equal_job_decision(left: &JobDecision, right: &JobDecision, equal: bool)
    requires
        call_ensures(JobDecision::eq, (left, right), equal),
    ensures
        equal <==> {
            &&& left.job_id@ == right.job_id@
            &&& left.assignment_id@ == right.assignment_id@
            &&& left.assignment_generation == right.assignment_generation
            &&& left.decision_generation == right.decision_generation
            &&& left.decision.same(right.decision)
            &&& left.final_state == right.final_state
            &&& left.extensions@ == right.extensions@
        },
{
}

/// Two values are equal exactly where they agree in every field.
pub proof fn lemma_equal_job_failed(left: &JobFailed, right: &JobFailed, equal: bool)
    requires
        call_ensures(JobFailed::eq, (left, right), equal),
    ensures
        equal <==> {
            &&& left.tenant_id@ == right.tenant_id@
            &&& left.job_id@ == right.job_id@
            &&& left.assignment_id@ == right.assignment_id@
            &&& left.assignment_generation == right.assignment_generation
            &&& left.final_state == right.final_state
            &&& left.error.same(right.error)
            &&& left.failed_at_unix_ms == right.failed_at_unix_ms
            &&& left.extensions@ == right.extensions@
        },
{
}

/// Two values are equal exactly where they agree in every field.
pub proof fn lemma_equal_job_finalized(left: &JobFinalized, right: &JobFinalized, equal: bool)
    requires
        call_ensures(JobFinalized::eq, (left, right), equal),
    ensures
        equal <==> {
            &&& left.job_id@ == right.job_id@
            &&& left.assignment_id@ == right.assignment_id@
            &&& left.assignment_generation == right.assignment_generation
            &&& left.decision_generation == right.decision_generation
            &&& left.final_state == right.final_state
            &&& left.finalized_at_unix_ms == right.finalized_at_unix_ms
            &&& left.extensions@ == right.extensions@
        },
{
}

/// Two values are equal exactly where they agree in every field.
pub proof fn lemma_equal_job_key(left: &JobKey, right: &JobKey, equal: bool)
    requires
        call_ensures(JobKey::eq, (left, right), equal),
    ensures
        equal <==> {
            &&& left.tenant_id@ == right.tenant_id@
            &&& left.job_id@ == right.job_id@
        },
{
}

/// Two values are equal exactly where they agree in every field.
pub proof fn lemma_equal_job_prepared(left: &JobPrepared, right: &JobPrepared, equal: bool)
    requires
        call_ensures(JobPrepared::eq, (left, right), equal),
    ensures
        equal <==> {
            &&& left.job_id@ == right.job_id@
            &&& left.assignment_id@ == right.assignment_id@
            &&& left.assignment_generation == right.assignment_generation
            &&& left.result_index_digest == right.result_index_digest
            &&& left.publication_digest == right.publication_digest
            &&& left.metadata_batches@.len() == right.metadata_batches@.len()
            &&& forall|i: int|
                0 <= i < left.metadata_batches@.len()
                    ==> (#[trigger] left.metadata_batches@[i]).same(right.metadata_batches@[i])
            &&& left.extensions@ == right.extensions@
        },
{
}

/// Two values are equal exactly where they agree in every field.
pub proof fn lemma_equal_job_progress(left: &JobProgress, right: &JobProgress, equal: bool)
    requires
        call_ensures(JobProgress::eq, (left, right), equal),
    ensures
        equal <==> {
            &&& left.job_id@ == right.job_id@
            &&& left.assignment_id@ == right.assignment_id@
            &&& left.assignment_generation == right.assignment_generation
            &&& left.state == right.state
            &&& left.extensions@ == right.extensions@
        },
{
}

/// Two values are equal exactly where they agree in every field.
pub proof fn lemma_equal_job_record(left: &JobRecord, right: &JobRecord, equal: bool)
    requires
        call_ensures(JobRecord::eq, (left, right), equal),
    ensures
        equal <==> {
            &&& left.spec.same(right.spec)
            &&& left.operation == right.operation
            &&& left.state == right.state
            &&& left.resource_version == right.resource_version
            &&& match (left.assignment, right.assignment) {
                (None, None) => true,
                (Some(left), Some(right)) => left.same(right),
                _ => false,
            }
            &&& match (left.accepted, right.accepted) {
                (None, None) => true,
                (Some(left), Some(right)) => left.same(right),
                _ => false,
            }
            &&& match (left.progress, right.progress) {
                (None, None) => true,
                (Some(left), Some(right)) => left.same(right),
                _ => false,
            }
            &&& match (left.prepared, right.prepared) {
                (None, None) => true,
                (Some(left), Some(right)) => left.same(right),
                _ => false,
            }
            &&& match (left.publication_candidate, right.publication_candidate) {
                (None, None) => true,
                (Some(left), Some(right)) => left.same(right),
                _ => false,
            }
            &&& match (left.decision, right.decision) {
                (None, None) => true,
                (Some(left), Some(right)) => left.same(right),
                _ => false,
            }
            &&& match (left.finalized, right.finalized) {
                (None, None) => true,
                (Some(left), Some(right)) => left.same(right),
                _ => false,
            }
            &&& match (left.finalized_ack, right.finalized_ack) {
                (None, None) => true,
                (Some(left), Some(right)) => left.same(right),
                _ => false,
            }
            &&& match (left.failure, right.failure) {
                (None, None) => true,
                (Some(left), Some(right)) => left.same(right),
                _ => false,
            }
        },
{
}

/// Two values are equal exactly where they agree in every field.
pub proof fn lemma_equal_lease_grant(left: &LeaseGrant, right: &LeaseGrant, equal: bool)
    requires
        call_ensures(LeaseGrant::eq, (left, right), equal),
    ensures
        equal <==> {
            &&& left.lease_id@ == right.lease_id@
            &&& left.expires_at_unix_ms == right.expires_at_unix_ms
            &&& left.extensions@ == right.extensions@
        },
{
}

/// Two values are equal exactly where they agree in every field.
pub proof fn lemma_equal_manifest(left: &Manifest, right: &Manifest, equal: bool)
    requires
        call_ensures(Manifest::eq, (left, right), equal),
    ensures
        equal <==> {
            &&& left.total_size == right.total_size
            &&& left.content@ == right.content@
        },
{
}

/// Two values are equal exactly where they agree in every field.
pub proof fn lemma_equal_metadata_batch_descriptor(
    left: &MetadataBatchDescriptor,
    right: &MetadataBatchDescriptor,
    equal: bool,
)
    requires
        call_ensures(MetadataBatchDescriptor::eq, (left, right), equal),
    ensures
        equal <==> {
            &&& left.batch_id@ == right.batch_id@
            &&& left.scope.same(right.scope)
            &&& left.page_count == right.page_count
            &&& left.content@ == right.content@
        },
{
}

/// Two values are equal exactly where they agree in every field.
pub proof fn lemma_equal_metadata_batch_page(
    left: &MetadataBatchPage,
    right: &MetadataBatchPage,
    equal: bool,
)
    requires
        call_ensures(MetadataBatchPage::eq, (left, right), equal),
    ensures
        equal <==> {
            &&& left.batch_id@ == right.batch_id@
            &&& left.page_number == right.page_number
            &&& left.content@ == right.content@
        },
{
}

/// Two values are equal exactly where they agree in every field.
pub proof fn lemma_equal_metadata_batch_scope(
    left: &MetadataBatchScope,
    right: &MetadataBatchScope,
    equal: bool,
)
    requires
        call_ensures(MetadataBatchScope::eq, (left, right), equal),
    ensures
        equal <==> {
            &&& left.tenant_id@ == right.tenant_id@
            &&& left.artifact_id@ == right.artifact_id@
            &&& left.playground_id@ == right.playground_id@
            &&& left.job_id@ == right.job_id@
        },
{
}

/// Two values are equal exactly where they agree in every field.
pub proof fn lemma_equal_object_placement_evidence(
    left: &ObjectPlacementEvidence,
    right: &ObjectPlacementEvidence,
    equal: bool,
)
    requires
        call_ensures(ObjectPlacementEvidence::eq, (left, right), equal),
    ensures
        equal <==> {
            &&& left.receipt.same(right.receipt)
            &&& left.placement_generation == right.placement_generation
        },
{
}

/// Two values are equal exactly where they agree in every field.
pub proof fn lemma_equal_object_receipt(left: &ObjectReceipt, right: &ObjectReceipt, equal: bool)
    requires
        call_ensures(ObjectReceipt::eq, (left, right), equal),
    ensures
        equal <==> {
            &&& left.tenant_id@ == right.tenant_id@
            &&& left.receipt_id@ == right.receipt_id@
            &&& left.artifact_id@ == right.artifact_id@
            &&& left.job_id@ == right.job_id@
            &&& left.storage_volume_id@ == right.storage_volume_id@
            &&& left.artifact_placement_id@ == right.artifact_placement_id@
            &&& left.object_id == right.object_id
            &&& left.size == right.size
            &&& left.verified_at_unix_ms == right.verified_at_unix_ms
        },
{
}

/// Two values are equal exactly where they agree in every field.
pub proof fn lemma_equal_pre_commit_cancel_request(
    left: &PreCommitCancelRequest,
    right: &PreCommitCancelRequest,
    equal: bool,
)
    requires
        call_ensures(PreCommitCancelRequest::eq, (left, right), equal),
    ensures
        equal <==> {
            &&& left.key.same(right.key)
            &&& left.cancel_request_id@ == right.cancel_request_id@
            &&& left.detail@ == right.detail@
        },
{
}

/// Two values are equal exactly where they agree in every field.
pub proof fn lemma_equal_pre_commit_commit_request(
    left: &PreCommitCommitRequest,
    right: &PreCommitCommitRequest,
    equal: bool,
)
    requires
        call_ensures(PreCommitCommitRequest::eq, (left, right), equal),
    ensures
        equal <==> {
            &&& left.key.same(right.key)
            &&& left.commit_request_id@ == right.commit_request_id@
            &&& left.detail@ == right.detail@
        },
{
}

/// Two values are equal exactly where they agree in every field.
pub proof fn lemma_equal_pre_commit_commit_snapshot(
    left: &PreCommitCommitSnapshot,
    right: &PreCommitCommitSnapshot,
    equal: bool,
)
    requires
        call_ensures(PreCommitCommitSnapshot::eq, (left, right), equal),
    ensures
        equal <==> {
            &&& left.commit.same(right.commit)
            &&& left.consumed_precommit.same(right.consumed_precommit)
        },
{
}

/// Two values are equal exactly where they agree in every field.
pub proof fn lemma_equal_pre_commit_key(left: &PreCommitKey, right: &PreCommitKey, equal: bool)
    requires
        call_ensures(PreCommitKey::eq, (left, right), equal),
    ensures
        equal <==> {
            &&& left.tenant_id@ == right.tenant_id@
            &&& left.precommit_id@ == right.precommit_id@
        },
{
}

/// Two values are equal exactly where they agree in every field.
pub proof fn lemma_equal_pre_commit_record(
    left: &PreCommitRecord,
    right: &PreCommitRecord,
    equal: bool,
)
    requires
        call_ensures(PreCommitRecord::eq, (left, right), equal),
    ensures
        equal <==> {
            &&& left.tenant_id@ == right.tenant_id@
            &&& left.precommit_id@ == right.precommit_id@
            &&& left.precommit_request_id@ == right.precommit_request_id@
            &&& left.project_id@ == right.project_id@
            &&& left.artifact_id@ == right.artifact_id@
            &&& left.playground_id@ == right.playground_id@
            &&& left.job_id@ == right.job_id@
            &&& left.state == right.state
            &&& left.attempt == right.attempt
            &&& left.resource_version == right.resource_version
            &&& left.frozen_head_commit_id == right.frozen_head_commit_id
            &&& left.head_published_at_unix_ms == right.head_published_at_unix_ms
            &&& left.detail@ == right.detail@
        },
{
}

/// Two values are equal exactly where they agree in every field.
pub proof fn lemma_equal_pre_commit_restart_request(
    left: &PreCommitRestartRequest,
    right: &PreCommitRestartRequest,
    equal: bool,
)
    requires
        call_ensures(PreCommitRestartRequest::eq, (left, right), equal),
    ensures
        equal <==> {
            &&& left.key.same(right.key)
            &&& left.restart_request_id@ == right.restart_request_id@
            &&& left.detail@ == right.detail@
        },
{
}

/// Two values are equal exactly where they agree in every field.
pub proof fn lemma_equal_pre_commit_start_request(
    left: &PreCommitStartRequest,
    right: &PreCommitStartRequest,
    equal: bool,
)
    requires
        call_ensures(PreCommitStartRequest::eq, (left, right), equal),
    ensures
        equal <==> {
            &&& left.tenant_id@ == right.tenant_id@
            &&& left.precommit_request_id@ == right.precommit_request_id@
            &&& left.detail@ == right.detail@
        },
{
}

/// Two values are equal exactly where they agree in every field.
pub proof fn lemma_equal_publication_candidate(
    left: &PublicationCandidate,
    right: &PublicationCandidate,
    equal: bool,
)
    requires
        call_ensures(PublicationCandidate::eq, (left, right), equal),
    ensures
        equal <==> {
            &&& left.expected_index_version.same(right.expected_index_version)
            &&& left.result_index_digest == right.result_index_digest
            &&& left.publication_digest == right.publication_digest
            &&& left.manifests@.len() == right.manifests@.len()
            &&& forall|i: int|
                0 <= i < left.manifests@.len()
                    ==> (#[trigger] left.manifests@[i]).same(right.manifests@[i])
            &&& left.mutations@.len() == right.mutations@.len()
            &&& forall|i: int|
                0 <= i < left.mutations@.len()
                    ==> (#[trigger] left.mutations@[i]).same(right.mutations@[i])
        },
{
}

/// Two values are equal exactly where they agree in kind and content.
pub proof fn lemma_equal_publish_decision(
    left: &PublishDecision,
    right: &PublishDecision,
    equal: bool,
)
    requires
        call_ensures(PublishDecision::eq, (left, right), equal),
    ensures
        equal <==> match (*left, *right) {
            (
                PublishDecision::Publish { published_index_version, extensions },
                PublishDecision::Publish { published_index_version: other_published_index_version, extensions: other_extensions },
            ) => {
                &&& (published_index_version.same(other_published_index_version))
                &&& (extensions@ == other_extensions@)
            },
            (
                PublishDecision::Conflict { current_index_version, extensions },
                PublishDecision::Conflict { current_index_version: other_current_index_version, extensions: other_extensions },
            ) => {
                &&& (current_index_version.same(other_current_index_version))
                &&& (extensions@ == other_extensions@)
            },
            (
                PublishDecision::Reject { error, extensions },
                PublishDecision::Reject { error: other_error, extensions: other_extensions },
            ) => {
                &&& (error.same(other_error))
                &&& (extensions@ == other_extensions@)
            },
            _ => false,
        },
{
}

/// Two values are equal exactly where they agree in every field.
pub proof fn lemma_equal_published_index(left: &PublishedIndex, right: &PublishedIndex, equal: bool)
    requires
        call_ensures(PublishedIndex::eq, (left, right), equal),
    ensures
        equal <==> {
            &&& left.version.same(right.version)
            &&& left.records@.len() == right.records@.len()
            &&& forall|i: int|
                0 <= i < left.records@.len()
                    ==> (#[trigger] left.records@[i]).same(right.records@[i])
        },
{
}

/// Two values are equal exactly where they agree in every field.
pub proof fn lemma_equal_wire_index_version(
    left: &WireIndexVersion,
    right: &WireIndexVersion,
    equal: bool,
)
    requires
        call_ensures(WireIndexVersion::eq, (left, right), equal),
    ensures
        equal <==> {
            &&& left.revision == right.revision
            &&& left.digest == right.digest
            &&& left.extensions@ == right.extensions@
        },
{
}

} // verus!
