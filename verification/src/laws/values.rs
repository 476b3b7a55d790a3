//! What the values of the library say of themselves.
use vstd::prelude::*;

use crate::digest::{digest_text, hex_digit, hex_text, ContentDigest};
use crate::equality::Same;
use crate::error::{lemma_stable_texts_are_names, CentralError, CentralErrorCode};
use crate::identifier::{AgentId, AssignmentId, Identifier, JobId, MetadataBatchId, TenantId};
use crate::model::{AddJobSpec, AddOperation, IndexKey, JobKey, JobRecord, MetadataBatchSubmission};
use crate::ports::AuthorityCapabilities;
use crate::precommit::{PreCommitKey, PreCommitRecord};
use crate::protocol::{assignment_identity, AssignmentOperation, JobAssignment};
use crate::text::text_before;
use crate::text_set::{text_set, texts_of};

verus! {

/// A hexadecimal digit, in lower case, stands for a number below sixteen.
pub open spec fn stands_for(digit: char, value: int) -> bool {
    ||| '0' <= digit <= '9' && digit as int - '0' as int == value
    ||| 'a' <= digit <= 'f' && digit as int - 'a' as int + 10 == value
}

proof fn lemma_digits(bytes: Seq<u8>, at: int)
    requires
        0 <= at < bytes.len(),
    ensures
        digest_text(bytes).len() == 2 * bytes.len(),
        stands_for(digest_text(bytes)[2 * at], bytes[at] as int / 16),
        stands_for(digest_text(bytes)[2 * at + 1], bytes[at] as int % 16),
    decreases bytes.len(),
{
    let rest = bytes.drop_last();
    assert(stands_for(hex_digit(bytes.last() as int / 16), bytes.last() as int / 16));
    assert(stands_for(hex_digit(bytes.last() as int % 16), bytes.last() as int % 16));
    if rest.len() == 0 {
        assert(digest_text(rest).len() == 0);
    } else if at < rest.len() {
        lemma_digits(rest, at);
        assert(rest[at] == bytes[at]);
    } else {
        lemma_digits(rest, 0);
    }
}

/// A digest is written in two hexadecimal digits for each byte, the higher one first.
pub proof fn lemma_digest_is_written_in_digits(digest: &ContentDigest, at: int, text: String)
    requires
        call_ensures(hex_text, (digest,), text),
        digest@.len() == 32,
        0 <= at < 32,
    ensures
        text@.len() == 64,
        stands_for(text@[2 * at], digest@[at] as int / 16),
        stands_for(text@[2 * at + 1], digest@[at] as int % 16),
{
    lemma_digits(digest@, at);
}

/// A digest of given bytes has these bytes.
pub proof fn lemma_digest_keeps_its_bytes(bytes: [u8; 32], digest: ContentDigest, back: &[u8; 32])
    requires
        call_ensures(ContentDigest::from_bytes, (bytes,), digest),
        call_ensures(ContentDigest::as_bytes, (&digest,), back),
    ensures
        back@ == bytes@,
{
}

/// Each class of failure has a stable text of its own, and a failure shows that and its message.
pub proof fn lemma_failure_shows_its_class(
    left: CentralErrorCode,
    right: CentralErrorCode,
    left_text: &'static str,
    right_text: &'static str,
    problem: CentralError,
    stable: &'static str,
    shown: String,
)
    requires
        call_ensures(CentralErrorCode::as_str, (left,), left_text),
        call_ensures(CentralErrorCode::as_str, (right,), right_text),
        call_ensures(CentralError::stable_code, (&problem,), stable),
        call_ensures(CentralError::display, (&problem,), shown),
        problem@.code == left,
    ensures
        left_text@ == right_text@ <==> left == right,
        stable@ == left_text@,
        shown@ == left_text@ + ": "@ + problem@.message,
{
    lemma_stable_texts_are_names(left, right);
}

/// A job goes by its tenant and its identity, and its Index by tenant, Artifact and Playground.
pub proof fn lemma_job_goes_by_its_names(job: &JobRecord, key: JobKey, index: IndexKey)
    requires
        call_ensures(JobRecord::key, (job,), key),
        call_ensures(JobRecord::index_key, (job,), index),
    ensures
        key.tenant_id@ == job.spec.tenant_id@,
        key.job_id@ == job.spec.job_id@,
        index.tenant_id@ == job.spec.tenant_id@,
        index.artifact_id@ == job.spec.artifact_id@,
        index.playground_id@ == job.spec.playground_id@,
{
}

/// A Pre-commit goes by its tenant and its identity.
pub proof fn lemma_precommit_goes_by_its_names(record: &PreCommitRecord, key: PreCommitKey)
    requires
        call_ensures(PreCommitRecord::key, (record,), key),
    ensures
        key.tenant_id@ == record.tenant_id@,
        key.precommit_id@ == record.precommit_id@,
{
}

/// What a job is to add is what its specification says.
pub proof fn lemma_operation_is_the_specified_one(spec: &AddJobSpec, operation: AddOperation)
    requires
        call_ensures(AddJobSpec::operation, (spec,), operation),
    ensures
        operation.job_id@ == spec.job_id@,
        operation.principal@ == spec.principal@,
        operation.tenant_id@ == spec.tenant_id@,
        operation.project_id@ == spec.project_id@,
        operation.artifact_id@ == spec.artifact_id@,
        operation.playground_id@ == spec.playground_id@,
        operation.expected_index_version == spec.expected_index_version,
        operation.deadline_unix_ms == spec.deadline_unix_ms,
        operation.all == spec.all,
        operation.paths@.len() == spec.paths@.len(),
        forall|i: int|
            0 <= i < spec.paths@.len() ==> (#[trigger] operation.paths@[i])@ == spec.paths@[i]@,
{
}

/// A submission is of the job and the batch that its descriptor or its page names.
pub proof fn lemma_submission_names_its_batch(
    submission: &MetadataBatchSubmission,
    batch_id: &MetadataBatchId,
)
    requires
        call_ensures(MetadataBatchSubmission::batch_id, (submission,), batch_id),
    ensures
        match *submission {
            MetadataBatchSubmission::Descriptor(descriptor) => batch_id@ == descriptor.batch_id@,
            MetadataBatchSubmission::Page(page) => batch_id@ == page.batch_id@,
        },
{
}

/// An assignment is of the tenant, the job, the identity and the Agent that it carries.
pub proof fn lemma_assignment_has_its_identity(
    assignment: &JobAssignment,
    identity: (&TenantId, &JobId, &AssignmentId, &AgentId),
)
    requires
        call_ensures(assignment_identity, (assignment,), identity),
    ensures
        match assignment.assignment {
            AssignmentOperation::Add { input, .. } => {
                &&& identity.0@ == input.tenant_id@
                &&& identity.1@ == input.job_id@
                &&& identity.2@ == input.assignment_id@
                &&& identity.3@ == input.agent_id@
            },
            AssignmentOperation::Other { identity: named, .. } => {
                &&& identity.0@ == named.tenant_id@
                &&& identity.1@ == named.job_id@
                &&& identity.2@ == named.assignment_id@
                &&& identity.3@ == named.agent_id@
            },
        },
{
}

/// Both stores run in one process, keep the audit with the registry, and promise neither isolation by
/// the database nor availability.
pub proof fn lemma_stores_promise_the_same(
    memory: AuthorityCapabilities,
    sqlite: AuthorityCapabilities,
)
    requires
        call_ensures(AuthorityCapabilities::in_memory, (), memory),
        call_ensures(AuthorityCapabilities::sqlite, (), sqlite),
    ensures
        memory.single_process && sqlite.single_process,
        memory.atomic_agent_registry_audit && sqlite.atomic_agent_registry_audit,
        !memory.database_enforced_tenant_isolation && !sqlite.database_enforced_tenant_isolation,
        !memory.high_availability && !sqlite.high_availability,
{
}

/// A text is in a list.
pub open spec fn is_listed(items: Seq<Identifier>, text: Seq<char>) -> bool {
    exists|i: int| 0 <= i < items.len() && (#[trigger] items[i])@ == text
}

/// A set of texts holds the texts that were given, each once and in order.
pub proof fn lemma_text_set_holds_each_once(
    items: Vec<Identifier>,
    text: Seq<char>,
    set: Vec<Identifier>,
)
    requires
        call_ensures(text_set, (items,), set),
    ensures
        is_listed(set@, text) <==> is_listed(items@, text),
        forall|i: int, j: int|
            0 <= i < j < set@.len() ==> text_before(
                (#[trigger] set@[i])@,
                (#[trigger] set@[j])@,
            ),
{
    assert(texts_of(set@).contains(text) == is_listed(set@, text));
    assert(texts_of(items@).contains(text) == is_listed(items@, text));
}

} // verus!
