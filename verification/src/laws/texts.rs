//! What texts are compared by: the first byte that differs decides their order, a part occurs where
//! all its characters do, and a number is written so that it reads back.
use vstd::prelude::*;
use vstd::utf8::*;

use crate::agent_registry::lifecycle::{decision_audit_event, lifecycle_kind_name};
use crate::agent_registry::records::{
    AgentEnrollmentAuditEvent, AgentEnrollmentLifecycleAuditKind, AgentEnrollmentRecord,
};
use crate::error::{CentralErrorCode, CentralResult};
use crate::identifier::Identifier;
use crate::laws::jobs::fails_with;
use crate::storage::codec::{lemma_decimal_reads_back, parse_u64};
use crate::text::{
    bytes_before, decimal_text, is_identifier_char, is_white_space, occurs_at,
    resource_identifier_is_valid, text_contains, text_equals, text_is_before, text_is_blank,
};

verus! {

/// Two byte strings agree up to a place, where the left one ends or has the smaller byte.
pub open spec fn parts_below(left: Seq<u8>, right: Seq<u8>, place: int) -> bool {
    &&& 0 <= place < right.len()
    &&& place <= left.len()
    &&& forall|i: int| 0 <= i < place ==> left[i] == #[trigger] right[i]
    &&& place < left.len() ==> left[place] < right[place]
}

proof fn lemma_earlier_parts_below(left: Seq<u8>, right: Seq<u8>) -> (place: int)
    requires
        bytes_before(left, right),
    ensures
        parts_below(left, right, place),
    decreases left.len(),
{
    if left.len() == 0 || left[0] != right[0] {
        0
    } else {
        let place = lemma_earlier_parts_below(left.drop_first(), right.drop_first());
        assert forall|i: int| 0 <= i < place + 1 implies left[i] == #[trigger] right[i] by {
            if i > 0 {
                assert(left.drop_first()[i - 1] == right.drop_first()[i - 1]);
            }
        }
        place + 1
    }
}

proof fn lemma_parting_below_is_earlier(left: Seq<u8>, right: Seq<u8>, place: int)
    requires
        parts_below(left, right, place),
    ensures
        bytes_before(left, right),
    decreases left.len(),
{
    if left.len() > 0 && place > 0 {
        assert(left[0] == right[0]);
        assert forall|i: int| 0 <= i < place - 1 implies left.drop_first()[i]
            == #[trigger] right.drop_first()[i] by {
            assert(left[i + 1] == right[i + 1]);
        }
        lemma_parting_below_is_earlier(left.drop_first(), right.drop_first(), place - 1);
    }
}

/// A text comes before another exactly where, at the first byte that is not the same, it has ended or
/// its byte is smaller. Identifiers are in that order too.
pub proof fn lemma_first_difference_decides(
    left: &str,
    right: &str,
    left_id: &Identifier,
    right_id: &Identifier,
    before: bool,
    id_before: bool,
)
    requires
        call_ensures(text_is_before, (left, right), before),
        call_ensures(Identifier::is_before, (left_id, right_id), id_before),
        left_id@ == left@,
        right_id@ == right@,
    ensures
        before <==> exists|place: int|
            #[trigger] parts_below(encode_utf8(left@), encode_utf8(right@), place),
        id_before == before,
{
    let one = encode_utf8(left@);
    let other = encode_utf8(right@);
    if before {
        let place = lemma_earlier_parts_below(one, other);
        assert(parts_below(one, other, place));
    }
    if exists|place: int| #[trigger] parts_below(one, other, place) {
        let place = choose|place: int| #[trigger] parts_below(one, other, place);
        lemma_parting_below_is_earlier(one, other, place);
    }
}

/// Two texts are equal exactly where they have the same characters.
pub proof fn lemma_equal_texts(left: &str, right: &str, equal: bool)
    requires
        call_ensures(text_equals, (left, right), equal),
    ensures
        equal <==> left@.len() == right@.len() && forall|i: int|
            0 <= i < left@.len() ==> #[trigger] left@[i] == right@[i],
{
    if left@.len() == right@.len() && (forall|i: int|
        0 <= i < left@.len() ==> #[trigger] left@[i] == right@[i]) {
        assert(left@ =~= right@);
    }
}

/// A part stands in a text from a place on.
pub open spec fn stands_at(text: Seq<char>, part: Seq<char>, start: int) -> bool {
    &&& 0 <= start <= text.len() - part.len()
    &&& forall|i: int| 0 <= i < part.len() ==> #[trigger] part[i] == text[start + i]
}

/// A text contains a part exactly where the part stands in it somewhere.
pub proof fn lemma_part_stands_somewhere(text: &str, part: &str, found: bool)
    requires
        call_ensures(text_contains, (text, part), found),
    ensures
        found <==> exists|start: int| #[trigger] stands_at(text@, part@, start),
{
    if found {
        let start = choose|start: int| #[trigger] occurs_at(text@, part@, start);
        assert forall|i: int| 0 <= i < part@.len() implies #[trigger] part@[i] == text@[start
            + i] by {
            assert(text@.subrange(start, start + part@.len())[i] == text@[start + i]);
        }
        assert(stands_at(text@, part@, start));
    }
    if exists|start: int| #[trigger] stands_at(text@, part@, start) {
        let start = choose|start: int| #[trigger] stands_at(text@, part@, start);
        assert(text@.subrange(start, start + part@.len()) =~= part@);
        assert(occurs_at(text@, part@, start));
    }
}

/// A number is written so that it reads back.
pub proof fn lemma_number_reads_back(
    number: u64,
    written: String,
    text: &str,
    field: &str,
    read: CentralResult<u64>,
)
    requires
        call_ensures(decimal_text, (number,), written),
        call_ensures(parse_u64, (text, field), read),
        text@ == written@,
    ensures
        read == CentralResult::<u64>::Ok(number),
{
    lemma_decimal_reads_back(number as nat);
}

/// A character that resource identifiers are made of: an ASCII letter or digit, a point, an
/// underscore, a colon or a hyphen.
pub open spec fn is_name_char(c: char) -> bool {
    ||| '0' <= c <= '9' || 'a' <= c <= 'z' || 'A' <= c <= 'Z'
    ||| c == '.' || c == '_' || c == ':' || c == '-'
}

/// A resource identifier has between 1 and 128 characters, all of the kind that names are made of.
pub proof fn lemma_resource_identifier(text: &str, valid: bool)
    requires
        call_ensures(resource_identifier_is_valid, (text,), valid),
    ensures
        valid <==> {
            &&& 0 < text@.len() <= 128
            &&& forall|i: int| 0 <= i < text@.len() ==> is_name_char(#[trigger] text@[i])
        },
{
    assert(forall|c: char| #[trigger] is_name_char(c) == is_identifier_char(c));
}

/// A text with a character that is visible is not blank; an empty one is, and so is one of spaces,
/// tabs and line ends.
pub proof fn lemma_blank_text(text: &str, at: int, blank: bool)
    requires
        call_ensures(text_is_blank, (text,), blank),
    ensures
        0 <= at < text@.len() && '!' <= text@[at] <= '~' ==> !blank,
        text@.len() == 0 ==> blank,
        (forall|i: int|
            0 <= i < text@.len() ==> #[trigger] text@[i] == ' ' || text@[i] == '\t' || text@[i]
                == '\n' || text@[i] == '\r') ==> blank,
{
    if 0 <= at < text@.len() && '!' <= text@[at] <= '~' {
        assert(!is_white_space(text@[at]));
    }
}

/// Each step of an enrollment has a name of its own.
pub proof fn lemma_step_is_named(kind: AgentEnrollmentLifecycleAuditKind, name: &'static str)
    requires
        call_ensures(lifecycle_kind_name, (kind,), name),
    ensures
        name@ == "token-issued"@ <==> kind is TokenIssued,
        name@ == "pending-approval"@ <==> kind is PendingApproval,
        name@ == "approved"@ <==> kind is Approved,
        name@ == "enrolled"@ <==> kind is Enrolled,
        name@ == "rejected"@ <==> kind is Rejected,
        name@ == "expired"@ <==> kind is Expired,
        name@ == "revoked"@ <==> kind is Revoked,
{
    reveal_strlit("token-issued");
    reveal_strlit("pending-approval");
    reveal_strlit("approved");
    reveal_strlit("enrolled");
    reveal_strlit("rejected");
    reveal_strlit("expired");
    reveal_strlit("revoked");
    assert("token-issued"@.len() == 12);
    assert("pending-approval"@.len() == 16);
    assert("approved"@.len() == 8);
    assert("enrolled"@.len() == 8);
    assert("rejected"@.len() == 8);
    assert("expired"@.len() == 7);
    assert("revoked"@.len() == 7);
    assert("approved"@[0] != "enrolled"@[0]);
    assert("approved"@[0] != "rejected"@[0]);
    assert("enrolled"@[0] != "rejected"@[0]);
    assert("expired"@[0] != "revoked"@[0]);
}

/// The event of a decision says who decided what on which enrollment, when, and which version came of
/// it. Without a request, a decider or a time there is none.
pub proof fn lemma_decision_has_its_event(
    enrollment: &AgentEnrollmentRecord,
    result: CentralResult<AgentEnrollmentAuditEvent>,
)
    requires
        call_ensures(decision_audit_event, (enrollment,), result),
    ensures
        result is Ok <==> {
            &&& enrollment.decision_request is Some
            &&& enrollment.decided_by is Some
            &&& enrollment.decided_at_unix_ms is Some
            &&& enrollment.decision_request->0.expected_resource_version < u64::MAX
        },
        result is Err ==> fails_with(result, CentralErrorCode::Internal),
        result matches Ok(event) ==> {
            let request = enrollment.decision_request->0;
            &&& event.kind is Rejected <==> request.decision is Reject
            &&& request.decision is Approve ==> (event.kind is ReplacementApproved
                <==> enrollment.replaces_enrollment_id is Some)
            &&& event.tenant_id@ == enrollment.tenant_id@
            &&& event.enrollment_id@ == enrollment.enrollment_id@
            &&& event.storage_volume_id@ == enrollment.storage_volume_id@
            &&& event.decision_request_id@ == request.decision_request_id@
            &&& event.resource_version == request.expected_resource_version + 1
            &&& event.actor@ == enrollment.decided_by->0@
            &&& event.occurred_at_unix_ms == enrollment.decided_at_unix_ms->0
            &&& event.event_id@ == "agent-enrollment:"@ + enrollment.enrollment_id@ + ":"@
                + request.decision_request_id@
        },
{
}

} // verus!
