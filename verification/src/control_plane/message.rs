//! Messages of publication failures, kept within what a control error may carry.
use vstd::prelude::*;
use vstd::utf8::{decode_utf8, encode_utf8, is_char_boundary};

use crate::text::{is_blank, is_white_space, text_is_blank};

verus! {

/// The most bytes that the message of a control error may take.
pub const CONTROL_ERROR_MESSAGE_LIMIT: usize = 4096;

/// The last character boundary that is not after `limit`.
pub open spec fn last_boundary(bytes: Seq<u8>, limit: int) -> int
    decreases limit,
{
    if limit <= 0 {
        0
    } else if is_char_boundary(bytes, limit) {
        limit
    } else {
        last_boundary(bytes, limit - 1)
    }
}

/// What is left of a publisher's message: a fixed text for a blank one, the message itself where it
/// fits, and otherwise as many whole characters as fit before an ellipsis.
pub open spec fn bounded_message(message: Seq<char>) -> Seq<char> {
    let bytes = encode_utf8(message);
    if is_blank(message) {
        "Index publication was rejected by the publisher"@
    } else if bytes.len() <= CONTROL_ERROR_MESSAGE_LIMIT {
        message
    } else {
        decode_utf8(bytes.subrange(0, last_boundary(bytes, CONTROL_ERROR_MESSAGE_LIMIT - 3)))
            + "..."@
    }
}

/// The encoding of two texts in a row is the two encodings in a row.
pub proof fn lemma_encoding_of_sum(left: Seq<char>, right: Seq<char>)
    ensures
        encode_utf8(left + right) == encode_utf8(left) + encode_utf8(right),
    decreases left.len(),
{
    if left.len() == 0 {
        assert(left + right =~= right);
        assert(encode_utf8(left) =~= Seq::<u8>::empty());
    } else {
        assert((left + right).drop_first() =~= left.drop_first() + right);
        lemma_encoding_of_sum(left.drop_first(), right);
        assert(encode_utf8(left + right) =~= encode_utf8(left) + encode_utf8(right));
    }
}

proof fn lemma_last_boundary(bytes: Seq<u8>, limit: int)
    requires
        0 <= limit <= bytes.len(),
        vstd::utf8::valid_utf8(bytes),
    ensures
        0 <= last_boundary(bytes, limit) <= limit,
        is_char_boundary(bytes, last_boundary(bytes, limit)),
    decreases limit,
{
    if limit > 0 && !is_char_boundary(bytes, limit) {
        lemma_last_boundary(bytes, limit - 1);
    }
}

/// A bounded message always fits its limit.
pub proof fn lemma_bounded_message_fits(message: Seq<char>)
    ensures
        encode_utf8(bounded_message(message)).len() <= CONTROL_ERROR_MESSAGE_LIMIT,
{
    broadcast use {
        vstd::utf8::encode_utf8_valid_utf8,
        vstd::utf8::decode_utf8_encode_utf8,
        vstd::utf8::valid_utf8_split,
    };

    let bytes = encode_utf8(message);
    if is_blank(message) {
        reveal_strlit("Index publication was rejected by the publisher");
        lemma_ascii_width("Index publication was rejected by the publisher"@);
    } else if bytes.len() > CONTROL_ERROR_MESSAGE_LIMIT {
        let end = last_boundary(bytes, CONTROL_ERROR_MESSAGE_LIMIT - 3);
        lemma_last_boundary(bytes, CONTROL_ERROR_MESSAGE_LIMIT - 3);
        let head = bytes.subrange(0, end);
        assert(vstd::utf8::valid_utf8(head));
        assert(encode_utf8(decode_utf8(head)) == head);
        reveal_strlit("...");
        lemma_ascii_width("..."@);
        lemma_encoding_of_sum(decode_utf8(head), "..."@);
    }
}

/// A bounded message always says something.
pub proof fn lemma_bounded_message_is_not_blank(message: Seq<char>)
    ensures
        !is_blank(bounded_message(message)),
{
    if is_blank(message) {
        reveal_strlit("Index publication was rejected by the publisher");
        let text = "Index publication was rejected by the publisher"@;
        assert(text[0] == 'I');
        assert(!is_white_space(text[0]));
    } else if encode_utf8(message).len() > CONTROL_ERROR_MESSAGE_LIMIT {
        reveal_strlit("...");
        let bounded = bounded_message(message);
        let last = bounded[bounded.len() - 1];
        assert(last == '.');
        assert(!is_white_space(last));
    }
}

/// Characters of one byte each take as many bytes as there are characters.
proof fn lemma_ascii_width(text: Seq<char>)
    requires
        forall|i: int| 0 <= i < text.len() ==> (#[trigger] text[i]) as u32 <= 0x7f,
    ensures
        encode_utf8(text).len() == text.len(),
    decreases text.len(),
{
    if text.len() > 0 {
        assert(text[0] as u32 <= 0x7f);
        lemma_ascii_width(text.drop_first());
        vstd::utf8::encode_utf8_first_scalar(text);
    }
}

/// Bounds a publisher's message, cutting it between characters.
pub fn bounded_control_error_message(message: String) -> (bounded: String)
    ensures
        bounded@ == bounded_message(message@),
        !is_blank(bounded@),
        encode_utf8(bounded@).len() <= CONTROL_ERROR_MESSAGE_LIMIT,
{
    proof {
        lemma_bounded_message_fits(message@);
        lemma_bounded_message_is_not_blank(message@);
    }
    let text = message.as_str();
    if text_is_blank(text) {
        return String::from_str("Index publication was rejected by the publisher");
    }
    if text.as_bytes().len() <= CONTROL_ERROR_MESSAGE_LIMIT {
        return message;
    }
    let ghost bytes = encode_utf8(message@);
    let mut end: usize = CONTROL_ERROR_MESSAGE_LIMIT - 3;
    proof {
        broadcast use vstd::utf8::encode_utf8_valid_utf8;

        lemma_last_boundary(bytes, end as int);
    }
    while !text.is_char_boundary(end)
        invariant
            text@ == message@,
            bytes == encode_utf8(message@),
            end <= CONTROL_ERROR_MESSAGE_LIMIT - 3,
            last_boundary(bytes, end as int) == last_boundary(
                bytes,
                CONTROL_ERROR_MESSAGE_LIMIT - 3,
            ),
        decreases end,
    {
        proof {
            broadcast use {
                vstd::utf8::encode_utf8_valid_utf8,
                vstd::utf8::is_char_boundary_start_end_of_seq,
            };

            assert(is_char_boundary(bytes, 0));
        }
        end -= 1;
    }
    let (head, _) = text.split_at(end);
    let mut bounded = String::from_str(head);
    proof {
        broadcast use {
            vstd::utf8::encode_utf8_valid_utf8,
            vstd::utf8::encode_utf8_decode_utf8,
            vstd::utf8::is_char_boundary_start_end_of_seq,
        };

        assert(is_char_boundary(bytes, 0));
        assert(last_boundary(bytes, end as int) == end);
        assert(encode_utf8(head@) == bytes.subrange(0, end as int));
        assert(decode_utf8(encode_utf8(head@)) == head@);
    }
    bounded.append("...");
    bounded
}

} // verus!
