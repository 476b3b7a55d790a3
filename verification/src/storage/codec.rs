//! Column values: numbers, times, digests and search patterns.
use vstd::prelude::*;
use vstd::string::*;

use crate::digest::{ContentDigest, ManifestId};
use crate::error::{
    corruption, corruption_fault, failure, fault, fault_of, final_failure, final_fault,
    CentralError, CentralErrorCode, CentralResult, Fault,
};
use crate::identifier::{Identifier, UnixMillis};
use crate::text::{chars_of, decimal, decimal_text, digit_char};

verus! {

/// The only format in which stored payloads are written.
pub const STORED_FORMAT_VERSION: u32 = 1;

/// A decimal digit.
pub open spec fn is_digit(c: char) -> bool {
    '0' <= c <= '9'
}

/// The number that a decimal digit stands for.
pub open spec fn digit_value(c: char) -> nat {
    (c as nat - '0' as nat) as nat
}

/// A numeral without sign and without leading zeros.
pub open spec fn is_canonical_decimal(text: Seq<char>) -> bool {
    &&& text.len() > 0
    &&& text.len() > 1 ==> text[0] != '0'
    &&& forall|i: int| 0 <= i < text.len() ==> is_digit(#[trigger] text[i])
}

/// The number that a numeral stands for.
pub open spec fn numeral_value(text: Seq<char>) -> nat
    decreases text.len(),
{
    if text.len() == 0 {
        0
    } else {
        numeral_value(text.drop_last()) * 10 + digit_value(text.last())
    }
}

/// A prefix of a numeral stands for no more than the whole.
proof fn lemma_prefix_value(text: Seq<char>, count: int)
    requires
        0 <= count <= text.len(),
    ensures
        numeral_value(text.take(count)) <= numeral_value(text),
    decreases text.len(),
{
    if count == text.len() {
        assert(text.take(count) =~= text);
    } else {
        lemma_prefix_value(text.drop_last(), count);
        assert(text.drop_last().take(count) =~= text.take(count));
    }
}

/// Writing a number in decimal and reading it back gives the number.
pub proof fn lemma_decimal_reads_back(number: nat)
    ensures
        is_canonical_decimal(decimal(number)),
        numeral_value(decimal(number)) == number,
        number > 0 ==> decimal(number)[0] != '0',
    decreases number,
{
    reveal_with_fuel(numeral_value, 2);
    if number >= 10 {
        lemma_decimal_reads_back(number / 10);
        let head = decimal(number / 10);
        assert(decimal(number).drop_last() =~= head);
        assert(decimal(number).last() == digit_char(number % 10));
    } else {
        assert(decimal(number).drop_last() =~= Seq::<char>::empty());
    }
}

/// Why a stored numeral is refused; `outside` says what a number beyond 64 bits is called.
pub open spec fn numeral_fault(text: Seq<char>, field: Seq<char>, outside: Seq<char>) -> Option<
    Fault,
> {
    if !is_canonical_decimal(text) {
        Some(corruption_fault("stored "@ + field + " is not canonical decimal u64"@))
    } else if numeral_value(text) > u64::MAX {
        Some(corruption_fault("stored "@ + field + outside))
    } else {
        None
    }
}

fn stored_field_failure(field: &str, problem: &str) -> (failure: CentralError)
    ensures
        failure@ == corruption_fault("stored "@ + field@ + problem@),
{
    let mut message = String::from_str("stored ");
    message.append(field);
    message.append(problem);
    corruption(message.as_str())
}

fn is_canonical(chars: &Vec<char>) -> (canonical: bool)
    ensures
        canonical == is_canonical_decimal(chars@),
{
    if chars.len() == 0 || (chars.len() > 1 && chars[0] == '0') {
        return false;
    }
    let mut index: usize = 0;
    while index < chars.len()
        invariant
            index <= chars.len(),
            forall|i: int| 0 <= i < index ==> is_digit(#[trigger] chars@[i]),
        decreases chars.len() - index,
    {
        let c = chars[index];
        if !('0' <= c && c <= '9') {
            return false;
        }
        index += 1;
    }
    true
}

fn parse_numeral(value: &str, field: &str, outside: &str) -> (result: CentralResult<u64>)
    ensures
        fault_of(result) == numeral_fault(value@, field@, outside@),
        result matches Ok(number) ==> number == numeral_value(value@),
{
    let chars = chars_of(value);
    if !is_canonical(&chars) {
        return Err(stored_field_failure(field, " is not canonical decimal u64"));
    }
    let mut number: u64 = 0;
    let mut index: usize = 0;
    while index < chars.len()
        invariant
            index <= chars.len(),
            chars@ == value@,
            is_canonical_decimal(chars@),
            number == numeral_value(chars@.take(index as int)),
        decreases chars.len() - index,
    {
        let digit: u64 = (chars[index] as u32 - '0' as u32) as u64;
        proof {
            let next = chars@.take(index + 1);
            assert(next.drop_last() =~= chars@.take(index as int));
            assert(next.last() == chars@[index as int]);
            lemma_prefix_value(chars@, index + 1);
        }
        if number > (u64::MAX - digit) / 10 {
            return Err(stored_field_failure(field, outside));
        }
        number = number * 10 + digit;
        index += 1;
    }
    proof {
        assert(chars@.take(index as int) =~= value@);
    }
    Ok(number)
}

/// Reads a number of the control catalog.
pub fn parse_u64(value: &str, field: &str) -> (result: CentralResult<u64>)
    ensures
        fault_of(result) == numeral_fault(value@, field@, " exceeds u64"@),
        result matches Ok(number) ==> number == numeral_value(value@),
{
    parse_numeral(value, field, " exceeds u64")
}

/// Reads a number of the authority store.
pub fn parse_canonical_u64(value: &str, field: &str) -> (result: CentralResult<u64>)
    ensures
        fault_of(result) == numeral_fault(value@, field@, " is outside the u64 range"@),
        result matches Ok(number) ==> number == numeral_value(value@),
{
    parse_numeral(value, field, " is outside the u64 range")
}

/// Why a stored blob is not a digest.
pub open spec fn blob_fault(bytes: Seq<u8>, field: Seq<char>) -> Option<Fault> {
    if bytes.len() == 32 {
        None
    } else {
        Some(corruption_fault("stored "@ + field + " is not exactly 32 bytes"@))
    }
}

/// Reads a blob of exactly 32 bytes.
pub fn exact_32(bytes: &Vec<u8>, field: &str) -> (result: CentralResult<[u8; 32]>)
    ensures
        fault_of(result) == blob_fault(bytes@, field@),
        result matches Ok(array) ==> array@ == bytes@,
{
    if bytes.len() != 32 {
        return Err(stored_field_failure(field, " is not exactly 32 bytes"));
    }
    let mut array: [u8; 32] = [0u8;32];
    let mut index: usize = 0;
    while index < 32
        invariant
            index <= 32,
            bytes.len() == 32,
            array@.len() == 32,
            forall|i: int| 0 <= i < index ==> array@[i] == bytes@[i],
        decreases 32 - index,
    {
        array[index] = bytes[index];
        index += 1;
    }
    proof {
        assert(array@ =~= bytes@);
    }
    Ok(array)
}

/// Reads a digest.
pub fn exact_digest(bytes: &Vec<u8>, field: &str) -> (result: CentralResult<ContentDigest>)
    ensures
        fault_of(result) == blob_fault(bytes@, field@),
        result matches Ok(digest) ==> digest@ == bytes@,
{
    match exact_32(bytes, field) {
        Ok(array) => Ok(ContentDigest::from_bytes(array)),
        Err(problem) => Err(problem),
    }
}

/// Reads a digest that may be absent.
pub fn optional_digest(bytes: &Option<Vec<u8>>, field: &str) -> (result: CentralResult<
    Option<ContentDigest>,
>)
    ensures
        fault_of(result) == (match *bytes {
            Some(present) => blob_fault(present@, field@),
            None => None,
        }),
        result matches Ok(digest) ==> (digest is Some <==> bytes is Some),
        result matches Ok(Some(digest)) ==> digest@ == bytes->0@,
{
    match bytes {
        None => Ok(None),
        Some(present) => match exact_digest(present, field) {
            Ok(digest) => Ok(Some(digest)),
            Err(problem) => Err(problem),
        },
    }
}

/// Reads the identity of a Manifest.
pub fn manifest_id_from_blob(bytes: &Vec<u8>) -> (result: CentralResult<ManifestId>)
    ensures
        fault_of(result) == blob_fault(bytes@, "ManifestId"@),
        result matches Ok(manifest_id) ==> manifest_id@ == bytes@,
{
    exact_digest(bytes, "ManifestId")
}

/// Reads a time of the control catalog.
pub fn unix_ms(value: i64) -> (result: CentralResult<UnixMillis>)
    ensures
        fault_of(result) == (if value < 0 {
            Some(corruption_fault("stored UnixMillis is negative"@))
        } else {
            None
        }),
        result matches Ok(time) ==> time == value,
{
    if value < 0 {
        Err(corruption("stored UnixMillis is negative"))
    } else {
        Ok(value as u64)
    }
}

/// Writes a time of the control catalog.
pub fn as_i64(value: UnixMillis) -> (result: CentralResult<i64>)
    ensures
        fault_of(result) == (if value > i64::MAX {
            Some(
                final_fault(
                    CentralErrorCode::ProtocolInvalid,
                    "UnixMillis exceeds the SQLite range"@,
                ),
            )
        } else {
            None
        }),
        result matches Ok(column) ==> column == value,
{
    if value > i64::MAX as u64 {
        Err(final_failure(CentralErrorCode::ProtocolInvalid, "UnixMillis exceeds the SQLite range"))
    } else {
        Ok(value as i64)
    }
}

/// Why a time cannot be a column of the Agent registry.
pub open spec fn sqlite_millis_fault(value: UnixMillis) -> Option<Fault> {
    if value > i64::MAX {
        Some(
            final_fault(
                CentralErrorCode::ProtocolInvalid,
                "Agent enrollment timestamp exceeds the SQLite keyset range"@,
            ),
        )
    } else {
        None
    }
}

/// Writes a time of the Agent registry.
pub fn sqlite_millis(value: UnixMillis) -> (result: CentralResult<i64>)
    ensures
        fault_of(result) == sqlite_millis_fault(value),
        result matches Ok(column) ==> column == value,
{
    if value > i64::MAX as u64 {
        Err(
            final_failure(
                CentralErrorCode::ProtocolInvalid,
                "Agent enrollment timestamp exceeds the SQLite keyset range",
            ),
        )
    } else {
        Ok(value as i64)
    }
}

/// Characters that a search pattern gives a meaning of their own.
pub open spec fn is_pattern_char(c: char) -> bool {
    c == '\\' || c == '%' || c == '_'
}

/// A text as a search pattern that matches it literally, with `\` as the escape character.
pub open spec fn escaped(text: Seq<char>) -> Seq<char>
    decreases text.len(),
{
    if text.len() == 0 {
        Seq::empty()
    } else if is_pattern_char(text.last()) {
        escaped(text.drop_last()).push('\\').push(text.last())
    } else {
        escaped(text.drop_last()).push(text.last())
    }
}

/// What a search pattern matches when every character stands for itself; nothing where a
/// character with a meaning of its own is not escaped.
pub open spec fn literal_of(pattern: Seq<char>) -> Option<Seq<char>>
    decreases pattern.len(),
{
    if pattern.len() == 0 {
        Some(Seq::empty())
    } else if pattern[0] == '\\' {
        if pattern.len() < 2 {
            None
        } else {
            match literal_of(pattern.skip(2)) {
                Some(rest) => Some(seq![pattern[1]] + rest),
                None => None,
            }
        }
    } else if is_pattern_char(pattern[0]) {
        None
    } else {
        match literal_of(pattern.skip(1)) {
            Some(rest) => Some(seq![pattern[0]] + rest),
            None => None,
        }
    }
}

proof fn lemma_escaped_first(text: Seq<char>)
    requires
        text.len() > 0,
    ensures
        escaped(text) == (if is_pattern_char(text[0]) {
            seq!['\\', text[0]]
        } else {
            seq![text[0]]
        }) + escaped(text.skip(1)),
    decreases text.len(),
{
    let head = if is_pattern_char(text[0]) {
        seq!['\\', text[0]]
    } else {
        seq![text[0]]
    };
    if text.len() == 1 {
        assert(text.drop_last() =~= Seq::<char>::empty());
        assert(text.skip(1) =~= Seq::<char>::empty());
        assert(escaped(text.drop_last()) =~= Seq::<char>::empty());
        assert(escaped(text) =~= head + escaped(text.skip(1)));
    } else {
        lemma_escaped_first(text.drop_last());
        assert(text.drop_last().skip(1) =~= text.skip(1).drop_last());
        assert(text.skip(1).last() == text.last());
        assert(escaped(text) =~= head + escaped(text.skip(1)));
    }
}

/// An escaped text matches the text itself and nothing else.
pub proof fn lemma_escaped_is_literal(text: Seq<char>)
    ensures
        literal_of(escaped(text)) == Some(text),
    decreases text.len(),
{
    if text.len() > 0 {
        lemma_escaped_first(text);
        lemma_escaped_is_literal(text.skip(1));
        let rest = escaped(text.skip(1));
        if is_pattern_char(text[0]) {
            assert(escaped(text).skip(2) =~= rest);
        } else {
            assert(escaped(text).skip(1) =~= rest);
        }
        assert(seq![text[0]] + text.skip(1) =~= text);
    } else {
        assert(escaped(text) =~= Seq::<char>::empty());
        assert(text =~= Seq::<char>::empty());
    }
}

/// Escapes a search text.
pub fn escape_like(value: &str) -> (pattern: String)
    ensures
        pattern@ == escaped(value@),
{
    let chars = chars_of(value);
    let mut pattern = String::new();
    let mut index: usize = 0;
    while index < chars.len()
        invariant
            index <= chars.len(),
            chars@ == value@,
            pattern@ == escaped(value@.take(index as int)),
        decreases chars.len() - index,
    {
        let c = chars[index];
        let ghost done = pattern@;
        if c == '\\' || c == '%' || c == '_' {
            pattern.append("\\");
            proof {
                reveal_strlit("\\");
                assert(pattern@ =~= done.push('\\'));
            }
        }
        let ghost before = pattern@;
        pattern.append(value.substring_char(index, index + 1));
        proof {
            assert(value@.subrange(index as int, index + 1) =~= seq![c]);
            assert(pattern@ =~= before.push(c));
            let next = value@.take(index + 1);
            assert(next.drop_last() =~= value@.take(index as int));
        }
        index += 1;
    }
    proof {
        assert(value@.take(index as int) =~= value@);
    }
    pattern
}

/// Escapes a search text of the Agent registry.
pub fn escape_like_pattern(value: &str) -> (pattern: String)
    ensures
        pattern@ == escaped(value@),
{
    escape_like(value)
}

/// Why a stored payload is refused; `subject` says whose it is.
pub open spec fn stored_format_fault(format: u32, subject: Seq<char>) -> Option<Fault> {
    if format == STORED_FORMAT_VERSION {
        None
    } else {
        Some(
            corruption_fault(
                subject + " record format "@ + decimal(format as nat) + " is unsupported"@,
            ),
        )
    }
}

/// Checks the format that a stored payload declares.
pub fn validate_stored_format(format: u32, subject: &str) -> (result: CentralResult<()>)
    ensures
        fault_of(result) == stored_format_fault(format, subject@),
{
    if format == STORED_FORMAT_VERSION {
        return Ok(());
    }
    let mut message = String::from_str(subject);
    message.append(" record format ");
    message.append(decimal_text(format as u64).as_str());
    message.append(" is unsupported");
    Err(corruption(message.as_str()))
}

/// A failed operation of the authority store or of the control catalog.
pub fn storage_error(subject: &str, problem: &str) -> (failure: CentralError)
    ensures
        failure@ == fault(
            CentralErrorCode::StorageFailure,
            "SQLite "@ + subject@ + " storage operation failed: "@ + problem@,
        ),
{
    let mut message = String::from_str("SQLite ");
    message.append(subject);
    message.append(" storage operation failed: ");
    message.append(problem);
    CentralError::new(CentralErrorCode::StorageFailure, message)
}

/// A failed operation of the Agent registry, which does not say what failed.
pub fn registry_storage_error() -> (problem: CentralError)
    ensures
        problem@ == fault(
            CentralErrorCode::StorageFailure,
            "Agent registry storage operation failed"@,
        ),
{
    failure(CentralErrorCode::StorageFailure, "Agent registry storage operation failed")
}

/// Stored state that contradicts itself.
pub fn storage_corruption(message: &str) -> (failure: CentralError)
    ensures
        failure@ == corruption_fault(message@),
{
    corruption(message)
}

/// Takes over what reading a stored identifier gave.
pub fn parse_id(parsed: Result<Identifier, String>) -> (result: CentralResult<Identifier>)
    ensures
        fault_of(result) == (match parsed {
            Ok(_) => None,
            Err(problem) => Some(
                corruption_fault("stored catalog identifier is invalid: "@ + problem@),
            ),
        }),
        result matches Ok(id) ==> parsed == Ok::<Identifier, String>(id),
{
    match parsed {
        Ok(id) => Ok(id),
        Err(problem) => {
            let mut message = String::from_str("stored catalog identifier is invalid: ");
            message.append(problem.as_str());
            Err(corruption(message.as_str()))
        },
    }
}

} // verus!
