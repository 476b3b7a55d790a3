//! How numbers, times, digests and search texts pass through the columns of a durable store.
use vstd::prelude::*;

use crate::digest::{ContentDigest, ManifestId};
use crate::error::{CentralErrorCode, CentralResult};
use crate::identifier::UnixMillis;
use crate::laws::jobs::fails_with;
use crate::storage::codec::{
    as_i64, escape_like, escape_like_pattern, exact_32, exact_digest, manifest_id_from_blob,
    optional_digest, parse_canonical_u64, parse_u64, sqlite_millis, unix_ms, validate_stored_format,
};

verus! {

/// A single digit is read as its value.
pub proof fn lemma_digit_is_read(
    text: &str,
    field: &str,
    number: CentralResult<u64>,
    canonical: CentralResult<u64>,
)
    requires
        call_ensures(parse_u64, (text, field), number),
        call_ensures(parse_canonical_u64, (text, field), canonical),
        text@.len() == 1,
        '0' <= text@[0] <= '9',
    ensures
        number matches Ok(value) && value == text@[0] as int - '0' as int,
        canonical matches Ok(value) && value == text@[0] as int - '0' as int,
{
    assert(text@.drop_last() =~= Seq::<char>::empty());
    assert(crate::storage::codec::numeral_value(text@.drop_last()) == 0);
}

/// One more digit multiplies what was read by ten and adds the digit, as long as the number fits in
/// its 64 bits; a zero in front is never read on.
pub proof fn lemma_digit_is_appended(
    text: &str,
    longer: &str,
    field: &str,
    digit: char,
    before: CentralResult<u64>,
    number: CentralResult<u64>,
    canonical: CentralResult<u64>,
)
    requires
        call_ensures(parse_u64, (text, field), before),
        call_ensures(parse_u64, (longer, field), number),
        call_ensures(parse_canonical_u64, (longer, field), canonical),
        before is Ok,
        '0' <= digit <= '9',
        longer@ == text@.push(digit),
    ensures
        text@[0] != '0' && before->Ok_0 * 10 + (digit as int - '0' as int) <= u64::MAX ==> {
            &&& number matches Ok(value) && value == before->Ok_0 * 10 + (digit as int - '0' as int)
            &&& canonical matches Ok(value) && value == before->Ok_0 * 10 + (digit as int
                - '0' as int)
        },
        text@[0] == '0' || before->Ok_0 * 10 + (digit as int - '0' as int) > u64::MAX ==> {
            &&& fails_with(number, CentralErrorCode::StorageFailure)
            &&& fails_with(canonical, CentralErrorCode::StorageFailure)
        },
{
    assert(longer@.drop_last() =~= text@);
    assert(longer@.last() == digit);
    assert(forall|i: int| 0 <= i < text@.len() ==> longer@[i] == text@[i]);
}

/// A text that is empty or holds anything but digits is no number.
pub proof fn lemma_text_is_no_number(
    text: &str,
    field: &str,
    at: int,
    number: CentralResult<u64>,
    canonical: CentralResult<u64>,
)
    requires
        call_ensures(parse_u64, (text, field), number),
        call_ensures(parse_canonical_u64, (text, field), canonical),
        text@.len() == 0 || (0 <= at < text@.len() && !('0' <= text@[at] <= '9')),
    ensures
        fails_with(number, CentralErrorCode::StorageFailure),
        fails_with(canonical, CentralErrorCode::StorageFailure),
{
    assert(0 <= at < text@.len() ==> !crate::storage::codec::is_digit(text@[at]));
}

/// A digest column holds exactly 32 bytes, and they are what is read.
pub proof fn lemma_blob_is_read(
    bytes: &Vec<u8>,
    field: &str,
    array: CentralResult<[u8; 32]>,
    digest: CentralResult<ContentDigest>,
    manifest: CentralResult<ManifestId>,
)
    requires
        call_ensures(exact_32, (bytes, field), array),
        call_ensures(exact_digest, (bytes, field), digest),
        call_ensures(manifest_id_from_blob, (bytes,), manifest),
    ensures
        bytes@.len() == 32 ==> {
            &&& array matches Ok(read) && read@ == bytes@
            &&& digest matches Ok(read) && read@ == bytes@
            &&& manifest matches Ok(read) && read@ == bytes@
        },
        bytes@.len() != 32 ==> {
            &&& fails_with(array, CentralErrorCode::StorageFailure)
            &&& fails_with(digest, CentralErrorCode::StorageFailure)
            &&& fails_with(manifest, CentralErrorCode::StorageFailure)
        },
{
}

/// An optional digest column is empty where no digest was stored, and else is read as any other.
pub proof fn lemma_optional_blob_is_read(
    bytes: &Option<Vec<u8>>,
    field: &str,
    digest: CentralResult<Option<ContentDigest>>,
)
    requires
        call_ensures(optional_digest, (bytes, field), digest),
    ensures
        bytes is None ==> digest == CentralResult::<Option<ContentDigest>>::Ok(None),
        bytes matches Some(present) ==> if present@.len() == 32 {
            digest matches Ok(Some(read)) && read@ == present@
        } else {
            fails_with(digest, CentralErrorCode::StorageFailure)
        },
{
}

/// A time that was written reads back unchanged. A time past the range of a column is not written,
/// and a negative column is no time.
pub proof fn lemma_time_reads_back(
    time: UnixMillis,
    column: i64,
    written: CentralResult<i64>,
    keyed: CentralResult<i64>,
    read: CentralResult<UnixMillis>,
)
    requires
        call_ensures(as_i64, (time,), written),
        call_ensures(sqlite_millis, (time,), keyed),
        call_ensures(unix_ms, (column,), read),
    ensures
        time <= i64::MAX ==> written is Ok && keyed is Ok && written == keyed,
        time > i64::MAX ==> {
            &&& fails_with(written, CentralErrorCode::ProtocolInvalid)
            &&& fails_with(keyed, CentralErrorCode::ProtocolInvalid)
        },
        column < 0 ==> fails_with(read, CentralErrorCode::StorageFailure),
        column >= 0 ==> read is Ok,
        written == CentralResult::<i64>::Ok(column) <==> read == CentralResult::<UnixMillis>::Ok(
            time,
        ),
{
}

/// Escaping goes character by character: a backslash stands before each backslash, percent sign and
/// underscore, and before nothing else. Both ways to escape agree.
pub proof fn lemma_pattern_grows(
    text: &str,
    longer: &str,
    next: char,
    pattern: String,
    grown: String,
    other: String,
)
    requires
        call_ensures(escape_like, (text,), pattern),
        call_ensures(escape_like, (longer,), grown),
        call_ensures(escape_like_pattern, (longer,), other),
        longer@ == text@.push(next),
    ensures
        text@.len() == 0 ==> pattern@.len() == 0,
        next == '\\' || next == '%' || next == '_' ==> grown@ == pattern@.push('\\').push(next),
        next != '\\' && next != '%' && next != '_' ==> grown@ == pattern@.push(next),
        other@ == grown@,
{
    assert(longer@.drop_last() =~= text@);
}

/// Exactly the records of the first format can be read.
pub proof fn lemma_first_format_is_read(format: u32, subject: &str, result: CentralResult<()>)
    requires
        call_ensures(validate_stored_format, (format, subject), result),
    ensures
        format == 1 <==> result is Ok,
        result is Err ==> fails_with(result, CentralErrorCode::StorageFailure),
{
}

} // verus!
