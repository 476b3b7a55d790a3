//! How a schema script is read, and when a stored schema is the one that the script creates.
use vstd::prelude::*;

use crate::error::{CentralErrorCode, CentralResult};
use crate::laws::jobs::fails_with;
use crate::storage::datasource::{
    registry_entries_fault_from, registry_entry_fault, validate_registry_schema, StoredObject,
};
use crate::storage::schema::{
    at_semicolon, at_space, is_catalog_schema_object, is_snapshot_catalog_schema_object,
    lemma_run_length, normalize_schema_sql, presence_entry_fault, presence_fault_from,
    schema_object, schema_presence, schema_statements, statements, views, words, words_of,
    CatalogSchemaPresence, SchemaEntry, SchemaObject, SchemaPart,
};

verus! {

/// A text has no semicolon in it.
pub open spec fn is_one_piece(text: Seq<char>) -> bool {
    forall|i: int| 0 <= i < text.len() ==> #[trigger] text[i] != ';'
}

/// The statements of a script are those of what comes before a semicolon, and then those of what
/// comes after it. What has no semicolon, begins and ends visibly, is one statement, and nothing is
/// none.
pub proof fn lemma_semicolons_part_statements(
    first: &str,
    rest: &str,
    script: &str,
    before: Vec<String>,
    after: Vec<String>,
    found: Vec<String>,
)
    requires
        call_ensures(schema_statements, (first,), before),
        call_ensures(schema_statements, (rest,), after),
        call_ensures(schema_statements, (script,), found),
        is_one_piece(first@),
        script@ == first@ + seq![';'] + rest@,
    ensures
        views(found@) == views(before@) + views(after@),
        first@.len() == 0 ==> before@.len() == 0,
        first@.len() > 0 && '!' <= first@[0] <= '~' && '!' <= first@.last() <= '~' ==> before@.len()
            == 1 && before@[0]@ == first@,
{
    let stop = at_semicolon();
    assert forall|i: int| 0 <= i < first@.len() implies !stop(#[trigger] first@[i]) by {
        assert(first@[i] != ';');
    }
    assert forall|i: int| 0 <= i < first@.len() implies !stop(#[trigger] script@[i]) by {
        assert(script@[i] == first@[i]);
        assert(first@[i] != ';');
    }
    assert(script@[first@.len() as int] == ';');
    lemma_run_length(first@, stop, first@.len());
    lemma_run_length(script@, stop, first@.len());
    assert(script@.take(first@.len() as int) =~= first@);
    assert(first@.take(first@.len() as int) =~= first@);
    assert(script@.skip(first@.len() as int + 1) =~= rest@);
    assert(views(before@) == statements(first@));
    assert(views(found@) =~= views(before@) + views(after@));
    assert(views(before@).len() == before@.len());
    if first@.len() > 0 && '!' <= first@[0] <= '~' && '!' <= first@.last() <= '~' {
        assert(statements(first@) =~= seq![first@]);
        assert(views(before@)[0] == first@);
    }
}

/// A text has no white space in it.
pub open spec fn is_one_word(text: Seq<char>) -> bool {
    &&& text.len() > 0
    &&& forall|i: int|
        0 <= i < text.len() ==> #[trigger] text[i] != ' ' && text[i] != '\t' && text[i] != '\n'
            && text[i] != '\r' && text[i] != '\u{c}'
}

/// The words of a text are its first word, up to a space, and then the words of what comes after; a
/// space in front counts for nothing.
pub proof fn lemma_spaces_part_words(
    word: &str,
    rest: &str,
    spaced: &str,
    text: &str,
    after: Vec<String>,
    led: Vec<String>,
    found: Vec<String>,
)
    requires
        call_ensures(words_of, (rest,), after),
        call_ensures(words_of, (spaced,), led),
        call_ensures(words_of, (text,), found),
        is_one_word(word@),
        spaced@ == seq![' '] + rest@,
        text@ == word@ + spaced@,
    ensures
        rest@.len() == 0 ==> after@.len() == 0,
        views(led@) == views(after@),
        views(found@) == seq![word@] + views(after@),
{
    let stop = at_space();
    assert(spaced@.skip(1) =~= rest@);
    assert(spaced@[0] == ' ');
    assert(views(led@) == words(spaced@));
    let tail = text@.skip(1);
    let length = (word@.len() - 1) as nat;
    assert(text@[0] == word@[0]);
    assert forall|i: int| 0 <= i < length implies !stop(#[trigger] tail[i]) by {
        assert(tail[i] == word@[i + 1]);
    }
    assert(tail[length as int] == ' ');
    lemma_run_length(tail, stop, length);
    assert(text@.take(word@.len() as int) =~= word@);
    assert(text@.skip(word@.len() as int) =~= spaced@);
    assert(views(found@) =~= seq![word@] + views(after@));
    assert(views(after@).len() == after@.len());
}

proof fn lemma_no_entry_is_bad(entries: Seq<SchemaEntry>, part: SchemaPart, from: int, at: int)
    requires
        presence_fault_from(entries, part, from) is None,
        0 <= from <= at < entries.len(),
    ensures
        presence_entry_fault(entries[at], part) is None,
    decreases at - from,
{
    if from < at {
        lemma_no_entry_is_bad(entries, part, from + 1, at);
    }
}

/// A part of the schema is there as a whole or not at all: where it is told to be absent none of its
/// objects is stored, where it is told to be current each is, as its statement says but for white
/// space, and anything else is refused. Every statement creates a table or an index.
pub proof fn lemma_part_is_there_as_a_whole(
    entries: &Vec<SchemaEntry>,
    part: SchemaPart,
    at: int,
    statement: &str,
    object: CentralResult<SchemaObject>,
    name: &str,
    in_catalog: bool,
    in_snapshots: bool,
    expected: String,
    stored: &str,
    actual: String,
    result: CentralResult<CatalogSchemaPresence>,
)
    requires
        call_ensures(schema_presence, (entries, part), result),
        0 <= at < entries@.len(),
        statement@ == entries@[at].statement@,
        call_ensures(schema_object, (statement,), object),
        object is Ok ==> name@ == object->Ok_0.name@,
        call_ensures(is_catalog_schema_object, (name,), in_catalog),
        call_ensures(is_snapshot_catalog_schema_object, (name,), in_snapshots),
        call_ensures(normalize_schema_sql, (statement,), expected),
        entries@[at].stored is Some ==> stored@ == entries@[at].stored->0@,
        call_ensures(normalize_schema_sql, (stored,), actual),
    ensures
        ({
            let belongs = if part is SnapshotCatalog {
                in_snapshots
            } else {
                in_catalog
            };
            &&& result is Ok ==> object is Ok
            &&& result is Ok && result->Ok_0 is Absent && belongs ==> entries@[at].stored is None
            &&& result is Ok && result->Ok_0 is Current && belongs ==> entries@[at].stored is Some
                && actual@ == expected@
            &&& result is Err ==> fails_with(result, CentralErrorCode::StorageFailure)
        }),
{
    if result is Ok {
        lemma_no_entry_is_bad(entries@, part, 0, at);
        let entry = entries@[at];
        assert(crate::storage::schema::entry_in_part(entry, part)
            || !crate::storage::schema::entry_in_part(entry, part));
    } else {
        lemma_presence_fails_for_storage(entries@, part, 0);
    }
}

proof fn lemma_presence_fails_for_storage(entries: Seq<SchemaEntry>, part: SchemaPart, from: int)
    ensures
        presence_fault_from(entries, part, from) matches Some(problem)
            ==> problem.code is StorageFailure,
    decreases entries.len() - from,
{
    if 0 <= from < entries.len() {
        lemma_presence_fails_for_storage(entries, part, from + 1);
    }
}

proof fn lemma_no_registry_entry_is_bad(entries: Seq<SchemaEntry>, from: int, at: int)
    requires
        registry_entries_fault_from(entries, from) is None,
        0 <= from <= at < entries.len(),
    ensures
        registry_entry_fault(entries[at]) is None,
    decreases at - from,
{
    if from < at {
        lemma_no_registry_entry_is_bad(entries, from + 1, at);
    }
}

/// A registry schema is the current one only where each of its statements creates an object that is
/// stored as the statement says, but for white space.
pub proof fn lemma_registry_schema_is_current(
    entries: &Vec<SchemaEntry>,
    objects: &Vec<StoredObject>,
    at: int,
    statement: &str,
    object: CentralResult<SchemaObject>,
    expected: String,
    stored: &str,
    actual: String,
    result: CentralResult<()>,
)
    requires
        call_ensures(validate_registry_schema, (entries, objects), result),
        0 <= at < entries@.len(),
        statement@ == entries@[at].statement@,
        call_ensures(schema_object, (statement,), object),
        call_ensures(normalize_schema_sql, (statement,), expected),
        entries@[at].stored is Some ==> stored@ == entries@[at].stored->0@,
        call_ensures(normalize_schema_sql, (stored,), actual),
    ensures
        result is Ok ==> object is Ok && entries@[at].stored is Some && actual@ == expected@,
{
    if result is Ok {
        lemma_no_registry_entry_is_bad(entries@, 0, at);
    }
}

} // verus!
