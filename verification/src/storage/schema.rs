//! Reading schema statements, and holding a stored schema against them.
use vstd::prelude::*;
use vstd::string::*;

use crate::error::{corruption, corruption_fault, fault_of, CentralError, CentralResult, Fault};
use crate::text::{chars_of, is_white_space, text_equals};

verus! {

/// White space between the words of a statement.
pub open spec fn is_space(c: char) -> bool {
    c == ' ' || c == '\t' || c == '\n' || c == '\u{c}' || c == '\r'
}

fn char_is_space(c: char) -> (space: bool)
    ensures
        space == is_space(c),
{
    c == ' ' || c == '\t' || c == '\n' || c == '\u{c}' || c == '\r'
}

/// The texts of some strings.
pub open spec fn views(items: Seq<String>) -> Seq<Seq<char>> {
    Seq::new(items.len(), |i: int| items[i]@)
}

/// How many characters come before the first one that `stop` holds of.
pub open spec fn run_length(text: Seq<char>, stop: spec_fn(char) -> bool) -> nat
    decreases text.len(),
{
    if text.len() == 0 || stop(text[0]) {
        0
    } else {
        1 + run_length(text.skip(1), stop)
    }
}

pub(crate) proof fn lemma_run_length(text: Seq<char>, stop: spec_fn(char) -> bool, count: nat)
    requires
        count <= text.len(),
        forall|i: int| 0 <= i < count ==> !stop(#[trigger] text[i]),
        count == text.len() || stop(text[count as int]),
    ensures
        run_length(text, stop) == count,
    decreases count,
{
    if count > 0 {
        assert(!stop(text[0]));
        assert forall|i: int| 0 <= i < count - 1 implies !stop(#[trigger] text.skip(1)[i]) by {
            assert(!stop(text[i + 1]));
        }
        lemma_run_length(text.skip(1), stop, (count - 1) as nat);
    }
}

/// A run is no longer than the text.
pub proof fn lemma_run_length_is_bounded(text: Seq<char>, stop: spec_fn(char) -> bool)
    ensures
        run_length(text, stop) <= text.len(),
    decreases text.len(),
{
    if text.len() > 0 && !stop(text[0]) {
        lemma_run_length_is_bounded(text.skip(1), stop);
    }
}

/// What ends a word.
pub open spec fn at_space() -> spec_fn(char) -> bool {
    |c: char| is_space(c)
}

/// What ends a statement.
pub open spec fn at_semicolon() -> spec_fn(char) -> bool {
    |c: char| c == ';'
}

/// The words of a text: its longest stretches without white space.
pub open spec fn words(text: Seq<char>) -> Seq<Seq<char>>
    decreases text.len(),
{
    if text.len() == 0 {
        Seq::empty()
    } else if is_space(text[0]) {
        words(text.skip(1))
    } else {
        let length = 1 + run_length(text.skip(1), at_space());
        proof {
            lemma_run_length_is_bounded(text.skip(1), at_space());
        }
        seq![text.take(length as int)] + words(text.skip(length as int))
    }
}

/// Splits a text into its words.
pub fn words_of(text: &str) -> (found: Vec<String>)
    ensures
        views(found@) == words(text@),
{
    let chars = chars_of(text);
    let mut found: Vec<String> = Vec::new();
    let mut index: usize = 0;
    proof {
        assert(text@.skip(0) =~= text@);
        assert(views(found@) + words(text@) =~= words(text@));
    }
    while index < chars.len()
        invariant
            index <= chars.len(),
            chars@ == text@,
            views(found@) + words(text@.skip(index as int)) == words(text@),
        decreases chars.len() - index,
    {
        let ghost rest = text@.skip(index as int);
        if char_is_space(chars[index]) {
            proof {
                assert(rest.skip(1) =~= text@.skip(index + 1));
            }
            index += 1;
        } else {
            let start: usize = index;
            let ghost before = found@;
            index += 1;
            while index < chars.len() && !char_is_space(chars[index])
                invariant
                    start < index <= chars.len(),
                    chars@ == text@,
                    forall|i: int| start < i < index ==> !is_space(#[trigger] text@[i]),
                decreases chars.len() - index,
            {
                index += 1;
            }
            let word = String::from_str(text.substring_char(start, index));
            found.push(word);
            proof {
                let count = (index - start - 1) as nat;
                let tail = rest.skip(1);
                assert forall|i: int| 0 <= i < count implies !at_space()(#[trigger] tail[i]) by {
                    assert(tail[i] == text@[start + 1 + i]);
                }
                assert(count == tail.len() || at_space()(tail[count as int]));
                lemma_run_length(tail, at_space(), count);
                assert(rest.take(1 + count as int) =~= text@.subrange(start as int, index as int));
                assert(rest.skip(1 + count as int) =~= text@.skip(index as int));
                assert(views(found@) =~= views(before).push(rest.take(1 + count as int)));
                assert(views(found@) + words(text@.skip(index as int)) =~= views(before) + (
                seq![rest.take(1 + count as int)] + words(rest.skip(1 + count as int))));
            }
        }
    }
    proof {
        assert(text@.skip(index as int) =~= Seq::<char>::empty());
        assert(views(found@) + words(text@.skip(index as int)) =~= views(found@));
    }
    found
}

/// A text without the white space at its start.
pub open spec fn trimmed_start(text: Seq<char>) -> Seq<char>
    decreases text.len(),
{
    if text.len() > 0 && is_white_space(text[0]) {
        trimmed_start(text.skip(1))
    } else {
        text
    }
}

/// A text without the white space at its end.
pub open spec fn trimmed_end(text: Seq<char>) -> Seq<char>
    decreases text.len(),
{
    if text.len() > 0 && is_white_space(text.last()) {
        trimmed_end(text.drop_last())
    } else {
        text
    }
}

/// A text without the white space at its two ends.
pub open spec fn trimmed(text: Seq<char>) -> Seq<char> {
    trimmed_end(trimmed_start(text))
}

/// The statements of a script: what stands between its semicolons, trimmed, where anything does.
pub open spec fn statements(script: Seq<char>) -> Seq<Seq<char>>
    decreases script.len(),
{
    let length = run_length(script, at_semicolon());
    let piece = trimmed(script.take(length as int));
    let rest = if length < script.len() {
        statements(script.skip(length as int + 1))
    } else {
        Seq::empty()
    };
    if piece.len() == 0 {
        rest
    } else {
        seq![piece] + rest
    }
}

fn char_is_white(c: char) -> (white: bool)
    ensures
        white == is_white_space(c),
{
    ('\u{9}' <= c && c <= '\u{d}') || c == ' ' || c == '\u{85}' || c == '\u{a0}' || c == '\u{1680}'
        || ('\u{2000}' <= c && c <= '\u{200a}') || c == '\u{2028}' || c == '\u{2029}' || c
        == '\u{202f}' || c == '\u{205f}' || c == '\u{3000}'
}

fn trimmed_range(chars: &Vec<char>, start: usize, end: usize) -> (range: (usize, usize))
    requires
        start <= end <= chars.len(),
    ensures
        start <= range.0 <= range.1 <= end,
        chars@.subrange(range.0 as int, range.1 as int) == trimmed(
            chars@.subrange(start as int, end as int),
        ),
{
    let mut first: usize = start;
    while first < end && char_is_white(chars[first])
        invariant
            start <= first <= end <= chars.len(),
            trimmed_start(chars@.subrange(first as int, end as int)) == trimmed_start(
                chars@.subrange(start as int, end as int),
            ),
        decreases end - first,
    {
        proof {
            let rest = chars@.subrange(first as int, end as int);
            assert(rest.skip(1) =~= chars@.subrange(first + 1, end as int));
        }
        first += 1;
    }
    proof {
        let rest = chars@.subrange(first as int, end as int);
        assert(rest.len() == 0 || rest[0] == chars@[first as int]);
        assert(trimmed_start(rest) == rest);
    }
    let mut last: usize = end;
    while last > first && char_is_white(chars[last - 1])
        invariant
            start <= first <= last <= end <= chars.len(),
            trimmed_end(chars@.subrange(first as int, last as int)) == trimmed_end(
                chars@.subrange(first as int, end as int),
            ),
        decreases last,
    {
        proof {
            let rest = chars@.subrange(first as int, last as int);
            assert(rest.drop_last() =~= chars@.subrange(first as int, last - 1));
            assert(rest.last() == chars@[last - 1]);
        }
        last -= 1;
    }
    proof {
        let rest = chars@.subrange(first as int, last as int);
        assert(rest.len() == 0 || rest.last() == chars@[last - 1]);
        assert(trimmed_end(rest) == rest);
    }
    (first, last)
}

/// Splits a script into its statements.
pub fn schema_statements(script: &str) -> (found: Vec<String>)
    ensures
        views(found@) == statements(script@),
{
    let chars = chars_of(script);
    let mut found: Vec<String> = Vec::new();
    let mut start: usize = 0;
    proof {
        assert(script@.skip(0) =~= script@);
        assert(views(found@) + statements(script@) =~= statements(script@));
    }
    loop
        invariant
            start <= chars.len(),
            chars@ == script@,
            views(found@) + statements(script@.skip(start as int)) == statements(script@),
        decreases chars.len() - start,
    {
        let ghost rest = script@.skip(start as int);
        let ghost before = found@;
        let mut end: usize = start;
        while end < chars.len() && chars[end] != ';'
            invariant
                start <= end <= chars.len(),
                chars@ == script@,
                forall|i: int| start <= i < end ==> script@[i] != ';',
            decreases chars.len() - end,
        {
            end += 1;
        }
        let (first, last) = trimmed_range(&chars, start, end);
        proof {
            let count = (end - start) as nat;
            assert forall|i: int| 0 <= i < count implies !at_semicolon()(#[trigger] rest[i]) by {
                assert(rest[i] == script@[start + i]);
            }
            assert(count == rest.len() || at_semicolon()(rest[count as int]));
            lemma_run_length(rest, at_semicolon(), count);
            assert(rest.take(count as int) =~= script@.subrange(start as int, end as int));
            if end < chars.len() {
                assert(rest.skip(count as int + 1) =~= script@.skip(end + 1));
            }
        }
        let ghost piece = trimmed(rest.take((end - start) as int));
        if first < last {
            let statement = String::from_str(script.substring_char(first, last));
            found.push(statement);
            proof {
                assert(views(found@) =~= views(before).push(piece));
            }
        }
        proof {
            if end < chars.len() {
                assert(views(found@) + statements(script@.skip(end + 1)) =~= views(before)
                    + statements(rest));
            } else {
                assert(views(found@) =~= views(before) + statements(rest));
            }
        }
        if end == chars.len() {
            return found;
        }
        start = end + 1;
    }
}

/// A text without its white space.
pub open spec fn without_spaces(text: Seq<char>) -> Seq<char>
    decreases text.len(),
{
    if text.len() == 0 {
        Seq::empty()
    } else if is_space(text.last()) {
        without_spaces(text.drop_last())
    } else {
        without_spaces(text.drop_last()).push(text.last())
    }
}

/// Takes the white space out of a statement, so that two statements can be compared.
pub fn normalize_schema_sql(sql: &str) -> (normal: String)
    ensures
        normal@ == without_spaces(sql@),
{
    let chars = chars_of(sql);
    let mut normal = String::new();
    let mut index: usize = 0;
    while index < chars.len()
        invariant
            index <= chars.len(),
            chars@ == sql@,
            normal@ == without_spaces(sql@.take(index as int)),
        decreases chars.len() - index,
    {
        let c = chars[index];
        let ghost before = normal@;
        proof {
            let next = sql@.take(index + 1);
            assert(next.drop_last() =~= sql@.take(index as int));
            assert(next.last() == c);
        }
        if !char_is_space(c) {
            normal.append(sql.substring_char(index, index + 1));
            proof {
                assert(sql@.subrange(index as int, index + 1) =~= seq![c]);
                assert(normal@ =~= before.push(c));
            }
        }
        index += 1;
    }
    proof {
        assert(sql@.take(index as int) =~= sql@);
    }
    normal
}

/// A text begins with another.
pub open spec fn begins_with(text: Seq<char>, prefix: Seq<char>) -> bool {
    prefix.len() <= text.len() && text.take(prefix.len() as int) == prefix
}

/// Tells whether a text begins with another.
pub fn text_begins_with(text: &str, prefix: &str) -> (begins: bool)
    ensures
        begins == begins_with(text@, prefix@),
{
    let chars = chars_of(text);
    let wanted = chars_of(prefix);
    if wanted.len() > chars.len() {
        return false;
    }
    let mut index: usize = 0;
    while index < wanted.len()
        invariant
            index <= wanted.len() <= chars.len(),
            chars@ == text@,
            wanted@ == prefix@,
            forall|i: int| 0 <= i < index ==> text@[i] == prefix@[i],
        decreases wanted.len() - index,
    {
        if chars[index] != wanted[index] {
            assert(text@.take(prefix@.len() as int)[index as int] != prefix@[index as int]);
            return false;
        }
        index += 1;
    }
    proof {
        assert(text@.take(prefix@.len() as int) =~= prefix@);
    }
    true
}

/// A part of the Agent registry schema that a migration may find missing.
#[derive(Debug, Clone, Copy, PartialEq, Eq, Structural)]
pub enum SchemaPart {
    ControlCatalog,
    SnapshotCatalog,
}

/// Tables and indexes of the control catalog.
pub open spec fn names_catalog_object(name: Seq<char>) -> bool {
    ||| begins_with(name, "tenant_catalog_"@)
    ||| begins_with(name, "artifact_catalog_"@)
    ||| begins_with(name, "storage_volume_catalog_"@)
    ||| begins_with(name, "playground_catalog_"@)
    ||| begins_with(name, "snapshot_catalog_"@)
}

/// Tables and indexes of a part of the schema.
pub open spec fn part_holds(part: SchemaPart, name: Seq<char>) -> bool {
    match part {
        SchemaPart::ControlCatalog => names_catalog_object(name),
        SchemaPart::SnapshotCatalog => begins_with(name, "snapshot_catalog_"@),
    }
}

/// Tells whether a table or index belongs to the control catalog.
pub fn is_catalog_schema_object(name: &str) -> (belongs: bool)
    ensures
        belongs == names_catalog_object(name@),
{
    text_begins_with(name, "tenant_catalog_") || text_begins_with(name, "artifact_catalog_")
        || text_begins_with(name, "storage_volume_catalog_") || text_begins_with(
        name,
        "playground_catalog_",
    ) || text_begins_with(name, "snapshot_catalog_")
}

/// Tells whether a table or index belongs to the Snapshot catalog.
pub fn is_snapshot_catalog_schema_object(name: &str) -> (belongs: bool)
    ensures
        belongs == begins_with(name@, "snapshot_catalog_"@),
{
    text_begins_with(name, "snapshot_catalog_")
}

fn part_contains(part: SchemaPart, name: &str) -> (held: bool)
    ensures
        held == part_holds(part, name@),
{
    match part {
        SchemaPart::ControlCatalog => is_catalog_schema_object(name),
        SchemaPart::SnapshotCatalog => is_snapshot_catalog_schema_object(name),
    }
}

/// The Snapshot catalog is part of the control catalog.
pub proof fn lemma_snapshot_objects_are_catalog_objects(name: Seq<char>)
    ensures
        part_holds(SchemaPart::SnapshotCatalog, name) ==> part_holds(
            SchemaPart::ControlCatalog,
            name,
        ),
{
}

/// What a statement creates.
#[derive(Debug, Clone, Copy, PartialEq, Eq, Structural)]
pub enum SchemaObjectKind {
    Table,
    Index,
}

/// The name of an object kind in the schema.
pub open spec fn object_kind_text(kind: SchemaObjectKind) -> Seq<char> {
    match kind {
        SchemaObjectKind::Table => "table"@,
        SchemaObjectKind::Index => "index"@,
    }
}

impl SchemaObjectKind {
    pub fn name(self) -> (name: &'static str)
        ensures
            name@ == object_kind_text(self),
    {
        match self {
            SchemaObjectKind::Table => "table",
            SchemaObjectKind::Index => "index",
        }
    }
}

/// The table or index that a statement creates.
#[derive(Debug)]
pub struct SchemaObject {
    pub kind: SchemaObjectKind,
    pub name: String,
}

/// Kind and name of what a statement creates, read off its words.
pub open spec fn created_object(words: Seq<Seq<char>>) -> Option<(SchemaObjectKind, Seq<char>)> {
    if words.len() >= 3 && words[0] == "CREATE"@ && words[1] == "TABLE"@ {
        Some((SchemaObjectKind::Table, words[2]))
    } else if words.len() >= 3 && words[0] == "CREATE"@ && words[1] == "INDEX"@ {
        Some((SchemaObjectKind::Index, words[2]))
    } else if words.len() >= 4 && words[0] == "CREATE"@ && words[1] == "UNIQUE"@ && words[2]
        == "INDEX"@ {
        Some((SchemaObjectKind::Index, words[3]))
    } else {
        None
    }
}

/// An embedded statement that creates neither a table nor an index.
pub open spec fn statement_fault() -> Fault {
    corruption_fault("invalid embedded Agent registry schema statement"@)
}

/// Reads kind and name of what a statement creates.
pub fn schema_object(statement: &str) -> (result: CentralResult<SchemaObject>)
    ensures
        fault_of(result) == (if created_object(words(statement@)) is Some {
            None
        } else {
            Some(statement_fault())
        }),
        result matches Ok(object) ==> created_object(words(statement@)) == Some(
            (object.kind, object.name@),
        ),
{
    let found = words_of(statement);
    proof {
        assert(forall|i: int| 0 <= i < found@.len() ==> words(statement@)[i] == #[trigger] found@[i]@);
    }
    if found.len() >= 3 && text_equals(found[0].as_str(), "CREATE") {
        if text_equals(found[1].as_str(), "TABLE") {
            return Ok(SchemaObject { kind: SchemaObjectKind::Table, name: found[2].clone() });
        }
        if text_equals(found[1].as_str(), "INDEX") {
            return Ok(SchemaObject { kind: SchemaObjectKind::Index, name: found[2].clone() });
        }
        if found.len() >= 4 && text_equals(found[1].as_str(), "UNIQUE") && text_equals(
            found[2].as_str(),
            "INDEX",
        ) {
            return Ok(SchemaObject { kind: SchemaObjectKind::Index, name: found[3].clone() });
        }
    }
    Err(corruption("invalid embedded Agent registry schema statement"))
}

/// Two statements are the same but for white space.
pub open spec fn same_statement(left: Seq<char>, right: Seq<char>) -> bool {
    without_spaces(left) == without_spaces(right)
}

pub(crate) fn statements_match(left: &str, right: &str) -> (same: bool)
    ensures
        same == same_statement(left@, right@),
{
    text_equals(normalize_schema_sql(left).as_str(), normalize_schema_sql(right).as_str())
}

/// A schema statement and what the store holds for its object.
#[derive(Debug)]
pub struct SchemaEntry {
    pub statement: String,
    pub stored: Option<String>,
}

/// The object of an entry, where its statement creates one.
pub open spec fn entry_object(entry: SchemaEntry) -> Option<(SchemaObjectKind, Seq<char>)> {
    created_object(words(entry.statement@))
}

/// What a mismatch of a stored object says.
pub open spec fn object_fault(object: (SchemaObjectKind, Seq<char>), problem: Seq<char>) -> Fault {
    corruption_fault(
        "Agent registry "@ + object_kind_text(object.0) + " "@ + object.1 + problem,
    )
}

pub(crate) fn object_failure(object: &SchemaObject, problem: &str) -> (failure: CentralError)
    ensures
        failure@ == object_fault((object.kind, object.name@), problem@),
{
    let mut message = String::from_str("Agent registry ");
    message.append(object.kind.name());
    message.append(" ");
    message.append(object.name.as_str());
    message.append(problem);
    corruption(message.as_str())
}

/// What is wrong with one entry of a part of the schema.
pub open spec fn presence_entry_fault(entry: SchemaEntry, part: SchemaPart) -> Option<Fault> {
    match entry_object(entry) {
        None => Some(statement_fault()),
        Some(object) => if part_holds(part, object.1) && (entry.stored matches Some(stored)
            && !same_statement(stored@, entry.statement@)) {
            Some(object_fault(object, " differs from the current schema"@))
        } else {
            None
        },
    }
}

/// What is wrong with the first bad entry of a part, from an index on.
pub open spec fn presence_fault_from(
    entries: Seq<SchemaEntry>,
    part: SchemaPart,
    index: int,
) -> Option<Fault>
    decreases entries.len() - index,
{
    if index < 0 || index >= entries.len() {
        None
    } else if presence_entry_fault(entries[index], part) is Some {
        presence_entry_fault(entries[index], part)
    } else {
        presence_fault_from(entries, part, index + 1)
    }
}

/// An entry belongs to a part of the schema.
pub open spec fn entry_in_part(entry: SchemaEntry, part: SchemaPart) -> bool {
    entry_object(entry) matches Some(object) && part_holds(part, object.1)
}

/// Whether a part of the schema is there.
#[derive(Debug, Clone, Copy, PartialEq, Eq, Structural)]
pub enum CatalogSchemaPresence {
    Absent,
    Current,
}

/// No object of a part is stored.
pub open spec fn part_is_absent(entries: Seq<SchemaEntry>, part: SchemaPart) -> bool {
    forall|i: int|
        0 <= i < entries.len() && entry_in_part(#[trigger] entries[i], part)
            ==> entries[i].stored is None
}

/// Every object of a part is stored.
pub open spec fn part_is_complete(entries: Seq<SchemaEntry>, part: SchemaPart) -> bool {
    forall|i: int|
        0 <= i < entries.len() && entry_in_part(#[trigger] entries[i], part)
            ==> entries[i].stored is Some
}

/// What a half-stored part of the schema says.
pub open spec fn partial_schema_message(part: SchemaPart) -> Seq<char> {
    match part {
        SchemaPart::ControlCatalog =>
            "Agent registry control catalog schema is only partially present"@,
        SchemaPart::SnapshotCatalog =>
            "Agent registry Snapshot catalog schema is only partially present"@,
    }
}

/// Why the presence of a part cannot be told.
pub open spec fn presence_fault(entries: Seq<SchemaEntry>, part: SchemaPart) -> Option<Fault> {
    if presence_fault_from(entries, part, 0) is Some {
        presence_fault_from(entries, part, 0)
    } else if part_is_absent(entries, part) || part_is_complete(entries, part) {
        None
    } else {
        Some(corruption_fault(partial_schema_message(part)))
    }
}

/// Tells whether a part of the schema is stored, wholly or not at all.
pub fn schema_presence(entries: &Vec<SchemaEntry>, part: SchemaPart) -> (result: CentralResult<
    CatalogSchemaPresence,
>)
    ensures
        fault_of(result) == presence_fault(entries@, part),
        result matches Ok(presence) ==> (presence is Absent <==> part_is_absent(entries@, part)),
{
    let mut all_absent: bool = true;
    let mut all_present: bool = true;
    let mut index: usize = 0;
    while index < entries.len()
        invariant
            index <= entries.len(),
            presence_fault_from(entries@, part, 0) == presence_fault_from(
                entries@,
                part,
                index as int,
            ),
            all_absent == part_is_absent(entries@.take(index as int), part),
            all_present == part_is_complete(entries@.take(index as int), part),
        decreases entries.len() - index,
    {
        let entry = &entries[index];
        let ghost done = entries@.take(index as int);
        let ghost next = entries@.take(index + 1);
        proof {
            assert(next[index as int] == *entry);
            assert forall|i: int| 0 <= i < index implies done[i] == #[trigger] next[i] by {}
        }
        let object = match schema_object(entry.statement.as_str()) {
            Ok(object) => object,
            Err(problem) => return Err(problem),
        };
        if part_contains(part, object.name.as_str()) {
            match &entry.stored {
                Some(stored) => {
                    if !statements_match(stored.as_str(), entry.statement.as_str()) {
                        return Err(object_failure(&object, " differs from the current schema"));
                    }
                    all_absent = false;
                    proof {
                        assert(!part_is_absent(next, part));
                    }
                },
                None => {
                    all_present = false;
                    proof {
                        assert(!part_is_complete(next, part));
                    }
                },
            }
        }
        proof {
            assert(part_is_absent(next, part) ==> part_is_absent(done, part)) by {
                assert(forall|i: int| 0 <= i < done.len() ==> #[trigger] done[i] == next[i]);
            }
            assert(part_is_complete(next, part) ==> part_is_complete(done, part)) by {
                assert(forall|i: int| 0 <= i < done.len() ==> #[trigger] done[i] == next[i]);
            }
        }
        index += 1;
    }
    proof {
        assert(entries@.take(index as int) =~= entries@);
    }
    if all_absent {
        Ok(CatalogSchemaPresence::Absent)
    } else if all_present {
        Ok(CatalogSchemaPresence::Current)
    } else {
        match part {
            SchemaPart::ControlCatalog => Err(
                corruption("Agent registry control catalog schema is only partially present"),
            ),
            SchemaPart::SnapshotCatalog => Err(
                corruption("Agent registry Snapshot catalog schema is only partially present"),
            ),
        }
    }
}

} // verus!
