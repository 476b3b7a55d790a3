//! How a database is opened: which paths may hold one, which versions are brought to the current one,
//! and when its schema and its own report are believed.
use vstd::prelude::*;

use crate::error::{CentralErrorCode, CentralResult};
use crate::laws::jobs::fails_with;
use crate::storage::datasource::{
    index_scope_is_current, plan_authority_open, plan_registry_open, prepare_root,
    validate_authority_table, validate_database_path, validate_index_migration, validate_integrity,
    validate_lock_path, validate_playground_migration, validate_table_set, DerivedPlayground,
    IndexMigrationCheck, Migration, OpenPlan, PathState, Store,
};
use crate::storage::schema::{
    begins_with, is_catalog_schema_object, is_snapshot_catalog_schema_object, normalize_schema_sql,
    schema_object, text_begins_with, views, words_of, SchemaObject,
};

verus! {

/// A database has a directory of its own, which may have to be made; nothing else may stand there.
/// Its file is a regular one or not there yet, and its lock is no link.
pub proof fn lemma_database_has_its_place(
    store: Store,
    path: &str,
    state: PathState,
    root: CentralResult<()>,
    lock: CentralResult<()>,
    file: CentralResult<()>,
)
    requires
        call_ensures(prepare_root, (store, path, state), root),
        call_ensures(validate_lock_path, (store, state), lock),
        call_ensures(validate_database_path, (store, state), file),
    ensures
        root is Ok <==> path@.len() > 0 && (state is Missing || state is Directory),
        lock is Ok <==> !(state is SymbolicLink),
        file is Ok <==> state is Missing || state is RegularFile,
        root is Err ==> fails_with(root, CentralErrorCode::StorageFailure),
        lock is Err ==> fails_with(lock, CentralErrorCode::StorageFailure),
        file is Err ==> fails_with(file, CentralErrorCode::StorageFailure),
{
}

/// A step starts at one version of a schema and ends at another.
pub open spec fn leads(step: Migration, from: int, to: int) -> bool {
    match step {
        Migration::RegistryV2ToV3 => from == 2 && to == 3,
        Migration::RegistryV3ToV5 => from == 3 && to == 5,
        Migration::RegistryV4ToV5 => from == 4 && to == 5,
        Migration::RegistryV5ToV6 => from == 5 && to == 6,
        Migration::AuthorityV1ToV2 => from == 1 && to == 2,
        Migration::AuthorityV2ToV3 => from == 2 && to == 3,
        Migration::AuthorityV3ToV4 => from == 3 && to == 4,
    }
}

/// A step is one of the registry's.
pub open spec fn is_registry_step(step: Migration) -> bool {
    ||| step is RegistryV2ToV3
    ||| step is RegistryV3ToV5
    ||| step is RegistryV4ToV5
    ||| step is RegistryV5ToV6
}

/// Some steps pass through some versions, one after the other.
pub open spec fn pass_through(steps: Seq<Migration>, versions: Seq<int>) -> bool {
    &&& versions.len() == steps.len() + 1
    &&& forall|i: int|
        0 <= i < steps.len() ==> leads(#[trigger] steps[i], versions[i], versions[i + 1])
}

/// A registry of any version from the second on is brought to the sixth step by step, by steps of its
/// own. An empty database is initialised; what carries another mark or version is refused.
pub proof fn lemma_registry_is_brought_up(
    initialize: bool,
    application_id: i64,
    user_version: i64,
    result: CentralResult<OpenPlan>,
) -> (versions: Seq<int>)
    requires
        call_ensures(plan_registry_open, (initialize, application_id, user_version), result),
    ensures
        initialize ==> (result is Ok <==> application_id == 0 && user_version == 0),
        !initialize ==> (result is Ok <==> application_id == 0x4e45_4f52 && 2 <= user_version <= 6),
        result is Err ==> fails_with(result, CentralErrorCode::StorageFailure),
        initialize && result is Ok ==> result->Ok_0 is Initialize,
        !initialize && result is Ok ==> {
            &&& result matches Ok(OpenPlan::Upgrade(steps))
            &&& pass_through(steps@, versions)
            &&& versions[0] == user_version
            &&& versions.last() == 6
            &&& forall|i: int| 0 <= i < steps@.len() ==> is_registry_step(#[trigger] steps@[i])
        },
{
    if user_version == 2 {
        seq![2, 3, 5, 6]
    } else if user_version == 3 {
        seq![3, 5, 6]
    } else if user_version == 4 {
        seq![4, 5, 6]
    } else if user_version == 5 {
        seq![5, 6]
    } else {
        seq![6]
    }
}

/// An authority of any version from the first on is brought to the fourth step by step, by steps of
/// its own. An empty database is initialised; what carries another mark or version is refused.
pub proof fn lemma_authority_is_brought_up(
    initialize: bool,
    application_id: i64,
    user_version: i64,
    result: CentralResult<OpenPlan>,
) -> (versions: Seq<int>)
    requires
        call_ensures(plan_authority_open, (initialize, application_id, user_version), result),
    ensures
        initialize ==> (result is Ok <==> application_id == 0 && user_version == 0),
        !initialize ==> (result is Ok <==> application_id == 0x4e45_4f41 && 1 <= user_version <= 4),
        result is Err ==> fails_with(result, CentralErrorCode::StorageFailure),
        initialize && result is Ok ==> result->Ok_0 is Initialize,
        !initialize && result is Ok ==> {
            &&& result matches Ok(OpenPlan::Upgrade(steps))
            &&& pass_through(steps@, versions)
            &&& versions[0] == user_version
            &&& versions.last() == 4
            &&& forall|i: int| 0 <= i < steps@.len() ==> !is_registry_step(#[trigger] steps@[i])
        },
{
    if user_version == 1 {
        seq![1, 2, 3, 4]
    } else if user_version == 2 {
        seq![2, 3, 4]
    } else if user_version == 3 {
        seq![3, 4]
    } else {
        seq![4]
    }
}

/// An upgrade goes on only where no Playground was derived, no row stands in the way, and both Index
/// tables have the same scope.
pub proof fn lemma_upgrade_goes_on(
    derived: Option<&DerivedPlayground>,
    check: IndexMigrationCheck,
    rows: i64,
    indexes: i64,
    records: i64,
    playground: CentralResult<()>,
    index: CentralResult<()>,
    scope: CentralResult<bool>,
)
    requires
        call_ensures(validate_playground_migration, (derived,), playground),
        call_ensures(validate_index_migration, (check, rows), index),
        call_ensures(index_scope_is_current, (indexes, records), scope),
    ensures
        playground is Ok <==> derived is None,
        index is Ok <==> rows == 0,
        scope is Ok <==> indexes == records,
        scope is Ok ==> (scope->Ok_0 <==> records == 1),
        playground is Err ==> fails_with(playground, CentralErrorCode::StorageFailure),
        index is Err ==> fails_with(index, CentralErrorCode::StorageFailure),
        scope is Err ==> fails_with(scope, CentralErrorCode::StorageFailure),
{
}

/// A text is in a list.
pub open spec fn is_in(items: Seq<String>, text: Seq<char>) -> bool {
    exists|i: int| 0 <= i < items.len() && (#[trigger] items[i])@ == text
}

/// The tables of a database are the expected ones: none is missing, and none is there besides.
pub proof fn lemma_tables_are_the_expected_ones(
    actual: &Vec<String>,
    expected: &Vec<String>,
    result: CentralResult<()>,
)
    requires
        call_ensures(validate_table_set, (actual, expected), result),
    ensures
        result is Ok <==> forall|text: Seq<char>| #[trigger]
            is_in(actual@, text) == is_in(expected@, text),
        result is Err ==> fails_with(result, CentralErrorCode::StorageFailure),
{
    let one = views(actual@).to_set();
    let other = views(expected@).to_set();
    assert forall|text: Seq<char>| one.contains(text) == #[trigger] is_in(actual@, text) by {
        if is_in(actual@, text) {
            let i = choose|i: int| 0 <= i < actual@.len() && (#[trigger] actual@[i])@ == text;
            assert(views(actual@)[i] == text);
        }
        if one.contains(text) {
            let i = choose|i: int| 0 <= i < views(actual@).len() && views(actual@)[i] == text;
            assert(actual@[i]@ == text);
        }
    }
    assert forall|text: Seq<char>| other.contains(text) == #[trigger] is_in(expected@, text) by {
        if is_in(expected@, text) {
            let i = choose|i: int| 0 <= i < expected@.len() && (#[trigger] expected@[i])@ == text;
            assert(views(expected@)[i] == text);
        }
        if other.contains(text) {
            let i = choose|i: int| 0 <= i < views(expected@).len() && views(expected@)[i] == text;
            assert(expected@[i]@ == text);
        }
    }
    if forall|text: Seq<char>| #[trigger] is_in(actual@, text) == is_in(expected@, text) {
        assert forall|text: Seq<char>| one.contains(text) == other.contains(text) by {
            assert(is_in(actual@, text) == is_in(expected@, text));
        }
        assert(one =~= other);
    }
    if one == other {
        assert forall|text: Seq<char>| #[trigger] is_in(actual@, text) == is_in(
            expected@,
            text,
        ) by {
            assert(one.contains(text) == is_in(actual@, text));
            assert(other.contains(text) == is_in(expected@, text));
        }
    }
}

/// A database is sound where it reports nothing but one `ok` and no broken reference.
pub proof fn lemma_database_is_sound(
    store: Store,
    results: &Vec<String>,
    violations: usize,
    result: CentralResult<()>,
)
    requires
        call_ensures(validate_integrity, (store, results, violations), result),
    ensures
        result is Ok <==> {
            &&& results@.len() == 1
            &&& results@[0]@ == "ok"@
            &&& violations == 0
        },
        result is Err ==> fails_with(result, CentralErrorCode::StorageFailure),
{
    let ok = seq!["ok"@];
    assert(ok.len() == 1 && ok[0] == "ok"@);
    if results@.len() == 1 && results@[0]@ == "ok"@ {
        assert(views(results@) =~= ok);
    }
    if views(results@) == ok {
        assert(views(results@).len() == results@.len());
        assert(views(results@)[0] == results@[0]@);
    }
}

/// White space counts for nothing in a statement, and every other character counts: one more is kept
/// exactly where it is no space.
pub proof fn lemma_statement_loses_its_spaces(
    text: &str,
    longer: &str,
    next: char,
    normal: String,
    grown: String,
)
    requires
        call_ensures(normalize_schema_sql, (text,), normal),
        call_ensures(normalize_schema_sql, (longer,), grown),
        longer@ == text@.push(next),
    ensures
        text@.len() == 0 ==> normal@.len() == 0,
        next == ' ' || next == '\t' || next == '\n' || next == '\r' ==> grown@ == normal@,
        '!' <= next <= '~' ==> grown@ == normal@.push(next),
{
    assert(longer@.drop_last() =~= text@);
}

/// A text begins with another exactly where it has all its characters in front.
pub open spec fn is_in_front(text: Seq<char>, prefix: Seq<char>) -> bool {
    &&& prefix.len() <= text.len()
    &&& forall|i: int| 0 <= i < prefix.len() ==> text[i] == #[trigger] prefix[i]
}

proof fn lemma_front(text: Seq<char>, prefix: Seq<char>)
    ensures
        begins_with(text, prefix) <==> is_in_front(text, prefix),
{
    if is_in_front(text, prefix) {
        assert(text.take(prefix.len() as int) =~= prefix);
    }
    if begins_with(text, prefix) {
        assert forall|i: int| 0 <= i < prefix.len() implies text[i] == #[trigger] prefix[i] by {
            assert(text.take(prefix.len() as int)[i] == text[i]);
        }
    }
}

/// The objects of the control catalog are named after tenants, Artifacts, StorageVolumes, Playgrounds
/// and Snapshots, and those of the Snapshot catalog after the last.
pub proof fn lemma_objects_are_named_after_their_part(
    name: &str,
    prefix: &str,
    begins: bool,
    catalog: bool,
    snapshot: bool,
)
    requires
        call_ensures(text_begins_with, (name, prefix), begins),
        call_ensures(is_catalog_schema_object, (name,), catalog),
        call_ensures(is_snapshot_catalog_schema_object, (name,), snapshot),
    ensures
        begins <==> is_in_front(name@, prefix@),
        snapshot <==> is_in_front(name@, "snapshot_catalog_"@),
        catalog <==> {
            ||| is_in_front(name@, "tenant_catalog_"@)
            ||| is_in_front(name@, "artifact_catalog_"@)
            ||| is_in_front(name@, "storage_volume_catalog_"@)
            ||| is_in_front(name@, "playground_catalog_"@)
            ||| is_in_front(name@, "snapshot_catalog_"@)
        },
{
    lemma_front(name@, prefix@);
    lemma_front(name@, "tenant_catalog_"@);
    lemma_front(name@, "artifact_catalog_"@);
    lemma_front(name@, "storage_volume_catalog_"@);
    lemma_front(name@, "playground_catalog_"@);
    lemma_front(name@, "snapshot_catalog_"@);
}

/// A statement creates the table or the index that its words name, and every other statement is
/// refused.
pub proof fn lemma_statement_creates_what_it_names(
    statement: &str,
    found: Vec<String>,
    result: CentralResult<SchemaObject>,
)
    requires
        call_ensures(words_of, (statement,), found),
        call_ensures(schema_object, (statement,), result),
    ensures
        ({
            let table = found@.len() >= 3 && found@[0]@ == "CREATE"@ && found@[1]@ == "TABLE"@;
            let index = found@.len() >= 3 && found@[0]@ == "CREATE"@ && found@[1]@ == "INDEX"@;
            let unique = found@.len() >= 4 && found@[0]@ == "CREATE"@ && found@[1]@ == "UNIQUE"@
                && found@[2]@ == "INDEX"@;
            &&& result is Ok <==> table || index || unique
            &&& result is Err ==> fails_with(result, CentralErrorCode::StorageFailure)
            &&& table ==> result->Ok_0.kind is Table && result->Ok_0.name@ == found@[2]@
            &&& index ==> result->Ok_0.kind is Index && result->Ok_0.name@ == found@[2]@
            &&& unique ==> result->Ok_0.kind is Index && result->Ok_0.name@ == found@[3]@
        }),
{
    let seen = views(found@);
    assert(seen.len() == found@.len());
    assert(found@.len() > 0 ==> seen[0] == found@[0]@);
    assert(found@.len() > 1 ==> seen[1] == found@[1]@);
    assert(found@.len() > 2 ==> seen[2] == found@[2]@);
    assert(found@.len() > 3 ==> seen[3] == found@[3]@);
    reveal_strlit("TABLE");
    reveal_strlit("INDEX");
    reveal_strlit("UNIQUE");
    assert("TABLE"@.len() == 5);
    assert("INDEX"@.len() == 5);
    assert("UNIQUE"@.len() == 6);
    assert("TABLE"@[0] != "INDEX"@[0]);
}

/// A table of the authority is the expected one exactly where its statement is, but for white space.
pub proof fn lemma_authority_table_is_current(
    statement: &str,
    stored: &str,
    found: Vec<String>,
    expected: String,
    actual: String,
    result: CentralResult<()>,
)
    requires
        call_ensures(validate_authority_table, (statement, stored), result),
        call_ensures(words_of, (statement,), found),
        call_ensures(normalize_schema_sql, (statement,), expected),
        call_ensures(normalize_schema_sql, (stored,), actual),
    ensures
        result is Ok <==> found@.len() >= 3 && expected@ == actual@,
        result is Err ==> fails_with(result, CentralErrorCode::StorageFailure),
{
    assert(views(found@).len() == found@.len());
}

} // verus!
