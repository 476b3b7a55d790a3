//! Opening a durable store: where it may live, which schema it carries and what brings it up to
//! date.
use vstd::prelude::*;
use vstd::string::*;

use crate::error::{
    corruption, corruption_fault, failure, fault, fault_of, CentralError, CentralErrorCode,
    CentralResult, Fault,
};
use crate::storage::schema::{
    entry_object, object_failure, object_fault, object_kind_text, same_statement, schema_object,
    statement_fault, statements_match, views, words, words_of, SchemaEntry,
};
use crate::text::{decimal, decimal_text, text_equals};

verus! {

/// How long a connection waits for a locked database unless told otherwise, in milliseconds.
pub const DEFAULT_BUSY_TIMEOUT_MS: u64 = 5_000;

/// Where the Agent registry lives.
pub struct SqliteAgentRegistryConfig {
    pub path: String,
    pub busy_timeout_ms: u64,
}

impl SqliteAgentRegistryConfig {
    #[must_use]
    pub fn new(path: String) -> (config: Self)
        ensures
            config.path == path,
            config.busy_timeout_ms == DEFAULT_BUSY_TIMEOUT_MS,
    {
        Self { path, busy_timeout_ms: DEFAULT_BUSY_TIMEOUT_MS }
    }
}

/// Where the authority lives.
#[derive(Debug)]
pub struct SqliteAuthorityConfig {
    pub path: String,
    pub busy_timeout_ms: u64,
}

impl SqliteAuthorityConfig {
    #[must_use]
    pub fn new(path: String) -> (config: Self)
        ensures
            config.path == path,
            config.busy_timeout_ms == DEFAULT_BUSY_TIMEOUT_MS,
    {
        Self { path, busy_timeout_ms: DEFAULT_BUSY_TIMEOUT_MS }
    }

    /// The registry that an authority opens beside itself.
    pub fn registry_config(&self) -> (config: SqliteAgentRegistryConfig)
        ensures
            config.path@ == self.path@,
            config.busy_timeout_ms == self.busy_timeout_ms,
    {
        SqliteAgentRegistryConfig {
            path: self.path.clone(),
            busy_timeout_ms: self.busy_timeout_ms,
        }
    }
}

/// One of the two databases.
#[derive(Debug, Clone, Copy, PartialEq, Eq, Structural)]
pub enum Store {
    AgentRegistry,
    Authority,
}

/// How messages call a database.
pub open spec fn store_text(store: Store) -> Seq<char> {
    match store {
        Store::AgentRegistry => "Agent registry"@,
        Store::Authority => "SQLite authority"@,
    }
}

impl Store {
    pub fn text(self) -> (text: &'static str)
        ensures
            text@ == store_text(self),
    {
        match self {
            Store::AgentRegistry => "Agent registry",
            Store::Authority => "SQLite authority",
        }
    }
}

fn store_failure(store: Store, problem: &str) -> (failure: CentralError)
    ensures
        failure@ == corruption_fault(store_text(store) + problem@),
{
    let mut message = String::from_str(store.text());
    message.append(problem);
    corruption(message.as_str())
}

/// What stands at a path.
#[derive(Debug, Clone, Copy, PartialEq, Eq, Structural)]
pub enum PathState {
    Missing,
    SymbolicLink,
    Directory,
    RegularFile,
    Other,
}

/// Why a directory cannot hold a database.
pub open spec fn root_fault(store: Store, path: Seq<char>, state: PathState) -> Option<Fault> {
    if path.len() == 0 {
        Some(corruption_fault(store_text(store) + " path must be explicit"@))
    } else if state is Missing || state is Directory {
        None
    } else {
        Some(corruption_fault(store_text(store) + " path must be a real directory"@))
    }
}

/// Checks the directory of a database; one that is missing is created.
pub fn prepare_root(store: Store, path: &str, state: PathState) -> (result: CentralResult<()>)
    ensures
        fault_of(result) == root_fault(store, path@, state),
{
    if path.unicode_len() == 0 {
        return Err(store_failure(store, " path must be explicit"));
    }
    match state {
        PathState::Missing | PathState::Directory => Ok(()),
        PathState::SymbolicLink | PathState::RegularFile | PathState::Other => Err(
            store_failure(store, " path must be a real directory"),
        ),
    }
}

/// Checks the lock file of a database before it is opened.
pub fn validate_lock_path(store: Store, state: PathState) -> (result: CentralResult<()>)
    ensures
        fault_of(result) == (if state is SymbolicLink {
            Some(corruption_fault(store_text(store) + " lock cannot be a symbolic link"@))
        } else {
            None
        }),
{
    if state == PathState::SymbolicLink {
        return Err(store_failure(store, " lock cannot be a symbolic link"));
    }
    Ok(())
}

/// The failure of a database that another handle holds; only the authority says why.
pub fn already_open(store: Store, problem: &str) -> (refusal: CentralError)
    ensures
        refusal@ == fault(
            CentralErrorCode::StorageFailure,
            match store {
                Store::AgentRegistry => "Agent registry is already open"@,
                Store::Authority => "SQLite authority is already open: "@ + problem@,
            },
        ),
{
    match store {
        Store::AgentRegistry => failure(
            CentralErrorCode::StorageFailure,
            "Agent registry is already open",
        ),
        Store::Authority => {
            let mut message = String::from_str("SQLite authority is already open: ");
            message.append(problem);
            CentralError::new(CentralErrorCode::StorageFailure, message)
        },
    }
}

/// What a database file that is not a regular file says.
pub open spec fn irregular_database_text(store: Store) -> Seq<char> {
    match store {
        Store::AgentRegistry => "Agent registry database must be a regular file"@,
        Store::Authority =>
            "SQLite authority database must be a regular file, not a symbolic link"@,
    }
}

/// Checks the database file; one that is missing is created.
pub fn validate_database_path(store: Store, state: PathState) -> (result: CentralResult<()>)
    ensures
        fault_of(result) == (if state is Missing || state is RegularFile {
            None
        } else {
            Some(corruption_fault(irregular_database_text(store)))
        }),
{
    match state {
        PathState::Missing | PathState::RegularFile => Ok(()),
        PathState::SymbolicLink | PathState::Directory | PathState::Other => match store {
            Store::AgentRegistry => Err(
                corruption("Agent registry database must be a regular file"),
            ),
            Store::Authority => Err(
                corruption("SQLite authority database must be a regular file, not a symbolic link"),
            ),
        },
    }
}

/// The numeral of a number that may be negative.
pub open spec fn signed_decimal(number: int) -> Seq<char> {
    if number < 0 {
        "-"@ + decimal((-number) as nat)
    } else {
        decimal(number as nat)
    }
}

fn signed_text(number: i64) -> (text: String)
    ensures
        text@ == signed_decimal(number as int),
{
    if number >= 0 {
        return decimal_text(number as u64);
    }
    let mut text = String::from_str("-");
    if number == i64::MIN {
        text.append(decimal_text(9_223_372_036_854_775_808).as_str());
    } else {
        text.append(decimal_text((-number) as u64).as_str());
    }
    text
}

/// The application identity of the Agent registry database.
pub const REGISTRY_APPLICATION_ID: i64 = 0x4e45_4f52;

/// The schema version that the Agent registry is written in.
pub const REGISTRY_SCHEMA_VERSION: i64 = 6;

/// The application identity of the authority database.
pub const AUTHORITY_APPLICATION_ID: i64 = 0x4e45_4f41;

/// The schema version that the authority is written in.
pub const AUTHORITY_SCHEMA_VERSION: i64 = 4;

/// One upgrade of a schema.
#[derive(Debug, Clone, Copy, PartialEq, Eq, Structural)]
pub enum Migration {
    RegistryV2ToV3,
    RegistryV3ToV5,
    RegistryV4ToV5,
    RegistryV5ToV6,
    AuthorityV1ToV2,
    AuthorityV2ToV3,
    AuthorityV3ToV4,
}

/// The schema version that an upgrade starts from.
pub open spec fn migrates_from(step: Migration) -> i64 {
    match step {
        Migration::RegistryV2ToV3 => 2,
        Migration::RegistryV3ToV5 => 3,
        Migration::RegistryV4ToV5 => 4,
        Migration::RegistryV5ToV6 => 5,
        Migration::AuthorityV1ToV2 => 1,
        Migration::AuthorityV2ToV3 => 2,
        Migration::AuthorityV3ToV4 => 3,
    }
}

/// The schema version that an upgrade ends in.
pub open spec fn migrates_to(step: Migration) -> i64 {
    match step {
        Migration::RegistryV2ToV3 => 3,
        Migration::RegistryV3ToV5 => 5,
        Migration::RegistryV4ToV5 => 5,
        Migration::RegistryV5ToV6 => 6,
        Migration::AuthorityV1ToV2 => 2,
        Migration::AuthorityV2ToV3 => 3,
        Migration::AuthorityV3ToV4 => 4,
    }
}

/// What is to be done with a database that was opened.
#[derive(Debug)]
pub enum OpenPlan {
    /// The database is empty: write the current schema.
    Initialize,
    /// Carry out these upgrades, in order, and hold the result against the current schema.
    Upgrade(Vec<Migration>),
}

/// The upgrades of a registry schema version, where it is supported.
pub open spec fn registry_upgrades(user_version: i64) -> Option<Seq<Migration>> {
    if user_version == 2 {
        Some(
            seq![
                Migration::RegistryV2ToV3,
                Migration::RegistryV3ToV5,
                Migration::RegistryV5ToV6,
            ],
        )
    } else if user_version == 3 {
        Some(seq![Migration::RegistryV3ToV5, Migration::RegistryV5ToV6])
    } else if user_version == 4 {
        Some(seq![Migration::RegistryV4ToV5, Migration::RegistryV5ToV6])
    } else if user_version == 5 {
        Some(seq![Migration::RegistryV5ToV6])
    } else if user_version == REGISTRY_SCHEMA_VERSION {
        Some(Seq::empty())
    } else {
        None
    }
}

/// The upgrades of an authority schema version, where it is supported.
pub open spec fn authority_upgrades(user_version: i64) -> Option<Seq<Migration>> {
    if user_version == 1 {
        Some(
            seq![
                Migration::AuthorityV1ToV2,
                Migration::AuthorityV2ToV3,
                Migration::AuthorityV3ToV4,
            ],
        )
    } else if user_version == 2 {
        Some(seq![Migration::AuthorityV2ToV3, Migration::AuthorityV3ToV4])
    } else if user_version == 3 {
        Some(seq![Migration::AuthorityV3ToV4])
    } else if user_version == AUTHORITY_SCHEMA_VERSION {
        Some(Seq::empty())
    } else {
        None
    }
}

/// Upgrades that take one schema version to another, each starting where the last one ended.
pub open spec fn upgrades_lead(steps: Seq<Migration>, from: i64, to: i64) -> bool
    decreases steps.len(),
{
    if steps.len() == 0 {
        from == to
    } else {
        migrates_from(steps[0]) == from && upgrades_lead(steps.skip(1), migrates_to(steps[0]), to)
    }
}

/// Every supported schema version is brought to the current one, step by step.
pub proof fn lemma_upgrades_reach_current(user_version: i64)
    ensures
        registry_upgrades(user_version) matches Some(steps) ==> upgrades_lead(
            steps,
            user_version,
            REGISTRY_SCHEMA_VERSION,
        ),
        authority_upgrades(user_version) matches Some(steps) ==> upgrades_lead(
            steps,
            user_version,
            AUTHORITY_SCHEMA_VERSION,
        ),
{
    reveal_with_fuel(upgrades_lead, 4);
}

/// Why a registry database cannot be opened.
pub open spec fn registry_open_fault(
    initialize: bool,
    application_id: i64,
    user_version: i64,
) -> Option<Fault> {
    if initialize {
        if application_id != 0 || user_version != 0 {
            Some(
                corruption_fault(
                    "empty Agent registry carries unexpected schema identity"@,
                ),
            )
        } else {
            None
        }
    } else if application_id != REGISTRY_APPLICATION_ID || registry_upgrades(user_version) is None {
        Some(
            corruption_fault(
                "unsupported Agent registry schema identity "@ + signed_decimal(
                    application_id as int,
                ) + "/"@ + signed_decimal(user_version as int),
            ),
        )
    } else {
        None
    }
}

/// Decides how a registry database is opened.
pub fn plan_registry_open(initialize: bool, application_id: i64, user_version: i64) -> (result:
    CentralResult<OpenPlan>)
    ensures
        fault_of(result) == registry_open_fault(initialize, application_id, user_version),
        result matches Ok(plan) ==> (plan is Initialize <==> initialize),
        result matches Ok(OpenPlan::Upgrade(steps)) ==> registry_upgrades(user_version) == Some(
            steps@,
        ),
{
    if initialize {
        if application_id != 0 || user_version != 0 {
            return Err(corruption("empty Agent registry carries unexpected schema identity"));
        }
        return Ok(OpenPlan::Initialize);
    }
    let mut steps: Vec<Migration> = Vec::new();
    let mut supported: bool = application_id == REGISTRY_APPLICATION_ID;
    if user_version == 2 {
        steps.push(Migration::RegistryV2ToV3);
        steps.push(Migration::RegistryV3ToV5);
        steps.push(Migration::RegistryV5ToV6);
    } else if user_version == 3 {
        steps.push(Migration::RegistryV3ToV5);
        steps.push(Migration::RegistryV5ToV6);
    } else if user_version == 4 {
        steps.push(Migration::RegistryV4ToV5);
        steps.push(Migration::RegistryV5ToV6);
    } else if user_version == 5 {
        steps.push(Migration::RegistryV5ToV6);
    } else if user_version != REGISTRY_SCHEMA_VERSION {
        supported = false;
    }
    if !supported {
        let mut message = String::from_str("unsupported Agent registry schema identity ");
        message.append(signed_text(application_id).as_str());
        message.append("/");
        message.append(signed_text(user_version).as_str());
        return Err(corruption(message.as_str()));
    }
    proof {
        assert(steps@ =~= registry_upgrades(user_version)->0);
    }
    Ok(OpenPlan::Upgrade(steps))
}

/// Why an authority database cannot be opened.
pub open spec fn authority_open_fault(
    initialize: bool,
    application_id: i64,
    user_version: i64,
) -> Option<Fault> {
    if initialize {
        if application_id != 0 || user_version != 0 {
            Some(
                corruption_fault(
                    "empty SQLite authority database carries unexpected schema identity"@,
                ),
            )
        } else {
            None
        }
    } else if application_id != AUTHORITY_APPLICATION_ID {
        Some(
            corruption_fault(
                "SQLite authority application_id "@ + signed_decimal(application_id as int)
                    + " is unsupported"@,
            ),
        )
    } else if authority_upgrades(user_version) is None {
        Some(
            corruption_fault(
                "SQLite authority user_version "@ + signed_decimal(user_version as int)
                    + " is unsupported"@,
            ),
        )
    } else {
        None
    }
}

/// Decides how an authority database is opened.
pub fn plan_authority_open(initialize: bool, application_id: i64, user_version: i64) -> (result:
    CentralResult<OpenPlan>)
    ensures
        fault_of(result) == authority_open_fault(initialize, application_id, user_version),
        result matches Ok(plan) ==> (plan is Initialize <==> initialize),
        result matches Ok(OpenPlan::Upgrade(steps)) ==> authority_upgrades(user_version) == Some(
            steps@,
        ),
{
    if initialize {
        if application_id != 0 || user_version != 0 {
            return Err(
                corruption("empty SQLite authority database carries unexpected schema identity"),
            );
        }
        return Ok(OpenPlan::Initialize);
    }
    if application_id != AUTHORITY_APPLICATION_ID {
        let mut message = String::from_str("SQLite authority application_id ");
        message.append(signed_text(application_id).as_str());
        message.append(" is unsupported");
        return Err(corruption(message.as_str()));
    }
    let mut steps: Vec<Migration> = Vec::new();
    if user_version == 1 {
        steps.push(Migration::AuthorityV1ToV2);
        steps.push(Migration::AuthorityV2ToV3);
        steps.push(Migration::AuthorityV3ToV4);
    } else if user_version == 2 {
        steps.push(Migration::AuthorityV2ToV3);
        steps.push(Migration::AuthorityV3ToV4);
    } else if user_version == 3 {
        steps.push(Migration::AuthorityV3ToV4);
    } else if user_version != AUTHORITY_SCHEMA_VERSION {
        let mut message = String::from_str("SQLite authority user_version ");
        message.append(signed_text(user_version).as_str());
        message.append(" is unsupported");
        return Err(corruption(message.as_str()));
    }
    proof {
        assert(steps@ =~= authority_upgrades(user_version)->0);
    }
    Ok(OpenPlan::Upgrade(steps))
}

/// A Playground whose Artifact no upgrade can infer.
pub struct DerivedPlayground {
    pub tenant_id: String,
    pub project_id: String,
    pub artifact_id: String,
    pub playground_id: String,
}

/// What an upgrade says of a Playground whose Artifact it cannot infer.
pub open spec fn derived_playground_text(playground: DerivedPlayground) -> Seq<char> {
    "cannot migrate Playground "@ + playground.tenant_id@ + "/"@ + playground.project_id@ + "/"@
        + playground.artifact_id@ + "/"@ + playground.playground_id@
        + ": Artifact authority cannot be inferred from a derived v4 Playground; export and remove the v4 Playground, create the Artifact explicitly, then recreate the Playground"@
}

/// Refuses to upgrade a catalog that holds a derived Playground.
pub fn validate_playground_migration(derived: Option<&DerivedPlayground>) -> (result: CentralResult<
    (),
>)
    ensures
        fault_of(result) == (match derived {
            Some(playground) => Some(corruption_fault(derived_playground_text(*playground))),
            None => None,
        }),
{
    match derived {
        None => Ok(()),
        Some(playground) => {
            let mut message = String::from_str("cannot migrate Playground ");
            message.append(playground.tenant_id.as_str());
            message.append("/");
            message.append(playground.project_id.as_str());
            message.append("/");
            message.append(playground.artifact_id.as_str());
            message.append("/");
            message.append(playground.playground_id.as_str());
            message.append(
                ": Artifact authority cannot be inferred from a derived v4 Playground; export and remove the v4 Playground, create the Artifact explicitly, then recreate the Playground",
            );
            Err(corruption(message.as_str()))
        },
    }
}

/// Tells whether the Index tables already carry the Project scope.
pub fn index_scope_is_current(indexes_scoped: i64, records_scoped: i64) -> (result: CentralResult<
    bool,
>)
    ensures
        fault_of(result) == (if indexes_scoped != records_scoped {
            Some(corruption_fault("SQLite authority Index tables disagree on project scope"@))
        } else {
            None
        }),
        result matches Ok(current) ==> current == (indexes_scoped == 1),
{
    if indexes_scoped != records_scoped {
        return Err(corruption("SQLite authority Index tables disagree on project scope"));
    }
    Ok(indexes_scoped == 1)
}

/// A check of an Index upgrade, which counts the rows that it cannot carry over.
#[derive(Debug, Clone, Copy, PartialEq, Eq, Structural)]
pub enum IndexMigrationCheck {
    UnscopedPublications,
    MismatchedPublications,
    UnmappedIndexes,
}

/// What a failed check of an Index upgrade says.
pub open spec fn index_migration_text(check: IndexMigrationCheck) -> Seq<char> {
    match check {
        IndexMigrationCheck::UnscopedPublications =>
            "legacy Index publication cannot be mapped to an authority Job Project"@,
        IndexMigrationCheck::MismatchedPublications =>
            "legacy Index publication disagrees with its authority Job scope"@,
        IndexMigrationCheck::UnmappedIndexes =>
            "legacy Index cannot be mapped to exactly one successful publication Project"@,
    }
}

/// Goes on with an Index upgrade only when a check found no row.
pub fn validate_index_migration(check: IndexMigrationCheck, rows: i64) -> (result: CentralResult<()>)
    ensures
        fault_of(result) == (if rows != 0 {
            Some(corruption_fault(index_migration_text(check)))
        } else {
            None
        }),
{
    if rows == 0 {
        return Ok(());
    }
    match check {
        IndexMigrationCheck::UnscopedPublications => Err(
            corruption("legacy Index publication cannot be mapped to an authority Job Project"),
        ),
        IndexMigrationCheck::MismatchedPublications => Err(
            corruption("legacy Index publication disagrees with its authority Job scope"),
        ),
        IndexMigrationCheck::UnmappedIndexes => Err(
            corruption(
                "legacy Index cannot be mapped to exactly one successful publication Project",
            ),
        ),
    }
}

/// A text is among some strings.
pub open spec fn lists(items: Seq<String>, text: Seq<char>) -> bool {
    views(items).contains(text)
}

fn list_contains(items: &Vec<String>, text: &str) -> (found: bool)
    ensures
        found == lists(items@, text@),
{
    let mut index: usize = 0;
    while index < items.len()
        invariant
            index <= items.len(),
            forall|i: int| 0 <= i < index ==> views(items@)[i] != text@,
        decreases items.len() - index,
    {
        if text_equals(items[index].as_str(), text) {
            assert(views(items@)[index as int] == text@);
            return true;
        }
        index += 1;
    }
    false
}

fn list_is_within(items: &Vec<String>, others: &Vec<String>) -> (within: bool)
    ensures
        within == views(items@).to_set().subset_of(views(others@).to_set()),
{
    let mut index: usize = 0;
    while index < items.len()
        invariant
            index <= items.len(),
            forall|i: int| 0 <= i < index ==> lists(others@, #[trigger] views(items@)[i]),
        decreases items.len() - index,
    {
        if !list_contains(others, items[index].as_str()) {
            proof {
                let text = views(items@)[index as int];
                assert(views(items@).to_set().contains(text));
                assert(!views(others@).to_set().contains(text));
            }
            return false;
        }
        index += 1;
    }
    proof {
        assert forall|text: Seq<char>| #[trigger] views(items@).to_set().contains(text) implies views(
            others@,
        ).to_set().contains(text) by {
            let i = choose|i: int| 0 <= i < items@.len() && views(items@)[i] == text;
            assert(lists(others@, views(items@)[i]));
        }
    }
    true
}

/// Checks that the authority holds exactly the expected tables.
pub fn validate_table_set(actual: &Vec<String>, expected: &Vec<String>) -> (result: CentralResult<
    (),
>)
    ensures
        fault_of(result) == (if views(actual@).to_set() == views(expected@).to_set() {
            None
        } else {
            Some(
                corruption_fault(
                    "SQLite authority table set differs from the current schema"@,
                ),
            )
        }),
{
    let within = list_is_within(actual, expected);
    let covers = list_is_within(expected, actual);
    if within && covers {
        proof {
            assert(views(actual@).to_set() =~= views(expected@).to_set());
        }
        return Ok(());
    }
    Err(corruption("SQLite authority table set differs from the current schema"))
}

/// What is wrong with one statement of the authority schema.
pub open spec fn authority_table_fault(statement: Seq<char>, stored: Seq<char>) -> Option<Fault> {
    if words(statement).len() < 3 {
        Some(corruption_fault("invalid embedded SQLite authority schema"@))
    } else if !same_statement(stored, statement) {
        Some(
            corruption_fault(
                "SQLite authority table "@ + words(statement)[2]
                    + " differs from the current schema"@,
            ),
        )
    } else {
        None
    }
}

/// The table that a statement of the authority schema creates.
pub fn authority_table(statement: &str) -> (result: CentralResult<String>)
    ensures
        fault_of(result) == (if words(statement@).len() < 3 {
            Some(corruption_fault("invalid embedded SQLite authority schema"@))
        } else {
            None
        }),
        result matches Ok(table) ==> table@ == words(statement@)[2],
{
    let found = words_of(statement);
    assert(views(found@).len() == found@.len());
    if found.len() < 3 {
        return Err(corruption("invalid embedded SQLite authority schema"));
    }
    assert(views(found@)[2] == found@[2]@);
    Ok(found[2].clone())
}

/// Holds a stored table of the authority against the statement that creates it.
pub fn validate_authority_table(statement: &str, stored: &str) -> (result: CentralResult<()>)
    ensures
        fault_of(result) == authority_table_fault(statement@, stored@),
{
    let table = match authority_table(statement) {
        Ok(table) => table,
        Err(problem) => return Err(problem),
    };
    if !statements_match(stored, statement) {
        let mut message = String::from_str("SQLite authority table ");
        message.append(table.as_str());
        message.append(" differs from the current schema");
        return Err(corruption(message.as_str()));
    }
    Ok(())
}

/// What is wrong with one entry of the registry schema.
pub open spec fn registry_entry_fault(entry: SchemaEntry) -> Option<Fault> {
    match entry_object(entry) {
        None => Some(statement_fault()),
        Some(object) => match entry.stored {
            None => Some(object_fault(object, " is missing"@)),
            Some(stored) => if !same_statement(stored@, entry.statement@) {
                Some(object_fault(object, " differs from the current schema"@))
            } else {
                None
            },
        },
    }
}

/// What is wrong with the first bad entry of the registry schema, from an index on.
pub open spec fn registry_entries_fault_from(entries: Seq<SchemaEntry>, index: int) -> Option<Fault>
    decreases entries.len() - index,
{
    if index < 0 || index >= entries.len() {
        None
    } else if registry_entry_fault(entries[index]) is Some {
        registry_entry_fault(entries[index])
    } else {
        registry_entries_fault_from(entries, index + 1)
    }
}

/// A stored table or index, by its kind and its name.
#[derive(Debug)]
pub struct StoredObject {
    pub kind: String,
    pub name: String,
}

/// Kind and name of a stored object.
pub open spec fn stored_pair(object: StoredObject) -> (Seq<char>, Seq<char>) {
    (object.kind@, object.name@)
}

/// Kind and name of the object that an entry creates.
pub open spec fn expected_pair(entry: SchemaEntry) -> (Seq<char>, Seq<char>) {
    match entry_object(entry) {
        Some(object) => (object_kind_text(object.0), object.1),
        None => (Seq::empty(), Seq::empty()),
    }
}

/// Kinds and names of the stored objects.
pub open spec fn stored_objects(objects: Seq<StoredObject>) -> Set<(Seq<char>, Seq<char>)> {
    Seq::new(objects.len(), |i: int| stored_pair(objects[i])).to_set()
}

/// Kinds and names of the objects that the schema creates.
pub open spec fn expected_objects(entries: Seq<SchemaEntry>) -> Set<(Seq<char>, Seq<char>)> {
    Seq::new(entries.len(), |i: int| expected_pair(entries[i])).to_set()
}

/// Why a stored registry schema is not the current one.
pub open spec fn registry_schema_fault(
    entries: Seq<SchemaEntry>,
    actual: Seq<StoredObject>,
) -> Option<Fault> {
    if registry_entries_fault_from(entries, 0) is Some {
        registry_entries_fault_from(entries, 0)
    } else if stored_objects(actual) != expected_objects(entries) {
        Some(
            corruption_fault(
                "Agent registry table or index set differs from the current schema"@,
            ),
        )
    } else {
        None
    }
}

fn objects_contain(objects: &Vec<StoredObject>, object: &StoredObject) -> (found: bool)
    ensures
        found == stored_objects(objects@).contains(stored_pair(*object)),
{
    let ghost pairs = Seq::new(objects@.len(), |i: int| stored_pair(objects@[i]));
    let mut index: usize = 0;
    while index < objects.len()
        invariant
            index <= objects.len(),
            pairs == Seq::new(objects@.len(), |i: int| stored_pair(objects@[i])),
            forall|i: int| 0 <= i < index ==> pairs[i] != stored_pair(*object),
        decreases objects.len() - index,
    {
        let present = &objects[index];
        if text_equals(present.kind.as_str(), object.kind.as_str()) && text_equals(
            present.name.as_str(),
            object.name.as_str(),
        ) {
            assert(pairs[index as int] == stored_pair(*object));
            return true;
        }
        index += 1;
    }
    false
}

fn objects_are_within(objects: &Vec<StoredObject>, others: &Vec<StoredObject>) -> (within: bool)
    ensures
        within == stored_objects(objects@).subset_of(stored_objects(others@)),
{
    let ghost pairs = Seq::new(objects@.len(), |i: int| stored_pair(objects@[i]));
    let mut index: usize = 0;
    while index < objects.len()
        invariant
            index <= objects.len(),
            pairs == Seq::new(objects@.len(), |i: int| stored_pair(objects@[i])),
            forall|i: int|
                0 <= i < index ==> stored_objects(others@).contains(#[trigger] pairs[i]),
        decreases objects.len() - index,
    {
        if !objects_contain(others, &objects[index]) {
            proof {
                assert(pairs[index as int] == stored_pair(objects@[index as int]));
                assert(stored_objects(objects@).contains(pairs[index as int]));
            }
            return false;
        }
        index += 1;
    }
    proof {
        assert forall|pair: (Seq<char>, Seq<char>)| #[trigger]
            stored_objects(objects@).contains(pair) implies stored_objects(others@).contains(
            pair,
        ) by {
            let i = choose|i: int| 0 <= i < pairs.len() && pairs[i] == pair;
            assert(stored_objects(others@).contains(pairs[i]));
        }
    }
    true
}

/// Holds the stored registry schema, object by object and as a whole, against the current one.
pub fn validate_registry_schema(entries: &Vec<SchemaEntry>, actual: &Vec<StoredObject>) -> (result:
    CentralResult<()>)
    ensures
        fault_of(result) == registry_schema_fault(entries@, actual@),
{
    let mut expected: Vec<StoredObject> = Vec::new();
    let mut index: usize = 0;
    while index < entries.len()
        invariant
            index <= entries.len(),
            expected.len() == index,
            registry_entries_fault_from(entries@, 0) == registry_entries_fault_from(
                entries@,
                index as int,
            ),
            forall|i: int|
                0 <= i < index ==> stored_pair(#[trigger] expected@[i]) == expected_pair(
                    entries@[i],
                ),
        decreases entries.len() - index,
    {
        let entry = &entries[index];
        let object = match schema_object(entry.statement.as_str()) {
            Ok(object) => object,
            Err(problem) => return Err(problem),
        };
        match &entry.stored {
            None => return Err(object_failure(&object, " is missing")),
            Some(stored) => {
                if !statements_match(stored.as_str(), entry.statement.as_str()) {
                    return Err(object_failure(&object, " differs from the current schema"));
                }
            },
        }
        expected.push(
            StoredObject { kind: String::from_str(object.kind.name()), name: object.name },
        );
        index += 1;
    }
    proof {
        assert(Seq::new(expected@.len(), |i: int| stored_pair(expected@[i])) =~= Seq::new(
            entries@.len(),
            |i: int| expected_pair(entries@[i]),
        ));
    }
    let within = objects_are_within(actual, &expected);
    let covers = objects_are_within(&expected, actual);
    if within && covers {
        proof {
            assert(stored_objects(actual@) =~= expected_objects(entries@));
        }
        return Ok(());
    }
    Err(corruption("Agent registry table or index set differs from the current schema"))
}

/// Some texts in a row, with a separator between them.
pub open spec fn joined(texts: Seq<Seq<char>>, separator: Seq<char>) -> Seq<char>
    decreases texts.len(),
{
    if texts.len() == 0 {
        Seq::empty()
    } else if texts.len() == 1 {
        texts[0]
    } else {
        joined(texts.drop_last(), separator) + separator + texts.last()
    }
}

fn join_texts(items: &Vec<String>, separator: &str) -> (text: String)
    ensures
        text@ == joined(views(items@), separator@),
{
    let mut text = String::new();
    let mut index: usize = 0;
    while index < items.len()
        invariant
            index <= items.len(),
            text@ == joined(views(items@).take(index as int), separator@),
        decreases items.len() - index,
    {
        let ghost before = text@;
        proof {
            let next = views(items@).take(index + 1);
            assert(next.drop_last() =~= views(items@).take(index as int));
            assert(next.last() == items@[index as int]@);
        }
        if index > 0 {
            text.append(separator);
        }
        text.append(items[index].as_str());
        proof {
            if index == 0 {
                assert(before =~= Seq::<char>::empty());
                assert(text@ =~= items@[0]@);
            }
        }
        index += 1;
    }
    proof {
        assert(views(items@).take(index as int) =~= views(items@));
    }
    text
}

/// Why the database itself reports damage.
pub open spec fn integrity_fault(
    store: Store,
    results: Seq<String>,
    foreign_key_violations: nat,
) -> Option<Fault> {
    if views(results) != seq!["ok"@] {
        Some(
            corruption_fault(
                store_text(store) + " integrity check failed: "@ + joined(views(results), "; "@),
            ),
        )
    } else if foreign_key_violations != 0 {
        Some(corruption_fault(store_text(store) + " foreign-key check failed"@))
    } else {
        None
    }
}

/// Judges what the database reports about itself.
pub fn validate_integrity(
    store: Store,
    results: &Vec<String>,
    foreign_key_violations: usize,
) -> (result: CentralResult<()>)
    ensures
        fault_of(result) == integrity_fault(store, results@, foreign_key_violations as nat),
{
    proof {
        assert(views(results@) == seq!["ok"@] <==> results@.len() == 1 && results@[0]@ == "ok"@) by {
            if results@.len() == 1 && results@[0]@ == "ok"@ {
                assert(views(results@) =~= seq!["ok"@]);
            }
            if views(results@) == seq!["ok"@] {
                assert(views(results@)[0] == "ok"@);
            }
        }
    }
    if results.len() != 1 || !text_equals(results[0].as_str(), "ok") {
        let mut message = String::from_str(store.text());
        message.append(" integrity check failed: ");
        message.append(join_texts(results, "; ").as_str());
        return Err(corruption(message.as_str()));
    }
    if foreign_key_violations != 0 {
        return Err(store_failure(store, " foreign-key check failed"));
    }
    Ok(())
}

} // verus!
