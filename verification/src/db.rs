//! The layout of the router's store and how it is brought up to date.

use vstd::prelude::*;
use crate::sql::{text_statement, Cell, SqlStatement, StatementView};
use crate::text::text_of;

verus! {

/// Set on every new connection: write-ahead logging and enforced foreign
/// keys.
pub const CONNECTION_SETUP_SQL: &'static str = "PRAGMA journal_mode=WAL; PRAGMA foreign_keys=ON;";

/// The table that records which migrations have run.
pub const MIGRATIONS_TABLE_SQL: &'static str = "CREATE TABLE IF NOT EXISTS migrations (
                id TEXT PRIMARY KEY,
                executed_at TEXT NOT NULL DEFAULT (datetime('now'))
            );";

pub const MIGRATION_APPLIED_SQL: &'static str = "SELECT COUNT(*) > 0 FROM migrations WHERE id = ?1";

pub const RECORD_MIGRATION_SQL: &'static str = "INSERT INTO migrations (id) VALUES (?1)";

/// The id of the first migration.
pub const INITIAL_MIGRATION_ID: &'static str = "001_initial";

/// The tables of the router.
pub const INITIAL_SCHEMA_SQL: &'static str = "CREATE TABLE IF NOT EXISTS users (
    id TEXT PRIMARY KEY,
    username TEXT NOT NULL UNIQUE,
    password_hash TEXT NOT NULL,
    created_at TEXT NOT NULL DEFAULT (datetime('now')),
    updated_at TEXT NOT NULL DEFAULT (datetime('now'))
);
CREATE TABLE IF NOT EXISTS sessions (
    token_hash TEXT PRIMARY KEY,
    user_id TEXT NOT NULL,
    username TEXT NOT NULL,
    expires_at TEXT NOT NULL,
    created_at TEXT NOT NULL DEFAULT (datetime('now'))
);
CREATE TABLE IF NOT EXISTS projects (
    id TEXT PRIMARY KEY,
    name TEXT NOT NULL,
    optimization TEXT,
    created_at TEXT NOT NULL,
    updated_at TEXT NOT NULL
);
CREATE TABLE IF NOT EXISTS servers (
    id TEXT PRIMARY KEY,
    name TEXT NOT NULL,
    description TEXT,
    server_type TEXT NOT NULL,
    command TEXT,
    args TEXT,
    env TEXT,
    remote_url TEXT,
    bearer_token TEXT,
    project_id TEXT REFERENCES projects(id),
    tool_permissions TEXT,
    auto_start INTEGER NOT NULL DEFAULT 0,
    disabled INTEGER NOT NULL DEFAULT 0,
    created_at TEXT NOT NULL,
    updated_at TEXT NOT NULL
);
CREATE TABLE IF NOT EXISTS request_logs (
    id TEXT PRIMARY KEY,
    timestamp INTEGER NOT NULL,
    client_id TEXT,
    client_name TEXT,
    server_id TEXT,
    server_name TEXT,
    request_type TEXT NOT NULL,
    request_params TEXT,
    response_status TEXT NOT NULL,
    duration INTEGER,
    error_message TEXT
);
CREATE TABLE IF NOT EXISTS api_tokens (
    id TEXT PRIMARY KEY,
    client_id TEXT NOT NULL,
    server_access TEXT NOT NULL,
    issued_at INTEGER NOT NULL,
    expires_at INTEGER
);";

/// A migration: its id and the SQL that it runs.
#[derive(Debug, PartialEq, Eq)]
pub struct Migration {
    pub id: String,
    pub sql: String,
}

/// What to do for one migration: nothing when it has run, otherwise run its
/// SQL and then record it.
#[derive(Debug, PartialEq, Eq)]
pub struct MigrationStep {
    pub batch: String,
    pub record: SqlStatement,
}

/// The router's migrations, in the order they run.
pub fn migrations() -> (r: Vec<Migration>)
    ensures
        r@.len() == 1,
        r@[0].id@ == INITIAL_MIGRATION_ID@,
        r@[0].sql@ == INITIAL_SCHEMA_SQL@,
{
    let mut r: Vec<Migration> = Vec::new();
    r.push(Migration { id: text_of(INITIAL_MIGRATION_ID), sql: text_of(INITIAL_SCHEMA_SQL) });
    r
}

/// The statement that asks whether migration `id` has run.
pub fn migration_applied_statement(id: &str) -> (s: SqlStatement)
    ensures
        s@.sql == MIGRATION_APPLIED_SQL@,
        s@.params == seq![Cell::Text(id@)],
{
    text_statement(MIGRATION_APPLIED_SQL, id)
}

/// What to do for the migration `(id, sql)`: nothing when it has run,
/// otherwise run its SQL (the first part) and then record its id (the
/// statement, the second part).
pub open spec fn migration_step_for(id: Seq<char>, sql: Seq<char>, applied: bool) -> Option<(Seq<char>, StatementView)> {
    if applied {
        None
    } else {
        Some((sql, StatementView { sql: RECORD_MIGRATION_SQL@, params: seq![Cell::Text(id)] }))
    }
}

/// The step of migration `m`, given whether it has run.
pub fn migration_step(m: &Migration, applied: bool) -> (r: Option<MigrationStep>)
    ensures
        match r {
            Some(step) => migration_step_for(m.id@, m.sql@, applied) == Some((step.batch@, step.record@)),
            None => migration_step_for(m.id@, m.sql@, applied) is None,
        },
{
    if applied {
        return None;
    }
    Some(MigrationStep { batch: m.sql.clone(), record: text_statement(RECORD_MIGRATION_SQL, m.id.as_str()) })
}

/// What SQLite makes of the ids recorded in the migrations table when it
/// runs one of the router's statements: `RECORD_MIGRATION_SQL` adds its id;
/// any other statement leaves them alone. `MIGRATION_APPLIED_SQL` answers
/// whether an id is among them.
pub open spec fn run_record(recorded: Set<Seq<char>>, s: StatementView) -> Set<Seq<char>> {
    if s.sql == RECORD_MIGRATION_SQL@ && s.params.len() == 1 {
        match s.params[0] {
            Cell::Text(id) => recorded.insert(id),
            _ => recorded,
        }
    } else {
        recorded
    }
}

/// A run of the migrations `ms` (ids and SQL, in order) over the recorded
/// ids: the ids recorded afterwards, and the SQL run, in order.
pub open spec fn run_migrations(recorded: Set<Seq<char>>, ms: Seq<(Seq<char>, Seq<char>)>) -> (Set<Seq<char>>, Seq<Seq<char>>)
    decreases ms.len(),
{
    if ms.len() == 0 {
        (recorded, seq![])
    } else {
        match migration_step_for(ms[0].0, ms[0].1, recorded.contains(ms[0].0)) {
            Some((batch, record)) => {
                let rest = run_migrations(run_record(recorded, record), ms.drop_first());
                (rest.0, seq![batch] + rest.1)
            },
            None => run_migrations(recorded, ms.drop_first()),
        }
    }
}

/// A run records every migration and forgets none.
proof fn lemma_run_records_all(recorded: Set<Seq<char>>, ms: Seq<(Seq<char>, Seq<char>)>)
    ensures
        recorded.subset_of(run_migrations(recorded, ms).0),
        forall|i: int| 0 <= i < ms.len() ==> run_migrations(recorded, ms).0.contains(#[trigger] ms[i].0),
    decreases ms.len(),
{
    if ms.len() > 0 {
        let next = if recorded.contains(ms[0].0) { recorded } else { recorded.insert(ms[0].0) };
        assert(run_migrations(recorded, ms) == (if recorded.contains(ms[0].0) {
            run_migrations(next, ms.drop_first())
        } else {
            let rest = run_migrations(next, ms.drop_first());
            (rest.0, seq![ms[0].1] + rest.1)
        }));
        lemma_run_records_all(next, ms.drop_first());
        assert forall|i: int| 0 <= i < ms.len() implies run_migrations(recorded, ms).0.contains(#[trigger] ms[i].0) by {
            if i > 0 {
                assert(ms[i] == ms.drop_first()[i - 1]);
            }
        }
    }
}

/// A run over ids that already include every migration does nothing.
proof fn lemma_run_recorded_is_empty(recorded: Set<Seq<char>>, ms: Seq<(Seq<char>, Seq<char>)>)
    requires
        forall|i: int| 0 <= i < ms.len() ==> recorded.contains(#[trigger] ms[i].0),
    ensures
        run_migrations(recorded, ms) == (recorded, Seq::<Seq<char>>::empty()),
    decreases ms.len(),
{
    if ms.len() > 0 {
        assert(recorded.contains(ms[0].0));
        assert forall|i: int| 0 <= i < ms.drop_first().len() implies recorded.contains(#[trigger] ms.drop_first()[i].0) by {
            assert(ms.drop_first()[i] == ms[i + 1]);
        }
        lemma_run_recorded_is_empty(recorded, ms.drop_first());
    }
}

/// Running the migrations twice is running them once: after a first run
/// every migration is recorded, and a second run runs no SQL and records
/// nothing new.
pub proof fn law_migrations_run_once(recorded: Set<Seq<char>>, ms: Seq<(Seq<char>, Seq<char>)>)
    ensures
        ({
            let once = run_migrations(recorded, ms);
            &&& forall|i: int| 0 <= i < ms.len() ==> once.0.contains(#[trigger] ms[i].0)
            &&& run_migrations(once.0, ms) == (once.0, Seq::<Seq<char>>::empty())
        }),
{
    lemma_run_records_all(recorded, ms);
    lemma_run_recorded_is_empty(run_migrations(recorded, ms).0, ms);
}

} // verus!
