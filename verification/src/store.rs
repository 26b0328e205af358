//! The statements this crate issues against the document table, and the
//! three operations built from them: seeding, read and write.

use crate::error::AppError;
use crate::json::{compact_text, decode_document, encode_payload, json_encoded, json_parsed};
use crate::keys::{default_json, is_data_key, key_at, validate_key, DATA_KEY_COUNT};
use crate::table::{seed_statements, served_text, stored, StatementView, Table};
use rusqlite::OptionalExtension;
use vstd::prelude::*;

verus! {

/// A connection to the database. It is opaque here; the operations take it
/// by `&mut`, so that a contract can say when a call left it alone.
#[verifier::external_type_specification]
#[verifier::external_body]
pub struct ExConnection(rusqlite::Connection);

/// Sets the journal to write-ahead logging, relaxes flushing, keeps
/// temporary structures in memory, and creates the table unless it exists.
pub const SCHEMA_SQL: &'static str = "PRAGMA journal_mode = WAL;
PRAGMA synchronous = NORMAL;
PRAGMA temp_store = MEMORY;
CREATE TABLE IF NOT EXISTS kv_store (
    data_key TEXT PRIMARY KEY,
    data_value TEXT NOT NULL,
    updated_at INTEGER NOT NULL
);";

/// Adds a row for key `?1` with value `?2` unless the key has a row.
pub const INSERT_IF_ABSENT_SQL: &'static str =
    "INSERT OR IGNORE INTO kv_store (data_key, data_value, updated_at) VALUES (?1, ?2, strftime('%s', 'now'))";

/// Adds a row for key `?1` with value `?2`, or replaces value and time of
/// the row the key has, in one statement.
pub const UPSERT_SQL: &'static str =
    "INSERT INTO kv_store (data_key, data_value, updated_at) VALUES (?1, ?2, strftime('%s', 'now')) ON CONFLICT(data_key) DO UPDATE SET data_value=excluded.data_value, updated_at=excluded.updated_at";

/// Fetches the value stored for key `?1`.
pub const SELECT_SQL: &'static str = "SELECT data_value FROM kv_store WHERE data_key = ?1";

/// A statement that changes at most the row of one key.
#[derive(Debug, PartialEq, Eq)]
pub enum Statement {
    /// Add a row for the key unless the key has one.
    InsertIfAbsent { key: String, value: String },
    /// Add a row for the key, or replace value and time of the row it has.
    Upsert { key: String, value: String },
}

impl View for Statement {
    type V = StatementView;

    open spec fn view(&self) -> StatementView {
        match self {
            Statement::InsertIfAbsent { key, value } => StatementView::InsertIfAbsent {
                key: key@,
                value: value@,
            },
            Statement::Upsert { key, value } => StatementView::Upsert { key: key@, value: value@ },
        }
    }
}

/// The SQL text of a statement.
pub open spec fn statement_sql(statement: StatementView) -> Seq<char> {
    match statement {
        StatementView::InsertIfAbsent { .. } => INSERT_IF_ABSENT_SQL@,
        StatementView::Upsert { .. } => UPSERT_SQL@,
    }
}

impl Statement {
    /// The SQL text to prepare; key and value are bound to `?1` and `?2`.
    pub fn sql(&self) -> (text: &'static str)
        ensures
            text@ == statement_sql(self@),
    {
        match self {
            Statement::InsertIfAbsent { .. } => INSERT_IF_ABSENT_SQL,
            Statement::Upsert { .. } => UPSERT_SQL,
        }
    }

    /// The key bound to `?1`.
    pub fn key(&self) -> (key: &str)
        ensures
            key@ == self@.key(),
    {
        match self {
            Statement::InsertIfAbsent { key, .. } => key.as_str(),
            Statement::Upsert { key, .. } => key.as_str(),
        }
    }

    /// The text bound to `?2`.
    pub fn value(&self) -> (value: &str)
        ensures
            value@ == self@.value(),
    {
        match self {
            Statement::InsertIfAbsent { value, .. } => value.as_str(),
            Statement::Upsert { value, .. } => value.as_str(),
        }
    }
}

/// Calls `rusqlite::Connection::execute_batch`, which runs the statements
/// of `sql` one after another. An error comes back as its message. Whether
/// it succeeds depends on the database, so nothing is claimed of the result.
#[verifier::external_body]
fn run_batch(conn: &mut rusqlite::Connection, sql: &str) -> (r: Result<(), String>) {
    match conn.execute_batch(sql) {
        Ok(()) => Ok(()),
        Err(e) => Err(e.to_string()),
    }
}

/// Calls `rusqlite::Connection::execute` with `key` and `value` bound to
/// the two parameters of `sql`. On success it gives the number of rows the
/// statement changed; an error comes back as its message. Both depend on
/// the database, so nothing is claimed of the result.
#[verifier::external_body]
fn run_statement(conn: &mut rusqlite::Connection, sql: &str, key: &str, value: &str) -> (r: Result<
    usize,
    String,
>) {
    match conn.execute(sql, [key, value]) {
        Ok(changed) => Ok(changed),
        Err(e) => Err(e.to_string()),
    }
}

/// Calls `rusqlite::Connection::query_row` with `key` bound to the one
/// parameter of `sql`, reads the first column of the first row as text, and
/// passes the result through `rusqlite::OptionalExtension::optional`, which
/// turns "no row" into `None`. Any other error comes back as its message.
/// What is found depends on the database, so nothing is claimed of the
/// result.
#[verifier::external_body]
fn query_text(conn: &mut rusqlite::Connection, sql: &str, key: &str) -> (r: Result<
    Option<String>,
    String,
>) {
    match conn.query_row(sql, [key], |row| row.get::<usize, String>(0)).optional() {
        Ok(found) => Ok(found),
        Err(e) => Err(e.to_string()),
    }
}

/// The statements that seed the table, in the order in which they run.
pub fn seed_plan() -> (plan: Vec<Statement>)
    ensures
        plan@.len() == seed_statements().len(),
        forall|i: int| 0 <= i < plan@.len() ==> (#[trigger] plan@[i])@ == seed_statements()[i],
{
    let mut plan: Vec<Statement> = Vec::new();
    let mut i: usize = 0;
    while i < DATA_KEY_COUNT
        invariant
            i <= DATA_KEY_COUNT,
            plan@.len() == i,
            forall|j: int| 0 <= j < i ==> (#[trigger] plan@[j])@ == seed_statements()[j],
        decreases DATA_KEY_COUNT - i,
    {
        let key = key_at(i);
        plan.push(Statement::InsertIfAbsent { key: key.to_owned(), value: default_json(key).to_owned() });
        i += 1;
    }
    plan
}

/// Decides what a write does before it reaches the database. A key outside
/// the namespace and a payload that is not JSON are rejected, in this
/// order, and no statement exists for them. Otherwise the statement
/// replaces the document of the key by the compact text of the payload.
pub fn write_statement(key: &str, body: &str) -> (r: Result<Statement, AppError>)
    ensures
        !is_data_key(key@) ==> r == Err::<Statement, AppError>(AppError::UnknownKey),
        is_data_key(key@) ==> match compact_text(body@) {
            Ok(compact) => r matches Ok(statement) && statement@ == (StatementView::Upsert {
                key: key@,
                value: compact,
            }),
            Err(reason) => r matches Err(AppError::InvalidPayload(msg)) && msg@ == reason,
        },
{
    match validate_key(key) {
        Ok(()) => {},
        Err(e) => {
            return Err(e);
        },
    }
    match encode_payload(body) {
        Ok(value) => Ok(Statement::Upsert { key: key.to_owned(), value }),
        Err(e) => Err(e),
    }
}

/// What a write answers, given what the database said of its statement
/// or batch: success whatever the database reported of it, and the
/// database's own error with its message otherwise.
pub fn write_outcome<T>(executed: Result<T, String>) -> (r: Result<(), AppError>)
    ensures
        match executed {
            Ok(_) => r is Ok,
            Err(reason) => r matches Err(AppError::Db(msg)) && msg@ == reason@,
        },
{
    match executed {
        Ok(_) => Ok(()),
        Err(reason) => Err(AppError::Db(reason)),
    }
}

/// The text of the row a query found, if it found one.
pub open spec fn fetched_row(fetched: Result<Option<String>, String>) -> Option<Seq<char>> {
    match fetched {
        Ok(row) => row_text(row),
        Err(_) => None,
    }
}

/// The text of a row, if there is one.
pub open spec fn row_text(row: Option<String>) -> Option<Seq<char>> {
    match row {
        Some(text) => Some(text@),
        None => None,
    }
}

/// What a read of `key` answers, given what the database said of its
/// query: the decoded row, the decoded default of the key where there is
/// no row, a decode error where the text is not JSON, or the database's
/// own error. A missing row never makes a read fail.
pub fn read_outcome(key: &str, fetched: Result<Option<String>, String>) -> (r: Result<
    serde_json::Value,
    AppError,
>)
    ensures
        fetched == Ok::<Option<String>, String>(None) ==> r is Ok,
        match fetched {
            Ok(row) => match json_parsed(served_text(key@, row_text(row))) {
                Ok(encoded) => r matches Ok(value) && json_encoded(value) == encoded,
                Err(reason) => r matches Err(AppError::Decode(msg)) && msg@ == reason,
            },
            Err(reason) => r matches Err(AppError::Db(msg)) && msg@ == reason@,
        },
{
    match fetched {
        Ok(Some(text)) => decode_document(text.as_str()),
        Ok(None) => decode_document(default_json(key)),
        Err(reason) => Err(AppError::Db(reason)),
    }
}

/// Runs a statement on the database. The answer is that of
/// `write_outcome` for whatever the database said: success where it
/// accepted the statement, its own error where it did not.
pub fn commit(conn: &mut rusqlite::Connection, statement: &Statement) -> (r: Result<(), AppError>)
    ensures
        r matches Err(e) ==> e is Db,
{
    write_outcome(run_statement(conn, statement.sql(), statement.key(), statement.value()))
}

/// Prepares the database: configures it, creates the table unless it
/// exists, and then commits the seed plan in order. It stops at the first
/// batch or statement the database refuses and answers with that error,
/// as `write_outcome` gives it. What the database then holds is the
/// database's to say; `table::seeding_fills_namespace` states what the
/// seed plan is meant to leave there.
pub fn init_schema(conn: &mut rusqlite::Connection) -> (r: Result<(), AppError>)
    ensures
        r matches Err(e) ==> e is Db,
{
    match write_outcome(run_batch(conn, SCHEMA_SQL)) {
        Ok(()) => {},
        Err(e) => {
            return Err(e);
        },
    }
    let plan = seed_plan();
    let mut i: usize = 0;
    while i < plan.len()
        invariant
            i <= plan.len(),
        decreases plan.len() - i,
    {
        match commit(conn, &plan[i]) {
            Ok(()) => {},
            Err(e) => {
                return Err(e);
            },
        }
        i += 1;
    }
    Ok(())
}

/// Reads the document of `key`. A key outside the namespace is rejected
/// before the connection is used. Otherwise the answer is that of
/// `read_outcome` for whatever the database said.
pub fn get_data(conn: &mut rusqlite::Connection, key: &str) -> (r: Result<serde_json::Value, AppError>)
    ensures
        !is_data_key(key@) ==> r == Err::<serde_json::Value, AppError>(AppError::UnknownKey)
            && *final(conn) == *old(conn),
        is_data_key(key@) ==> match r {
            Ok(value) => exists|row: Option<Seq<char>>|
                json_parsed(#[trigger] served_text(key@, row)) == Ok::<
                    Result<Seq<char>, Seq<char>>,
                    Seq<char>,
                >(json_encoded(value)),
            Err(e) => e is Db || e is Decode,
        },
{
    match validate_key(key) {
        Ok(()) => {},
        Err(e) => {
            return Err(e);
        },
    }
    let fetched = query_text(conn, SELECT_SQL, key);
    let ghost row = fetched_row(fetched);
    let r = read_outcome(key, fetched);
    proof {
        if r is Ok {
            assert(json_parsed(served_text(key@, row)) == Ok::<Result<Seq<char>, Seq<char>>, Seq<char>>(
                json_encoded(r->Ok_0),
            ));
        }
    }
    r
}

/// Replaces the document of `key` by the payload `body`. A key outside the
/// namespace and a payload that is not JSON are rejected before the
/// connection is used, so the stored document stays as it is. Otherwise the
/// statement of `write_statement` is committed, and the answer is that of
/// `write_outcome` for whatever the database said.
pub fn put_data(conn: &mut rusqlite::Connection, key: &str, body: &str) -> (r: Result<(), AppError>)
    ensures
        !is_data_key(key@) ==> r == Err::<(), AppError>(AppError::UnknownKey)
            && *final(conn) == *old(conn),
        is_data_key(key@) ==> match compact_text(body@) {
            Ok(_) => r matches Err(e) ==> e is Db,
            Err(reason) => r matches Err(AppError::InvalidPayload(msg)) && msg@ == reason
                && *final(conn) == *old(conn),
        },
{
    match write_statement(key, body) {
        Ok(statement) => commit(conn, &statement),
        Err(e) => Err(e),
    }
}

/// Round trip. Let a write of `body` be accepted, so that its statement
/// carries the compact text of the payload. Once the database committed
/// that statement, at whatever time and on whatever table, the row of the
/// key holds that text, and a read of the key answers with what the parser
/// makes of it: the value that the encoder wrote that text for, provided
/// the parser reads back what the encoder writes.
pub proof fn round_trip(table: Table, key: Seq<char>, body: Seq<char>, now: int)
    ensures
        compact_text(body) matches Ok(compact) ==> ({
            let write = StatementView::Upsert { key, value: compact };
            let row = stored(write.apply(table, now), key);
            &&& row == Some(compact)
            &&& json_parsed(served_text(key, row)) == json_parsed(compact)
        }),
{
}

} // verus!
