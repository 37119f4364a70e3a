//! The state register on an open connection: schema bootstrap, load and
//! save of the one application-state record, each as one statement.
//!
//! What a statement finds or leaves in the database is the engine's
//! business and the file's; the contracts here say which statement and
//! which parameters reach the engine and how its answer is passed on.

use vstd::prelude::*;
use crate::engine::{execute, query_text};
use crate::error::{report, report_change, Stage, StoreError};
use crate::statements::{schema_statement, select_statement, upsert_statement, APP_STATE_KEY};

verus! {

/// The parameters of the upsert that saves `value`: the application-state
/// key, then the value, unchanged.
pub fn upsert_params<'a>(value: &'a str) -> (params: Vec<&'a str>)
    ensures
        params@.len() == 2,
        params@[0]@ == APP_STATE_KEY@,
        params@[1]@ == value@,
{
    let mut params: Vec<&'a str> = Vec::new();
    params.push(APP_STATE_KEY);
    params.push(value);
    params
}

/// Makes sure the key-value table exists, by the schema statement, which
/// creates the table only where it is absent. A failure is the engine's,
/// reported as the schema-stage error in its own words.
pub fn ensure_schema(conn: &rusqlite::Connection) -> (result: Result<(), StoreError>)
    ensures
        result matches Err(error) ==> exists|cause: rusqlite::Error|
            error.is_engine_failure(Stage::Schema, cause),
{
    let sql = schema_statement();
    let params: Vec<&str> = Vec::new();
    let changed = execute(conn, sql.as_str(), &params);
    report_change(changed, Stage::Schema)
}

/// Reads the application state by the point lookup for its key: what the
/// engine found, `Some` with the stored value or `None` where there is no
/// row yet. A failure is the engine's, reported as the query-stage error in
/// its own words.
pub fn read_state(conn: &rusqlite::Connection) -> (result: Result<Option<String>, StoreError>)
    ensures
        result matches Err(error) ==> exists|cause: rusqlite::Error|
            error.is_engine_failure(Stage::Query, cause),
{
    let sql = select_statement();
    let found = query_text(conn, sql.as_str(), APP_STATE_KEY);
    report(found, Stage::Query)
}

/// Saves `value` as the application state by one upsert: the engine
/// inserts the record where it is absent and overwrites it where it is
/// present. A failure is the engine's, reported as the write-stage error in
/// its own words.
pub fn write_state(conn: &rusqlite::Connection, value: &str) -> (result: Result<(), StoreError>)
    ensures
        result matches Err(error) ==> exists|cause: rusqlite::Error|
            error.is_engine_failure(Stage::Write, cause),
{
    let sql = upsert_statement();
    let params = upsert_params(value);
    let changed = execute(conn, sql.as_str(), &params);
    report_change(changed, Stage::Write)
}

} // verus!
