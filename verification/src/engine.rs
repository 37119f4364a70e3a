//! The database engine as the store sees it: the outside types it hands
//! around and one wrapper for each outside function that the store calls.
//! Nothing in this file is proved. What the engine answers depends on the
//! file that a connection is open on, so nothing is claimed of an answer:
//! each wrapper only fixes, in its `requires`, what may be handed to the
//! engine.

use vstd::prelude::*;
use rusqlite::OptionalExtension;
use crate::statements::{schema_text, select_text, upsert_text, APP_STATE_KEY, DB_FILE_NAME};

verus! {

/// An open connection to a SQLite database, `rusqlite::Connection`.
#[verifier::external_type_specification]
#[verifier::external_body]
pub struct ExConnection(rusqlite::Connection);

/// A failure reported by the engine, `rusqlite::Error`.
#[verifier::external_type_specification]
#[verifier::external_body]
pub struct ExEngineError(rusqlite::Error);

/// A file-system path, `std::path::PathBuf`.
#[verifier::external_type_specification]
#[verifier::external_body]
pub struct ExPathBuf(std::path::PathBuf);

/// `rusqlite::Connection::open` on the path that `std::path::Path::join`
/// gives for `file_name` inside `dir`: opens the database file of that name
/// in the directory, creating it if it is absent. Only the store's own file
/// name may be handed over.
#[verifier::external_body]
pub(crate) fn open_in(dir: &std::path::PathBuf, file_name: &str) -> (opened: Result<
    rusqlite::Connection,
    rusqlite::Error,
>)
    requires
        file_name@ == DB_FILE_NAME@,
{
    rusqlite::Connection::open(dir.join(file_name))
}

/// `rusqlite::Connection::execute`, with `params` bound in order to `?1`,
/// `?2`. Only the store's two changing statements may be handed over: the
/// schema statement without parameters, or the upsert with the
/// application-state key as its first parameter and a value as its second.
#[verifier::external_body]
pub(crate) fn execute(conn: &rusqlite::Connection, sql: &str, params: &Vec<&str>) -> (changed:
    Result<usize, rusqlite::Error>)
    requires
        (sql@ == schema_text() && params@.len() == 0) || (sql@ == upsert_text() && params@.len()
            == 2 && params@[0]@ == APP_STATE_KEY@),
{
    conn.execute(sql, rusqlite::params_from_iter(params.iter()))
}

/// `rusqlite::Connection::query_row` with `key` bound to `?1`, reading the
/// first column of the first row as text, followed by
/// `rusqlite::OptionalExtension::optional`, which turns "no row" into
/// `None`. Only the store's point lookup may be handed over, and only for
/// the application-state key.
#[verifier::external_body]
pub(crate) fn query_text(conn: &rusqlite::Connection, sql: &str, key: &str) -> (found: Result<
    Option<String>,
    rusqlite::Error,
>)
    requires
        sql@ == select_text(),
        key@ == APP_STATE_KEY@,
{
    conn.query_row(sql, [key], |row| row.get::<usize, String>(0)).optional()
}

} // verus!
