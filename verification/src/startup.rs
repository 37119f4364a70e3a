//! Opening the store at start-up: from the application's data directory to
//! an open connection on which the schema statement has run.

use vstd::prelude::*;
use crate::engine::open_in;
use crate::error::{Stage, StoreError};
use crate::register::ensure_schema;
use crate::statements::DB_FILE_NAME;

verus! {

/// Settles what the schema statement gave on a connection that was just
/// opened: after a success the connection is handed on, the same one;
/// after a failure the error is handed on, unchanged, and the connection
/// is closed.
pub fn schema_settled(connection: rusqlite::Connection, ran: Result<(), StoreError>) -> (result:
    Result<rusqlite::Connection, StoreError>)
    ensures
        ran is Ok ==> result == Ok::<rusqlite::Connection, StoreError>(connection),
        ran matches Err(error) ==> result == Err::<rusqlite::Connection, StoreError>(error),
{
    match ran {
        Ok(()) => Ok(connection),
        Err(error) => Err(error),
    }
}

/// Settles what opening the database file gave. A failed open is the
/// storage error in the engine's own words, and nothing more is tried. On
/// an open connection the schema statement runs: where it fails, the
/// result is the schema error; where it succeeds, the result is that same
/// connection. The first step that fails decides the kind.
pub fn bootstrap(opened: Result<rusqlite::Connection, rusqlite::Error>) -> (result: Result<
    rusqlite::Connection,
    StoreError,
>)
    ensures
        opened matches Err(cause) ==> (result matches Err(error) && error.is_engine_failure(
            Stage::Open,
            cause,
        )),
        opened matches Ok(connection) ==> (result matches Ok(ready) ==> ready == connection),
        opened matches Ok(connection) ==> (result matches Err(error) ==> exists|
            cause: rusqlite::Error,
        | error.is_engine_failure(Stage::Schema, cause)),
{
    match opened {
        Err(cause) => Err(StoreError::from_engine(Stage::Open, &cause)),
        Ok(connection) => {
            let ran = ensure_schema(&connection);
            schema_settled(connection, ran)
        },
    }
}

/// Opens the store's database file inside `dir`, creating it if it is
/// absent, and runs the schema statement on it, as `bootstrap` settles it.
/// The directory itself must exist.
pub fn open_store(dir: &std::path::PathBuf) -> (result: Result<rusqlite::Connection, StoreError>)
    ensures
        result matches Err(error) ==> exists|cause: rusqlite::Error|
            error.is_engine_failure(Stage::Open, cause) || error.is_engine_failure(
                Stage::Schema,
                cause,
            ),
{
    let opened = open_in(dir, DB_FILE_NAME);
    bootstrap(opened)
}

/// Initializes the store from what the host found out about the data
/// directory: `app_dir` is the directory it resolved, if any, and `created`
/// is the outcome of creating that directory and its parents, with the
/// operating system's description on failure.
///
/// Without a directory nothing is opened and the result is
/// `DirectoryUnavailable`; that error has no other cause. Where the
/// directory could not be created nothing is opened either, and the
/// description is passed on as `StorageIo`. Otherwise the store is opened,
/// and a failure is the engine's.
pub fn initialize(
    app_dir: Option<std::path::PathBuf>,
    created: Result<(), String>,
) -> (result: Result<rusqlite::Connection, StoreError>)
    ensures
        app_dir is None <==> (result matches Err(error) && error is DirectoryUnavailable),
        app_dir is Some && created is Err ==> (result matches Err(StoreError::StorageIo(detail))
            && detail@ == created->Err_0@),
        app_dir is Some && created is Ok ==> (result matches Err(error) ==> exists|
            cause: rusqlite::Error,
        |
            error.is_engine_failure(Stage::Open, cause) || error.is_engine_failure(
                Stage::Schema,
                cause,
            )),
{
    match app_dir {
        None => Err(StoreError::DirectoryUnavailable),
        Some(dir) => match created {
            Err(detail) => Err(StoreError::StorageIo(detail)),
            Ok(()) => open_store(&dir),
        },
    }
}

} // verus!
