//! The one connection, shared by every caller for the life of the process
//! and handed to one of them at a time.

use vstd::prelude::*;
use crate::error::{Stage, StoreError};
use crate::lock::{acquire, connection_of, guard_connection, held_data, protects};
use crate::register::{read_state, write_state};

verus! {

/// The store as the application holds it: the connection behind a guard, so
/// that loads and saves from any thread run one after the other.
pub struct AppDatabase {
    connection: std::sync::Mutex<rusqlite::Connection>,
}

/// Runs `action` on the connection behind a guard that was asked for, and
/// settles both outcomes of the asking. Where the guard could not be
/// acquired the result is `LockUnavailable`, whatever the action is. Where
/// it was acquired, the action runs on the connection that the guard gives
/// access to, and the result is what the action returned: nothing is
/// retried, swallowed or replaced. The guard is released when this function
/// returns.
pub fn with_held<R, F>(
    held: Option<std::sync::MutexGuard<'_, rusqlite::Connection>>,
    action: F,
) -> (result: Result<R, StoreError>) where F: FnOnce(&rusqlite::Connection) -> Result<R, StoreError>
    requires
        held matches Some(guard) ==> action.requires((&held_data(guard),)),
    ensures
        held is None ==> (result matches Err(error) && error is LockUnavailable),
        held matches Some(guard) ==> action.ensures((&held_data(guard),), result),
{
    match held {
        Some(guard) => action(connection_of(&guard)),
        None => Err(StoreError::LockUnavailable),
    }
}

impl AppDatabase {
    /// Whether `conn` is the connection that this database guards.
    pub closed spec fn guards(&self, conn: rusqlite::Connection) -> bool {
        protects(self.connection, conn)
    }

    /// Puts an open, schema-ready connection behind the guard: the new
    /// database guards the connection it was given.
    pub fn new(connection: rusqlite::Connection) -> (database: Self)
        ensures
            database.guards(connection),
    {
        AppDatabase { connection: guard_connection(connection) }
    }

    /// Asks for the guard and runs `action` with exclusive access to the
    /// guarded connection, as `with_held` settles it. The action gets the
    /// connection and nothing else, so it cannot ask for the guard again.
    fn with_conn<R, F>(&self, action: F) -> (result: Result<R, StoreError>) where
        F: FnOnce(&rusqlite::Connection) -> Result<R, StoreError>,
        requires
            forall|conn: &rusqlite::Connection| action.requires((conn,)),
        ensures
            (result matches Err(error) && error is LockUnavailable) || exists|
                conn: rusqlite::Connection,
            | self.guards(conn) && action.ensures((&conn,), result),
    {
        let held = acquire(&self.connection);
        let ghost asked = held;
        let result = with_held(held, action);
        proof {
            if let Some(guard) = asked {
                assert(self.guards(held_data(guard)));
                assert(action.ensures((&held_data(guard),), result));
            }
        }
        result
    }

    /// Reads the application state under the guard. A failure is
    /// `LockUnavailable` or the engine's, as `read_state` reports it.
    pub fn load(&self) -> (result: Result<Option<String>, StoreError>)
        ensures
            result matches Err(error) ==> error is LockUnavailable || exists|
                cause: rusqlite::Error,
            | error.is_engine_failure(Stage::Query, cause),
    {
        self.with_conn(
            |conn: &rusqlite::Connection| -> (found: Result<Option<String>, StoreError>)
                ensures
                    (found matches Err(error) ==> exists|cause: rusqlite::Error|
                        error.is_engine_failure(Stage::Query, cause))
                { read_state(conn) },
        )
    }

    /// Saves `value` as the application state under the guard, in one
    /// statement. A failure is `LockUnavailable` or the engine's, as
    /// `write_state` reports it.
    pub fn save(&self, value: &str) -> (result: Result<(), StoreError>)
        ensures
            result matches Err(error) ==> error is LockUnavailable || exists|
                cause: rusqlite::Error,
            | error.is_engine_failure(Stage::Write, cause),
    {
        self.with_conn(
            |conn: &rusqlite::Connection| -> (outcome: Result<(), StoreError>)
                ensures
                    (outcome matches Err(error) ==> exists|cause: rusqlite::Error|
                        error.is_engine_failure(Stage::Write, cause))
                { write_state(conn, value) },
        )
    }
}

} // verus!
