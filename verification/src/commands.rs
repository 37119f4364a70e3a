//! The operations as the host application invokes them: the same work as
//! the structured interface, with every failure turned into the message
//! that is shown to the user.

use vstd::prelude::*;
use crate::error::{
    engine_wording, StoreError, DIRECTORY_UNAVAILABLE_MESSAGE, LOCK_UNAVAILABLE_MESSAGE,
};
use crate::guard::AppDatabase;
use crate::startup::initialize;

verus! {

/// Whether `shown` is `outcome` with its failure, if there is one, replaced
/// by its message, and with its success, if there is one, as it was.
pub open spec fn worded<T>(outcome: Result<T, StoreError>, shown: Result<T, String>) -> bool {
    match outcome {
        Ok(value) => shown == Ok::<T, String>(value),
        Err(error) => shown matches Err(text) && text@ == error.message_text(),
    }
}

/// Replaces a failure by its message and leaves a success as it is.
pub fn to_message<T>(result: Result<T, StoreError>) -> (shown: Result<T, String>)
    ensures
        worded(result, shown),
{
    match result {
        Ok(value) => Ok(value),
        Err(error) => Err(error.message()),
    }
}

/// Loads the application state: what `AppDatabase::load` answers, with a
/// failure worded: either the fixed message for an unavailable guard or the
/// engine's own description.
pub fn load_state(database: &AppDatabase) -> (result: Result<Option<String>, String>)
    ensures
        result matches Err(text) ==> text@ == LOCK_UNAVAILABLE_MESSAGE@ || exists|
            cause: rusqlite::Error,
            detail: String,
        | engine_wording(cause, detail) && text@ == detail@,
{
    to_message(database.load())
}

/// Saves `state` as the application state: what `AppDatabase::save` answers
/// for `state`, with a failure worded: either the fixed message for an
/// unavailable guard or the engine's own description.
pub fn save_state(state: String, database: &AppDatabase) -> (result: Result<(), String>)
    ensures
        result matches Err(text) ==> text@ == LOCK_UNAVAILABLE_MESSAGE@ || exists|
            cause: rusqlite::Error,
            detail: String,
        | engine_wording(cause, detail) && text@ == detail@,
{
    to_message(database.save(state.as_str()))
}

/// Initializes the store as `initialize` does and words its failure: the
/// fixed message where no directory was resolved, the operating system's
/// description where the directory could not be created, the engine's
/// description otherwise.
pub fn initialise_database(
    app_dir: Option<std::path::PathBuf>,
    created: Result<(), String>,
) -> (result: Result<rusqlite::Connection, String>)
    ensures
        app_dir is None ==> (result matches Err(text) && text@ == DIRECTORY_UNAVAILABLE_MESSAGE@),
        app_dir is Some && created is Err ==> (result matches Err(text) && text@
            == created->Err_0@),
        app_dir is Some && created is Ok ==> (result matches Err(text) ==> exists|
            cause: rusqlite::Error,
            detail: String,
        | engine_wording(cause, detail) && text@ == detail@),
{
    to_message(initialize(app_dir, created))
}

} // verus!
