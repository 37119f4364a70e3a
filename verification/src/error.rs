//! The store's failures, kept by kind until they are shown to a person.

use vstd::prelude::*;
use vstd::string::StringExecFns;

verus! {

/// The step of the store's work during which the database engine failed.
#[derive(Clone, Copy, Debug, PartialEq, Eq, Structural)]
pub enum Stage {
    /// Opening or creating the database file.
    Open,
    /// Creating the key-value table.
    Schema,
    /// Reading the application state.
    Query,
    /// Writing the application state.
    Write,
}

/// Why an operation of the store failed.
///
/// The variants that carry a string hold the failure's description as the
/// operating system or the database engine worded it.
#[derive(Clone, Debug, PartialEq, Eq)]
pub enum StoreError {
    /// No writable data directory could be resolved for the application.
    DirectoryUnavailable,
    /// The data directory or the database file could not be created or opened.
    StorageIo(String),
    /// The statement that creates the key-value table failed.
    Schema(String),
    /// The guard around the connection could not be acquired.
    LockUnavailable,
    /// The engine failed while the application state was read.
    Query(String),
    /// The engine failed while the application state was written.
    Write(String),
}

/// Whether `detail` is the engine's own wording of the failure `cause`:
/// the text that `to_string` gives for it.
pub open spec fn engine_wording(cause: rusqlite::Error, detail: String) -> bool {
    vstd::string::to_string_from_display_ensures::<rusqlite::Error>(&cause, detail)
}

/// Message shown when no data directory is available.
pub const DIRECTORY_UNAVAILABLE_MESSAGE: &'static str = "Uygulama veri dizini oluşturulamadı";

/// Message shown when the guard around the connection is unavailable.
pub const LOCK_UNAVAILABLE_MESSAGE: &'static str = "Veritabanı kilidi alınamadı";

impl StoreError {
    /// Whether this is the error that stands for the engine failure `cause`
    /// at `stage`: of the kind that belongs to the stage, and described in
    /// the engine's own words.
    pub open spec fn is_engine_failure(self, stage: Stage, cause: rusqlite::Error) -> bool {
        match stage {
            Stage::Open => self matches StoreError::StorageIo(detail) && engine_wording(
                cause,
                detail,
            ),
            Stage::Schema => self matches StoreError::Schema(detail) && engine_wording(
                cause,
                detail,
            ),
            Stage::Query => self matches StoreError::Query(detail) && engine_wording(
                cause,
                detail,
            ),
            Stage::Write => self matches StoreError::Write(detail) && engine_wording(
                cause,
                detail,
            ),
        }
    }

    /// The text that `message` returns.
    pub open spec fn message_text(self) -> Seq<char> {
        match self {
            StoreError::DirectoryUnavailable => DIRECTORY_UNAVAILABLE_MESSAGE@,
            StoreError::LockUnavailable => LOCK_UNAVAILABLE_MESSAGE@,
            StoreError::StorageIo(detail) => detail@,
            StoreError::Schema(detail) => detail@,
            StoreError::Query(detail) => detail@,
            StoreError::Write(detail) => detail@,
        }
    }

    /// The human-readable message for this error: a fixed sentence for the
    /// two kinds that carry no description, the description unchanged for the
    /// others.
    pub fn message(&self) -> (text: String)
        ensures
            text@ == self.message_text(),
    {
        match self {
            StoreError::DirectoryUnavailable => String::from_str(DIRECTORY_UNAVAILABLE_MESSAGE),
            StoreError::LockUnavailable => String::from_str(LOCK_UNAVAILABLE_MESSAGE),
            StoreError::StorageIo(detail) => detail.clone(),
            StoreError::Schema(detail) => detail.clone(),
            StoreError::Query(detail) => detail.clone(),
            StoreError::Write(detail) => detail.clone(),
        }
    }

    /// The error for an engine failure at `stage`: its kind follows the
    /// stage, its description is the engine's wording, unchanged.
    pub fn from_engine(stage: Stage, cause: &rusqlite::Error) -> (error: StoreError)
        ensures
            error.is_engine_failure(stage, *cause),
    {
        let detail = cause.to_string();
        match stage {
            Stage::Open => StoreError::StorageIo(detail),
            Stage::Schema => StoreError::Schema(detail),
            Stage::Query => StoreError::Query(detail),
            Stage::Write => StoreError::Write(detail),
        }
    }
}

/// Turns what the engine answered at `stage` into the store's own result:
/// a success passes through unchanged, a failure becomes the error of that
/// stage with the engine's description.
pub fn report<T>(outcome: Result<T, rusqlite::Error>, stage: Stage) -> (result: Result<
    T,
    StoreError,
>)
    ensures
        outcome matches Ok(value) ==> result == Ok::<T, StoreError>(value),
        outcome matches Err(cause) ==> result matches Err(error) && error.is_engine_failure(
            stage,
            cause,
        ),
{
    match outcome {
        Ok(value) => Ok(value),
        Err(cause) => Err(StoreError::from_engine(stage, &cause)),
    }
}

/// Turns what the engine answered to a changing statement at `stage` into
/// the store's own result: a success, whatever number of rows it counted,
/// is a success without a value, and a failure becomes the error of that
/// stage with the engine's description. No failure is swallowed and no
/// success is turned into one.
pub fn report_change(outcome: Result<usize, rusqlite::Error>, stage: Stage) -> (result: Result<
    (),
    StoreError,
>)
    ensures
        outcome is Ok ==> result is Ok,
        outcome matches Err(cause) ==> result matches Err(error) && error.is_engine_failure(
            stage,
            cause,
        ),
{
    match report(outcome, stage) {
        Ok(_) => Ok(()),
        Err(error) => Err(error),
    }
}

} // verus!
