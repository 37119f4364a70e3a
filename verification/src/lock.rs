//! The standard library's mutex as the store uses it: the two outside
//! types, the names under which contracts speak of what a mutex protects,
//! and one wrapper for each of its functions that the store calls. Nothing
//! in this file is proved.

use vstd::prelude::*;

verus! {

/// The mutual-exclusion guard, `std::sync::Mutex`.
#[verifier::external_type_specification]
#[verifier::external_body]
#[verifier::reject_recursive_types(T)]
pub struct ExMutex<T: ?Sized>(std::sync::Mutex<T>);

/// Exclusive access for as long as it lives, `std::sync::MutexGuard`.
#[verifier::external_type_specification]
#[verifier::external_body]
#[verifier::reject_recursive_types(T)]
pub struct ExMutexGuard<'a, T: ?Sized + 'a>(std::sync::MutexGuard<'a, T>);

/// Whether `conn` is the data that `lock` protects, in the state in which
/// the mutex was made with it or in which a holder of the guard finds it.
pub uninterp spec fn protects(
    lock: std::sync::Mutex<rusqlite::Connection>,
    conn: rusqlite::Connection,
) -> bool;

/// The data that a guard gives access to.
pub uninterp spec fn held_data(
    held: std::sync::MutexGuard<'_, rusqlite::Connection>,
) -> rusqlite::Connection;

/// `std::sync::Mutex::new`: puts the connection behind a guard. The new
/// mutex protects the connection it was made with.
#[verifier::external_body]
pub(crate) fn guard_connection(connection: rusqlite::Connection) -> (guarded: std::sync::Mutex<
    rusqlite::Connection,
>)
    ensures
        protects(guarded, connection),
{
    std::sync::Mutex::new(connection)
}

/// `std::sync::Mutex::lock`: waits for exclusive access. `None` stands for a
/// poisoned guard, left behind by a holder that panicked. Which of the two
/// comes back depends on what other threads did, and so does the state in
/// which the data is found; a guard that comes back gives access to the
/// data that this mutex protects. A thread that already holds the guard
/// must not ask for it again.
#[verifier::external_body]
pub(crate) fn acquire<'a>(guarded: &'a std::sync::Mutex<rusqlite::Connection>) -> (held: Option<
    std::sync::MutexGuard<'a, rusqlite::Connection>,
>)
    ensures
        held matches Some(guard) ==> protects(*guarded, held_data(guard)),
{
    guarded.lock().ok()
}

/// `Deref` for `std::sync::MutexGuard`: the data that the guard gives
/// access to, for as long as the guard is held.
#[verifier::external_body]
pub(crate) fn connection_of<'a, 'b>(
    held: &'b std::sync::MutexGuard<'a, rusqlite::Connection>,
) -> (conn: &'b rusqlite::Connection)
    ensures
        *conn == held_data(*held),
{
    &**held
}

} // verus!
