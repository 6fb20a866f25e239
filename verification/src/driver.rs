//! The calls this crate makes into the SQLite driver and into the parts of
//! the standard library that share one connection between stores.
//!
//! Nothing here is proved: each contract is a statement of what the called
//! function is documented to do. A failure of the driver is handed on as the
//! `Debug` rendering of its `rusqlite::Error`.

use rusqlite::ToSql;
use std::path::PathBuf;
use std::sync::{Arc, Mutex, MutexGuard};
use vstd::prelude::*;

verus! {

/// An open SQLite database, `rusqlite::Connection`; opaque to the proofs.
#[verifier::external_type_specification]
#[verifier::external_body]
pub struct ExConnection(rusqlite::Connection);

/// A prepared statement on loan from a connection's cache,
/// `rusqlite::CachedStatement`; opaque to the proofs.
#[verifier::external_type_specification]
#[verifier::external_body]
pub struct ExCachedStatement<'conn>(rusqlite::CachedStatement<'conn>);

/// A file-system path, `std::path::PathBuf`; opaque to the proofs.
#[verifier::external_type_specification]
#[verifier::external_body]
pub struct ExPathBuf(PathBuf);

/// `std::sync::Mutex`; opaque to the proofs.
#[verifier::external_type_specification]
#[verifier::external_body]
#[verifier::reject_recursive_types(T)]
pub struct ExMutex<T: ?Sized>(Mutex<T>);

/// `std::sync::MutexGuard`; opaque to the proofs.
#[verifier::external_type_specification]
#[verifier::external_body]
#[verifier::reject_recursive_types(T)]
pub struct ExMutexGuard<'a, T: ?Sized + 'a>(MutexGuard<'a, T>);

/// A value bound to a parameter of a statement.
pub enum Param<'a> {
    /// Bound as SQL text.
    Text(&'a str),
    /// Bound as an SQL blob.
    Blob(&'a [u8]),
}

/// `Connection::open_in_memory`: opens a fresh database that lives in
/// memory. Nothing is claimed of the outcome.
#[verifier::external_body]
pub(crate) fn open_in_memory() -> (opened: Result<rusqlite::Connection, String>) {
    rusqlite::Connection::open_in_memory().map_err(|error| format!("{error:?}"))
}

/// `Connection::open`: opens, or creates, the database file at `path`.
/// Nothing is claimed of the outcome.
#[verifier::external_body]
pub(crate) fn open_file(path: &PathBuf) -> (opened: Result<rusqlite::Connection, String>) {
    rusqlite::Connection::open(path).map_err(|error| format!("{error:?}"))
}

/// `Connection::execute` without parameters: runs the one statement in
/// `sql` and reports how many rows it changed. Nothing is claimed of the
/// outcome.
#[verifier::external_body]
pub(crate) fn execute_once(connection: &rusqlite::Connection, sql: &str) -> (changed: Result<
    usize,
    String,
>) {
    connection.execute(sql, []).map_err(|error| format!("{error:?}"))
}

/// `Connection::prepare_cached`: the prepared form of `sql`, taken from the
/// connection's cache or compiled now. Nothing is claimed of the outcome.
#[verifier::external_body]
pub(crate) fn prepare_cached<'conn>(connection: &'conn rusqlite::Connection, sql: &str) -> (prepared:
    Result<rusqlite::CachedStatement<'conn>, String>) {
    connection.prepare_cached(sql).map_err(|error| format!("{error:?}"))
}

/// `Statement::execute`: binds `params` in order and runs the statement,
/// reporting how many rows it changed. Nothing is claimed of the outcome.
#[verifier::external_body]
pub(crate) fn execute(statement: &mut rusqlite::CachedStatement<'_>, params: &[Param<'_>]) -> (changed:
    Result<usize, String>) {
    let bound: Vec<&dyn ToSql> = params.iter().map(|param| match param {
        Param::Text(text) => text as &dyn ToSql,
        Param::Blob(bytes) => bytes as &dyn ToSql,
    }).collect();
    statement.execute(&bound[..]).map_err(|error| format!("{error:?}"))
}

/// `Statement::query_map` followed by one `next`: binds `params` in order,
/// runs the query and reads column 0 of its first row as a blob. The outer
/// error is a failure to bind; `None` means the query gave no row; the inner
/// error is a failure to step or to read the column. Nothing else is claimed
/// of the outcome.
#[verifier::external_body]
pub(crate) fn first_blob(statement: &mut rusqlite::CachedStatement<'_>, params: &[Param<'_>]) -> (first:
    Result<Option<Result<Vec<u8>, String>>, String>) {
    let bound: Vec<&dyn ToSql> = params.iter().map(|param| match param {
        Param::Text(text) => text as &dyn ToSql,
        Param::Blob(bytes) => bytes as &dyn ToSql,
    }).collect();
    let first = statement.query_map(&bound[..], |row| row.get(0)).map(|mut rows| rows.next());
    match first {
        Ok(Some(Ok(blob))) => Ok(Some(Ok(blob))),
        Ok(Some(Err(error))) => Ok(Some(Err(format!("{error:?}")))),
        Ok(None) => Ok(None),
        Err(error) => Err(format!("{error:?}")),
    }
}

/// `PathBuf::from`: the path that `text` spells.
#[verifier::external_body]
pub(crate) fn path_from(text: &str) -> (path: PathBuf) {
    PathBuf::from(text)
}

/// `PathBuf::clone`: an equal path.
pub assume_specification[ <PathBuf as Clone>::clone ](path: &PathBuf) -> (copy: PathBuf)
    ensures
        copy == *path,
;

/// `Mutex::new`: a lock that owns `value`.
pub assume_specification<T>[ Mutex::<T>::new ](value: T) -> (mutex: Mutex<T>);

/// `Mutex::lock`: waits for the lock and returns its guard, or `None` when
/// a holder of the lock panicked and left it poisoned. A thread that holds
/// the guard must not call this again on the same lock; in this crate a
/// guard never outlives the operation that took it.
#[verifier::external_body]
pub(crate) fn lock<'a>(shared: &'a Mutex<rusqlite::Connection>) -> (guard: Option<
    MutexGuard<'a, rusqlite::Connection>,
>) {
    shared.lock().ok()
}

/// `MutexGuard::deref`: the connection that the guard protects.
#[verifier::external_body]
pub(crate) fn guarded<'a>(guard: &'a MutexGuard<'_, rusqlite::Connection>) -> (connection:
    &'a rusqlite::Connection) {
    guard
}

/// `Arc::clone`: another handle to the same shared lock.
#[verifier::external_body]
pub(crate) fn share(shared: &Arc<Mutex<rusqlite::Connection>>) -> (other: Arc<
    Mutex<rusqlite::Connection>,
>)
    ensures
        other == *shared,
{
    Arc::clone(shared)
}

} // verus!
