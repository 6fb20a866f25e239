//! The SQLite backend: one database shared by every store opened from it,
//! each store a partition of the table `spin_key_value`.

use crate::driver::{
    execute, execute_once, first_blob, guarded, lock, open_file, open_in_memory, prepare_cached,
    share, Param,
};
use crate::error::Error;
use std::path::PathBuf;
use std::sync::{Arc, Mutex};
use vstd::prelude::*;

verus! {

/// Where a backend keeps its database.
pub enum DatabaseLocation {
    /// In memory, gone when the backend is dropped.
    InMemory,
    /// In the file at this path.
    Path(PathBuf),
}

impl Clone for DatabaseLocation {
    fn clone(&self) -> (copy: Self)
        ensures
            copy == *self,
    {
        match self {
            DatabaseLocation::InMemory => DatabaseLocation::InMemory,
            DatabaseLocation::Path(path) => DatabaseLocation::Path(path.clone()),
        }
    }
}

const CREATE_TABLE: &'static str = "CREATE TABLE IF NOT EXISTS spin_key_value (
                           store TEXT NOT NULL,
                           key   TEXT NOT NULL,
                           value BLOB NOT NULL,

                           PRIMARY KEY (store, key)
                        )";

const SELECT_VALUE: &'static str = "SELECT value FROM spin_key_value WHERE store=$1 AND key=$2";

const UPSERT_VALUE: &'static str = "INSERT INTO spin_key_value (store, key, value) VALUES ($1, $2, $3)
                     ON CONFLICT(store, key) DO UPDATE SET value=$3";

const DELETE_VALUE: &'static str = "DELETE FROM spin_key_value WHERE store=$1 AND key=$2";

/// What is reported when the lock round the connection is poisoned.
pub const POISONED: &'static str = "the connection lock is poisoned";

/// Wraps the driver's description of a failure as a storage error. Whoever
/// hands the error on may log it.
pub fn log_error(detail: String) -> (error: Error)
    ensures
        error == Error::Store(detail),
{
    Error::Store(detail)
}

/// What `get` answers for the first row of its query: the value of the
/// row, `NoSuchKey` when there is no row, a storage error when the row
/// could not be read.
pub open spec fn spec_found_value(first: Option<Result<Vec<u8>, String>>) -> Result<Vec<u8>, Error> {
    match first {
        None => Err(Error::NoSuchKey),
        Some(Ok(value)) => Ok(value),
        Some(Err(detail)) => Err(Error::Store(detail)),
    }
}

/// Turns the first row of a `get` query into the answer of `get`.
pub fn found_value(first: Option<Result<Vec<u8>, String>>) -> (result: Result<Vec<u8>, Error>)
    ensures
        result == spec_found_value(first),
{
    match first {
        None => Err(Error::NoSuchKey),
        Some(Ok(value)) => Ok(value),
        Some(Err(detail)) => Err(log_error(detail)),
    }
}

/// What `key_exists` answers for an answer of `get`: a value means present,
/// `NoSuchKey` means absent, and any other error is handed on unchanged.
pub open spec fn spec_exists_from(found: Result<Vec<u8>, Error>) -> Result<bool, Error> {
    match found {
        Ok(_) => Ok(true),
        Err(Error::NoSuchKey) => Ok(false),
        Err(error) => Err(error),
    }
}

/// Turns an answer of `get` into the answer of `key_exists` for the same key.
pub fn exists_from(found: Result<Vec<u8>, Error>) -> (result: Result<bool, Error>)
    ensures
        result == spec_exists_from(found),
{
    match found {
        Ok(_) => Ok(true),
        Err(Error::NoSuchKey) => Ok(false),
        Err(error) => Err(error),
    }
}

/// `key_exists` answers `true` exactly where `get` answers a value, `false`
/// exactly where `get` answers `NoSuchKey`, and hands every other error of
/// `get` on as it is.
pub proof fn lemma_exists_agrees_with_get(found: Result<Vec<u8>, Error>)
    ensures
        spec_exists_from(found) == Ok::<bool, Error>(true) <==> found is Ok,
        spec_exists_from(found) == Ok::<bool, Error>(false) <==> found == Err::<Vec<u8>, Error>(
            Error::NoSuchKey,
        ),
        spec_exists_from(found) matches Err(error) ==> found == Err::<Vec<u8>, Error>(error),
        spec_exists_from(found) != Err::<bool, Error>(Error::NoSuchKey),
{
}

/// What a write answers for the outcome of its statement: success however
/// many rows changed, a storage error when the statement failed.
pub open spec fn spec_written(outcome: Result<usize, String>) -> Result<(), Error> {
    match outcome {
        Ok(_) => Ok(()),
        Err(detail) => Err(Error::Store(detail)),
    }
}

/// Turns the outcome of a `set` or `delete` statement into the answer of
/// the operation.
pub fn written(outcome: Result<usize, String>) -> (result: Result<(), Error>)
    ensures
        result == spec_written(outcome),
{
    match outcome {
        Ok(_) => Ok(()),
        Err(detail) => Err(log_error(detail)),
    }
}

/// A write whose statement ran succeeds, also where it changed no row:
/// deleting a key that is not there is no error.
pub proof fn lemma_write_succeeds_whatever_changed(changed: usize)
    ensures
        spec_written(Ok(changed)) == Ok::<(), Error>(()),
{
}

/// What is bound to a statement that reads or deletes one key: the
/// partition as `$1` and the key as `$2`.
pub fn key_params<'a>(partition: &'a str, key: &'a str) -> (params: Vec<Param<'a>>)
    ensures
        params@ == seq![Param::Text(partition), Param::Text(key)],
{
    vec![Param::Text(partition), Param::Text(key)]
}

/// What is bound to the statement that stores a value: the partition as
/// `$1`, the key as `$2` and the value, byte for byte, as `$3`.
pub fn value_params<'a>(partition: &'a str, key: &'a str, value: &'a [u8]) -> (params: Vec<
    Param<'a>,
>)
    ensures
        params@ == seq![Param::Text(partition), Param::Text(key), Param::Blob(value)],
{
    vec![Param::Text(partition), Param::Text(key), Param::Blob(value)]
}

/// Runs the query `sql` for one partition and key on `connection` and
/// answers as `get` does.
pub(crate) fn select_value(
    connection: &rusqlite::Connection,
    sql: &str,
    partition: &str,
    key: &str,
) -> (result: Result<Vec<u8>, Error>)
    ensures
        result matches Err(error) ==> error is NoSuchKey || error is Store,
{
    let mut statement = match prepare_cached(connection, sql) {
        Ok(statement) => statement,
        Err(detail) => {
            return Err(log_error(detail));
        },
    };
    let params = key_params(partition, key);
    match first_blob(&mut statement, params.as_slice()) {
        Ok(first) => found_value(first),
        Err(detail) => Err(log_error(detail)),
    }
}

/// Runs the statement `sql` with `params` on `connection` and answers as a
/// write does.
pub(crate) fn change_value(connection: &rusqlite::Connection, sql: &str, params: &[Param<'_>]) -> (result:
    Result<(), Error>)
    ensures
        result matches Err(error) ==> error is Store,
{
    let mut statement = match prepare_cached(connection, sql) {
        Ok(statement) => statement,
        Err(detail) => {
            return Err(log_error(detail));
        },
    };
    written(execute(&mut statement, params))
}

/// Opens the database at `location` and runs `create_table` on it, which
/// must leave an existing table alone.
pub(crate) fn establish(location: &DatabaseLocation, create_table: &str) -> (result: Result<
    rusqlite::Connection,
    Error,
>)
    ensures
        result matches Err(error) ==> error is Store,
{
    let opened = match location {
        DatabaseLocation::InMemory => open_in_memory(),
        DatabaseLocation::Path(path) => open_file(path),
    };
    let connection = match opened {
        Ok(connection) => connection,
        Err(detail) => {
            return Err(log_error(detail));
        },
    };
    match execute_once(&connection, create_table) {
        Ok(_) => Ok(connection),
        Err(detail) => Err(log_error(detail)),
    }
}

/// The errors a data operation can report on behalf of the engine: what
/// the driver reported, or that the lock round the connection is poisoned.
pub open spec fn is_engine_error(error: Error) -> bool {
    match error {
        Error::Store(_) => true,
        Error::Runtime(detail) => detail@ == POISONED@,
        _ => false,
    }
}

/// A backend over one SQLite database, connected on the first `open`.
pub struct KeyValueSqlite {
    location: DatabaseLocation,
    connection: Option<Arc<Mutex<rusqlite::Connection>>>,
}

/// One partition of a backend's table, sharing the backend's connection.
pub struct SqliteStore {
    name: String,
    connection: Arc<Mutex<rusqlite::Connection>>,
}

impl KeyValueSqlite {
    /// Where the database is, or will be, kept.
    pub closed spec fn location(&self) -> DatabaseLocation {
        self.location
    }

    /// The connection has been established and the table created.
    pub closed spec fn is_connected(&self) -> bool {
        self.connection is Some
    }

    /// The backend that `new` makes for `location`.
    pub closed spec fn spec_new(location: DatabaseLocation) -> Self {
        Self { location, connection: None }
    }

    /// A fresh backend keeps its location and is not connected.
    pub proof fn lemma_new(location: DatabaseLocation)
        ensures
            Self::spec_new(location).location() == location,
            !Self::spec_new(location).is_connected(),
    {
    }

    /// A backend for the database at `location`, not yet connected.
    pub fn new(location: DatabaseLocation) -> (backend: Self)
        ensures
            backend == Self::spec_new(location),
    {
        Self { location, connection: None }
    }

    /// Opens the partition `name`. The first successful call connects to
    /// the database and creates the table; later calls reuse the connection
    /// and cannot fail. A failed call leaves the backend unconnected.
    pub fn open(&mut self, name: &str) -> (result: Result<SqliteStore, Error>)
        ensures
            final(self).location() == old(self).location(),
            old(self).is_connected() ==> result is Ok && *final(self) == *old(self),
            final(self).is_connected() <==> result is Ok,
            match result {
                Ok(store) => store.partition() == name@ && store.is_store_of(*final(self)),
                Err(error) => error is Store,
            },
    {
        if let Some(connection) = &self.connection {
            return Ok(SqliteStore { name: name.to_owned(), connection: share(connection) });
        }
        match establish(&self.location, CREATE_TABLE) {
            Ok(connection) => {
                let shared = Arc::new(Mutex::new(connection));
                self.connection = Some(share(&shared));
                Ok(SqliteStore { name: name.to_owned(), connection: shared })
            },
            Err(error) => Err(error),
        }
    }
}

impl SqliteStore {
    /// The partition of the table that this store reads and writes.
    pub closed spec fn partition(&self) -> Seq<char> {
        self.name@
    }

    /// This store works on the one connection of `backend`.
    pub closed spec fn is_store_of(&self, backend: KeyValueSqlite) -> bool {
        backend.connection == Some(self.connection)
    }

    /// Two stores of one backend work on the same connection.
    pub proof fn lemma_one_connection(&self, other: &SqliteStore, backend: KeyValueSqlite)
        requires
            self.is_store_of(backend),
            other.is_store_of(backend),
        ensures
            self.shares_connection_with(other),
    {
    }

    /// This store and `other` work on the same connection.
    pub closed spec fn shares_connection_with(&self, other: &SqliteStore) -> bool {
        self.connection == other.connection
    }

    /// The value stored under `key`; `NoSuchKey` when there is none.
    pub fn get(&self, key: &str) -> (result: Result<Vec<u8>, Error>)
        ensures
            result matches Err(error) ==> error is NoSuchKey || is_engine_error(error),
    {
        match lock(&self.connection) {
            Some(guard) => select_value(guarded(&guard), SELECT_VALUE, self.name.as_str(), key),
            None => Err(Error::Runtime(POISONED.to_owned())),
        }
    }

    /// Stores `value` under `key`, replacing any value already there.
    pub fn set(&self, key: &str, value: &[u8]) -> (result: Result<(), Error>)
        ensures
            result matches Err(error) ==> is_engine_error(error),
    {
        match lock(&self.connection) {
            Some(guard) => {
                let params = value_params(self.name.as_str(), key, value);
                change_value(guarded(&guard), UPSERT_VALUE, params.as_slice())
            },
            None => Err(Error::Runtime(POISONED.to_owned())),
        }
    }

    /// Removes the value stored under `key`, if there is one.
    pub fn delete(&self, key: &str) -> (result: Result<(), Error>)
        ensures
            result matches Err(error) ==> is_engine_error(error),
    {
        match lock(&self.connection) {
            Some(guard) => {
                let params = key_params(self.name.as_str(), key);
                change_value(guarded(&guard), DELETE_VALUE, params.as_slice())
            },
            None => Err(Error::Runtime(POISONED.to_owned())),
        }
    }

    /// Whether a value is stored under `key`: what `get` answers, with
    /// `NoSuchKey` read as `false`.
    pub fn key_exists(&self, key: &str) -> (result: Result<bool, Error>)
        ensures
            result matches Err(error) ==> is_engine_error(error),
    {
        exists_from(self.get(key))
    }
}

} // verus!
