//! A host with a single SQLite database and no dispatch: every namespace
//! is a partition of the one table, and the database is opened by the
//! first data operation rather than by `open`.

use crate::driver::path_from;
use crate::error::Error;
use crate::interface::KeyValue;
use crate::sqlite::{
    change_value, establish, exists_from, key_params, select_value, value_params,
    DatabaseLocation,
};
use crate::table::{is_first_free, Table};
use vstd::prelude::*;

verus! {

/// The file that holds the database unless another location is chosen.
const DEFAULT_PATH: &'static str = "spin_key_value.db";

const CREATE_TABLE: &'static str = "CREATE TABLE IF NOT EXISTS spin_key_value (
                       namespace TEXT NOT NULL,
                       key       TEXT NOT NULL,
                       value     BLOB NOT NULL,

                       PRIMARY KEY (namespace, key)
                    )";

const SELECT_VALUE: &'static str = "SELECT value FROM spin_key_value WHERE namespace=$1 AND key=$2";

const UPSERT_VALUE: &'static str = "INSERT INTO spin_key_value (namespace, key, value) VALUES ($1, $2, $3)
                   ON CONFLICT(namespace, key) DO UPDATE SET value=$3";

const DELETE_VALUE: &'static str = "DELETE FROM spin_key_value WHERE namespace=$1 AND key=$2";

/// A host over one SQLite database, with a table of open namespaces.
pub struct KeyValueSqlite {
    location: DatabaseLocation,
    connection: Option<rusqlite::Connection>,
    namespaces: Table<String>,
}

impl KeyValueSqlite {
    /// Where the database is, or will be, kept.
    pub closed spec fn location(&self) -> DatabaseLocation {
        self.location
    }

    /// The connection has been established and the table created.
    pub closed spec fn is_connected(&self) -> bool {
        self.connection is Some
    }

    /// The open namespaces: the name each handle was opened with.
    pub closed spec fn namespaces(&self) -> Map<u32, String> {
        self.namespaces@
    }

    /// The handle at which the search for the next free handle starts.
    pub closed spec fn next_candidate(&self) -> u32 {
        self.namespaces.next_candidate()
    }

    /// Every handle is in use.
    pub open spec fn is_full(&self) -> bool {
        forall|handle: u32| self.namespaces().contains_key(handle)
    }

    /// The host is full exactly when its table of namespaces is.
    proof fn lemma_full(&self)
        ensures
            self.is_full() <==> self.namespaces.is_full(),
    {
        if self.is_full() {
            assert forall|key: u32| self.namespaces@.contains_key(key) by {
                assert(self.namespaces().contains_key(key));
            }
        }
        if self.namespaces.is_full() {
            assert forall|handle: u32| self.namespaces().contains_key(handle) by {
                assert(self.namespaces@.contains_key(handle));
            }
        }
    }

    /// A host for the database at `location`, with no namespace open and
    /// not yet connected.
    pub fn at(location: DatabaseLocation) -> (host: Self)
        ensures
            host.location() == location,
            !host.is_connected(),
            host.namespaces() == Map::<u32, String>::empty(),
            host.next_candidate() == 0,
    {
        Self { location, connection: None, namespaces: Table::new() }
    }

    /// Connects to the database and creates the table, unless that has
    /// been done. A failure leaves the host unconnected.
    fn connect(&mut self) -> (result: Result<(), Error>)
        ensures
            final(self).location() == old(self).location(),
            final(self).namespaces() == old(self).namespaces(),
            final(self).next_candidate() == old(self).next_candidate(),
            old(self).is_connected() ==> *final(self) == *old(self),
            final(self).is_connected() <==> result is Ok,
            result matches Err(error) ==> error is Store,
    {
        if self.connection.is_none() {
            match establish(&self.location, CREATE_TABLE) {
                Ok(connection) => {
                    self.connection = Some(connection);
                },
                Err(error) => {
                    return Err(error);
                },
            }
        }
        Ok(())
    }

    /// A data operation changes neither the namespaces nor the location,
    /// keeps an established connection, and touches nothing at all when
    /// its handle is not open.
    pub open spec fn data_frame(&self, after: &Self, handle: u32) -> bool {
        &&& after.location() == self.location()
        &&& after.namespaces() == self.namespaces()
        &&& after.next_candidate() == self.next_candidate()
        &&& self.is_connected() ==> after.is_connected()
        &&& !self.namespaces().contains_key(handle) ==> *after == *self
    }
}

impl Default for KeyValueSqlite {
    /// A host for the database file `spin_key_value.db` of the working
    /// directory.
    fn default() -> (host: Self)
        ensures
            host.location() is Path,
            !host.is_connected(),
            host.namespaces() == Map::<u32, String>::empty(),
            host.next_candidate() == 0,
    {
        KeyValueSqlite::at(DatabaseLocation::Path(path_from(DEFAULT_PATH)))
    }
}

impl KeyValue for KeyValueSqlite {
    open spec fn handles(&self) -> Set<u32> {
        self.namespaces().dom()
    }

    open spec fn not_open() -> Error {
        Error::InvalidNamespace
    }

    open spec fn candidate(&self) -> u32 {
        self.next_candidate()
    }

    /// Success is owed where a handle is free, whatever the name.
    open spec fn open_is_owed(&self, name: Seq<char>) -> bool {
        !self.is_full()
    }

    /// Where no handle is free the call is refused with
    /// `NamespaceTableFull`.
    open spec fn open_is_refused(&self, name: Seq<char>) -> Option<Error> {
        if self.is_full() {
            Some(Error::NamespaceTableFull)
        } else {
            None
        }
    }

    /// Opens a namespace named `name` under the first free handle. This
    /// touches no database, and fails only with `NamespaceTableFull`, when
    /// every handle is in use.
    fn open(&mut self, name: &str) -> (result: Result<u32, Error>)
        ensures
            final(self).location() == old(self).location(),
            final(self).is_connected() == old(self).is_connected(),
            result is Err <==> old(self).is_full(),
            match result {
                Ok(handle) => {
                    &&& is_first_free(
                        old(self).namespaces().dom(),
                        old(self).next_candidate(),
                        handle,
                    )
                    &&& final(self).namespaces() == old(self).namespaces().insert(
                        handle,
                        final(self).namespaces()[handle],
                    )
                    &&& final(self).namespaces()[handle]@ == name@
                },
                Err(error) => {
                    &&& error == Error::NamespaceTableFull
                    &&& *final(self) == *old(self)
                },
            },
    {
        proof {
            self.lemma_full();
        }
        match self.namespaces.push(name.to_owned()) {
            Ok(handle) => Ok(handle),
            Err(_) => Err(Error::NamespaceTableFull),
        }
    }

    /// The value stored under `key` in the namespace behind `handle`;
    /// `InvalidNamespace` when the handle is not open, `NoSuchKey` when
    /// the namespace holds no such key.
    fn get(&mut self, handle: u32, key: &str) -> (result: Result<Vec<u8>, Error>)
        ensures
            old(self).data_frame(final(self), handle),
            result matches Err(error) ==> error is InvalidNamespace || error is NoSuchKey
                || error is Store,
            !final(self).is_connected() ==> (result matches Err(error) && !(error is NoSuchKey)),
    {
        if self.namespaces.get(handle).is_none() {
            return Err(Error::InvalidNamespace);
        }
        match self.connect() {
            Ok(()) => {},
            Err(error) => {
                return Err(error);
            },
        }
        let name = self.namespaces.get(handle).unwrap();
        select_value(self.connection.as_ref().unwrap(), SELECT_VALUE, name.as_str(), key)
    }

    /// Stores `value` under `key` in the namespace behind `handle`;
    /// `InvalidNamespace` when the handle is not open.
    fn set(&mut self, handle: u32, key: &str, value: &[u8]) -> (result: Result<(), Error>)
        ensures
            old(self).data_frame(final(self), handle),
            result matches Err(error) ==> error is InvalidNamespace || error is Store,
            !final(self).is_connected() ==> (result matches Err(error) && !(error is NoSuchKey)),
    {
        if self.namespaces.get(handle).is_none() {
            return Err(Error::InvalidNamespace);
        }
        match self.connect() {
            Ok(()) => {},
            Err(error) => {
                return Err(error);
            },
        }
        let name = self.namespaces.get(handle).unwrap();
        let params = value_params(name.as_str(), key, value);
        change_value(self.connection.as_ref().unwrap(), UPSERT_VALUE, params.as_slice())
    }

    /// Removes `key` from the namespace behind `handle`;
    /// `InvalidNamespace` when the handle is not open.
    fn delete(&mut self, handle: u32, key: &str) -> (result: Result<(), Error>)
        ensures
            old(self).data_frame(final(self), handle),
            result matches Err(error) ==> error is InvalidNamespace || error is Store,
            !final(self).is_connected() ==> (result matches Err(error) && !(error is NoSuchKey)),
    {
        if self.namespaces.get(handle).is_none() {
            return Err(Error::InvalidNamespace);
        }
        match self.connect() {
            Ok(()) => {},
            Err(error) => {
                return Err(error);
            },
        }
        let name = self.namespaces.get(handle).unwrap();
        let params = key_params(name.as_str(), key);
        change_value(self.connection.as_ref().unwrap(), DELETE_VALUE, params.as_slice())
    }

    /// Whether the namespace behind `handle` holds `key`: what `get`
    /// answers, with `NoSuchKey` read as `false`.
    fn key_exists(&mut self, handle: u32, key: &str) -> (result: Result<bool, Error>)
        ensures
            old(self).data_frame(final(self), handle),
            result matches Err(error) ==> error is InvalidNamespace || error is Store,
            !final(self).is_connected() ==> (result matches Err(error) && !(error is NoSuchKey)),
    {
        exists_from(self.get(handle, key))
    }

    /// Forgets the namespace behind `handle`; does nothing when the handle
    /// is not open. What the namespace stored stays in the database.
    fn close(&mut self, handle: u32)
        ensures
            final(self).namespaces() == old(self).namespaces().remove(handle),
            final(self).next_candidate() == old(self).next_candidate(),
            final(self).location() == old(self).location(),
            final(self).is_connected() == old(self).is_connected(),
    {
        self.namespaces.remove(handle);
    }
}

} // verus!
