//! The dispatcher: named backends, and the table of the stores opened from
//! them.

use crate::error::Error;
use crate::interface::KeyValue;
use crate::sqlite::{is_engine_error, DatabaseLocation, KeyValueSqlite, SqliteStore};
use crate::table::{is_first_free, successor, Table};
use vstd::prelude::*;

verus! {

/// What kind of backend a name is configured with.
pub enum ImplConfig {
    /// A SQLite database at the given location.
    Sqlite(DatabaseLocation),
}

impl Clone for ImplConfig {
    fn clone(&self) -> (copy: Self)
        ensures
            copy == *self,
    {
        match self {
            ImplConfig::Sqlite(location) => ImplConfig::Sqlite(location.clone()),
        }
    }
}

/// The backends to set up, each under its name. Where a name occurs more
/// than once, its last entry counts.
pub struct Config {
    pub configs: Vec<(String, ImplConfig)>,
}

impl Config {
    /// The configured names, in order.
    pub open spec fn names(&self) -> Seq<Seq<char>> {
        Seq::new(self.configs@.len(), |i: int| self.configs@[i].0@)
    }

    /// The configured backend kinds, in order.
    pub open spec fn kinds(&self) -> Seq<ImplConfig> {
        Seq::new(self.configs@.len(), |i: int| self.configs@[i].1)
    }
}

impl Clone for Config {
    fn clone(&self) -> (copy: Self)
        ensures
            copy.names() == self.names(),
            copy.kinds() == self.kinds(),
    {
        let mut configs: Vec<(String, ImplConfig)> = Vec::new();
        let mut i: usize = 0;
        while i < self.configs.len()
            invariant
                i <= self.configs@.len(),
                configs@.len() == i,
                forall|j: int|
                    0 <= j < i ==> configs@[j].0@ == self.configs@[j].0@ && configs@[j].1
                        == self.configs@[j].1,
            decreases self.configs@.len() - i,
        {
            let entry = &self.configs[i];
            configs.push((entry.0.clone(), entry.1.clone()));
            i += 1;
        }
        let copy = Config { configs };
        assert(copy.names() =~= self.names());
        assert(copy.kinds() =~= self.kinds());
        copy
    }
}

/// A backend that can open stores.
pub enum Impl {
    /// A SQLite database.
    Sqlite(KeyValueSqlite),
}

/// An open store of some backend.
pub enum ImplStore {
    /// A partition of a SQLite database.
    Sqlite(SqliteStore),
}

impl Impl {
    /// The backend that `kind` describes, with nothing set up yet.
    pub open spec fn fresh(kind: ImplConfig) -> Impl {
        match kind {
            ImplConfig::Sqlite(location) => Impl::Sqlite(KeyValueSqlite::spec_new(location)),
        }
    }

    /// Every resource that `open` acquires once has been acquired.
    pub open spec fn is_ready(&self) -> bool {
        match self {
            Impl::Sqlite(backend) => backend.is_connected(),
        }
    }

    /// A backend of the configured kind, with nothing set up yet.
    pub fn new(kind: ImplConfig) -> (backend: Self)
        ensures
            backend == Impl::fresh(kind),
    {
        match kind {
            ImplConfig::Sqlite(location) => Impl::Sqlite(KeyValueSqlite::new(location)),
        }
    }

    /// Opens a store named `name` on this backend, acquiring the backend's
    /// resources if this is the first store. A ready backend cannot fail.
    pub fn open(&mut self, name: &str) -> (result: Result<ImplStore, Error>)
        ensures
            old(self).is_ready() ==> result is Ok && *final(self) == *old(self),
            final(self).is_ready() <==> result is Ok,
            match result {
                Ok(store) => store.partition() == name@ && store.is_store_of(*final(self)),
                Err(error) => error is Store,
            },
    {
        match self {
            Impl::Sqlite(backend) => match backend.open(name) {
                Ok(store) => Ok(ImplStore::Sqlite(store)),
                Err(error) => Err(error),
            },
        }
    }
}

impl ImplStore {
    /// The name this store was opened under.
    pub open spec fn partition(&self) -> Seq<char> {
        match self {
            ImplStore::Sqlite(store) => store.partition(),
        }
    }

    /// This store works on the resources of `backend`.
    pub open spec fn is_store_of(&self, backend: Impl) -> bool {
        match (self, backend) {
            (ImplStore::Sqlite(store), Impl::Sqlite(backend)) => store.is_store_of(backend),
        }
    }

    /// The value stored under `key`; `NoSuchKey` when there is none.
    pub fn get(&self, key: &str) -> (result: Result<Vec<u8>, Error>)
        ensures
            result matches Err(error) ==> error is NoSuchKey || is_engine_error(error),
    {
        match self {
            ImplStore::Sqlite(store) => store.get(key),
        }
    }

    /// Stores `value` under `key`, replacing any value already there.
    pub fn set(&self, key: &str, value: &[u8]) -> (result: Result<(), Error>)
        ensures
            result matches Err(error) ==> is_engine_error(error),
    {
        match self {
            ImplStore::Sqlite(store) => store.set(key, value),
        }
    }

    /// Removes the value stored under `key`, if there is one.
    pub fn delete(&self, key: &str) -> (result: Result<(), Error>)
        ensures
            result matches Err(error) ==> is_engine_error(error),
    {
        match self {
            ImplStore::Sqlite(store) => store.delete(key),
        }
    }

    /// Whether a value is stored under `key`.
    pub fn key_exists(&self, key: &str) -> (result: Result<bool, Error>)
        ensures
            result matches Err(error) ==> is_engine_error(error),
    {
        match self {
            ImplStore::Sqlite(store) => store.key_exists(key),
        }
    }
}

/// `index` is the last place at which `name` occurs in `names`.
pub open spec fn is_last_match(names: Seq<Seq<char>>, name: Seq<char>, index: int) -> bool {
    &&& 0 <= index < names.len()
    &&& names[index] == name
    &&& forall|later: int| index < later < names.len() ==> names[later] != name
}

/// Owns the configured backends and the table of open stores, and routes
/// every operation to the store behind its handle.
pub struct KeyValueDispatch {
    impls: Vec<(String, Impl)>,
    stores: Table<ImplStore>,
}

impl KeyValueDispatch {
    /// The configured names, in order. Where a name occurs more than once,
    /// its last occurrence counts.
    pub closed spec fn names(&self) -> Seq<Seq<char>> {
        Seq::new(self.impls@.len(), |i: int| self.impls@[i].0@)
    }

    /// The backends, in the order of their names.
    pub closed spec fn backends(&self) -> Seq<Impl> {
        Seq::new(self.impls@.len(), |i: int| self.impls@[i].1)
    }

    /// The open stores, by handle.
    pub closed spec fn stores(&self) -> Map<u32, ImplStore> {
        self.stores@
    }

    /// The handle at which the search for the next free handle starts.
    pub closed spec fn next_candidate(&self) -> u32 {
        self.stores.next_candidate()
    }

    /// A backend is configured under `name`.
    pub open spec fn is_configured(&self, name: Seq<char>) -> bool {
        self.names().contains(name)
    }

    /// Every handle is in use.
    pub open spec fn is_full(&self) -> bool {
        forall|handle: u32| self.stores().contains_key(handle)
    }

    /// The dispatcher is full exactly when its table of stores is.
    proof fn lemma_full(&self)
        ensures
            self.is_full() <==> self.stores.is_full(),
    {
        if self.is_full() {
            assert forall|key: u32| self.stores@.contains_key(key) by {
                assert(self.stores().contains_key(key));
            }
        }
        if self.stores.is_full() {
            assert forall|handle: u32| self.stores().contains_key(handle) by {
                assert(self.stores@.contains_key(handle));
            }
        }
    }

    /// A dispatcher with one fresh backend for each entry of `config` and
    /// no open store.
    pub fn new(config: Config) -> (dispatch: Self)
        ensures
            dispatch.names() == config.names(),
            dispatch.backends().len() == config.kinds().len(),
            forall|i: int|
                0 <= i < config.kinds().len() ==> dispatch.backends()[i] == Impl::fresh(
                    #[trigger] config.kinds()[i],
                ),
            dispatch.stores() == Map::<u32, ImplStore>::empty(),
            dispatch.next_candidate() == 0,
    {
        let mut impls: Vec<(String, Impl)> = Vec::new();
        let mut i: usize = 0;
        while i < config.configs.len()
            invariant
                i <= config.configs@.len(),
                impls@.len() == i,
                forall|j: int| 0 <= j < i ==> impls@[j].0@ == config.configs@[j].0@,
                forall|j: int| 0 <= j < i ==> impls@[j].1 == Impl::fresh(config.configs@[j].1),
            decreases config.configs@.len() - i,
        {
            let entry = &config.configs[i];
            impls.push((entry.0.clone(), Impl::new(entry.1.clone())));
            i += 1;
        }
        let dispatch = Self { impls, stores: Table::new() };
        assert(dispatch.names() =~= config.names());
        dispatch
    }

    /// The place of the backend that `name` is configured with.
    fn find(&self, name: &str) -> (found: Option<usize>)
        ensures
            match found {
                Some(index) => is_last_match(self.names(), name@, index as int),
                None => !self.is_configured(name@),
            },
    {
        let wanted = name.to_owned();
        let mut i: usize = self.impls.len();
        while i > 0
            invariant
                i <= self.impls@.len(),
                wanted@ == name@,
                forall|later: int|
                    i <= later < self.impls@.len() ==> self.impls@[later].0@ != name@,
            decreases i,
        {
            i -= 1;
            if self.impls[i].0 == wanted {
                return Some(i);
            }
        }
        None
    }

    /// Takes in what a backend's `open` gave: hands an error on, and puts
    /// a store into the table under the first free handle, failing with
    /// `StoreTableFull` when there is none.
    pub fn register(&mut self, opened: Result<ImplStore, Error>) -> (result: Result<u32, Error>)
        ensures
            final(self).names() == old(self).names(),
            final(self).backends() == old(self).backends(),
            match (opened, result) {
                (Err(error), Err(reported)) => {
                    &&& reported == error
                    &&& *final(self) == *old(self)
                },
                (Ok(store), Err(reported)) => {
                    &&& reported == Error::StoreTableFull
                    &&& old(self).is_full()
                    &&& *final(self) == *old(self)
                },
                (Ok(store), Ok(handle)) => {
                    &&& is_first_free(old(self).stores().dom(), old(self).next_candidate(), handle)
                    &&& final(self).stores() == old(self).stores().insert(handle, store)
                    &&& final(self).next_candidate() == successor(handle)
                },
                (Err(_), Ok(_)) => false,
            },
            opened is Ok && !old(self).is_full() ==> result is Ok,
    {
        proof {
            self.lemma_full();
        }
        match opened {
            Err(error) => Err(error),
            Ok(store) => match self.stores.push(store) {
                Ok(handle) => Ok(handle),
                Err(_) => Err(Error::StoreTableFull),
            },
        }
    }
}

impl KeyValueDispatch {
    /// The backend that `name` is configured with.
    pub closed spec fn backend_for(&self, name: Seq<char>) -> Impl {
        self.backends()[choose|index: int| is_last_match(self.names(), name, index)]
    }
}

impl KeyValueDispatch {
    /// The backend of a name is the one at the name's last occurrence.
    pub proof fn lemma_backend_for(&self, name: Seq<char>, index: int)
        requires
            is_last_match(self.names(), name, index),
        ensures
            self.is_configured(name),
            self.backend_for(name) == self.backends()[index],
    {
        lemma_last_match_unique(
            self.names(),
            name,
            index,
            choose|index: int| is_last_match(self.names(), name, index),
        );
    }
}

impl KeyValue for KeyValueDispatch {
    open spec fn handles(&self) -> Set<u32> {
        self.stores().dom()
    }

    open spec fn not_open() -> Error {
        Error::InvalidStore
    }

    open spec fn candidate(&self) -> u32 {
        self.next_candidate()
    }

    /// Success is owed where the name is configured, its backend has been
    /// set up, and a handle is free.
    open spec fn open_is_owed(&self, name: Seq<char>) -> bool {
        self.is_configured(name) && self.backend_for(name).is_ready() && !self.is_full()
    }

    /// An unconfigured name is refused with `NoSuchStore`, and a store of
    /// a backend that has been set up with `StoreTableFull` where no handle
    /// is free. What a backend that is yet to be set up answers is its own.
    open spec fn open_is_refused(&self, name: Seq<char>) -> Option<Error> {
        if !self.is_configured(name) {
            Some(Error::NoSuchStore)
        } else if self.backend_for(name).is_ready() && self.is_full() {
            Some(Error::StoreTableFull)
        } else {
            None
        }
    }

    /// Opens a store on the backend configured under `name` and returns the
    /// first free handle for it. An unconfigured name fails with
    /// `NoSuchStore` before anything is touched; a backend that cannot be
    /// set up fails with its storage error; a full table fails with
    /// `StoreTableFull`. No failure changes the table.
    fn open(&mut self, name: &str) -> (result: Result<u32, Error>)
        ensures
            final(self).names() == old(self).names(),
            final(self).backends().len() == old(self).backends().len(),
            forall|other: int|
                0 <= other < old(self).backends().len() && !is_last_match(
                    old(self).names(),
                    name@,
                    other,
                ) ==> final(self).backends()[other] == old(self).backends()[other],
            !old(self).is_configured(name@) ==> *final(self) == *old(self),
            old(self).is_configured(name@) && old(self).backend_for(name@).is_ready() && !old(
                self,
            ).is_full() ==> result is Ok,
            old(self).is_configured(name@) ==> (final(self).backend_for(name@).is_ready() <==> !(
            result matches Err(error) && error is Store)),
            match result {
                Ok(handle) => {
                    &&& old(self).is_configured(name@)
                    &&& is_first_free(old(self).stores().dom(), old(self).next_candidate(), handle)
                    &&& final(self).stores() == old(self).stores().insert(
                        handle,
                        final(self).stores()[handle],
                    )
                    &&& final(self).stores()[handle].partition() == name@
                    &&& final(self).stores()[handle].is_store_of(final(self).backend_for(name@))
                    &&& final(self).next_candidate() == successor(handle)
                },
                Err(error) => {
                    &&& final(self).stores() == old(self).stores()
                    &&& final(self).next_candidate() == old(self).next_candidate()
                    &&& error is NoSuchStore <==> !old(self).is_configured(name@)
                    &&& error is NoSuchStore || error is Store || error is StoreTableFull
                    &&& error is StoreTableFull ==> old(self).is_full()
                },
            },
    {
        let index = match self.find(name) {
            Some(index) => index,
            None => {
                return Err(Error::NoSuchStore);
            },
        };
        proof {
            lemma_last_match_unique(
                self.names(),
                name@,
                index as int,
                choose|index: int| is_last_match(self.names(), name@, index),
            );
        }
        let opened = self.impls[index].1.open(name);
        assert(self.names() =~= old(self).names());
        assert(self.stores() == old(self).stores());
        assert(self.is_full() == old(self).is_full());
        let result = self.register(opened);
        proof {
            if let Ok(handle) = result {
                assert(self.stores()[handle] == opened->Ok_0);
                assert(self.stores() =~= old(self).stores().insert(handle, self.stores()[handle]));
            }
        }
        result
    }

    /// The value stored under `key` in the store behind `handle`;
    /// `InvalidStore` when the handle is not open, `NoSuchKey` when the
    /// store holds no such key.
    fn get(&mut self, handle: u32, key: &str) -> (result: Result<Vec<u8>, Error>)
        ensures
            *final(self) == *old(self),
            result matches Err(error) ==> error is InvalidStore || error is NoSuchKey
                || is_engine_error(error),
    {
        match self.stores.get(handle) {
            Some(store) => store.get(key),
            None => Err(Error::InvalidStore),
        }
    }

    /// Stores `value` under `key` in the store behind `handle`;
    /// `InvalidStore` when the handle is not open.
    fn set(&mut self, handle: u32, key: &str, value: &[u8]) -> (result: Result<(), Error>)
        ensures
            *final(self) == *old(self),
            result matches Err(error) ==> error is InvalidStore || is_engine_error(error),
    {
        match self.stores.get(handle) {
            Some(store) => store.set(key, value),
            None => Err(Error::InvalidStore),
        }
    }

    /// Removes `key` from the store behind `handle`; `InvalidStore` when
    /// the handle is not open.
    fn delete(&mut self, handle: u32, key: &str) -> (result: Result<(), Error>)
        ensures
            *final(self) == *old(self),
            result matches Err(error) ==> error is InvalidStore || is_engine_error(error),
    {
        match self.stores.get(handle) {
            Some(store) => store.delete(key),
            None => Err(Error::InvalidStore),
        }
    }

    /// Whether the store behind `handle` holds `key`; `InvalidStore` when
    /// the handle is not open.
    fn key_exists(&mut self, handle: u32, key: &str) -> (result: Result<bool, Error>)
        ensures
            *final(self) == *old(self),
            result matches Err(error) ==> error is InvalidStore || is_engine_error(error),
    {
        match self.stores.get(handle) {
            Some(store) => store.key_exists(key),
            None => Err(Error::InvalidStore),
        }
    }

    /// Takes `handle` out of the table and drops its store; does nothing
    /// when the handle is not open.
    fn close(&mut self, handle: u32)
        ensures
            final(self).stores() == old(self).stores().remove(handle),
            final(self).next_candidate() == old(self).next_candidate(),
            final(self).names() == old(self).names(),
            final(self).backends() == old(self).backends(),
    {
        self.stores.remove(handle);
    }
}

/// A name has at most one last occurrence.
pub proof fn lemma_last_match_unique(names: Seq<Seq<char>>, name: Seq<char>, a: int, b: int)
    requires
        is_last_match(names, name, a),
        is_last_match(names, name, b),
    ensures
        a == b,
{
}

} // verus!
