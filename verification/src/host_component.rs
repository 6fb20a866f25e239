//! What a runtime keeps to give each of its instances a host of its own.

use crate::dispatch::{Config, Impl, ImplStore, KeyValueDispatch};
use crate::standalone::KeyValueSqlite;
use vstd::prelude::*;

verus! {

/// Makes dispatchers from one configuration.
pub struct KeyValueComponent {
    config: Config,
}

impl KeyValueComponent {
    /// The configuration that every dispatcher is made from.
    pub closed spec fn config(&self) -> Config {
        self.config
    }

    /// A component that makes its dispatchers from `config`.
    pub fn new(config: Config) -> (component: Self)
        ensures
            component.config() == config,
    {
        Self { config }
    }

    /// A dispatcher of its own for one instance: a fresh backend for each
    /// configured name, and no open store.
    pub fn build_data(&self) -> (dispatch: KeyValueDispatch)
        ensures
            dispatch.names() == self.config().names(),
            dispatch.backends().len() == self.config().kinds().len(),
            forall|i: int|
                0 <= i < self.config().kinds().len() ==> dispatch.backends()[i] == Impl::fresh(
                    #[trigger] self.config().kinds()[i],
                ),
            dispatch.stores() == Map::<u32, ImplStore>::empty(),
            dispatch.next_candidate() == 0,
    {
        KeyValueDispatch::new(self.config.clone())
    }
}

/// Makes hosts that keep everything in the one database file of the
/// working directory.
pub struct KeyValueSqliteComponent;

impl KeyValueSqliteComponent {
    /// A host of its own for one instance, with no namespace open and not
    /// yet connected.
    pub fn build_data(&self) -> (host: KeyValueSqlite)
        ensures
            host.location() is Path,
            !host.is_connected(),
            host.namespaces() == Map::<u32, String>::empty(),
            host.next_candidate() == 0,
    {
        KeyValueSqlite::default()
    }
}

} // verus!
