//! The errors that cross the key-value interface.

use vstd::prelude::*;

verus! {

/// Every failure an operation of this crate can report.
#[derive(Debug)]
pub enum Error {
    /// No backend is configured under the requested name.
    NoSuchStore,
    /// Every handle of the store table is in use.
    StoreTableFull,
    /// The handle does not name an open store.
    InvalidStore,
    /// The handle does not name an open namespace.
    InvalidNamespace,
    /// Every handle of the namespace table is in use.
    NamespaceTableFull,
    /// The store holds no value under the key.
    NoSuchKey,
    /// The storage engine reported a failure, described by the text.
    Store(String),
    /// The host could not carry the operation out, for the reason given.
    Runtime(String),
}

} // verus!
