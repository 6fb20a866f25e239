//! A store as its user sees it: a handle, and the operations on it.

use crate::error::Error;
use crate::interface::{closes, opens, serves, settles_open, KeyValue};
use vstd::prelude::*;

verus! {

/// An open store of some host. It is closed with `close`.
#[derive(Clone, Debug)]
pub struct Store(u32);

impl Store {
    /// The handle that the host gave this store.
    pub closed spec fn handle(&self) -> u32 {
        self.0
    }

    /// The handle that a successful `open` wrapped, or its error.
    pub open spec fn opened_handle(result: Result<Store, Error>) -> Result<u32, Error> {
        match result {
            Ok(store) => Ok(store.handle()),
            Err(error) => Err(error),
        }
    }

    /// Opens the store `name` of `host` and wraps the handle that the host
    /// gave: the first free one, which is open afterwards. The call
    /// succeeds where the host owes success, fails with the host's error
    /// where the host refuses, and a failure opens nothing.
    pub fn open<H: KeyValue>(host: &mut H, name: &str) -> (result: Result<Store, Error>)
        ensures
            opens(old(host).handles(), final(host).handles(), Store::opened_handle(result)),
            settles_open(
                old(host).open_is_owed(name@),
                old(host).open_is_refused(name@),
                old(host).candidate(),
                old(host).handles(),
                Store::opened_handle(result),
            ),
    {
        match host.open(name) {
            Ok(handle) => Ok(Store(handle)),
            Err(error) => Err(error),
        }
    }

    /// The value stored under `key`; `NoSuchKey` when there is none.
    pub fn get<H: KeyValue>(&self, host: &mut H, key: &str) -> (result: Result<Vec<u8>, Error>)
        ensures
            serves(old(host).handles(), final(host).handles(), H::not_open(), self.handle(), result),
    {
        host.get(self.0, key)
    }

    /// Stores `value` under `key`, replacing any value already there.
    pub fn set<H: KeyValue>(&self, host: &mut H, key: &str, value: &[u8]) -> (result: Result<
        (),
        Error,
    >)
        ensures
            serves(old(host).handles(), final(host).handles(), H::not_open(), self.handle(), result),
    {
        host.set(self.0, key, value)
    }

    /// Removes the value stored under `key`, if there is one.
    pub fn delete<H: KeyValue>(&self, host: &mut H, key: &str) -> (result: Result<(), Error>)
        ensures
            serves(old(host).handles(), final(host).handles(), H::not_open(), self.handle(), result),
    {
        host.delete(self.0, key)
    }

    /// Whether a value is stored under `key`.
    pub fn key_exists<H: KeyValue>(&self, host: &mut H, key: &str) -> (result: Result<bool, Error>)
        ensures
            serves(old(host).handles(), final(host).handles(), H::not_open(), self.handle(), result),
    {
        host.key_exists(self.0, key)
    }

    /// Closes the store, which ends its use.
    pub fn close<H: KeyValue>(self, host: &mut H)
        ensures
            closes(old(host).handles(), final(host).handles(), self.handle()),
    {
        host.close(self.0)
    }
}

} // verus!
