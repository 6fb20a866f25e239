//! The remote backend: what is sent to the key-value service for each
//! operation, and what each reply means.
//!
//! The round trip itself is the caller's: it takes a request from here,
//! sends it, and brings the reply back to the matching function.

use crate::error::Error;
use crate::sqlite::{exists_from, spec_exists_from};
use vstd::prelude::*;
use vstd::slice::slice_to_vec;

verus! {

/// The address of the key-value service.
pub const ENDPOINT: &'static str = "http://3.76.121.86:8000";

/// The one namespace of the service that stores are bound to.
pub const DEFAULT_NAMESPACE: &'static str = "default";

/// Asks the service for the value of a key.
pub struct GetRequest {
    pub namespace: String,
    pub key: String,
}

/// Asks the service to store a value under a key. An empty value asks it
/// to delete the key: the protocol has no other way to say so.
pub struct SetRequest {
    pub namespace: String,
    pub key: String,
    pub value: Vec<u8>,
}

/// Asks the service for every key of a namespace.
pub struct ListKeysRequest {
    pub namespace: String,
}

/// One entry of the service's answer to `ListKeysRequest`.
pub struct KeyEntry {
    pub key: String,
}

/// The bytes that go on the wire for a value that may be absent.
pub open spec fn wire_value(value: Option<Vec<u8>>) -> Seq<u8> {
    match value {
        Some(bytes) => bytes@,
        None => Seq::empty(),
    }
}

impl GetRequest {
    /// The request for `key` of `namespace`.
    pub fn new(namespace: String, key: String) -> (request: Self)
        ensures
            request.namespace == namespace,
            request.key == key,
    {
        Self { namespace, key }
    }
}

impl SetRequest {
    /// The request that stores `value` under `key` of `namespace`, or
    /// deletes the key when `value` is absent.
    pub fn new(namespace: String, key: String, value: Option<Vec<u8>>) -> (request: Self)
        ensures
            request.namespace == namespace,
            request.key == key,
            request.value@ == wire_value(value),
    {
        let value = match value {
            Some(bytes) => bytes,
            None => Vec::new(),
        };
        Self { namespace, key, value }
    }
}

impl ListKeysRequest {
    /// The request for the keys of `namespace`.
    pub fn new(namespace: String) -> (request: Self)
        ensures
            request.namespace == namespace,
    {
        Self { namespace }
    }
}

/// The keys named by the entries of a `ListKeysRequest` answer, in order.
pub fn key_names(entries: &Vec<KeyEntry>) -> (names: Vec<String>)
    ensures
        names@.len() == entries@.len(),
        forall|i: int| 0 <= i < entries@.len() ==> names@[i] == entries@[i].key,
{
    let mut names: Vec<String> = Vec::new();
    let mut i: usize = 0;
    while i < entries.len()
        invariant
            i <= entries@.len(),
            names@.len() == i,
            forall|j: int| 0 <= j < i ==> names@[j] == entries@[j].key,
        decreases entries@.len() - i,
    {
        names.push(entries[i].key.clone());
        i += 1;
    }
    names
}

/// What a data operation answers for a reply of the service: what the
/// service sent, or `InvalidStore` when the round trip failed, whatever
/// the failure was.
pub open spec fn spec_reply<T, E>(reply: Result<T, E>) -> Result<T, Error> {
    match reply {
        Ok(sent) => Ok(sent),
        Err(_) => Err(Error::InvalidStore),
    }
}

/// What `key_exists` answers for an answer of `get`: a non-empty value
/// means present, an empty one means absent, and the rest is as for every
/// backend.
pub open spec fn spec_exists_result(found: Result<Vec<u8>, Error>) -> Result<bool, Error> {
    match found {
        Ok(value) => Ok(value@.len() > 0),
        other => spec_exists_from(other),
    }
}

/// For the remote backend too `key_exists` never answers `NoSuchKey`, and
/// it answers `true` only where `get` answered a value.
pub proof fn lemma_exists_result(found: Result<Vec<u8>, Error>)
    ensures
        spec_exists_result(found) != Err::<bool, Error>(Error::NoSuchKey),
        spec_exists_result(found) == Ok::<bool, Error>(true) ==> found is Ok,
        spec_exists_result(found) matches Err(error) ==> found == Err::<Vec<u8>, Error>(error),
{
}

/// The remote backend. Every store it opens talks to the same service.
pub struct KeyValueCloud {}

/// A store of the remote backend, bound to one namespace of the service.
pub struct CloudStore {
    namespace: String,
}

impl KeyValueCloud {
    /// The remote backend.
    pub fn new() -> Self {
        Self {  }
    }

    /// Opens a store. Whatever `name` is, the store is bound to the
    /// default namespace, and nothing is sent to the service.
    pub fn open(&mut self, name: &str) -> (store: CloudStore)
        ensures
            store.namespace() == DEFAULT_NAMESPACE@,
    {
        CloudStore::new(DEFAULT_NAMESPACE.to_owned())
    }
}

impl CloudStore {
    /// The namespace of the service that this store reads and writes.
    pub closed spec fn namespace(&self) -> Seq<char> {
        self.namespace@
    }

    /// A store bound to `namespace`.
    pub fn new(namespace: String) -> (store: Self)
        ensures
            store.namespace() == namespace@,
    {
        Self { namespace }
    }

    /// What `get` sends for `key`.
    pub fn get_request(&self, key: &str) -> (request: GetRequest)
        ensures
            request.namespace@ == self.namespace(),
            request.key@ == key@,
    {
        GetRequest::new(self.namespace.clone(), key.to_owned())
    }

    /// What `get` answers for the service's reply: the value sent, which
    /// is empty for a key that the service does not hold.
    pub fn get_result<E>(reply: Result<Vec<u8>, E>) -> (result: Result<Vec<u8>, Error>)
        ensures
            result == spec_reply(reply),
    {
        match reply {
            Ok(value) => Ok(value),
            Err(_) => Err(Error::InvalidStore),
        }
    }

    /// What `set` sends to store `value` under `key`.
    pub fn set_request(&self, key: &str, value: &[u8]) -> (request: SetRequest)
        ensures
            request.namespace@ == self.namespace(),
            request.key@ == key@,
            request.value@ == value@,
    {
        SetRequest::new(self.namespace.clone(), key.to_owned(), Some(slice_to_vec(value)))
    }

    /// What `delete` sends for `key`: a `set` without a value.
    pub fn delete_request(&self, key: &str) -> (request: SetRequest)
        ensures
            request.namespace@ == self.namespace(),
            request.key@ == key@,
            request.value@ == Seq::<u8>::empty(),
    {
        SetRequest::new(self.namespace.clone(), key.to_owned(), None)
    }

    /// What `set` and `delete` answer for the service's reply.
    pub fn write_result<E>(reply: Result<(), E>) -> (result: Result<(), Error>)
        ensures
            result == spec_reply(reply),
    {
        match reply {
            Ok(()) => Ok(()),
            Err(_) => Err(Error::InvalidStore),
        }
    }

    /// What `key_exists` answers for the answer of a `get` of the same
    /// key. The service sends an empty value for a key it does not hold,
    /// so a key stored with an empty value counts as absent.
    pub fn exists_result(found: Result<Vec<u8>, Error>) -> (result: Result<bool, Error>)
        ensures
            result == spec_exists_result(found),
    {
        match found {
            Ok(value) => Ok(value.len() > 0),
            other => exists_from(other),
        }
    }

    /// What `get_keys` sends.
    pub fn get_keys_request(&self) -> (request: ListKeysRequest)
        ensures
            request.namespace@ == self.namespace(),
    {
        ListKeysRequest::new(self.namespace.clone())
    }

    /// What `get_keys` answers for the service's reply.
    pub fn get_keys_result<E>(reply: Result<Vec<String>, E>) -> (result: Result<Vec<String>, Error>)
        ensures
            result == spec_reply(reply),
    {
        match reply {
            Ok(keys) => Ok(keys),
            Err(_) => Err(Error::InvalidStore),
        }
    }
}

} // verus!
