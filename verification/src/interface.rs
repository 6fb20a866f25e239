//! The operations every key-value host offers, whatever stands behind it,
//! and what holds of every host that offers them.

use crate::error::Error;
use crate::table::is_first_free;
use vstd::prelude::*;

verus! {

/// What `open` does to the set of open handles: on success the handle
/// returned was not open and now is, and no other handle changed; on
/// failure no handle changed.
pub open spec fn opens(before: Set<u32>, after: Set<u32>, result: Result<u32, Error>) -> bool {
    match result {
        Ok(handle) => !before.contains(handle) && after == before.insert(handle),
        Err(_) => after == before,
    }
}

/// What the state of a host settles of the answer of `open` before the
/// call is made: where success is `owed` the call succeeds, where it is
/// `refused` the call fails with just that error, and a handle that is
/// returned is the first free one of a scan from `candidate`.
pub open spec fn settles_open(
    owed: bool,
    refused: Option<Error>,
    candidate: u32,
    before: Set<u32>,
    result: Result<u32, Error>,
) -> bool {
    &&& owed ==> result is Ok
    &&& refused matches Some(error) ==> result == Err::<u32, Error>(error)
    &&& result matches Ok(handle) ==> is_first_free(before, candidate, handle)
}

/// What a data operation does with its handle: it answers with `refusal`,
/// the host's error for a handle that is not open, exactly when the handle
/// is not open, and it opens and closes nothing.
pub open spec fn serves<T>(
    before: Set<u32>,
    after: Set<u32>,
    refusal: Error,
    handle: u32,
    result: Result<T, Error>,
) -> bool {
    &&& result == Err::<T, Error>(refusal) <==> !before.contains(handle)
    &&& after == before
}

/// What `close` does to the set of open handles: the handle leaves it,
/// if it was there, and no other handle changes.
pub open spec fn closes(before: Set<u32>, after: Set<u32>, handle: u32) -> bool {
    after == before.remove(handle)
}

/// A host of stores: `open` hands out a handle for a named store, the data
/// operations take that handle, and `close` gives it back.
pub trait KeyValue {
    /// The handles of the stores that were opened and not yet closed.
    spec fn handles(&self) -> Set<u32>;

    /// The error that every data operation reports for a handle that is
    /// not open.
    spec fn not_open() -> Error;

    /// The handle at which `open` starts its search for a free handle.
    spec fn candidate(&self) -> u32;

    /// `open` is bound to succeed for `name`: the host has a free handle,
    /// and nothing that could fail stands between the call and the store.
    spec fn open_is_owed(&self, name: Seq<char>) -> bool;

    /// The error that `open` is bound to report for `name`, where the
    /// state of the host alone decides that the call fails.
    spec fn open_is_refused(&self, name: Seq<char>) -> Option<Error>;

    /// Opens the store `name` and returns the first free handle, which was
    /// not open before. No other handle is opened or closed, and a failed
    /// call opens none. The call succeeds where success is owed and fails
    /// with the error named where it is refused.
    fn open(&mut self, name: &str) -> (result: Result<u32, Error>)
        ensures
            opens(old(self).handles(), final(self).handles(), result),
            settles_open(
                old(self).open_is_owed(name@),
                old(self).open_is_refused(name@),
                old(self).candidate(),
                old(self).handles(),
                result,
            ),
    ;

    /// The value stored under `key` in the store behind `handle`.
    fn get(&mut self, handle: u32, key: &str) -> (result: Result<Vec<u8>, Error>)
        ensures
            serves(old(self).handles(), final(self).handles(), Self::not_open(), handle, result),
    ;

    /// Stores `value` under `key` in the store behind `handle`.
    fn set(&mut self, handle: u32, key: &str, value: &[u8]) -> (result: Result<(), Error>)
        ensures
            serves(old(self).handles(), final(self).handles(), Self::not_open(), handle, result),
    ;

    /// Removes `key` from the store behind `handle`.
    fn delete(&mut self, handle: u32, key: &str) -> (result: Result<(), Error>)
        ensures
            serves(old(self).handles(), final(self).handles(), Self::not_open(), handle, result),
    ;

    /// Whether the store behind `handle` holds a value under `key`.
    fn key_exists(&mut self, handle: u32, key: &str) -> (result: Result<bool, Error>)
        ensures
            serves(old(self).handles(), final(self).handles(), Self::not_open(), handle, result),
    ;

    /// Closes `handle`; does nothing when it is not open. No other handle
    /// is affected.
    fn close(&mut self, handle: u32)
        ensures
            closes(old(self).handles(), final(self).handles(), handle),
    ;
}

/// A data operation on a handle that is not open fails with the host's
/// error for such a handle, whatever the operation and the key.
pub proof fn lemma_unopened_handle_is_refused<T>(
    before: Set<u32>,
    after: Set<u32>,
    refusal: Error,
    handle: u32,
    result: Result<T, Error>,
)
    requires
        serves(before, after, refusal, handle, result),
        !before.contains(handle),
    ensures
        result == Err::<T, Error>(refusal),
{
}

/// Only `open` opens a handle: a handle that is open after a data
/// operation or a `close` was open before it.
pub proof fn lemma_only_open_opens<T>(
    before: Set<u32>,
    after: Set<u32>,
    refusal: Error,
    handle: u32,
    result: Result<T, Error>,
    any: u32,
)
    requires
        serves(before, after, refusal, handle, result) || closes(before, after, handle),
        after.contains(any),
    ensures
        before.contains(any),
{
}

/// After `close`, a data operation on the closed handle fails exactly as
/// it does on a handle that was never opened.
pub proof fn lemma_closed_handle_is_refused<T>(
    before: Set<u32>,
    closed: Set<u32>,
    after: Set<u32>,
    refusal: Error,
    handle: u32,
    result: Result<T, Error>,
)
    requires
        closes(before, closed, handle),
        serves(closed, after, refusal, handle, result),
    ensures
        result == Err::<T, Error>(refusal),
        !after.contains(handle),
{
}

/// Closing a handle that is not open changes nothing.
pub proof fn lemma_close_of_closed_handle(before: Set<u32>, after: Set<u32>, handle: u32)
    requires
        closes(before, after, handle),
        !before.contains(handle),
    ensures
        after == before,
{
    assert(before.remove(handle) =~= before);
}

/// `open` never returns a handle that is open: the second of two
/// successful calls returns another handle than the first, and both are
/// open afterwards.
pub proof fn lemma_open_returns_a_new_handle(
    before: Set<u32>,
    between: Set<u32>,
    after: Set<u32>,
    first: u32,
    second: u32,
)
    requires
        opens(before, between, Ok(first)),
        opens(between, after, Ok(second)),
    ensures
        !before.contains(first),
        first != second,
        after.contains(first),
        after.contains(second),
{
}

} // verus!
