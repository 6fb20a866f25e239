//! A table that assigns `u32` handles to owned values.
//!
//! Handles are found by scanning upwards from a candidate counter, wrapping
//! at `u32::MAX`, and skipping every handle that is still in use.

use std::collections::HashMap;
use vstd::prelude::*;
use vstd::set_lib::*;

verus! {

broadcast use vstd::std_specs::hash::group_hash_axioms;

/// How many steps a scan that starts at `start` takes to reach `key`,
/// counting upwards and wrapping from `u32::MAX` to `0`.
pub open spec fn scan_distance(start: u32, key: u32) -> int {
    if key >= start {
        key - start
    } else {
        key - start + 0x1_0000_0000
    }
}

/// `key` is the first handle outside `live` that a scan from `start` meets.
pub open spec fn is_first_free(live: Set<u32>, start: u32, key: u32) -> bool {
    &&& !live.contains(key)
    &&& forall|other: u32|
        !live.contains(other) ==> scan_distance(start, key) <= scan_distance(start, other)
}

/// The handle that follows `key`, with `0` following `u32::MAX`.
pub open spec fn successor(key: u32) -> u32 {
    if key == u32::MAX {
        0
    } else {
        (key + 1) as u32
    }
}

/// A finite set of handles has at most 2^32 members, and has exactly
/// that many only when it holds every handle.
pub proof fn lemma_handle_count(live: Set<u32>)
    requires
        live.finite(),
    ensures
        live.len() <= 0x1_0000_0000,
        live.len() == 0x1_0000_0000 <==> (forall|key: u32| live.contains(key)),
{
    let all = Set::<u32>::full();
    let below_max = Set::<u32>::range(u32::MIN, u32::MAX);
    u32::range_properties(u32::MIN, u32::MAX);
    assert(all =~= below_max.insert(u32::MAX));
    assert(all.finite() && all.len() == 0x1_0000_0000);
    assert(live.subset_of(all));
    lemma_len_subset(live, all);
    if live.len() == 0x1_0000_0000 {
        lemma_subset_equality(live, all);
        assert forall|key: u32| live.contains(key) by {
            assert(all.contains(key));
        }
    }
    if forall|key: u32| live.contains(key) {
        assert(live =~= all);
    }
}

/// At most one handle is the first free one of a scan.
pub proof fn lemma_first_free_unique(live: Set<u32>, start: u32, a: u32, b: u32)
    requires
        is_first_free(live, start, a),
        is_first_free(live, start, b),
    ensures
        a == b,
{
}

/// Where the handle at which a scan starts is free, the scan stops there.
pub proof fn lemma_free_start_is_first(live: Set<u32>, start: u32, key: u32)
    requires
        is_first_free(live, start, key),
        !live.contains(start),
    ensures
        key == start,
{
}

/// A scan that starts just after `u32::MAX` starts at `0`: where every
/// handle from `start` up to `u32::MAX` is live and `0` is free, the scan
/// wraps round and stops at `0`.
pub proof fn lemma_scan_wraps(live: Set<u32>, start: u32, key: u32)
    requires
        is_first_free(live, start, key),
        forall|high: u32| start <= high ==> live.contains(high),
        !live.contains(0),
    ensures
        key == 0,
{
}

/// Maps `u32` handles to the values pushed into it.
pub struct Table<V> {
    next_key: u32,
    tuples: HashMap<u32, V>,
}

impl<V> View for Table<V> {
    type V = Map<u32, V>;

    /// The live handles and the value each one owns.
    closed spec fn view(&self) -> Map<u32, V> {
        self.tuples@
    }
}

impl<V> Table<V> {
    /// The handle at which the next scan for a free handle starts.
    pub closed spec fn next_candidate(&self) -> u32 {
        self.next_key
    }

    /// Every handle is in use.
    pub open spec fn is_full(&self) -> bool {
        forall|key: u32| self@.contains_key(key)
    }

    /// An empty table whose first handle will be `0`.
    pub fn new() -> (table: Self)
        ensures
            table@ == Map::<u32, V>::empty(),
            table.next_candidate() == 0,
    {
        Self { next_key: 0, tuples: HashMap::new() }
    }

    /// Stores `value` under the first free handle at or after the candidate
    /// counter and returns that handle; fails only when no handle is free.
    pub fn push(&mut self, value: V) -> (result: Result<u32, ()>)
        ensures
            result is Err <==> old(self).is_full(),
            match result {
                Ok(key) => {
                    &&& is_first_free(old(self)@.dom(), old(self).next_candidate(), key)
                    &&& final(self)@ == old(self)@.insert(key, value)
                    &&& final(self).next_candidate() == successor(key)
                },
                Err(_) => {
                    &&& *final(self) == *old(self)
                    &&& final(self)@ == old(self)@
                },
            },
    {
        let live: usize = self.tuples.len();
        proof {
            lemma_handle_count(self.tuples@.dom());
        }
        if live as u64 > 0xFFFF_FFFFu64 {
            return Err(());
        }
        let ghost start: u32 = self.next_key;
        let ghost free: u32 = choose|key: u32| !self.tuples@.contains_key(key);
        let ghost mut steps: int = 0;
        loop
            invariant
                self.tuples@ == old(self).tuples@,
                !self.tuples@.contains_key(free),
                0 <= steps <= scan_distance(start, free),
                scan_distance(start, self.next_key) == steps,
                start == old(self).next_key,
                forall|key: u32|
                    scan_distance(start, key) < steps ==> self.tuples@.contains_key(key),
            decreases scan_distance(start, free) - steps,
        {
            let key: u32 = self.next_key;
            self.next_key = self.next_key.wrapping_add(1);
            if self.tuples.contains_key(&key) {
                proof {
                    steps = steps + 1;
                }
                continue;
            }
            assert(!old(self)@.contains_key(free));
            self.tuples.insert(key, value);
            return Ok(key);
        }
    }

    /// The value stored under `key`, if `key` is live.
    pub fn get(&self, key: u32) -> (result: Option<&V>)
        ensures
            match result {
                Some(value) => self@.contains_key(key) && *value == self@[key],
                None => !self@.contains_key(key),
            },
    {
        self.tuples.get(&key)
    }

    /// Takes the value stored under `key` out of the table, freeing the
    /// handle; does nothing when `key` is not live.
    pub fn remove(&mut self, key: u32) -> (result: Option<V>)
        ensures
            final(self)@ == old(self)@.remove(key),
            final(self).next_candidate() == old(self).next_candidate(),
            match result {
                Some(value) => old(self)@.contains_key(key) && value == old(self)@[key],
                None => !old(self)@.contains_key(key),
            },
    {
        self.tuples.remove(&key)
    }
}

} // verus!
