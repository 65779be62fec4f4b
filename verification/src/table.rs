//! Fixed-capacity, address-keyed tables: the deny list and the rate tracker.
//!
//! A table is made once with the number of entries it may hold and never
//! grows beyond it. Each operation touches a single key.

use crate::rate::RateLimit;
use std::collections::HashMap;
use std::collections::HashSet;
use std::hash::Hash;
use vstd::prelude::*;
use vstd::std_specs::hash::obeys_key_model;

verus! {

broadcast use vstd::std_specs::hash::group_hash_axioms;

/// Returned when a table that is full is asked to take a new key.
#[derive(Clone, Copy, Debug, PartialEq, Eq, Structural)]
pub struct CapacityError {
    /// The number of entries the table was made for.
    pub max_entries: u32,
}

/// Whether a table that holds `keys` and was made for `max_entries` can take
/// `key`: either it already holds it, or a slot is free.
pub open spec fn has_room<K>(keys: Set<K>, max_entries: u32, key: K) -> bool {
    keys.contains(key) || keys.len() < max_entries
}

/// The keys of a deny table after an attempt to add `key`.
pub open spec fn deny_added<K>(keys: Set<K>, max_entries: u32, key: K) -> Set<K> {
    if has_room(keys, max_entries, key) {
        keys.insert(key)
    } else {
        keys
    }
}

/// The entries of a tracker table after an attempt to store `entry` for `key`.
pub open spec fn track_stored<K>(
    entries: Map<K, RateLimit>,
    max_entries: u32,
    key: K,
    entry: RateLimit,
) -> Map<K, RateLimit> {
    if has_room(entries.dom(), max_entries, key) {
        entries.insert(key, entry)
    } else {
        entries
    }
}

/// An address-keyed presence table: a key that is present is blocked.
pub struct DenyTable<K> {
    keys: HashSet<K>,
    limit: u32,
}

impl<K: Copy + Eq + Hash> DenyTable<K> {
    /// The addresses that the table blocks.
    pub closed spec fn view(&self) -> Set<K> {
        self.keys@
    }

    /// The number of entries the table was made for.
    pub closed spec fn capacity(&self) -> u32 {
        self.limit
    }

    /// The table holds finitely many keys and no more than it was made for.
    pub open spec fn wf(&self) -> bool {
        &&& obeys_key_model::<K>()
        &&& self@.finite()
        &&& self@.len() <= self.capacity()
    }

    /// An empty table for at most `max_entries` addresses.
    pub fn new(max_entries: u32) -> (t: Self)
        requires
            obeys_key_model::<K>(),
        ensures
            t.wf(),
            t@ == Set::<K>::empty(),
            t.capacity() == max_entries,
    {
        DenyTable { keys: HashSet::new(), limit: max_entries }
    }

    /// The number of entries the table was made for.
    pub fn max_entries(&self) -> (n: u32)
        ensures
            n == self.capacity(),
    {
        self.limit
    }

    /// The number of addresses in the table.
    pub fn len(&self) -> (n: usize)
        requires
            self.wf(),
        ensures
            n == self@.len(),
    {
        self.keys.len()
    }

    /// Whether `key` is blocked.
    pub fn contains(&self, key: &K) -> (b: bool)
        requires
            self.wf(),
        ensures
            b == self@.contains(*key),
    {
        self.keys.contains(key)
    }

    /// Blocks `key`. A key that is already present stays; a new key is taken
    /// while a slot is free and refused, with the table unchanged, once the
    /// table is full.
    pub fn insert(&mut self, key: K) -> (r: Result<(), CapacityError>)
        requires
            old(self).wf(),
        ensures
            final(self).wf(),
            final(self).capacity() == old(self).capacity(),
            final(self)@ == deny_added(old(self)@, old(self).capacity(), key),
            r.is_ok() == has_room(old(self)@, old(self).capacity(), key),
            r.is_err() ==> r == Err::<(), CapacityError>(
                CapacityError { max_entries: old(self).capacity() },
            ),
    {
        if self.keys.contains(&key) {
            assert(self@.insert(key) =~= self@);
            Ok(())
        } else if self.keys.len() < self.limit as usize {
            self.keys.insert(key);
            Ok(())
        } else {
            Err(CapacityError { max_entries: self.limit })
        }
    }

    /// Unblocks `key` and says whether it was present.
    pub fn remove(&mut self, key: &K) -> (was_present: bool)
        requires
            old(self).wf(),
        ensures
            final(self).wf(),
            final(self).capacity() == old(self).capacity(),
            final(self)@ == old(self)@.remove(*key),
            was_present == old(self)@.contains(*key),
    {
        self.keys.remove(key)
    }

    /// Unblocks every address.
    pub fn clear(&mut self)
        requires
            old(self).wf(),
        ensures
            final(self).wf(),
            final(self).capacity() == old(self).capacity(),
            final(self)@ == Set::<K>::empty(),
    {
        self.keys.clear();
    }
}

/// An address-keyed table of packet counters.
pub struct TrackerTable<K> {
    entries: HashMap<K, RateLimit>,
    limit: u32,
}

impl<K: Copy + Eq + Hash> TrackerTable<K> {
    /// The counter stored for each tracked address.
    pub closed spec fn view(&self) -> Map<K, RateLimit> {
        self.entries@
    }

    /// The number of entries the table was made for.
    pub closed spec fn capacity(&self) -> u32 {
        self.limit
    }

    /// The table tracks finitely many addresses and no more than it was made
    /// for.
    pub open spec fn wf(&self) -> bool {
        &&& obeys_key_model::<K>()
        &&& self@.dom().finite()
        &&& self@.dom().len() <= self.capacity()
    }

    /// An empty table for at most `max_entries` addresses.
    pub fn new(max_entries: u32) -> (t: Self)
        requires
            obeys_key_model::<K>(),
        ensures
            t.wf(),
            t@ == Map::<K, RateLimit>::empty(),
            t.capacity() == max_entries,
    {
        TrackerTable { entries: HashMap::new(), limit: max_entries }
    }

    /// The number of entries the table was made for.
    pub fn max_entries(&self) -> (n: u32)
        ensures
            n == self.capacity(),
    {
        self.limit
    }

    /// The number of tracked addresses.
    pub fn len(&self) -> (n: usize)
        requires
            self.wf(),
        ensures
            n == self@.dom().len(),
    {
        self.entries.len()
    }

    /// The counter stored for `key`, if there is one.
    pub fn get(&self, key: &K) -> (r: Option<RateLimit>)
        requires
            self.wf(),
        ensures
            r == (if self@.contains_key(*key) {
                Some(self@[*key])
            } else {
                None
            }),
    {
        match self.entries.get(key) {
            Some(e) => Some(*e),
            None => None,
        }
    }

    /// Stores `entry` for `key`. A tracked key takes the new counter; a new
    /// key is taken while a slot is free. Once the table is full a new key is
    /// not tracked and the table stays as it is.
    pub fn store(&mut self, key: K, entry: RateLimit) -> (stored: bool)
        requires
            old(self).wf(),
        ensures
            final(self).wf(),
            final(self).capacity() == old(self).capacity(),
            final(self)@ == track_stored(old(self)@, old(self).capacity(), key, entry),
            stored == has_room(old(self)@.dom(), old(self).capacity(), key),
    {
        if self.entries.contains_key(&key) {
            self.entries.insert(key, entry);
            assert(self@.dom() =~= old(self)@.dom());
            true
        } else if self.entries.len() < self.limit as usize {
            self.entries.insert(key, entry);
            true
        } else {
            false
        }
    }

    /// Forgets every counter.
    pub fn clear(&mut self)
        requires
            old(self).wf(),
        ensures
            final(self).wf(),
            final(self).capacity() == old(self).capacity(),
            final(self)@ == Map::<K, RateLimit>::empty(),
    {
        self.entries.clear();
    }
}

} // verus!
