//! In-memory caches keyed by chat-network ids, lazily populated from the
//! persistent store. The store round trip itself happens outside this
//! crate; these types decide what a finished fetch does to the cache.

use vstd::prelude::*;
use std::collections::HashMap;

verus! {

/// The cache contents after installing a fetched value: presence is
/// re-checked and an already-cached value is preferred, so a fetch that
/// lost a race changes nothing.
pub open spec fn spec_install<V>(m: Map<u64, V>, key: u64, value: V) -> Map<u64, V> {
    if m.contains_key(key) {
        m
    } else {
        m.insert(key, value)
    }
}

/// Completing a fetch-or-create twice for the same never-seen id leaves
/// exactly what the first completion put there, whatever row the second
/// fetch produced: the lazy load is idempotent.
pub proof fn lemma_fetch_or_create_idempotent<V>(m: Map<u64, V>, key: u64, v1: V, v2: V)
    requires
        !m.contains_key(key),
    ensures
        spec_install(spec_install(m, key, v1), key, v2) == spec_install(m, key, v1),
{
}

/// An in-memory cache over one store entity, keyed by a chat-network id.
#[derive(Debug)]
pub struct OneDatabaseCache<V> {
    /// The cached entities, by id.
    pub entries: HashMap<u64, V>,
}

impl<V> View for OneDatabaseCache<V> {
    type V = Map<u64, V>;

    closed spec fn view(&self) -> Map<u64, V> {
        self.entries@
    }
}

impl<V> OneDatabaseCache<V> {
    /// An empty cache.
    pub fn new() -> (c: OneDatabaseCache<V>)
        ensures
            c@ == Map::<u64, V>::empty(),
    {
        OneDatabaseCache { entries: HashMap::new() }
    }

    /// The cached value under a key, if present.
    pub fn get(&self, key: &u64) -> (r: Option<&V>)
        ensures
            match r {
                Some(v) => self@.contains_key(*key) && *v == self@[*key],
                None => !self@.contains_key(*key),
            },
    {
        self.entries.get(key)
    }

    /// Whether a key is cached.
    pub fn contains(&self, key: &u64) -> (r: bool)
        ensures
            r == self@.contains_key(*key),
    {
        self.entries.contains_key(key)
    }

    /// Cache a value under a key, replacing and returning any resident
    /// value.
    pub fn insert(&mut self, key: u64, value: V) -> (prev: Option<V>)
        ensures
            final(self)@ == old(self)@.insert(key, value),
            match prev {
                Some(v) => old(self)@.contains_key(key) && v == old(self)@[key],
                None => !old(self)@.contains_key(key),
            },
    {
        self.entries.insert(key, value)
    }

    /// Remove and return the value under a key, leaving the slot empty
    /// for a put-back after mutation.
    pub fn take(&mut self, key: &u64) -> (r: Option<V>)
        ensures
            final(self)@ == old(self)@.remove(*key),
            match r {
                Some(v) => old(self)@.contains_key(*key) && v == old(self)@[*key],
                None => !old(self)@.contains_key(*key),
            },
    {
        self.entries.remove(key)
    }

    /// Complete a fetch-or-create: re-check presence and install the
    /// fetched value only if the key is still absent, preferring the
    /// already-cached value's identity otherwise. Reports whether the
    /// fetched value was installed.
    pub fn install_fetched(&mut self, key: u64, value: V) -> (installed: bool)
        ensures
            final(self)@ == spec_install(old(self)@, key, value),
            installed == !old(self)@.contains_key(key),
    {
        if self.entries.contains_key(&key) {
            false
        } else {
            self.entries.insert(key, value);
            true
        }
    }
}

/// An in-memory cache scoped under a parent entity (members under their
/// community), keyed by a chat-network id.
#[derive(Debug)]
pub struct ParentedOneDatabaseCache<V> {
    /// The owning entity's id, handed to the store on every fetch.
    pub parent: u64,
    /// The cached entities, by id.
    pub entries: HashMap<u64, V>,
}

impl<V> View for ParentedOneDatabaseCache<V> {
    type V = Map<u64, V>;

    closed spec fn view(&self) -> Map<u64, V> {
        self.entries@
    }
}

impl<V> ParentedOneDatabaseCache<V> {
    /// An empty cache owned by `parent`.
    pub fn new(parent: u64) -> (c: ParentedOneDatabaseCache<V>)
        ensures
            c@ == Map::<u64, V>::empty(),
            c.parent == parent,
    {
        ParentedOneDatabaseCache { parent, entries: HashMap::new() }
    }

    /// The cached value under a key, if present.
    pub fn get(&self, key: &u64) -> (r: Option<&V>)
        ensures
            match r {
                Some(v) => self@.contains_key(*key) && *v == self@[*key],
                None => !self@.contains_key(*key),
            },
    {
        self.entries.get(key)
    }

    /// Whether a key is cached.
    pub fn contains(&self, key: &u64) -> (r: bool)
        ensures
            r == self@.contains_key(*key),
    {
        self.entries.contains_key(key)
    }

    /// Cache a value under a key, replacing and returning any resident
    /// value.
    pub fn insert(&mut self, key: u64, value: V) -> (prev: Option<V>)
        ensures
            final(self).parent == old(self).parent,
            final(self)@ == old(self)@.insert(key, value),
            match prev {
                Some(v) => old(self)@.contains_key(key) && v == old(self)@[key],
                None => !old(self)@.contains_key(key),
            },
    {
        self.entries.insert(key, value)
    }

    /// Remove and return the value under a key, leaving the slot empty
    /// for a put-back after mutation.
    pub fn take(&mut self, key: &u64) -> (r: Option<V>)
        ensures
            final(self).parent == old(self).parent,
            final(self)@ == old(self)@.remove(*key),
            match r {
                Some(v) => old(self)@.contains_key(*key) && v == old(self)@[*key],
                None => !old(self)@.contains_key(*key),
            },
    {
        self.entries.remove(key)
    }

    /// Complete a fetch-or-create: re-check presence and install the
    /// fetched value only if the key is still absent, preferring the
    /// already-cached value's identity otherwise. Reports whether the
    /// fetched value was installed.
    pub fn install_fetched(&mut self, key: u64, value: V) -> (installed: bool)
        ensures
            final(self).parent == old(self).parent,
            final(self)@ == spec_install(old(self)@, key, value),
            installed == !old(self)@.contains_key(key),
    {
        if self.entries.contains_key(&key) {
            false
        } else {
            self.entries.insert(key, value);
            true
        }
    }
}

} // verus!
