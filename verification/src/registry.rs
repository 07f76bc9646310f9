//! The process-wide handle-to-callback registry and the routing decisions
//! of the two dispatch trampolines.
//!
//! The platform delivers every message through a single untyped entry point
//! with no per-window context slot, so a process keeps one mapping from
//! window-handle identity to the registered callback. Because window
//! creation itself delivers messages before the creation call returns the
//! real handle, a callback is first registered under the reserved sentinel
//! key 0 and migrated to the real key once it is known; lookups fall back
//! to the sentinel so those early messages reach the same callback.
//!
//! This module holds the registry as a value and every decision made over
//! it. The embedding application owns the single process-wide instance
//! behind a mutual-exclusion lock, held only around these operations and
//! never across a callback invocation.

use std::collections::HashMap;
use vstd::prelude::*;

verus! {

broadcast use vstd::std_specs::hash::group_hash_axioms;

/// The reserved key meaning "real handle not yet known".
pub const SENTINEL: usize = 0;

/// A mapping from window-handle identity to a registered callback of type
/// `C`. At most one callback is registered per key.
pub struct Registry<C: Copy> {
    entries: HashMap<usize, C>,
}

/// Where a routed message should go: to a registered callback, or to the
/// platform's default processing when no registration matches.
pub open spec fn spec_route<C>(m: Map<usize, C>, handle: usize) -> Option<C> {
    if handle == SENTINEL {
        None
    } else if m.contains_key(handle) {
        Some(m[handle])
    } else if m.contains_key(SENTINEL) {
        Some(m[SENTINEL])
    } else {
        None
    }
}

impl<C: Copy> Registry<C> {
    /// The registered callbacks, keyed by handle identity.
    pub closed spec fn view(&self) -> Map<usize, C> {
        self.entries@
    }

    /// An empty registry.
    pub fn new() -> (r: Registry<C>)
        ensures
            r@ == Map::<usize, C>::empty(),
    {
        Registry { entries: HashMap::new() }
    }

    /// Registers `callback` under `key`, replacing any callback registered
    /// there before.
    pub fn insert(&mut self, key: usize, callback: C)
        ensures
            final(self)@ == old(self)@.insert(key, callback),
    {
        self.entries.insert(key, callback);
    }

    /// Removes the registration under `key`, if any.
    pub fn remove(&mut self, key: usize)
        ensures
            final(self)@ == old(self)@.remove(key),
    {
        self.entries.remove(&key);
    }

    /// The callback registered under `key`, if any.
    pub fn get(&self, key: usize) -> (r: Option<C>)
        ensures
            r == if self@.contains_key(key) {
                Some(self@[key])
            } else {
                None::<C>
            },
    {
        match self.entries.get(&key) {
            Some(callback) => Some(*callback),
            None => None,
        }
    }

    /// Whether any callback is registered under `key`.
    pub fn contains(&self, key: usize) -> (r: bool)
        ensures
            r == self@.contains_key(key),
    {
        self.entries.contains_key(&key)
    }

    /// Registers a callback under the sentinel key, before the real handle
    /// is known. Creation that follows may already deliver messages; the
    /// routing below finds this registration through its sentinel fallback.
    pub fn register_pending(&mut self, callback: C)
        ensures
            final(self)@ == old(self)@.insert(SENTINEL, callback),
    {
        self.insert(SENTINEL, callback);
    }

    /// Drops the sentinel registration, after a creation call failed and no
    /// real handle will ever arrive for it.
    pub fn cancel_pending(&mut self)
        ensures
            final(self)@ == old(self)@.remove(SENTINEL),
    {
        self.remove(SENTINEL);
    }

    /// Moves the pending registration to the real handle once creation has
    /// reported it: the sentinel entry is removed and its callback is
    /// registered under `handle`.
    pub fn migrate_pending(&mut self, handle: usize)
        requires
            old(self)@.contains_key(SENTINEL),
        ensures
            final(self)@ == old(self)@.remove(SENTINEL).insert(handle, old(self)@[SENTINEL]),
    {
        let callback = self.get(SENTINEL).unwrap();
        self.remove(SENTINEL);
        self.insert(handle, callback);
    }

    /// The window-procedure routing decision: a message for `handle` goes
    /// to the callback registered under it; failing that, to the sentinel
    /// registration (a message delivered during creation, before the key
    /// was migrated); failing that, to default processing (`None`). A null
    /// handle is never routed.
    pub fn route(&self, handle: usize) -> (r: Option<C>)
        ensures
            r == spec_route(self@, handle),
    {
        if handle == SENTINEL {
            return None;
        }
        match self.get(handle) {
            Some(callback) => Some(callback),
            None => self.get(SENTINEL),
        }
    }
}

/// A message delivered synchronously during construction (while the
/// callback still sits under the sentinel) reaches the same callback as
/// messages delivered after the registration migrates to the real handle.
pub proof fn lemma_sentinel_migration<C>(m: Map<usize, C>, handle: usize, callback: C)
    requires
        handle != SENTINEL,
        !m.contains_key(handle),
        m.contains_key(SENTINEL),
        m[SENTINEL] == callback,
    ensures
        spec_route(m, handle) == Some(callback),
        spec_route(m.remove(SENTINEL).insert(handle, callback), handle) == Some(callback),
{
}

/// Two windows registered with distinct callbacks never cross-deliver:
/// each handle routes to exactly the callback registered under it.
pub proof fn lemma_no_cross_delivery<C>(m: Map<usize, C>, first: usize, second: usize)
    requires
        first != SENTINEL,
        second != SENTINEL,
        first != second,
        m.contains_key(first),
        m.contains_key(second),
    ensures
        spec_route(m, first) == Some(m[first]),
        spec_route(m, second) == Some(m[second]),
{
}

} // verus!
