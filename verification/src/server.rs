//! The RPC-facing adapter over the shared store.
//!
//! The store is owned by one `PluginServer`, built once at startup and
//! shared by the concurrently running request handlers. Every access goes
//! through a single exclusive critical section that covers only the map
//! lookup or insert — never any transport operation — so each `get` and
//! `put` is atomic with respect to every other: a reader observes either
//! the value before a concurrent put or exactly the value put, never a
//! partial one. The lock is a verified primitive whose protocol cannot be
//! corrupted by a panicking holder, so the fatal lock-poisoning path of a
//! conventional mutex has no counterpart here.

use vstd::prelude::*;
use vstd::rwlock::RwLock;
use crate::kv::{kv_get, kv_put, KvError};
use crate::store::Store;

verus! {

/// The key-value service endpoint: validates requests and runs them
/// against the shared store under mutual exclusion.
pub struct PluginServer {
    store: RwLock<Store, spec_fn(Store) -> bool>,
}

impl PluginServer {
    /// The lock of a well-formed server accepts every store value: the
    /// store needs no representation invariant beyond its own type.
    #[verifier::type_invariant]
    pub closed spec fn locking(&self) -> bool {
        forall|s: Store| #[trigger] self.store.inv(s)
    }

    /// The store a fresh server starts from: empty.
    pub fn default_store() -> (result: Store)
        ensures
            result@ == Map::<Seq<char>, Seq<u8>>::empty(),
    {
        Store::new()
    }

    /// Builds a server over an explicitly constructed store, so that the
    /// core can be exercised in isolation with a disposable store.
    pub fn with_store(store: Store) -> (server: PluginServer)
        ensures
            server.locking(),
    {
        PluginServer { store: RwLock::new(store, Ghost(|s: Store| true)) }
    }

    /// Handles a `Get` RPC. Rejects the empty key with `InvalidArgument`,
    /// and otherwise atomically reads the current store: the result is
    /// the full value the key was mapped to at that instant, or
    /// `NotFound` if it was absent.
    pub fn get(&self, key: &str) -> (result: Result<Vec<u8>, KvError>)
        ensures
            result == Err::<Vec<u8>, KvError>(KvError::InvalidArgument) <==> key@.len() == 0,
    {
        if key.is_empty() {
            return Err(KvError::InvalidArgument);
        }
        proof {
            use_type_invariant(self);
        }
        let (store, handle) = self.store.acquire_write();
        let result = kv_get(&store, key);
        handle.release_write(store);
        result
    }

    /// Handles a `Put` RPC. Rejects the empty key with `InvalidArgument`
    /// and leaves the store untouched; otherwise atomically upserts the
    /// pair and acknowledges. A repeated identical `Put` leaves the same
    /// final store.
    pub fn put(&self, key: String, value: Vec<u8>) -> (result: Result<(), KvError>)
        ensures
            match result {
                Ok(_) => key@.len() > 0,
                Err(e) => e == KvError::InvalidArgument && key@.len() == 0,
            },
    {
        if key.as_str().is_empty() {
            return Err(KvError::InvalidArgument);
        }
        proof {
            use_type_invariant(self);
        }
        let (mut store, handle) = self.store.acquire_write();
        let result = kv_put(&mut store, key, value);
        handle.release_write(store);
        result
    }
}

impl Default for PluginServer {
    /// Builds a server over a fresh, empty store.
    fn default() -> (server: PluginServer)
        ensures
            server.locking(),
    {
        PluginServer::with_store(PluginServer::default_store())
    }
}

} // verus!
