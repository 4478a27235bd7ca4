//! Key-value request handling over the store.
//!
//! This layer holds no state of its own: it validates the request, defers
//! to the store, and translates the outcome into the service's error
//! taxonomy. An empty key is rejected with `InvalidArgument` on either
//! call; a `Get` on an absent key reports `NotFound` (chosen over reusing
//! `InvalidArgument` for a miss, so that clients can tell a malformed
//! request from an absent key).

use vstd::prelude::*;
use crate::store::Store;

verus! {

/// Errors surfaced to callers of the key-value service.
#[derive(Clone, Copy, Debug, PartialEq, Eq, Structural)]
pub enum KvError {
    /// The request itself is malformed: the key is the empty string.
    InvalidArgument,
    /// The key is well-formed but absent from the store.
    NotFound,
}

/// Handles a `Get` request against the given store.
///
/// Fails with `InvalidArgument` exactly when the key is empty, with
/// `NotFound` exactly when a non-empty key is absent, and otherwise
/// returns precisely the byte sequence the store maps the key to.
pub fn kv_get(store: &Store, key: &str) -> (result: Result<Vec<u8>, KvError>)
    ensures
        match result {
            Ok(v) => key@.len() > 0 && store@.contains_key(key@) && v@ == store@[key@],
            Err(KvError::InvalidArgument) => key@.len() == 0,
            Err(KvError::NotFound) => key@.len() > 0 && !store@.contains_key(key@),
        },
{
    if key.is_empty() {
        return Err(KvError::InvalidArgument);
    }
    match store.get(key) {
        Some(v) => Ok(copy_bytes(v)),
        None => Err(KvError::NotFound),
    }
}

/// Handles a `Put` request against the given store.
///
/// Fails with `InvalidArgument` exactly when the key is empty, leaving the
/// store unchanged; otherwise upserts the pair and acknowledges. Repeating
/// the same `Put` yields the same final store.
pub fn kv_put(store: &mut Store, key: String, value: Vec<u8>) -> (result: Result<(), KvError>)
    ensures
        match result {
            Ok(_) => key@.len() > 0 && final(store)@ == old(store)@.insert(key@, value@),
            Err(KvError::InvalidArgument) => key@.len() == 0 && final(store)@ == old(store)@,
            Err(KvError::NotFound) => false,
        },
{
    if key.as_str().is_empty() {
        return Err(KvError::InvalidArgument);
    }
    store.put(key, value);
    Ok(())
}

/// Returns a fresh byte vector holding exactly the bytes of `v`.
fn copy_bytes(v: &Vec<u8>) -> (r: Vec<u8>)
    ensures
        r@ == v@,
{
    let mut r: Vec<u8> = Vec::new();
    let mut i: usize = 0;
    while i < v.len()
        invariant
            i <= v@.len(),
            r@ == v@.subrange(0, i as int),
        decreases v@.len() - i,
    {
        r.push(v[i]);
        i = i + 1;
        proof {
            assert(r@ =~= v@.subrange(0, i as int));
        }
    }
    proof {
        assert(r@ =~= v@);
    }
    r
}

/// Round-trip law: a `Put(k, v)` followed by a `Get(k)` returns `v`.
///
/// `kv_put` with a non-empty key succeeds and leaves the store model at
/// `m.insert(k, v)`; this lemma states that `kv_get`'s contract then owes
/// the caller exactly `v` for `k`.
pub proof fn lemma_round_trip(m: Map<Seq<char>, Seq<u8>>, k: Seq<char>, v: Seq<u8>)
    requires
        k.len() > 0,
    ensures
        m.insert(k, v).contains_key(k),
        m.insert(k, v)[k] == v,
{
}

/// Upsert-overwrite law: `Put(k, v1)` then `Put(k, v2)` then `Get(k)`
/// returns `v2`.
///
/// Two successful puts of the same key leave the store model at
/// `m.insert(k, v1).insert(k, v2)`; this lemma states that the later
/// value is the one a `Get(k)` is owed.
pub proof fn lemma_upsert_overwrite(
    m: Map<Seq<char>, Seq<u8>>,
    k: Seq<char>,
    v1: Seq<u8>,
    v2: Seq<u8>,
)
    requires
        k.len() > 0,
    ensures
        m.insert(k, v1).insert(k, v2).contains_key(k),
        m.insert(k, v1).insert(k, v2)[k] == v2,
{
}

/// Atomic visibility law: every get and put runs under the store's
/// mutual exclusion, so a get of `k` concurrent with a put of `(k, v)`
/// observes one of exactly two stores — the one before the put or the
/// one after — and the value it is owed is then the complete prior value
/// or exactly `v`, never a partial byte sequence.
pub proof fn lemma_atomic_visibility(
    m: Map<Seq<char>, Seq<u8>>,
    k: Seq<char>,
    v: Seq<u8>,
    observed: Map<Seq<char>, Seq<u8>>,
)
    requires
        observed == m || observed == m.insert(k, v),
    ensures
        observed.contains_key(k) ==> observed[k] == v || (m.contains_key(k) && observed[k]
            == m[k]),
        !observed.contains_key(k) ==> !m.contains_key(k),
{
}

/// Independence law: a put does not disturb any other key.
///
/// Together with the round-trip law this gives the no-lost-updates
/// property for puts of distinct keys: after `Put(k, v)`, every other key
/// is mapped (or not mapped) exactly as before.
pub proof fn lemma_put_preserves_other_keys(
    m: Map<Seq<char>, Seq<u8>>,
    k: Seq<char>,
    v: Seq<u8>,
    other: Seq<char>,
)
    requires
        other != k,
    ensures
        m.insert(k, v).contains_key(other) == m.contains_key(other),
        m.contains_key(other) ==> m.insert(k, v)[other] == m[other],
{
}

} // verus!
