//! The in-memory host of `cosmwasm_std` as a host of the ledger:
//! `MemoryStorage` is its store and `MockApi` its canonicaliser.
//!
//! An entry of a bucket lies where `cosmwasm_storage` puts it, under the
//! namespace with its length in front and then the key. A singleton lies
//! under its key with the length in front, as `cosmwasm_storage` puts it,
//! and holds its address in the record of `record`. That no two of these
//! places are the same is proved here.

use crate::host::{
    address_to_text, bucket_key, bucket_may_load, bucket_save, canonical_address, canonical_form,
    canonical_length, empty_storage, length_prefixed, padding_api, storage_get, storage_set,
    stored_at, stored_bytes, text_address, text_to_address, text_u64, to_length_prefixed,
    u64_text, MAX_NAMESPACE_LEN,
};
use crate::record::{frame_owner, lemma_record_round_trip, record_value, unframe_owner};
use crate::traits::{Canonicaliser, ReadonlyStore, Store};
use cosmwasm_std::testing::MockApi;
use cosmwasm_std::{MemoryStorage, StdError};
use vstd::prelude::*;

verus! {

/// The address in a record, if the record is in its format and the value of
/// its field reads as an address.
pub open spec fn record_owner(record: Seq<u8>) -> Option<Seq<u8>> {
    match record_value(record) {
        Some(value) => text_address(value),
        None => None,
    }
}

/// The `u64` that an entry of a bucket reads as, if the store holds bytes
/// for it that read as one.
pub open spec fn entry_value(store: MemoryStorage, namespace: Seq<u8>, key: Seq<u8>) -> Option<u64> {
    match stored_at(store, bucket_key(namespace, key)) {
        Some(text) => text_u64(text),
        None => None,
    }
}

/// Whether the store holds bytes for an entry of a bucket that do not read
/// as a `u64`.
pub open spec fn entry_unreadable(store: MemoryStorage, namespace: Seq<u8>, key: Seq<u8>) -> bool {
    match stored_at(store, bucket_key(namespace, key)) {
        Some(text) => text_u64(text) is None,
        None => false,
    }
}

/// Two store keys are the same only for the same namespace and the same key.
pub proof fn lemma_store_keys_differ(
    namespace: Seq<u8>,
    key: Seq<u8>,
    other_namespace: Seq<u8>,
    other_key: Seq<u8>,
)
    requires
        namespace.len() <= MAX_NAMESPACE_LEN,
        other_namespace.len() <= MAX_NAMESPACE_LEN,
        bucket_key(namespace, key) == bucket_key(other_namespace, other_key),
    ensures
        namespace == other_namespace,
        key == other_key,
{
    let one = bucket_key(namespace, key);
    let other = bucket_key(other_namespace, other_key);
    assert(one[0] == (namespace.len() / 256) as u8);
    assert(one[1] == (namespace.len() % 256) as u8);
    assert(other[0] == (other_namespace.len() / 256) as u8);
    assert(other[1] == (other_namespace.len() % 256) as u8);
    assert(namespace.len() == other_namespace.len());
    let end = 2 + namespace.len() as int;
    assert(one.subrange(2, end) =~= namespace);
    assert(other.subrange(2, end) =~= other_namespace);
    assert(one.subrange(end, one.len() as int) =~= key);
    assert(other.subrange(end, other.len() as int) =~= other_key);
}

/// The store key of a singleton is the store key of the entry with the
/// empty key in the bucket of the same name.
pub proof fn lemma_singleton_key(key: Seq<u8>)
    ensures
        length_prefixed(key) == bucket_key(key, Seq::<u8>::empty()),
{
    assert(length_prefixed(key) =~= bucket_key(key, Seq::<u8>::empty()));
}

/// After one write under the store key of an entry, every bucket with
/// another namespace and every other entry of its own bucket reads as
/// before; and so does every singleton, but the one with the namespace as
/// its key where the key of the entry is empty.
pub proof fn lemma_one_write(
    pre: MemoryStorage,
    post: MemoryStorage,
    namespace: Seq<u8>,
    key: Seq<u8>,
    text: Seq<u8>,
)
    requires
        namespace.len() <= MAX_NAMESPACE_LEN,
        stored_bytes(post) == stored_bytes(pre).insert(bucket_key(namespace, key), text),
    ensures
        forall|other_key: Seq<u8>|
            other_key != key ==> #[trigger] entry_value(post, namespace, other_key) == entry_value(
                pre,
                namespace,
                other_key,
            ),
        forall|other_key: Seq<u8>|
            other_key != key ==> #[trigger] entry_unreadable(post, namespace, other_key)
                == entry_unreadable(pre, namespace, other_key),
        forall|other: Seq<u8>|
            other != namespace ==> #[trigger] post.bucket(other) == pre.bucket(other),
        forall|other: Seq<u8>|
            other != namespace ==> #[trigger] post.unreadable(other) == pre.unreadable(other),
        forall|other: Seq<u8>|
            other != namespace || key.len() > 0 ==> #[trigger] post.singleton(other)
                == pre.singleton(other),
{
    assert forall|other_key: Seq<u8>| other_key != key implies #[trigger] entry_value(
        post,
        namespace,
        other_key,
    ) == entry_value(pre, namespace, other_key) by {
        if bucket_key(namespace, other_key) == bucket_key(namespace, key) {
            lemma_store_keys_differ(namespace, other_key, namespace, key);
        }
    }
    assert forall|other_key: Seq<u8>| other_key != key implies #[trigger] entry_unreadable(
        post,
        namespace,
        other_key,
    ) == entry_unreadable(pre, namespace, other_key) by {
        if bucket_key(namespace, other_key) == bucket_key(namespace, key) {
            lemma_store_keys_differ(namespace, other_key, namespace, key);
        }
    }
    assert forall|other: Seq<u8>| other != namespace implies #[trigger] post.bucket(other)
        == pre.bucket(other) by {
        assert forall|other_key: Seq<u8>|
            other.len() <= MAX_NAMESPACE_LEN implies #[trigger] entry_value(post, other, other_key)
            == entry_value(pre, other, other_key) by {
            if bucket_key(other, other_key) == bucket_key(namespace, key) {
                lemma_store_keys_differ(other, other_key, namespace, key);
            }
        }
        assert(post.bucket(other) =~= pre.bucket(other));
    }
    assert forall|other: Seq<u8>| other != namespace implies #[trigger] post.unreadable(other)
        == pre.unreadable(other) by {
        assert forall|other_key: Seq<u8>|
            other.len() <= MAX_NAMESPACE_LEN implies #[trigger] entry_unreadable(
            post,
            other,
            other_key,
        ) == entry_unreadable(pre, other, other_key) by {
            if bucket_key(other, other_key) == bucket_key(namespace, key) {
                lemma_store_keys_differ(other, other_key, namespace, key);
            }
        }
        assert(post.unreadable(other) =~= pre.unreadable(other));
    }
    assert forall|other: Seq<u8>| other != namespace || key.len() > 0 implies #[trigger]
        post.singleton(other) == pre.singleton(other) by {
        if other.len() <= MAX_NAMESPACE_LEN {
            lemma_singleton_key(other);
            if bucket_key(other, Seq::<u8>::empty()) == bucket_key(namespace, key) {
                lemma_store_keys_differ(other, Seq::<u8>::empty(), namespace, key);
            }
        }
    }
}

impl Canonicaliser for MockApi {
    /// The UTF-8 bytes of the address, padded with zeros to the length that
    /// the canonicaliser was made with.
    open spec fn canonical(&self, human: Seq<char>) -> Option<Seq<u8>> {
        canonical_form(canonical_length(*self), human)
    }

    fn canonical_address(&self, human: &str) -> (r: Result<Vec<u8>, StdError>) {
        canonical_address(self, human)
    }
}

impl ReadonlyStore for MemoryStorage {
    open spec fn bucket(&self, namespace: Seq<u8>) -> Map<Seq<u8>, u64> {
        Map::new(
            |key: Seq<u8>|
                namespace.len() <= MAX_NAMESPACE_LEN && entry_value(*self, namespace, key) is Some,
            |key: Seq<u8>| entry_value(*self, namespace, key)->0,
        )
    }

    open spec fn unreadable(&self, namespace: Seq<u8>) -> Set<Seq<u8>> {
        Set::new(
            |key: Seq<u8>|
                namespace.len() <= MAX_NAMESPACE_LEN && entry_unreadable(*self, namespace, key),
        )
    }

    open spec fn singleton(&self, key: Seq<u8>) -> Option<Seq<u8>> {
        if key.len() <= MAX_NAMESPACE_LEN && stored_at(*self, length_prefixed(key)) is Some {
            record_owner(stored_at(*self, length_prefixed(key))->0)
        } else {
            None
        }
    }

    fn bucket_may_load(&self, namespace: &[u8], key: &[u8]) -> (r: Result<Option<u64>, StdError>) {
        bucket_may_load(self, namespace, key)
    }

    fn singleton_load(&self, key: &[u8]) -> (r: Result<Option<Vec<u8>>, StdError>) {
        let store_key = to_length_prefixed(key);
        match storage_get(self, store_key.as_slice()) {
            None => Ok(None),
            Some(record) => match unframe_owner(record.as_slice()) {
                None => Ok(None),
                Some(value) => match text_to_address(value) {
                    Ok(address) => Ok(Some(address)),
                    Err(e) => Err(e),
                },
            },
        }
    }
}

impl Store for MemoryStorage {
    fn bucket_save(&mut self, namespace: &[u8], key: &[u8], value: u64) -> (r: Result<
        (),
        StdError,
    >) {
        let r = bucket_save(self, namespace, key, value);
        proof {
            lemma_one_write(*old(self), *self, namespace@, key@, u64_text(value));
            assert(self.bucket(namespace@) =~= old(self).bucket(namespace@).insert(key@, value));
            assert(self.unreadable(namespace@) =~= old(self).unreadable(namespace@).remove(key@));
        }
        r
    }

    fn singleton_save(&mut self, key: &[u8], address: &[u8]) -> (r: Result<(), StdError>) {
        let text = match address_to_text(address) {
            Ok(text) => text,
            Err(e) => return Err(e),
        };
        let record = frame_owner(text.as_slice());
        let store_key = to_length_prefixed(key);
        storage_set(self, store_key.as_slice(), record.as_slice());
        proof {
            lemma_singleton_key(key@);
            lemma_record_round_trip(text@);
            lemma_one_write(*old(self), *self, key@, Seq::<u8>::empty(), record@);
        }
        Ok(())
    }
}

/// A new in-memory host: a store in which no bucket and no singleton reads
/// anything, and a canonicaliser that pads to `canonical_length` bytes.
pub fn mock_dependencies(canonical_length: usize) -> (deps: (MemoryStorage, MockApi))
    ensures
        forall|namespace: Seq<u8>| #[trigger] deps.0.bucket(namespace) == Map::<Seq<u8>, u64>::empty(),
        forall|namespace: Seq<u8>| #[trigger] deps.0.unreadable(namespace) == Set::<Seq<u8>>::empty(),
        forall|key: Seq<u8>| #[trigger] deps.0.singleton(key) is None,
        forall|human: Seq<char>|
            #[trigger] deps.1.canonical(human) == canonical_form(canonical_length as nat, human),
{
    let storage = empty_storage();
    let api = padding_api(canonical_length);
    assert forall|namespace: Seq<u8>| #[trigger]
        storage.bucket(namespace) == Map::<Seq<u8>, u64>::empty() by {
        assert(storage.bucket(namespace) =~= Map::<Seq<u8>, u64>::empty());
    }
    assert forall|namespace: Seq<u8>| #[trigger]
        storage.unreadable(namespace) == Set::<Seq<u8>>::empty() by {
        assert(storage.unreadable(namespace) =~= Set::<Seq<u8>>::empty());
    }
    (storage, api)
}

} // verus!
