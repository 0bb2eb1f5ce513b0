//! What the ledger asks of its host: a canonicaliser for addresses and a
//! store of typed entries.
//!
//! The calls are verified for every host that keeps the contracts stated
//! here. `mock` gives the two traits to the in-memory host of `cosmwasm_std`.

use crate::host::MAX_NAMESPACE_LEN;
use cosmwasm_std::StdError;
use vstd::prelude::*;

verus! {

/// The host's way from a human-readable address to its canonical bytes.
pub trait Canonicaliser {
    /// The canonical form of `human`, if the host gives it one.
    spec fn canonical(&self, human: Seq<char>) -> Option<Seq<u8>>;

    /// The canonical form of `human`, or the host's error where it has none.
    fn canonical_address(&self, human: &str) -> (r: Result<Vec<u8>, StdError>)
        ensures
            r is Ok <==> self.canonical(human@) is Some,
            r is Ok ==> self.canonical(human@) == Some(r->Ok_0@),
    ;
}

/// The host's key-value store for reading, seen through buckets of `u64`
/// values and singletons that hold one canonical address each.
pub trait ReadonlyStore: Sized {
    /// The values that the bucket with this namespace reads, by key.
    spec fn bucket(&self, namespace: Seq<u8>) -> Map<Seq<u8>, u64>;

    /// The keys of the bucket with this namespace at which the store holds
    /// bytes that do not read as a `u64`.
    spec fn unreadable(&self, namespace: Seq<u8>) -> Set<Seq<u8>>;

    /// The address that the singleton with this key reads, if it reads one.
    spec fn singleton(&self, key: Seq<u8>) -> Option<Seq<u8>>;

    /// Reads the entry of a bucket: the value under `key`, nothing where the
    /// store holds no entry, and the host's error where the entry does not
    /// read as a `u64`.
    fn bucket_may_load(&self, namespace: &[u8], key: &[u8]) -> (r: Result<Option<u64>, StdError>)
        requires
            namespace@.len() <= MAX_NAMESPACE_LEN,
        ensures
            r is Err <==> self.unreadable(namespace@).contains(key@),
            r is Ok ==> (r->Ok_0 is Some <==> self.bucket(namespace@).contains_key(key@)),
            r is Ok && r->Ok_0 is Some ==> r->Ok_0->0 == self.bucket(namespace@)[key@],
    ;

    /// Reads a singleton: its address, where it reads one. Where it reads
    /// none, the host's error if the host gave one, and nothing otherwise.
    fn singleton_load(&self, key: &[u8]) -> (r: Result<Option<Vec<u8>>, StdError>)
        requires
            key@.len() <= MAX_NAMESPACE_LEN,
        ensures
            r is Ok && r->Ok_0 is Some <==> self.singleton(key@) is Some,
            r is Ok && r->Ok_0 is Some ==> self.singleton(key@) == Some(r->Ok_0->0@),
    ;
}

/// The host's key-value store for reading and writing.
pub trait Store: ReadonlyStore {
    /// Writes the entry of a bucket. The write succeeds, the bucket then
    /// reads `value` under `key`, and the store reads as before everywhere
    /// else.
    fn bucket_save(&mut self, namespace: &[u8], key: &[u8], value: u64) -> (r: Result<(), StdError>)
        requires
            namespace@.len() <= MAX_NAMESPACE_LEN,
        ensures
            r is Ok,
            final(self).bucket(namespace@) == old(self).bucket(namespace@).insert(key@, value),
            final(self).unreadable(namespace@) == old(self).unreadable(namespace@).remove(key@),
            forall|other: Seq<u8>|
                other != namespace@ ==> #[trigger] final(self).bucket(other) == old(self).bucket(
                    other,
                ),
            forall|other: Seq<u8>|
                other != namespace@ ==> #[trigger] final(self).unreadable(other) == old(
                    self,
                ).unreadable(other),
            forall|other: Seq<u8>|
                other != namespace@ ==> #[trigger] final(self).singleton(other) == old(
                    self,
                ).singleton(other),
    ;

    /// Writes a singleton. The write succeeds, the singleton then reads
    /// `address`, and the store reads as before everywhere else.
    fn singleton_save(&mut self, key: &[u8], address: &[u8]) -> (r: Result<(), StdError>)
        requires
            key@.len() <= MAX_NAMESPACE_LEN,
        ensures
            r is Ok,
            final(self).singleton(key@) == Some(address@),
            forall|other: Seq<u8>|
                other != key@ ==> #[trigger] final(self).bucket(other) == old(self).bucket(
                    other,
                ),
            forall|other: Seq<u8>|
                other != key@ ==> #[trigger] final(self).unreadable(other) == old(
                    self,
                ).unreadable(other),
            forall|other: Seq<u8>|
                other != key@ ==> #[trigger] final(self).singleton(other) == old(
                    self,
                ).singleton(other),
    ;
}

/// That `post` reads as `pre` does wherever `written` does not name the
/// place: in every bucket with another namespace, readable or not, and in
/// every singleton with another key.
pub open spec fn same_elsewhere<S: ReadonlyStore>(pre: S, post: S, written: Seq<u8>) -> bool {
    &&& forall|namespace: Seq<u8>|
        namespace != written ==> #[trigger] post.bucket(namespace) == pre.bucket(namespace)
    &&& forall|namespace: Seq<u8>|
        namespace != written ==> #[trigger] post.unreadable(namespace) == pre.unreadable(
            namespace,
        )
    &&& forall|key: Seq<u8>| key != written ==> #[trigger] post.singleton(key) == pre.singleton(key)
}

} // verus!
