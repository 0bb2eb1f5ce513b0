//! The boundary to `cosmwasm_std` and `cosmwasm_storage`.
//!
//! The contracts in this module are believed, not proved: they restate what
//! the two crates do, and the rest of the library is verified against them.
//! The functions here only make the call and hand the result on.

use cosmwasm_std::testing::MockApi;
use cosmwasm_std::{Api, CanonicalAddr, HumanAddr, MemoryStorage, ReadonlyStorage, StdError, Storage};
use vstd::prelude::*;
use vstd::utf8::encode_utf8;

verus! {

/// `cosmwasm_std::MemoryStorage`, the in-memory key-value store.
#[verifier::external_type_specification]
#[verifier::external_body]
pub struct ExMemoryStorage(MemoryStorage);

/// `cosmwasm_std::StdError`, carried through unread.
#[verifier::external_type_specification]
#[verifier::external_body]
pub struct ExStdError(StdError);

/// `cosmwasm_std::testing::MockApi`, the address canonicaliser.
#[verifier::external_type_specification]
#[verifier::external_body]
pub struct ExMockApi(MockApi);

/// What the store holds: the bytes under each key.
pub uninterp spec fn stored_bytes(store: MemoryStorage) -> Map<Seq<u8>, Seq<u8>>;

/// The bytes that `cosmwasm_std::to_vec` writes for a `u64`.
pub uninterp spec fn u64_text(value: u64) -> Seq<u8>;

/// The `u64` that `cosmwasm_std::from_slice` reads from bytes, if it reads
/// one.
pub uninterp spec fn text_u64(text: Seq<u8>) -> Option<u64>;

/// The bytes that `cosmwasm_std::to_vec` writes for the `CanonicalAddr` of
/// an address.
pub uninterp spec fn address_text(address: Seq<u8>) -> Seq<u8>;

/// The bytes of the `CanonicalAddr` that `cosmwasm_std::from_slice` reads
/// from bytes, if it reads one.
pub uninterp spec fn text_address(text: Seq<u8>) -> Option<Seq<u8>>;

/// The length to which the canonicaliser pads an address: the
/// `canonical_length` that `MockApi::new` was given.
pub uninterp spec fn canonical_length(api: MockApi) -> nat;

/// The longest namespace or key that `cosmwasm_storage` can prefix with its
/// length; `to_length_prefixed` panics on a longer one.
pub const MAX_NAMESPACE_LEN: usize = 0xFFFF;

/// A namespace with its length in front, as `to_length_prefixed` writes it:
/// two bytes for the length, the high byte first, and then the namespace.
pub open spec fn length_prefixed(namespace: Seq<u8>) -> Seq<u8> {
    seq![(namespace.len() / 256) as u8, (namespace.len() % 256) as u8] + namespace
}

/// The store key of an entry of a bucket: the namespace with its length in
/// front, and then the key.
pub open spec fn bucket_key(namespace: Seq<u8>, key: Seq<u8>) -> Seq<u8> {
    length_prefixed(namespace) + key
}

/// The bytes that the store holds under `key`, if it holds any.
pub open spec fn stored_at(store: MemoryStorage, key: Seq<u8>) -> Option<Seq<u8>> {
    if stored_bytes(store).contains_key(key) {
        Some(stored_bytes(store)[key])
    } else {
        None
    }
}

/// What `MockApi` makes of a human-readable address when it pads to `length`
/// bytes: the UTF-8 bytes of the address followed by zeros, for an address of
/// at least three and at most `length` bytes, and nothing for any other.
pub open spec fn canonical_form(length: nat, human: Seq<char>) -> Option<Seq<u8>> {
    let bytes = encode_utf8(human);
    if 3 <= bytes.len() <= length {
        Some(bytes + Seq::new((length - bytes.len()) as nat, |i: int| 0u8))
    } else {
        None
    }
}

/// `MemoryStorage::new`: a store that holds nothing.
#[verifier::external_body]
pub(crate) fn empty_storage() -> (store: MemoryStorage)
    ensures
        forall|key: Seq<u8>| !(#[trigger] stored_bytes(store).contains_key(key)),
{
    MemoryStorage::new()
}

/// `ReadonlyStorage::get` of `MemoryStorage`: the bytes under `key`, if the
/// store holds any.
#[verifier::external_body]
pub(crate) fn storage_get(store: &MemoryStorage, key: &[u8]) -> (r: Option<Vec<u8>>)
    ensures
        r is Some <==> stored_at(*store, key@) is Some,
        r is Some ==> stored_at(*store, key@) == Some(r->0@),
{
    store.get(key)
}

/// `Storage::set` of `MemoryStorage`: the store then holds `value` under
/// `key` and everything else as before.
#[verifier::external_body]
pub(crate) fn storage_set(store: &mut MemoryStorage, key: &[u8], value: &[u8])
    ensures
        stored_bytes(*final(store)) == stored_bytes(*old(store)).insert(key@, value@),
{
    store.set(key, value)
}

/// `cosmwasm_storage::to_length_prefixed`: the namespace with its length in
/// front.
#[verifier::external_body]
pub(crate) fn to_length_prefixed(namespace: &[u8]) -> (r: Vec<u8>)
    requires
        namespace@.len() <= MAX_NAMESPACE_LEN,
    ensures
        r@ == length_prefixed(namespace@),
{
    cosmwasm_storage::to_length_prefixed(namespace)
}

/// What reading an entry of a bucket gives for the bytes found under its
/// store key: nothing for no bytes, the value that the bytes read as, and an
/// error, the one in `given`, where they read as none.
pub open spec fn bucket_answer(found: Option<Seq<u8>>, given: Result<Option<u64>, StdError>) -> Result<
    Option<u64>,
    StdError,
> {
    match found {
        None => Ok(None),
        Some(text) => match text_u64(text) {
            Some(value) => Ok(Some(value)),
            None => Err(given->Err_0),
        },
    }
}

/// `ReadonlyBucket::may_load` on
/// `cosmwasm_storage::bucket_read(namespace, store)` with `u64` values. It
/// looks under the store key of the entry: nothing where the store holds no
/// bytes there, the value where the bytes read as a `u64`, and an error where
/// they do not.
#[verifier::external_body]
pub(crate) fn bucket_may_load(store: &MemoryStorage, namespace: &[u8], key: &[u8]) -> (r: Result<
    Option<u64>,
    StdError,
>)
    requires
        namespace@.len() <= MAX_NAMESPACE_LEN,
    ensures
        r == bucket_answer(stored_at(*store, bucket_key(namespace@, key@)), r),
{
    cosmwasm_storage::bucket_read::<MemoryStorage, u64>(namespace, store).may_load(key)
}

/// `Bucket::save` on `cosmwasm_storage::bucket(namespace, store)` with `u64`
/// values: it always succeeds, and the store then holds under the store key
/// of the entry the bytes that `to_vec` writes for `value`, which read as
/// `value` again, and everything else as before.
#[verifier::external_body]
pub(crate) fn bucket_save(store: &mut MemoryStorage, namespace: &[u8], key: &[u8], value: u64) -> (r:
    Result<(), StdError>)
    requires
        namespace@.len() <= MAX_NAMESPACE_LEN,
    ensures
        r is Ok,
        stored_bytes(*final(store)) == stored_bytes(*old(store)).insert(
            bucket_key(namespace@, key@),
            u64_text(value),
        ),
        text_u64(stored_at(*final(store), bucket_key(namespace@, key@))->0) == Some(value),
{
    cosmwasm_storage::bucket::<MemoryStorage, u64>(namespace, store).save(key, &value)
}

/// `cosmwasm_std::to_vec` on the `CanonicalAddr` of `address`: it always
/// succeeds, and what it writes reads as `address` again.
#[verifier::external_body]
pub(crate) fn address_to_text(address: &[u8]) -> (r: Result<Vec<u8>, StdError>)
    ensures
        r is Ok,
        r->Ok_0@ == address_text(address@),
        text_address(r->Ok_0@) == Some(address@),
{
    cosmwasm_std::to_vec(&CanonicalAddr::from(address))
}

/// `cosmwasm_std::from_slice` for a `CanonicalAddr`: the bytes of the
/// address that `text` reads as, or an error where it reads as none.
#[verifier::external_body]
pub(crate) fn text_to_address(text: &[u8]) -> (r: Result<Vec<u8>, StdError>)
    ensures
        r is Ok <==> text_address(text@) is Some,
        r is Ok ==> text_address(text@) == Some(r->Ok_0@),
{
    match cosmwasm_std::from_slice::<CanonicalAddr>(text) {
        Ok(address) => Ok(address.as_slice().to_vec()),
        Err(e) => Err(e),
    }
}

/// `MockApi::new`: a canonicaliser that pads to `length` bytes.
#[verifier::external_body]
pub(crate) fn padding_api(length: usize) -> (api: MockApi)
    ensures
        canonical_length(api) == length,
{
    MockApi::new(length)
}

/// `MockApi::canonical_address` on `HumanAddr::from(human)`: the canonical
/// form of `human` as `canonical_form` gives it, or an error where it has
/// none.
#[verifier::external_body]
pub(crate) fn canonical_address(api: &MockApi, human: &str) -> (r: Result<Vec<u8>, StdError>)
    ensures
        r is Ok <==> canonical_form(canonical_length(*api), human@) is Some,
        r is Ok ==> canonical_form(canonical_length(*api), human@) == Some(r->Ok_0@),
{
    match api.canonical_address(&HumanAddr::from(human)) {
        Ok(address) => Ok(address.as_slice().to_vec()),
        Err(e) => Err(e),
    }
}

} // verus!
