//! What the ledger keeps in the store, and the four ways it reaches it.
//!
//! The store holds two things: the configuration record, in the singleton
//! with the key `CONFIG_KEY`, and the balances, in the bucket with the
//! namespace `BUCKET_USER_CREDITS`, which maps a canonical address to a
//! `u64`.

use crate::error::{ContractError, ErrorKind};
use crate::model::Ledger;
use crate::traits::{same_elsewhere, ReadonlyStore, Store};
use cosmwasm_std::StdError;
use vstd::prelude::*;

verus! {

/// The key of the configuration record: the bytes of `config`.
pub const CONFIG_KEY: [u8; 6] = [0x63, 0x6f, 0x6e, 0x66, 0x69, 0x67];

/// The namespace of the balances: the bytes of `usercredits`.
pub const BUCKET_USER_CREDITS: [u8; 11] = [
    0x75,
    0x73,
    0x65,
    0x72,
    0x63,
    0x72,
    0x65,
    0x64,
    0x69,
    0x74,
    0x73,
];

/// The configuration record: the canonical address of the owner.
#[derive(Debug, Clone, PartialEq, Eq)]
pub struct State {
    pub owner: Vec<u8>,
}

/// The owner that the store records, if the ledger has been initialised.
pub open spec fn stored_owner<S: ReadonlyStore>(store: S) -> Option<Seq<u8>> {
    store.singleton(CONFIG_KEY@)
}

/// The balances that the store records, by canonical address.
pub open spec fn stored_credits<S: ReadonlyStore>(store: S) -> Map<Seq<u8>, u64> {
    store.bucket(BUCKET_USER_CREDITS@)
}

/// The canonical addresses whose balance the store holds in bytes that do
/// not read.
pub open spec fn stored_unreadable<S: ReadonlyStore>(store: S) -> Set<Seq<u8>> {
    store.unreadable(BUCKET_USER_CREDITS@)
}

/// The ledger that the store holds.
pub open spec fn ledger_of<S: ReadonlyStore>(store: S) -> Ledger {
    Ledger {
        owner: stored_owner(store),
        credits: stored_credits(store),
        unreadable: stored_unreadable(store),
    }
}

/// Writes the configuration record. The balances stay as they are, and so
/// does whatever else the store holds under other keys.
pub fn config<S: Store>(storage: &mut S, state: &State) -> (r: Result<(), StdError>)
    ensures
        r is Ok,
        stored_owner(*final(storage)) == Some(state.owner@),
        stored_credits(*final(storage)) == stored_credits(*old(storage)),
        stored_unreadable(*final(storage)) == stored_unreadable(*old(storage)),
        same_elsewhere(*old(storage), *final(storage), CONFIG_KEY@),
{
    storage.singleton_save(CONFIG_KEY.as_slice(), state.owner.as_slice())
}

/// Reads the configuration record. Fails with `NotConfigured` exactly when
/// the store holds none that reads.
pub fn config_read<S: ReadonlyStore>(storage: &S) -> (r: Result<State, ContractError>)
    ensures
        r is Ok <==> stored_owner(*storage) is Some,
        r is Ok ==> stored_owner(*storage) == Some(r->Ok_0.owner@),
        r is Err ==> r->Err_0.kind() == ErrorKind::NotConfigured,
{
    match storage.singleton_load(CONFIG_KEY.as_slice()) {
        Ok(Some(owner)) => Ok(State { owner }),
        Ok(None) => Err(ContractError::NotConfigured(None)),
        Err(e) => Err(ContractError::NotConfigured(Some(e))),
    }
}

/// Writes `balance` as the balance of the canonical address `key`, over
/// whatever the store held there. Every other balance and the configuration
/// record stay as they are, and so does whatever else the store holds under
/// other namespaces.
pub fn credits_storage<S: Store>(store: &mut S, key: &[u8], balance: u64) -> (r: Result<
    (),
    StdError,
>)
    ensures
        r is Ok,
        stored_credits(*final(store)) == stored_credits(*old(store)).insert(key@, balance),
        stored_unreadable(*final(store)) == stored_unreadable(*old(store)).remove(key@),
        stored_owner(*final(store)) == stored_owner(*old(store)),
        same_elsewhere(*old(store), *final(store), BUCKET_USER_CREDITS@),
{
    store.bucket_save(BUCKET_USER_CREDITS.as_slice(), key, balance)
}

/// Reads the entry of the canonical address `key`: its balance, nothing
/// where the store holds no entry, and the host's error where the entry does
/// not read.
pub fn credits_storage_read<S: ReadonlyStore>(store: &S, key: &[u8]) -> (r: Result<Option<u64>, StdError>)
    ensures
        r is Err <==> stored_unreadable(*store).contains(key@),
        r is Ok ==> (r->Ok_0 is Some <==> stored_credits(*store).contains_key(key@)),
        r is Ok && r->Ok_0 is Some ==> r->Ok_0->0 == stored_credits(*store)[key@],
{
    store.bucket_may_load(BUCKET_USER_CREDITS.as_slice(), key)
}

} // verus!
