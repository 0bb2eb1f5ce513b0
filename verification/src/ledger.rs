//! The balances: reading one, and the one way to change one.

use crate::error::{ContractError, ErrorKind};
use crate::model::{addition_refusal, balance_of, credited, Ledger};
use crate::state::{
    credits_storage, credits_storage_read, ledger_of, stored_credits, stored_unreadable,
    BUCKET_USER_CREDITS,
};
use crate::traits::{same_elsewhere, ReadonlyStore, Store};
use vstd::prelude::*;

verus! {

/// The balance of the canonical address `identity`: what the store records,
/// and zero where it holds no entry. An entry that does not read is no
/// missing entry: the call then fails with the host's error, as a `Store`
/// failure.
pub fn get_balance<S: ReadonlyStore>(store: &S, identity: &[u8]) -> (r: Result<u64, ContractError>)
    ensures
        r is Err <==> stored_unreadable(*store).contains(identity@),
        r is Err ==> r->Err_0.kind() == ErrorKind::Store,
        r is Ok ==> r->Ok_0 == balance_of(stored_credits(*store), identity@),
{
    match credits_storage_read(store, identity) {
        Ok(Some(current_credits)) => Ok(current_credits),
        Ok(None) => Ok(0),
        Err(e) => Err(ContractError::Store(e)),
    }
}

/// Adds `amount` to the balance of the canonical address `identity` and
/// returns the new balance.
///
/// The call fails with a `Store` failure where the entry does not read, and
/// with `Overflow` where the sum would not fit a `u64`; the store is then
/// left as it was. Otherwise the one entry is written and the store reads as
/// before everywhere else.
pub fn add_balance<S: Store>(store: &mut S, identity: &[u8], amount: u64) -> (r: Result<
    u64,
    ContractError,
>)
    ensures
        match addition_refusal(ledger_of(*old(store)), identity@, amount) {
            Some(kind) => r is Err && r->Err_0.kind() == kind && *final(store) == *old(store),
            None => {
                &&& r is Ok
                &&& r->Ok_0 == ledger_of(*old(store)).balance(identity@) + amount
                &&& ledger_of(*final(store)) == (Ledger {
                    credits: credited(stored_credits(*old(store)), identity@, amount),
                    ..ledger_of(*old(store))
                })
                &&& same_elsewhere(*old(store), *final(store), BUCKET_USER_CREDITS@)
            },
        },
{
    let current_credits = match get_balance(store, identity) {
        Ok(current_credits) => current_credits,
        Err(e) => return Err(e),
    };
    match current_credits.checked_add(amount) {
        Some(new_balance) => match credits_storage(store, identity, new_balance) {
            Ok(()) => {
                proof {
                    assert(stored_unreadable(*old(store)).remove(identity@) =~= stored_unreadable(
                        *old(store),
                    ));
                }
                Ok(new_balance)
            },
            Err(e) => Err(ContractError::Store(e)),
        },
        None => Err(ContractError::Overflow),
    }
}

} // verus!
