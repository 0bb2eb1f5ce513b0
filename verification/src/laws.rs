//! What holds of the ledger whatever the calls: laws of the model that the
//! contracts of the calls are stated over.

use crate::contract::{answer, COUNT};
use crate::error::ErrorKind;
use crate::model::{
    adds_to, apply, credits_added, credits_added_by, credits_answer, refusal, run, Call, Ledger,
};
use crate::msg::{CountResponse, QueryMsg, QueryResponse};
use crate::traits::Canonicaliser;
use vstd::prelude::*;

verus! {

/// When the owner adds `credits` to the balance of `identity`: where the
/// entry reads and the sum fits a `u64`, the call succeeds and the balance is
/// the balance before plus `credits`; where the sum does not fit, the call
/// fails with `Overflow` and the balance is as before. Where the entry does
/// not read, the call fails with `Store` and the ledger is as before.
pub proof fn lemma_owner_adds_or_overflows(
    ledger: Ledger,
    sender: Seq<u8>,
    credits: u64,
    identity: Seq<u8>,
)
    requires
        ledger.owner == Some(sender),
    ensures
        ({
            let call = Call::Add { sender: Some(sender), credits, address: Some(identity) };
            let after = apply(ledger, call);
            if ledger.unreadable.contains(identity) {
                &&& refusal(ledger, call) == Some(ErrorKind::Store)
                &&& after == ledger
            } else if ledger.balance(identity) + credits <= u64::MAX {
                &&& refusal(ledger, call) is None
                &&& after.balance(identity) == ledger.balance(identity) + credits
            } else {
                &&& refusal(ledger, call) == Some(ErrorKind::Overflow)
                &&& after.balance(identity) == ledger.balance(identity)
                &&& after == ledger
            }
        }),
{
}

/// A sender who is not the owner changes nothing: an addition and a reset by
/// such a sender fail and leave the ledger as it was. Where the ledger has an
/// owner and the addresses have canonical forms, the failure is
/// `Unauthorized`.
pub proof fn lemma_stranger_changes_nothing(
    ledger: Ledger,
    sender: Option<Seq<u8>>,
    credits: u64,
    address: Option<Seq<u8>>,
)
    requires
        sender != ledger.owner,
    ensures
        ({
            let add = Call::Add { sender, credits, address };
            let reset = Call::Reset { sender };
            let valid = sender is Some && ledger.owner is Some;
            &&& refusal(ledger, add) is Some
            &&& refusal(ledger, reset) is Some
            &&& apply(ledger, add) == ledger
            &&& apply(ledger, reset) == ledger
            &&& valid ==> refusal(ledger, reset) == Some(ErrorKind::Unauthorized)
            &&& valid && address is Some ==> refusal(ledger, add) == Some(ErrorKind::Unauthorized)
        }),
{
}

/// A call that fails leaves the ledger as it was, and so does every reset.
pub proof fn lemma_failure_changes_nothing(ledger: Ledger, call: Call)
    ensures
        refusal(ledger, call) is Some ==> apply(ledger, call) == ledger,
        call is Reset ==> apply(ledger, call) == ledger,
{
}

/// An addition and a reset leave the owner as it was, and on a ledger
/// without an owner they fail: only an initialisation changes such a ledger.
pub proof fn lemma_owner_stays(ledger: Ledger, call: Call)
    requires
        !(call is Init),
    ensures
        apply(ledger, call).owner == ledger.owner,
        ledger.owner is None ==> refusal(ledger, call) is Some && apply(ledger, call) == ledger,
{
}

/// A successful initialisation makes the sender the owner and leaves every
/// balance as it was.
pub proof fn lemma_init_sets_owner(ledger: Ledger, sender: Seq<u8>)
    ensures
        refusal(ledger, Call::Init { sender: Some(sender) }) is None,
        apply(ledger, Call::Init { sender: Some(sender) }).owner == Some(sender),
        apply(ledger, Call::Init { sender: Some(sender) }).credits == ledger.credits,
        apply(ledger, Call::Init { sender: Some(sender) }).unreadable == ledger.unreadable,
{
}

/// Calls that do not initialise leave the owner as it was, however many
/// they are; and on a ledger without an owner they leave everything as it
/// was.
pub proof fn lemma_owner_stays_through(start: Ledger, calls: Seq<Call>)
    requires
        forall|i: int| 0 <= i < calls.len() ==> !(#[trigger] calls[i] is Init),
    ensures
        run(start, calls).owner == start.owner,
        start.owner is None ==> run(start, calls) == start,
    decreases calls.len(),
{
    if calls.len() > 0 {
        let earlier = calls.drop_last();
        assert forall|i: int| 0 <= i < earlier.len() implies !(#[trigger] earlier[i] is Init) by {
            assert(earlier[i] == calls[i]);
        }
        lemma_owner_stays_through(start, earlier);
        assert(calls[calls.len() - 1] == calls.last());
        lemma_owner_stays(run(start, earlier), calls.last());
    }
}

/// No call makes an entry unreadable or readable again: the entries that do
/// not read are the same after any call.
pub proof fn lemma_unreadable_stays(ledger: Ledger, call: Call)
    ensures
        apply(ledger, call).unreadable == ledger.unreadable,
{
}

/// No call lowers a balance, and a call changes the balance of `identity`
/// only by succeeding in adding to it.
pub proof fn lemma_balance_grows(ledger: Ledger, call: Call, identity: Seq<u8>)
    ensures
        apply(ledger, call).balance(identity) == ledger.balance(identity) + credits_added_by(
            ledger,
            call,
            identity,
        ),
        apply(ledger, call).balance(identity) >= ledger.balance(identity),
        !adds_to(ledger, call, identity) ==> apply(ledger, call).balance(identity)
            == ledger.balance(identity),
        !adds_to(ledger, call, identity) ==> apply(ledger, call).credits.contains_key(identity)
            == ledger.credits.contains_key(identity),
{
}

/// Two successful additions of `first` and then `second` to the same address
/// leave its balance at the balance before plus `first` plus `second`.
pub proof fn lemma_adds_accumulate(
    ledger: Ledger,
    sender: Option<Seq<u8>>,
    identity: Seq<u8>,
    first: u64,
    second: u64,
)
    requires
        refusal(ledger, Call::Add { sender, credits: first, address: Some(identity) }) is None,
        refusal(
            apply(ledger, Call::Add { sender, credits: first, address: Some(identity) }),
            Call::Add { sender, credits: second, address: Some(identity) },
        ) is None,
    ensures
        ({
            let once = apply(ledger, Call::Add { sender, credits: first, address: Some(identity) });
            let twice = apply(once, Call::Add { sender, credits: second, address: Some(identity) });
            twice.balance(identity) == ledger.balance(identity) + first + second
        }),
{
}

/// After any calls, the balance of an address is its balance at the start
/// plus the credits that the successful additions to it added.
pub proof fn lemma_balance_is_sum_of_additions(start: Ledger, calls: Seq<Call>, identity: Seq<u8>)
    ensures
        run(start, calls).balance(identity) == start.balance(identity) + credits_added(
            start,
            calls,
            identity,
        ),
    decreases calls.len(),
{
    if calls.len() > 0 {
        lemma_balance_is_sum_of_additions(start, calls.drop_last(), identity);
        lemma_balance_grows(run(start, calls.drop_last()), calls.last(), identity);
    }
}

/// An address to which no call has succeeded in adding credits has the
/// balance that it started with: zero on a ledger that recorded none for it.
pub proof fn lemma_no_addition_no_credits(start: Ledger, calls: Seq<Call>, identity: Seq<u8>)
    requires
        forall|i: int|
            0 <= i < calls.len() ==> !adds_to(run(start, calls.take(i)), #[trigger] calls[i], identity),
    ensures
        run(start, calls).balance(identity) == start.balance(identity),
        !start.credits.contains_key(identity) ==> run(start, calls).balance(identity) == 0,
    decreases calls.len(),
{
    if calls.len() > 0 {
        let earlier = calls.drop_last();
        assert forall|i: int| 0 <= i < earlier.len() implies !adds_to(
            run(start, earlier.take(i)),
            #[trigger] earlier[i],
            identity,
        ) by {
            assert(earlier.take(i) =~= calls.take(i));
            assert(earlier[i] == calls[i]);
        }
        lemma_no_addition_no_credits(start, earlier, identity);
        assert(calls.take(calls.len() - 1) =~= earlier);
        assert(calls[calls.len() - 1] == calls.last());
        lemma_balance_grows(run(start, earlier), calls.last(), identity);
    }
}

/// On a ledger that holds no entry for an address, asking for its credits
/// gives zero.
pub proof fn lemma_unknown_address_has_no_credits(ledger: Ledger, identity: Seq<u8>)
    requires
        !ledger.credits.contains_key(identity),
        !ledger.unreadable.contains(identity),
    ensures
        credits_answer(ledger, Some(identity)) == Ok::<u64, ErrorKind>(0),
{
}

/// Asking for the credits of an address whose entry does not read fails: an
/// unreadable entry is never answered as a balance of zero.
pub proof fn lemma_unreadable_entry_is_no_balance(ledger: Ledger, identity: Seq<u8>, credits: u64)
    requires
        ledger.unreadable.contains(identity),
    ensures
        credits_answer(ledger, Some(identity)) == Err::<u64, ErrorKind>(ErrorKind::Store),
        refusal(ledger, Call::Add { sender: ledger.owner, credits, address: Some(identity) })
            is Some,
        apply(ledger, Call::Add { sender: ledger.owner, credits, address: Some(identity) })
            == ledger,
{
}

/// Asking for the count gives `COUNT`, whatever the ledger holds and
/// whatever the host.
pub proof fn lemma_count_is_constant<A: Canonicaliser>(api: A, ledger: Ledger)
    ensures
        answer(api, ledger, QueryMsg::GetCount {  }) == Ok::<QueryResponse, ErrorKind>(
            QueryResponse::Count(CountResponse { count: COUNT }),
        ),
        COUNT == 10,
{
}

} // verus!
