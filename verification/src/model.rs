//! The ledger as a mathematical value, and what each call makes of it.
//!
//! The contracts of the calls are stated over this model: a call fails as
//! `refusal` says and leaves behind the ledger that `apply` gives.

use crate::error::ErrorKind;
use vstd::prelude::*;

verus! {

/// The balance of `identity` in `credits`: what is recorded, and zero where
/// nothing is.
pub open spec fn balance_of(credits: Map<Seq<u8>, u64>, identity: Seq<u8>) -> u64 {
    if credits.contains_key(identity) {
        credits[identity]
    } else {
        0
    }
}

/// The balances after `amount` has been added to the balance of `identity`.
/// It is meant for a sum that fits a `u64`.
pub open spec fn credited(credits: Map<Seq<u8>, u64>, identity: Seq<u8>, amount: u64) -> Map<
    Seq<u8>,
    u64,
> {
    credits.insert(identity, (balance_of(credits, identity) + amount) as u64)
}

/// What the ledger holds: its owner, once it has one; the recorded balances
/// by canonical address; and the addresses whose entry cannot be read.
pub struct Ledger {
    pub owner: Option<Seq<u8>>,
    pub credits: Map<Seq<u8>, u64>,
    pub unreadable: Set<Seq<u8>>,
}

impl Ledger {
    /// The balance of a canonical address: zero where none is recorded.
    pub open spec fn balance(self, identity: Seq<u8>) -> u64 {
        balance_of(self.credits, identity)
    }
}

/// A call that may change the ledger. Its addresses are what the host made
/// of them: a canonical address, or nothing where the host gave none.
pub enum Call {
    /// Initialise the ledger for `sender`.
    Init { sender: Option<Seq<u8>> },
    /// Add `credits` to the balance of `address`, on behalf of `sender`.
    Add { sender: Option<Seq<u8>>, credits: u64, address: Option<Seq<u8>> },
    /// Reset the ledger, on behalf of `sender`.
    Reset { sender: Option<Seq<u8>> },
}

/// Why the owner's gate turns `sender` away, if it does: the sender needs a
/// canonical form, the ledger an owner, and the two must be the same.
pub open spec fn gate_refusal(ledger: Ledger, sender: Option<Seq<u8>>) -> Option<ErrorKind> {
    if sender is None {
        Some(ErrorKind::InvalidAddress)
    } else if ledger.owner is None {
        Some(ErrorKind::NotConfigured)
    } else if sender != ledger.owner {
        Some(ErrorKind::Unauthorized)
    } else {
        None
    }
}

/// Why `amount` cannot be added to the balance of `identity`, if it cannot:
/// the entry must be readable, and the sum must fit a `u64`.
pub open spec fn addition_refusal(ledger: Ledger, identity: Seq<u8>, amount: u64) -> Option<
    ErrorKind,
> {
    if ledger.unreadable.contains(identity) {
        Some(ErrorKind::Store)
    } else if ledger.balance(identity) + amount > u64::MAX {
        Some(ErrorKind::Overflow)
    } else {
        None
    }
}

/// Why `call` fails on `ledger`, if it does.
///
/// An initialisation fails only for a sender without a canonical form. An
/// addition checks in this order: both addresses have a canonical form, the
/// ledger has an owner, the sender is the owner, the entry of the address
/// can be read, the new balance fits a `u64`. A reset checks the sender as
/// an addition does.
pub open spec fn refusal(ledger: Ledger, call: Call) -> Option<ErrorKind> {
    match call {
        Call::Init { sender } => {
            if sender is None {
                Some(ErrorKind::InvalidAddress)
            } else {
                None
            }
        },
        Call::Add { sender, credits, address } => {
            if address is None {
                Some(ErrorKind::InvalidAddress)
            } else if gate_refusal(ledger, sender) is Some {
                gate_refusal(ledger, sender)
            } else {
                addition_refusal(ledger, address->0, credits)
            }
        },
        Call::Reset { sender } => gate_refusal(ledger, sender),
    }
}

/// The ledger after `call`. A call that fails leaves the ledger as it was,
/// and so does every reset; an initialisation records the sender as the
/// owner; an addition changes the one balance.
pub open spec fn apply(ledger: Ledger, call: Call) -> Ledger {
    if refusal(ledger, call) is Some {
        ledger
    } else {
        match call {
            Call::Init { sender } => Ledger { owner: sender, ..ledger },
            Call::Add { sender, credits, address } => Ledger {
                credits: credited(ledger.credits, address->0, credits),
                ..ledger
            },
            Call::Reset { sender } => ledger,
        }
    }
}

/// What asking for the credits of an address gives: its balance, which is
/// zero where none is recorded; a failure where the address has no
/// canonical form, and where its entry cannot be read.
pub open spec fn credits_answer(ledger: Ledger, identity: Option<Seq<u8>>) -> Result<
    u64,
    ErrorKind,
> {
    if identity is None {
        Err(ErrorKind::InvalidAddress)
    } else if ledger.unreadable.contains(identity->0) {
        Err(ErrorKind::Store)
    } else {
        Ok(ledger.balance(identity->0))
    }
}

/// The ledger after `calls`, made one after the other on `start`.
pub open spec fn run(start: Ledger, calls: Seq<Call>) -> Ledger
    decreases calls.len(),
{
    if calls.len() == 0 {
        start
    } else {
        apply(run(start, calls.drop_last()), calls.last())
    }
}

/// Whether `call` succeeds on `ledger` in adding credits to `identity`.
pub open spec fn adds_to(ledger: Ledger, call: Call, identity: Seq<u8>) -> bool {
    match call {
        Call::Add { sender, credits, address } => refusal(ledger, call) is None && address == Some(
            identity,
        ),
        _ => false,
    }
}

/// The credits that `call` adds to `identity` on `ledger`: its amount where
/// it succeeds in adding to `identity`, and nothing otherwise.
pub open spec fn credits_added_by(ledger: Ledger, call: Call, identity: Seq<u8>) -> nat {
    match call {
        Call::Add { sender, credits, address } => if adds_to(ledger, call, identity) {
            credits as nat
        } else {
            0
        },
        _ => 0,
    }
}

/// The credits that `calls`, made one after the other on `start`, add to
/// `identity` in all.
pub open spec fn credits_added(start: Ledger, calls: Seq<Call>, identity: Seq<u8>) -> nat
    decreases calls.len(),
{
    if calls.len() == 0 {
        0
    } else {
        credits_added(start, calls.drop_last(), identity) + credits_added_by(
            run(start, calls.drop_last()),
            calls.last(),
            identity,
        )
    }
}

} // verus!
