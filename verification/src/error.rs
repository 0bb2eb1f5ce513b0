//! Why a call to the ledger fails.

use cosmwasm_std::StdError;
use vstd::prelude::*;

verus! {

/// The message that goes with `ContractError::Overflow`.
pub const OVERFLOW_MESSAGE: &'static str = "Balance would exceed limit";

/// The kinds of failure.
#[derive(Debug, Clone, Copy, PartialEq, Eq, Structural)]
pub enum ErrorKind {
    Unauthorized,
    Overflow,
    InvalidAddress,
    NotConfigured,
    Store,
}

/// A failed call. Failures that come from the host carry the host's error
/// unchanged.
#[derive(Debug, PartialEq)]
pub enum ContractError {
    /// The sender is not the owner of the ledger.
    Unauthorized,
    /// The balance would exceed the largest `u64`.
    Overflow,
    /// The host has no canonical form for an address.
    InvalidAddress(StdError),
    /// The store holds no configuration record that reads. Where the host
    /// failed to read one, its error comes along.
    NotConfigured(Option<StdError>),
    /// The store holds a balance that does not read, or refused a write.
    Store(StdError),
}

impl ContractError {
    /// The kind of this failure.
    pub open spec fn kind_spec(&self) -> ErrorKind {
        match *self {
            ContractError::Unauthorized => ErrorKind::Unauthorized,
            ContractError::Overflow => ErrorKind::Overflow,
            ContractError::InvalidAddress(_) => ErrorKind::InvalidAddress,
            ContractError::NotConfigured(_) => ErrorKind::NotConfigured,
            ContractError::Store(_) => ErrorKind::Store,
        }
    }

    /// The kind of this failure.
    #[verifier::when_used_as_spec(kind_spec)]
    pub fn kind(&self) -> (k: ErrorKind)
        ensures
            k == self.kind_spec(),
    {
        match *self {
            ContractError::Unauthorized => ErrorKind::Unauthorized,
            ContractError::Overflow => ErrorKind::Overflow,
            ContractError::InvalidAddress(_) => ErrorKind::InvalidAddress,
            ContractError::NotConfigured(_) => ErrorKind::NotConfigured,
            ContractError::Store(_) => ErrorKind::Store,
        }
    }
}

} // verus!
