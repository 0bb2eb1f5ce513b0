//! The circumstances of a call, as far as the ledger looks at them.

use vstd::prelude::*;

verus! {

/// Who sent a message, as a human-readable address.
#[derive(Debug, Clone, PartialEq, Eq)]
pub struct MessageInfo {
    pub sender: String,
}

/// The circumstances of a call.
#[derive(Debug, Clone, PartialEq, Eq)]
pub struct Env {
    pub message: MessageInfo,
}

} // verus!
