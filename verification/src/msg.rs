//! The requests that the ledger answers and what it answers with.

use vstd::prelude::*;

verus! {

/// The request that sets the ledger up. It carries nothing: the owner is
/// whoever sends it.
#[derive(Debug, Clone, PartialEq, Eq)]
pub struct InitMsg {}

/// A request that may change the ledger.
#[derive(Debug, Clone, PartialEq, Eq)]
pub enum HandleMsg {
    /// Add `credits` to the balance of `address`.
    Add { credits: u64, address: String },
    /// Reset the ledger.
    Reset {},
}

/// A request that only reads.
#[derive(Debug, Clone, PartialEq, Eq)]
pub enum QueryMsg {
    /// Ask for the count.
    GetCount {},
    /// Ask for the balance of `address`.
    GetCredits { address: String },
}

/// The answer to `QueryMsg::GetCount`.
#[derive(Debug, Clone, PartialEq, Eq)]
pub struct CountResponse {
    pub count: u64,
}

/// The answer to `QueryMsg::GetCredits`.
#[derive(Debug, Clone, PartialEq, Eq)]
pub struct CreditsResponse {
    pub owned_credits: u64,
}

/// The data that a successful `HandleMsg::Add` hands back.
#[derive(Debug, Clone, PartialEq, Eq)]
pub struct AddCreditsResponse {
    pub receiver: String,
    pub new_balance: u64,
}

/// The answer to a query, by the request that asked for it.
#[derive(Debug, Clone, PartialEq, Eq)]
pub enum QueryResponse {
    Count(CountResponse),
    Credits(CreditsResponse),
}

/// A message for the host to dispatch after a call, in its encoded form.
/// The ledger never asks for one.
#[derive(Debug, Clone, PartialEq, Eq)]
pub struct HostMsg {
    pub payload: Vec<u8>,
}

/// A key and a value for the host to log with a call.
#[derive(Debug, Clone, PartialEq, Eq)]
pub struct LogAttribute {
    pub key: String,
    pub value: String,
}

/// What the host gets back from a successful initialisation.
#[derive(Debug, Clone, PartialEq, Eq)]
pub struct InitResponse {
    pub messages: Vec<HostMsg>,
    pub log: Vec<LogAttribute>,
}

/// What the host gets back from a successful `HandleMsg`.
#[derive(Debug, Clone, PartialEq, Eq)]
pub struct HandleResponse {
    pub messages: Vec<HostMsg>,
    pub log: Vec<LogAttribute>,
    pub data: Option<AddCreditsResponse>,
}

impl InitResponse {
    /// True of the acknowledgement that carries nothing.
    pub open spec fn is_empty(self) -> bool {
        self.messages@.len() == 0 && self.log@.len() == 0
    }
}

impl HandleResponse {
    /// True of the acknowledgement that carries nothing.
    pub open spec fn is_empty(self) -> bool {
        self.messages@.len() == 0 && self.log@.len() == 0 && self.data is None
    }
}

impl Default for InitResponse {
    fn default() -> (r: Self)
        ensures
            r.is_empty(),
    {
        InitResponse { messages: Vec::new(), log: Vec::new() }
    }
}

impl Default for HandleResponse {
    fn default() -> (r: Self)
        ensures
            r.is_empty(),
    {
        HandleResponse { messages: Vec::new(), log: Vec::new(), data: None }
    }
}

} // verus!
