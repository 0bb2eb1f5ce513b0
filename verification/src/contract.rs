//! The calls that the host makes: one to initialise the ledger, two that may
//! change it and two that read it.

use crate::env::Env;
use crate::error::{ContractError, ErrorKind};
use crate::ledger::{add_balance, get_balance};
use crate::model::{apply, credits_answer, refusal, Call, Ledger};
use crate::msg::{
    AddCreditsResponse, CountResponse, CreditsResponse, HandleMsg, HandleResponse, InitMsg,
    InitResponse, QueryMsg, QueryResponse,
};
use crate::state::{config, config_read, ledger_of, State, BUCKET_USER_CREDITS, CONFIG_KEY};
use crate::traits::{same_elsewhere, Canonicaliser, ReadonlyStore, Store};
use vstd::prelude::*;

verus! {

/// The count that `QueryMsg::GetCount` reports, whatever the ledger holds.
pub const COUNT: u64 = 10;

/// The balance that a successful `HandleMsg::Add` reports, whatever the
/// ledger holds. The balance itself is read with `QueryMsg::GetCredits`.
pub const REPORTED_BALANCE: u64 = 0;

/// The kind of failure in a result, if it is one.
pub open spec fn failure<T>(r: Result<T, ContractError>) -> Option<ErrorKind> {
    match r {
        Ok(_) => None,
        Err(e) => Some(e.kind()),
    }
}

/// That the store went from `pre` to `post` by carrying out `call`, and the
/// call failed with `failure` if it failed.
///
/// The call fails exactly as the model refuses it, and the store then holds
/// the ledger that the model gives. A failed call and a reset leave the store
/// itself as it was. An initialisation writes the configuration record and a
/// successful addition the one balance: everywhere else the store reads as
/// before.
pub open spec fn carried_out<S: Store>(
    pre: S,
    post: S,
    call: Call,
    failure: Option<ErrorKind>,
) -> bool {
    &&& failure == refusal(ledger_of(pre), call)
    &&& ledger_of(post) == apply(ledger_of(pre), call)
    &&& failure is Some || call is Reset ==> post == pre
    &&& call is Init ==> same_elsewhere(pre, post, CONFIG_KEY@)
    &&& call is Add ==> same_elsewhere(pre, post, BUCKET_USER_CREDITS@)
}

/// The model's call for a message that `sender` sent, with the addresses as
/// `api` canonicalises them.
pub open spec fn call_of<A: Canonicaliser>(api: A, sender: Seq<char>, msg: HandleMsg) -> Call {
    match msg {
        HandleMsg::Add { credits, address } => Call::Add {
            sender: api.canonical(sender),
            credits,
            address: api.canonical(address@),
        },
        HandleMsg::Reset {  } => Call::Reset { sender: api.canonical(sender) },
    }
}

/// That `response` is what a successful addition to `address` hands back:
/// no messages, no log, and data that name the receiver and report
/// `REPORTED_BALANCE`.
pub open spec fn acknowledges_add(response: HandleResponse, address: Seq<char>) -> bool {
    &&& response.messages@.len() == 0
    &&& response.log@.len() == 0
    &&& response.data is Some
    &&& response.data->0.receiver@ == address
    &&& response.data->0.new_balance == REPORTED_BALANCE
}

/// That `response` is what `msg` hands back when it succeeds.
pub open spec fn acknowledges(response: HandleResponse, msg: HandleMsg) -> bool {
    match msg {
        HandleMsg::Add { credits, address } => acknowledges_add(response, address@),
        HandleMsg::Reset {  } => response.is_empty(),
    }
}

/// Whether two byte strings are the same, byte for byte.
pub fn same_bytes(left: &[u8], right: &[u8]) -> (same: bool)
    ensures
        same == (left@ == right@),
{
    if left.len() != right.len() {
        return false;
    }
    let mut i: usize = 0;
    while i < left.len()
        invariant
            left@.len() == right@.len(),
            i <= left@.len(),
            forall|j: int| 0 <= j < i ==> left@[j] == right@[j],
        decreases left@.len() - i,
    {
        if left[i] != right[i] {
            return false;
        }
        i += 1;
    }
    assert(left@ =~= right@);
    true
}

/// Lets the owner pass and nobody else: `sender` passes exactly when it is,
/// byte for byte, the owner that `state` records.
pub fn require_owner(sender: &[u8], state: &State) -> (r: Result<(), ContractError>)
    ensures
        r is Ok <==> sender@ == state.owner@,
        r is Err ==> r->Err_0 == ContractError::Unauthorized,
{
    if same_bytes(sender, state.owner.as_slice()) {
        Ok(())
    } else {
        Err(ContractError::Unauthorized)
    }
}

/// Initialises the ledger: the sender of the message becomes its owner, and
/// the balances stay as they are. It fails only for a sender without a
/// canonical form.
pub fn init<S: Store, A: Canonicaliser>(storage: &mut S, api: &A, env: Env, _msg: InitMsg) -> (r:
    Result<InitResponse, ContractError>)
    ensures
        carried_out(
            *old(storage),
            *final(storage),
            Call::Init { sender: api.canonical(env.message.sender@) },
            failure(r),
        ),
        r is Ok ==> r->Ok_0.is_empty(),
{
    let owner = match api.canonical_address(env.message.sender.as_str()) {
        Ok(address) => address,
        Err(e) => return Err(ContractError::InvalidAddress(e)),
    };
    let state = State { owner };

    match config(storage, &state) {
        Ok(()) => Ok(InitResponse::default()),
        Err(e) => Err(ContractError::Store(e)),
    }
}

/// Adds `credits` to the balance of `address`, for the owner only.
///
/// The call fails where an address has no canonical form, where the ledger
/// has no owner, where the sender is not the owner, where the entry of the
/// address does not read, and where the new balance would not fit a `u64`;
/// the store is then left as it was. Otherwise the one balance grows by
/// `credits` and nothing else changes.
pub fn try_add_credits<S: Store, A: Canonicaliser>(
    storage: &mut S,
    api: &A,
    env: Env,
    credits: u64,
    address: String,
) -> (r: Result<HandleResponse, ContractError>)
    ensures
        carried_out(
            *old(storage),
            *final(storage),
            Call::Add {
                sender: api.canonical(env.message.sender@),
                credits,
                address: api.canonical(address@),
            },
            failure(r),
        ),
        r is Ok ==> acknowledges_add(r->Ok_0, address@),
{
    let sender_address_raw = match api.canonical_address(env.message.sender.as_str()) {
        Ok(address) => address,
        Err(e) => return Err(ContractError::InvalidAddress(e)),
    };
    let receiver_address_canonical = match api.canonical_address(address.as_str()) {
        Ok(address) => address,
        Err(e) => return Err(ContractError::InvalidAddress(e)),
    };
    let state = match config_read(storage) {
        Ok(state) => state,
        Err(e) => return Err(e),
    };

    match require_owner(sender_address_raw.as_slice(), &state) {
        Ok(()) => {},
        Err(e) => return Err(e),
    }

    match add_balance(storage, receiver_address_canonical.as_slice(), credits) {
        Ok(_new_balance) => {},
        Err(e) => return Err(e),
    }

    Ok(
        HandleResponse {
            messages: Vec::new(),
            log: Vec::new(),
            data: Some(AddCreditsResponse { receiver: address, new_balance: REPORTED_BALANCE }),
        },
    )
}

/// Resets the ledger, for the owner only. A reset checks the sender and
/// clears nothing: whether it succeeds or fails, the store is left as it
/// was.
pub fn try_reset<S: Store, A: Canonicaliser>(storage: &mut S, api: &A, env: Env) -> (r: Result<
    HandleResponse,
    ContractError,
>)
    ensures
        carried_out(
            *old(storage),
            *final(storage),
            Call::Reset { sender: api.canonical(env.message.sender@) },
            failure(r),
        ),
        *final(storage) == *old(storage),
        r is Ok ==> r->Ok_0.is_empty(),
{
    let sender_address_raw = match api.canonical_address(env.message.sender.as_str()) {
        Ok(address) => address,
        Err(e) => return Err(ContractError::InvalidAddress(e)),
    };
    let state = match config_read(storage) {
        Ok(state) => state,
        Err(e) => return Err(e),
    };

    match require_owner(sender_address_raw.as_slice(), &state) {
        Ok(()) => {},
        Err(e) => return Err(e),
    }

    Ok(HandleResponse::default())
}

/// Carries out a message that may change the ledger: an addition as
/// `try_add_credits` does, a reset as `try_reset` does.
pub fn handle<S: Store, A: Canonicaliser>(storage: &mut S, api: &A, env: Env, msg: HandleMsg) -> (r:
    Result<HandleResponse, ContractError>)
    ensures
        carried_out(
            *old(storage),
            *final(storage),
            call_of(*api, env.message.sender@, msg),
            failure(r),
        ),
        msg is Reset ==> *final(storage) == *old(storage),
        r is Ok ==> acknowledges(r->Ok_0, msg),
{
    match msg {
        HandleMsg::Add { credits, address } => try_add_credits(storage, api, env, credits, address),
        HandleMsg::Reset {  } => try_reset(storage, api, env),
    }
}

/// Answers `QueryMsg::GetCount`: always with `COUNT`.
pub fn query_count<S: ReadonlyStore, A: Canonicaliser>(_storage: &S, _api: &A) -> (r: Result<
    CountResponse,
    ContractError,
>)
    ensures
        r is Ok,
        r->Ok_0.count == COUNT,
{
    Ok(CountResponse { count: COUNT })
}

/// Answers `QueryMsg::GetCredits`: with the balance of `address`, which is
/// zero where the ledger records none. It fails where the host has no
/// canonical form for `address`, and where the entry of the address does not
/// read.
pub fn try_get_credits<S: ReadonlyStore, A: Canonicaliser>(storage: &S, api: &A, address: String) -> (r:
    Result<CreditsResponse, ContractError>)
    ensures
        match credits_answer(ledger_of(*storage), api.canonical(address@)) {
            Ok(balance) => r is Ok && r->Ok_0.owned_credits == balance,
            Err(kind) => r is Err && r->Err_0.kind() == kind,
        },
{
    let address_canonical = match api.canonical_address(address.as_str()) {
        Ok(address) => address,
        Err(e) => return Err(ContractError::InvalidAddress(e)),
    };
    let current_user_credits = match get_balance(storage, address_canonical.as_slice()) {
        Ok(current_credits) => current_credits,
        Err(e) => return Err(e),
    };

    Ok(CreditsResponse { owned_credits: current_user_credits })
}

/// What a query answers: the count is `COUNT`; the credits of an address
/// are what `credits_answer` gives for its canonical form.
pub open spec fn answer<A: Canonicaliser>(api: A, ledger: Ledger, msg: QueryMsg) -> Result<
    QueryResponse,
    ErrorKind,
> {
    match msg {
        QueryMsg::GetCount {  } => Ok(QueryResponse::Count(CountResponse { count: COUNT })),
        QueryMsg::GetCredits { address } => match credits_answer(
            ledger,
            api.canonical(address@),
        ) {
            Ok(balance) => Ok(QueryResponse::Credits(CreditsResponse { owned_credits: balance })),
            Err(kind) => Err(kind),
        },
    }
}

/// Answers a message that only reads.
pub fn query<S: ReadonlyStore, A: Canonicaliser>(storage: &S, api: &A, msg: QueryMsg) -> (r: Result<
    QueryResponse,
    ContractError,
>)
    ensures
        match answer(*api, ledger_of(*storage), msg) {
            Ok(response) => r == Ok::<QueryResponse, ContractError>(response),
            Err(kind) => r is Err && r->Err_0.kind() == kind,
        },
{
    match msg {
        QueryMsg::GetCount {  } => match query_count(storage, api) {
            Ok(response) => Ok(QueryResponse::Count(response)),
            Err(e) => Err(e),
        },
        QueryMsg::GetCredits { address } => match try_get_credits(storage, api, address) {
            Ok(response) => Ok(QueryResponse::Credits(response)),
            Err(e) => Err(e),
        },
    }
}

} // verus!
