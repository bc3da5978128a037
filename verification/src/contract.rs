use crate::access::{authorize, authorize_decision};
use crate::codec::rate_le_bytes;
use crate::error::RegistryError;
use crate::identity::Identity;
use crate::msg::{ExecuteMsg, InstantiateMsg, QueryExtMsg, QueryMsg};
use crate::state::Registry;
use crate::struct_types::ReferenceData;
use vstd::prelude::*;

verus! {

/// The fixed quote unit every outbound reference query asks against.
pub open spec fn quote_unit() -> Seq<char> {
    "USD"@
}

/// The quote unit as a value; it is a constant, never caller-supplied.
pub fn quote_symbol() -> (r: String)
    ensures
        r@ == quote_unit(),
{
    "USD".to_owned()
}

/// What a completed `execute` call asks the host to do next.
#[derive(Debug)]
pub enum ExecuteOutcome {
    /// The mutation is done; there is nothing left to perform.
    Completed,
    /// The host must query the oracle at `target` with `request`, then hand
    /// the reply (or the failure) to [`try_set_price`].
    FetchReference { target: Identity, request: QueryExtMsg },
}

/// An answer to a read request, before the host encodes it for return.
#[derive(Debug)]
pub enum QueryAnswer {
    Owner(Identity),
    OracleRef(Identity),
    Price(u128),
}

/// Initialization writes both singletons unconditionally and touches no
/// price: a repeated call silently overwrites owner and reference alike.
pub open spec fn initialize_post(
    pre: Registry,
    post: Registry,
    caller: Seq<u8>,
    oracle: Seq<u8>,
) -> bool {
    &&& post.owner_id() == Some(caller)
    &&& post.oracle_id() == Some(oracle)
    &&& post.stored_prices() == pre.stored_prices()
    &&& post.rates() == pre.rates()
}

/// Setting the oracle reference succeeds exactly when authorization does;
/// on any failure the whole state is untouched.
pub open spec fn set_oracle_post(
    pre: Registry,
    post: Registry,
    caller: Seq<u8>,
    new_ref: Seq<u8>,
    r: Result<(), RegistryError>,
) -> bool {
    &&& r == authorize_decision(pre, caller)
    &&& post.owner_id() == pre.owner_id()
    &&& post.stored_prices() == pre.stored_prices()
    &&& post.rates() == pre.rates()
    &&& post.oracle_id() == if r is Ok {
        Some(new_ref)
    } else {
        pre.oracle_id()
    }
}

/// The outcome a save reports: authorization first, then the oracle
/// reference must exist, then the fetched reply decides — a remote failure
/// is passed on verbatim as [`RegistryError::RemoteQueryFailed`].
pub open spec fn save_price_result(
    pre: Registry,
    caller: Seq<u8>,
    fetched: Result<ReferenceData, String>,
) -> Result<(), RegistryError> {
    match authorize_decision(pre, caller) {
        Err(e) => Err(e),
        Ok(_) => match pre.oracle_id() {
            None => Err(RegistryError::Uninitialized),
            Some(_) => match fetched {
                Err(detail) => Err(RegistryError::RemoteQueryFailed { detail }),
                Ok(_) => Ok(()),
            },
        },
    }
}

/// Saving a price persists exactly the fetched rate — the freshness
/// timestamps are discarded — and on any failure writes nothing at all.
pub open spec fn save_price_post(
    pre: Registry,
    post: Registry,
    caller: Seq<u8>,
    symbol: Seq<char>,
    fetched: Result<ReferenceData, String>,
    r: Result<(), RegistryError>,
) -> bool {
    &&& r == save_price_result(pre, caller, fetched)
    &&& post.owner_id() == pre.owner_id()
    &&& post.oracle_id() == pre.oracle_id()
    &&& match (r, fetched) {
        (Ok(_), Ok(rd)) => {
            &&& post.stored_prices() == pre.stored_prices().insert(symbol, rate_le_bytes(rd.rate))
            &&& post.rates() == pre.rates().insert(symbol, rd.rate)
        },
        _ => {
            &&& post.stored_prices() == pre.stored_prices()
            &&& post.rates() == pre.rates()
        },
    }
}

/// Routing a mutation: `SetOracleRef` completes in place; `SavePrice` changes
/// nothing yet and instead directs the host to query the currently stored
/// oracle reference for the symbol against the fixed quote unit.
pub open spec fn execute_post(
    pre: Registry,
    post: Registry,
    caller: Seq<u8>,
    msg: ExecuteMsg,
    r: Result<ExecuteOutcome, RegistryError>,
) -> bool {
    match msg {
        ExecuteMsg::SetOracleRef { new_oracle_ref } => match r {
            Ok(outcome) => outcome is Completed && set_oracle_post(
                pre,
                post,
                caller,
                new_oracle_ref@,
                Ok(()),
            ),
            Err(e) => set_oracle_post(pre, post, caller, new_oracle_ref@, Err(e)),
        },
        ExecuteMsg::SavePrice { symbol } => {
            &&& post == pre
            &&& match authorize_decision(pre, caller) {
                Err(e) => r == Err::<ExecuteOutcome, RegistryError>(e),
                Ok(_) => match pre.oracle_id() {
                    None => r == Err::<ExecuteOutcome, RegistryError>(RegistryError::Uninitialized),
                    Some(oracle) => match r {
                        Ok(outcome) => match outcome {
                            ExecuteOutcome::FetchReference { target, request } => {
                                &&& target@ == oracle
                                &&& match request {
                                    QueryExtMsg::GetReferenceData { base_symbol, quote_symbol } => {
                                        &&& base_symbol@ == symbol@
                                        &&& quote_symbol@ == quote_unit()
                                    },
                                }
                            },
                            _ => false,
                        },
                        Err(_) => false,
                    },
                },
            }
        },
    }
}

/// A read of the owner singleton: uninitialized is reported as such, else
/// the stored identity comes back.
pub open spec fn owner_query_post(s: Registry, r: Result<Identity, RegistryError>) -> bool {
    match s.owner_id() {
        Some(b) => r matches Ok(id) && id@ == b,
        None => r == Err::<Identity, RegistryError>(RegistryError::Uninitialized),
    }
}

/// A read of the oracle-reference singleton, analogously.
pub open spec fn oracle_query_post(s: Registry, r: Result<Identity, RegistryError>) -> bool {
    match s.oracle_id() {
        Some(b) => r matches Ok(id) && id@ == b,
        None => r == Err::<Identity, RegistryError>(RegistryError::Uninitialized),
    }
}

/// A read of a cached rate: a symbol never saved is reported as missing,
/// with the symbol carried in the error, distinguishably from every other
/// failure kind.
pub open spec fn price_query_post(
    s: Registry,
    symbol: String,
    r: Result<u128, RegistryError>,
) -> bool {
    if s.rates().contains_key(symbol@) {
        r == Ok::<u128, RegistryError>(s.rates()[symbol@])
    } else {
        r == Err::<u128, RegistryError>(RegistryError::NotFound { symbol })
    }
}

/// Handles the one-time setup request: the calling identity becomes the
/// owner — first caller wins, no authorization — and the supplied identity
/// becomes the oracle reference.
pub fn instantiate(state: &mut Registry, caller: &Identity, msg: InstantiateMsg) -> (r: Result<
    (),
    RegistryError,
>)
    requires
        old(state).wf(),
    ensures
        final(state).wf(),
        r == Ok::<(), RegistryError>(()),
        initialize_post(*old(state), *final(state), caller@, msg.initial_oracle_ref@),
{
    state.initialize(caller.clone(), msg.initial_oracle_ref);
    Ok(())
}

/// Replaces the oracle reference, owner only.
pub fn try_set_oracle_ref(state: &mut Registry, caller: &Identity, new_oracle_ref: Identity) -> (r:
    Result<(), RegistryError>)
    requires
        old(state).wf(),
    ensures
        final(state).wf(),
        set_oracle_post(*old(state), *final(state), caller@, new_oracle_ref@, r),
{
    match authorize(state, caller) {
        Err(e) => Err(e),
        Ok(_) => {
            state.set_oracle_reference(new_oracle_ref);
            Ok(())
        },
    }
}

/// Persists the rate a fetch produced, owner only. `fetched` is the oracle's
/// reply as the host obtained it, or the remote failure, passed on verbatim;
/// the rate is stored only when everything up to and including the fetch
/// succeeded, so a failed call makes no partial write.
pub fn try_set_price(
    state: &mut Registry,
    caller: &Identity,
    symbol: String,
    fetched: Result<ReferenceData, String>,
) -> (r: Result<(), RegistryError>)
    requires
        old(state).wf(),
    ensures
        final(state).wf(),
        save_price_post(*old(state), *final(state), caller@, symbol@, fetched, r),
{
    match authorize(state, caller) {
        Err(e) => Err(e),
        Ok(_) => match state.get_oracle_reference() {
            Err(e) => Err(e),
            Ok(_) => match fetched {
                Err(detail) => Err(RegistryError::RemoteQueryFailed { detail }),
                Ok(reference_data) => {
                    state.put_price(symbol, reference_data.rate);
                    Ok(())
                },
            },
        },
    }
}

/// Routes a mutating request. A `SavePrice` request cannot finish on its
/// own: the returned [`ExecuteOutcome::FetchReference`] tells the host whom
/// to query, and [`try_set_price`] then takes the reply.
pub fn execute(state: &mut Registry, caller: &Identity, msg: ExecuteMsg) -> (r: Result<
    ExecuteOutcome,
    RegistryError,
>)
    requires
        old(state).wf(),
    ensures
        final(state).wf(),
        execute_post(*old(state), *final(state), caller@, msg, r),
{
    match msg {
        ExecuteMsg::SetOracleRef { new_oracle_ref } => {
            match try_set_oracle_ref(state, caller, new_oracle_ref) {
                Ok(_) => Ok(ExecuteOutcome::Completed),
                Err(e) => Err(e),
            }
        },
        ExecuteMsg::SavePrice { symbol } => {
            match authorize(state, caller) {
                Err(e) => Err(e),
                Ok(_) => match state.get_oracle_reference() {
                    Err(e) => Err(e),
                    Ok(oracle) => Ok(
                        ExecuteOutcome::FetchReference {
                            target: oracle.clone(),
                            request: QueryExtMsg::GetReferenceData {
                                base_symbol: symbol,
                                quote_symbol: quote_symbol(),
                            },
                        },
                    ),
                },
            }
        },
    }
}

/// Reads the owner; no authorization.
pub fn query_owner(state: &Registry) -> (r: Result<Identity, RegistryError>)
    ensures
        owner_query_post(*state, r),
{
    match state.get_owner() {
        Ok(id) => Ok(id.clone()),
        Err(e) => Err(e),
    }
}

/// Reads the oracle reference; no authorization.
pub fn query_oracle_ref(state: &Registry) -> (r: Result<Identity, RegistryError>)
    ensures
        oracle_query_post(*state, r),
{
    match state.get_oracle_reference() {
        Ok(id) => Ok(id.clone()),
        Err(e) => Err(e),
    }
}

/// Reads a cached rate; no authorization.
pub fn query_price(state: &Registry, symbol: String) -> (r: Result<u128, RegistryError>)
    requires
        state.wf(),
    ensures
        price_query_post(*state, symbol, r),
{
    state.get_price(&symbol)
}

/// Routes a read request to the matching read, touching nothing.
pub fn query(state: &Registry, msg: QueryMsg) -> (r: Result<QueryAnswer, RegistryError>)
    requires
        state.wf(),
    ensures
        match msg {
            QueryMsg::Owner {  } => match r {
                Ok(a) => a matches QueryAnswer::Owner(id) && state.owner_id() == Some(id@),
                Err(e) => state.owner_id() is None && e == RegistryError::Uninitialized,
            },
            QueryMsg::OracleRef {  } => match r {
                Ok(a) => a matches QueryAnswer::OracleRef(id) && state.oracle_id() == Some(id@),
                Err(e) => state.oracle_id() is None && e == RegistryError::Uninitialized,
            },
            QueryMsg::GetPrice { symbol } => match r {
                Ok(a) => a matches QueryAnswer::Price(v) && state.rates().contains_key(symbol@)
                    && v == state.rates()[symbol@],
                Err(e) => !state.rates().contains_key(symbol@) && e == (RegistryError::NotFound {
                    symbol,
                }),
            },
        },
{
    match msg {
        QueryMsg::Owner {  } => match query_owner(state) {
            Ok(id) => Ok(QueryAnswer::Owner(id)),
            Err(e) => Err(e),
        },
        QueryMsg::OracleRef {  } => match query_oracle_ref(state) {
            Ok(id) => Ok(QueryAnswer::OracleRef(id)),
            Err(e) => Err(e),
        },
        QueryMsg::GetPrice { symbol } => match query_price(state, symbol) {
            Ok(v) => Ok(QueryAnswer::Price(v)),
            Err(e) => Err(e),
        },
    }
}

/// Wraps a query's outcome for return: a domain error passes through
/// untouched — never conflated with an encoding problem — while a result the
/// host could not serialize is reported as [`RegistryError::EncodingFailed`].
pub fn encode_query_outcome(
    outcome: Result<QueryAnswer, RegistryError>,
    encoded: Option<Vec<u8>>,
) -> (r: Result<Vec<u8>, RegistryError>)
    ensures
        match outcome {
            Err(e) => r == Err::<Vec<u8>, RegistryError>(e),
            Ok(_) => match encoded {
                Some(b) => r == Ok::<Vec<u8>, RegistryError>(b),
                None => r == Err::<Vec<u8>, RegistryError>(RegistryError::EncodingFailed),
            },
        },
{
    match outcome {
        Err(e) => Err(e),
        Ok(_) => match encoded {
            Some(b) => Ok(b),
            None => Err(RegistryError::EncodingFailed),
        },
    }
}

} // verus!
