use crate::contract::{
    execute_post, initialize_post, oracle_query_post, owner_query_post, price_query_post,
    quote_unit, save_price_post, set_oracle_post, ExecuteOutcome,
};
use crate::error::RegistryError;
use crate::identity::Identity;
use crate::msg::{ExecuteMsg, QueryExtMsg};
use crate::state::Registry;
use crate::struct_types::ReferenceData;
use vstd::prelude::*;

verus! {

/// After initialization by one identity, an oracle-reference mutation issued
/// by any other identity is refused as unauthorized and leaves the stored
/// reference exactly as it was.
pub proof fn law_foreign_mutation_refused(
    s0: Registry,
    s1: Registry,
    s2: Registry,
    a: Seq<u8>,
    b: Seq<u8>,
    first_ref: Seq<u8>,
    new_ref: Seq<u8>,
    r: Result<(), RegistryError>,
)
    requires
        a != b,
        initialize_post(s0, s1, a, first_ref),
        set_oracle_post(s1, s2, b, new_ref, r),
    ensures
        r == Err::<(), RegistryError>(RegistryError::Unauthorized),
        s2.oracle_id() == s1.oracle_id(),
        s2.oracle_id() == Some(first_ref),
{
}

/// Querying the owner of a registry that was never initialized reports the
/// uninitialized condition; after initialization it returns exactly the
/// identity that initialized.
pub proof fn law_owner_query(
    s0: Registry,
    s1: Registry,
    a: Seq<u8>,
    oracle: Seq<u8>,
    r0: Result<Identity, RegistryError>,
    r1: Result<Identity, RegistryError>,
)
    requires
        s0.owner_id() is None,
        owner_query_post(s0, r0),
        initialize_post(s0, s1, a, oracle),
        owner_query_post(s1, r1),
    ensures
        r0 == Err::<Identity, RegistryError>(RegistryError::Uninitialized),
        r1 matches Ok(id) && id@ == a,
{
}

/// A symbol with no saved rate is reported as missing, with the queried
/// symbol carried in the error — distinguishably from an entry that exists
/// but is zero, which is returned as the rate zero.
pub proof fn law_unsaved_symbol_not_found(
    s: Registry,
    symbol: String,
    r: Result<u128, RegistryError>,
)
    requires
        !s.rates().contains_key(symbol@),
        price_query_post(s, symbol, r),
    ensures
        r == Err::<u128, RegistryError>(RegistryError::NotFound { symbol }),
{
}

/// Once the owner replaces the oracle reference, both the reference query
/// and the routing of a later save use the new reference: the outbound
/// request targets it and asks for the symbol against the fixed quote unit.
pub proof fn law_new_reference_routes(
    s0: Registry,
    s1: Registry,
    s2: Registry,
    s3: Registry,
    owner: Seq<u8>,
    first_ref: Seq<u8>,
    new_ref: Seq<u8>,
    set_r: Result<(), RegistryError>,
    ref_query: Result<Identity, RegistryError>,
    symbol: String,
    exec_r: Result<ExecuteOutcome, RegistryError>,
)
    requires
        initialize_post(s0, s1, owner, first_ref),
        set_oracle_post(s1, s2, owner, new_ref, set_r),
        oracle_query_post(s2, ref_query),
        execute_post(s2, s3, owner, ExecuteMsg::SavePrice { symbol }, exec_r),
    ensures
        set_r == Ok::<(), RegistryError>(()),
        ref_query matches Ok(id) && id@ == new_ref,
        exec_r matches Ok(ExecuteOutcome::FetchReference { target, request }) && (target@
            == new_ref && (request matches QueryExtMsg::GetReferenceData {
            base_symbol,
            quote_symbol,
        } && base_symbol@ == symbol@ && quote_symbol@ == quote_unit())),
{
}

/// A failed remote fetch writes nothing: the save reports a failure — the
/// remote one verbatim, when authorization and the reference were in order —
/// and a price query afterwards still reports the symbol as missing.
pub proof fn law_failed_fetch_writes_nothing(
    pre: Registry,
    post: Registry,
    caller: Seq<u8>,
    symbol: String,
    detail: String,
    save_r: Result<(), RegistryError>,
    q: Result<u128, RegistryError>,
)
    requires
        save_price_post(pre, post, caller, symbol@, Err(detail), save_r),
        !pre.rates().contains_key(symbol@),
        price_query_post(post, symbol, q),
    ensures
        save_r is Err,
        post.rates() == pre.rates(),
        crate::access::authorize_decision(pre, caller) is Ok && pre.oracle_id() is Some
            ==> save_r == Err::<(), RegistryError>(RegistryError::RemoteQueryFailed { detail }),
        q == Err::<u128, RegistryError>(RegistryError::NotFound { symbol }),
{
}

/// Round trip: when a save accepts a fetched reply, a price query for that
/// symbol afterwards returns exactly the fetched rate.
pub proof fn law_round_trip(
    pre: Registry,
    post: Registry,
    caller: Seq<u8>,
    symbol: String,
    rd: ReferenceData,
    save_r: Result<(), RegistryError>,
    q: Result<u128, RegistryError>,
)
    requires
        save_price_post(pre, post, caller, symbol@, Ok(rd), save_r),
        save_r is Ok,
        price_query_post(post, symbol, q),
    ensures
        q == Ok::<u128, RegistryError>(rd.rate),
{
}

/// The freshness timestamps are consulted only transiently: two fetched
/// replies that agree on the rate drive a save to identical results and
/// identical registry state, whatever their timestamps.
pub proof fn law_timestamps_not_persisted(
    pre: Registry,
    post1: Registry,
    post2: Registry,
    caller: Seq<u8>,
    symbol: Seq<char>,
    rd1: ReferenceData,
    rd2: ReferenceData,
    r1: Result<(), RegistryError>,
    r2: Result<(), RegistryError>,
)
    requires
        rd1.rate == rd2.rate,
        save_price_post(pre, post1, caller, symbol, Ok(rd1), r1),
        save_price_post(pre, post2, caller, symbol, Ok(rd2), r2),
    ensures
        r1 == r2,
        post1.owner_id() == post2.owner_id(),
        post1.oracle_id() == post2.oracle_id(),
        post1.stored_prices() == post2.stored_prices(),
        post1.rates() == post2.rates(),
{
}

} // verus!
