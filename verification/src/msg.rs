use crate::identity::Identity;
use vstd::prelude::*;

verus! {

/// The one-time setup request: the caller becomes the owner and the given
/// identity becomes the first oracle reference.
pub struct InstantiateMsg {
    pub initial_oracle_ref: Identity,
}

/// A mutating request; both variants are owner-gated.
pub enum ExecuteMsg {
    SetOracleRef { new_oracle_ref: Identity },
    SavePrice { symbol: String },
}

/// A read request; none of these is gated.
pub enum QueryMsg {
    Owner {},
    OracleRef {},
    GetPrice { symbol: String },
}

/// The outbound cross-service request the registry sends to the oracle.
#[derive(Debug)]
pub enum QueryExtMsg {
    GetReferenceData { base_symbol: String, quote_symbol: String },
}

} // verus!
