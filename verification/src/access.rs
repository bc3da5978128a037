use crate::error::RegistryError;
use crate::identity::Identity;
use crate::state::Registry;
use vstd::prelude::*;

verus! {

/// What authorization decides: absent owner is reported as uninitialized —
/// propagated, not masked — and any caller other than the owner is refused.
/// The comparison is exact equality over the canonical identity encoding.
pub open spec fn authorize_decision(s: Registry, caller: Seq<u8>) -> Result<(), RegistryError> {
    match s.owner_id() {
        None => Err(RegistryError::Uninitialized),
        Some(owner) => if caller == owner {
            Ok(())
        } else {
            Err(RegistryError::Unauthorized)
        },
    }
}

/// Permits a mutation only to the stored owner.
pub fn authorize(state: &Registry, caller: &Identity) -> (r: Result<(), RegistryError>)
    ensures
        r == authorize_decision(*state, caller@),
{
    match state.get_owner() {
        Err(e) => Err(e),
        Ok(owner_identity) => {
            if caller.same_as(owner_identity) {
                Ok(())
            } else {
                Err(RegistryError::Unauthorized)
            }
        },
    }
}

} // verus!
