use vstd::prelude::*;

verus! {

/// The closed set of failure kinds the registry can report.
///
/// Every error is terminal for the call that produced it, and every kind is
/// distinguishable at the caller boundary; no partial state change survives
/// any of them.
#[derive(Debug, PartialEq, Eq)]
pub enum RegistryError {
    /// The owner or the oracle reference was never written.
    Uninitialized,
    /// The caller is not the stored owner.
    Unauthorized,
    /// No rate has ever been saved for this symbol.
    NotFound { symbol: String },
    /// The oracle's remote query failed; the reason is passed on verbatim.
    RemoteQueryFailed { detail: String },
    /// A query result could not be serialized for return.
    EncodingFailed,
    /// A stored entry for this symbol is not a well-formed rate encoding.
    /// The cache is the only writer of its entries, so this signals an
    /// internal inconsistency rather than a caller mistake.
    CorruptEntry { symbol: String },
}

} // verus!
