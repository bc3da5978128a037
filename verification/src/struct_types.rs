use vstd::prelude::*;

verus! {

/// The oracle's reply to a reference-data query: the rate of the base symbol
/// against the quote unit, plus one freshness timestamp per side. Only the
/// rate is ever persisted; the timestamps are discarded after the fetch.
#[derive(Clone, Copy, PartialEq, Eq, Structural, Debug)]
pub struct ReferenceData {
    pub rate: u128,
    pub last_updated_base: u64,
    pub last_updated_quote: u64,
}

impl ReferenceData {
    pub fn new(rate: u128, last_updated_base: u64, last_updated_quote: u64) -> (r: ReferenceData)
        ensures
            r.rate == rate,
            r.last_updated_base == last_updated_base,
            r.last_updated_quote == last_updated_quote,
    {
        ReferenceData { rate, last_updated_base, last_updated_quote }
    }
}

} // verus!
