use crate::codec::{
    decode_rate, decoded_rate, encode_rate, is_rate_encoding, lemma_rate_round_trip,
    rate_le_bytes,
};
use crate::error::RegistryError;
use crate::identity::Identity;
use vstd::prelude::*;

verus! {

/// One cached record: a symbol and the persisted byte encoding of its rate.
struct PriceEntry {
    symbol: String,
    data: Vec<u8>,
}

spec fn keys_unique(s: Seq<PriceEntry>) -> bool {
    forall|i: int, j: int| 0 <= i < j < s.len() ==> s[i].symbol@ != s[j].symbol@
}

spec fn all_encodings(s: Seq<PriceEntry>) -> bool {
    forall|i: int| 0 <= i < s.len() ==> is_rate_encoding(#[trigger] s[i].data@)
}

spec fn entries_stored(s: Seq<PriceEntry>) -> Map<Seq<char>, Seq<u8>>
    decreases s.len(),
{
    if s.len() == 0 {
        Map::empty()
    } else {
        entries_stored(s.drop_last()).insert(s.last().symbol@, s.last().data@)
    }
}

proof fn lemma_stored_contains(s: Seq<PriceEntry>, k: Seq<char>)
    ensures
        entries_stored(s).contains_key(k) <==> exists|i: int|
            0 <= i < s.len() && s[i].symbol@ == k,
    decreases s.len(),
{
    if s.len() > 0 {
        lemma_stored_contains(s.drop_last(), k);
        if entries_stored(s).contains_key(k) {
            if s.last().symbol@ == k {
                assert(s[s.len() - 1].symbol@ == k);
            } else {
                let i = choose|i: int| 0 <= i < s.drop_last().len() && s.drop_last()[i].symbol@ == k;
                assert(s[i].symbol@ == k);
            }
        }
        if exists|i: int| 0 <= i < s.len() && s[i].symbol@ == k {
            let i = choose|i: int| 0 <= i < s.len() && s[i].symbol@ == k;
            if i < s.len() - 1 {
                assert(s.drop_last()[i].symbol@ == k);
            }
        }
    }
}

proof fn lemma_stored_value(s: Seq<PriceEntry>, i: int)
    requires
        keys_unique(s),
        0 <= i < s.len(),
    ensures
        entries_stored(s).contains_key(s[i].symbol@),
        entries_stored(s)[s[i].symbol@] == s[i].data@,
    decreases s.len(),
{
    if i == s.len() - 1 {
        lemma_stored_contains(s, s[i].symbol@);
    } else {
        assert(s.drop_last()[i] == s[i]);
        lemma_stored_value(s.drop_last(), i);
        assert(s[i].symbol@ != s.last().symbol@);
    }
}

proof fn lemma_stored_update(s: Seq<PriceEntry>, i: int, e: PriceEntry)
    requires
        keys_unique(s),
        0 <= i < s.len(),
        e.symbol@ == s[i].symbol@,
    ensures
        entries_stored(s.update(i, e)) == entries_stored(s).insert(e.symbol@, e.data@),
    decreases s.len(),
{
    let t = s.update(i, e);
    if i == s.len() - 1 {
        assert(t.drop_last() =~= s.drop_last());
        assert(t.last() == e);
        assert(entries_stored(t) == entries_stored(s.drop_last()).insert(e.symbol@, e.data@));
        assert(entries_stored(s.drop_last()).insert(e.symbol@, e.data@) =~= entries_stored(
            s,
        ).insert(e.symbol@, e.data@));
    } else {
        assert(t.drop_last() =~= s.drop_last().update(i, e));
        assert(t.last() == s.last());
        assert(s.drop_last()[i] == s[i]);
        lemma_stored_update(s.drop_last(), i, e);
        assert(entries_stored(t) == entries_stored(s.drop_last()).insert(
            e.symbol@,
            e.data@,
        ).insert(s.last().symbol@, s.last().data@));
        assert(e.symbol@ != s.last().symbol@);
        assert(entries_stored(s.drop_last()).insert(e.symbol@, e.data@).insert(
            s.last().symbol@,
            s.last().data@,
        ) =~= entries_stored(s).insert(e.symbol@, e.data@));
    }
}

proof fn lemma_stored_push(s: Seq<PriceEntry>, e: PriceEntry)
    ensures
        entries_stored(s.push(e)) == entries_stored(s).insert(e.symbol@, e.data@),
{
    assert(s.push(e).drop_last() =~= s);
    assert(s.push(e).last() == e);
}

/// A namespaced mapping from symbol to the last saved rate, persisted as a
/// fixed-width encoding. Entries are created and overwritten only by [`Self::put`],
/// never by a read.
pub struct PriceCache {
    entries: Vec<PriceEntry>,
}

impl PriceCache {
    /// The persisted table: each saved symbol's stored byte string.
    pub closed spec fn stored(self) -> Map<Seq<char>, Seq<u8>> {
        entries_stored(self.entries@)
    }

    /// The rates the table denotes, symbol by symbol.
    pub open spec fn rates(self) -> Map<Seq<char>, u128> {
        Map::new(
            |k: Seq<char>| self.stored().contains_key(k),
            |k: Seq<char>| decoded_rate(self.stored()[k]),
        )
    }

    /// Internal consistency: one entry per symbol, and every stored value is
    /// a well-formed fixed-width rate encoding.
    pub closed spec fn wf(self) -> bool {
        keys_unique(self.entries@) && all_encodings(self.entries@)
    }

    pub fn new() -> (r: PriceCache)
        ensures
            r.wf(),
            r.stored() == Map::<Seq<char>, Seq<u8>>::empty(),
            r.rates() == Map::<Seq<char>, u128>::empty(),
    {
        let r = PriceCache { entries: Vec::new() };
        proof {
            assert(r.entries@.len() == 0);
            assert(r.rates() =~= Map::<Seq<char>, u128>::empty());
        }
        r
    }

    fn find(&self, symbol: &String) -> (r: Option<usize>)
        ensures
            match r {
                Some(i) => i < self.entries@.len() && self.entries@[i as int].symbol@ == symbol@,
                None => forall|j: int|
                    0 <= j < self.entries@.len() ==> self.entries@[j].symbol@ != symbol@,
            },
    {
        let mut i: usize = 0;
        while i < self.entries.len()
            invariant
                i <= self.entries@.len(),
                forall|j: int| 0 <= j < i ==> self.entries@[j].symbol@ != symbol@,
            decreases self.entries@.len() - i,
        {
            if self.entries[i].symbol == *symbol {
                return Some(i);
            }
            i = i + 1;
        }
        None
    }

    /// Saves `rate` for `symbol`, fully replacing any prior entry. Zero and
    /// the maximum rate are both accepted; nothing is validated.
    pub fn put(&mut self, symbol: String, rate: u128)
        requires
            old(self).wf(),
        ensures
            final(self).wf(),
            final(self).stored() == old(self).stored().insert(symbol@, rate_le_bytes(rate)),
            final(self).rates() == old(self).rates().insert(symbol@, rate),
    {
        let ghost pre = *self;
        let data = encode_rate(rate);
        let entry = PriceEntry { symbol, data };
        let ghost entry_snap = entry;
        let found = self.find(&entry.symbol);
        match found {
            Some(i) => {
                proof {
                    lemma_stored_update(self.entries@, i as int, entry_snap);
                }
                self.entries[i] = entry;
                proof {
                    assert forall|j: int|
                        0 <= j < self.entries@.len() implies is_rate_encoding(
                        #[trigger] self.entries@[j].data@,
                    ) by {
                        if j == i as int {
                            assert(self.entries@[j].data@ == rate_le_bytes(rate));
                        } else {
                            assert(self.entries@[j] == pre.entries@[j]);
                            assert(is_rate_encoding(pre.entries@[j].data@));
                        }
                    }
                }
            },
            None => {
                proof {
                    lemma_stored_push(self.entries@, entry_snap);
                }
                self.entries.push(entry);
                proof {
                    assert forall|j: int|
                        0 <= j < self.entries@.len() implies is_rate_encoding(
                        #[trigger] self.entries@[j].data@,
                    ) by {
                        if j == pre.entries@.len() as int {
                            assert(self.entries@[j].data@ == rate_le_bytes(rate));
                        } else {
                            assert(self.entries@[j] == pre.entries@[j]);
                            assert(is_rate_encoding(pre.entries@[j].data@));
                        }
                    }
                }
            },
        }
        proof {
            assert(keys_unique(self.entries@));
            assert(all_encodings(self.entries@));
            lemma_rate_round_trip(rate);
            let lhs = self.rates();
            let rhs = pre.rates().insert(entry_snap.symbol@, rate);
            assert(lhs.dom() =~= rhs.dom());
            assert forall|x: Seq<char>| #[trigger] rhs.dom().contains(x) implies lhs[x] == rhs[x]
            by {
                if x == entry_snap.symbol@ {
                    lemma_rate_round_trip(rate);
                }
            }
            assert(lhs =~= rhs);
        }
    }

    /// Looks up the rate last saved for `symbol`; a symbol never saved is
    /// reported as missing, with the symbol carried in the error.
    pub fn get(&self, symbol: &String) -> (r: Result<u128, RegistryError>)
        requires
            self.wf(),
        ensures
            if self.rates().contains_key(symbol@) {
                r == Ok::<u128, RegistryError>(self.rates()[symbol@])
            } else {
                r == Err::<u128, RegistryError>(RegistryError::NotFound { symbol: *symbol })
            },
    {
        let found = self.find(symbol);
        match found {
            Some(i) => {
                proof {
                    lemma_stored_value(self.entries@, i as int);
                }
                let entry = &self.entries[i];
                proof {
                    assert(is_rate_encoding(self.entries@[i as int].data@));
                }
                let decoded = decode_rate(entry.data.as_slice());
                match decoded {
                    Some(v) => {
                        proof {
                            let v0 = choose|v0: u128| entry.data@ == rate_le_bytes(v0);
                            assert(decoded == Some(v0));
                            lemma_rate_round_trip(v0);
                            assert(self.rates()[symbol@] == decoded_rate(entry.data@));
                        }
                        Ok(v)
                    },
                    None => {
                        // A decode failure would be an internal inconsistency:
                        // this cache is the only writer of its entries. Under
                        // the invariant every stored value is some rate's
                        // encoding, on which the decoder cannot fail, so this
                        // arm is provably unreachable.
                        proof {
                            let v0 = choose|v0: u128| entry.data@ == rate_le_bytes(v0);
                            assert(decoded == Some(v0));
                            assert(false);
                        }
                        Err(RegistryError::CorruptEntry { symbol: symbol.clone() })
                    },
                }
            },
            None => {
                proof {
                    lemma_stored_contains(self.entries@, symbol@);
                }
                Err(RegistryError::NotFound { symbol: symbol.clone() })
            },
        }
    }
}

/// The registry's whole state: the two identity singletons and the price
/// cache. The host passes one value of this type into every call; there are
/// no globals and no sharing.
pub struct Registry {
    owner: Option<Identity>,
    oracle_ref: Option<Identity>,
    prices: PriceCache,
}

impl Registry {
    /// The stored owner identity, if one was ever written.
    pub closed spec fn owner_id(self) -> Option<Seq<u8>> {
        match self.owner {
            Some(id) => Some(id@),
            None => None,
        }
    }

    /// The stored oracle reference, if one was ever written.
    pub closed spec fn oracle_id(self) -> Option<Seq<u8>> {
        match self.oracle_ref {
            Some(id) => Some(id@),
            None => None,
        }
    }

    /// The persisted price table: symbol to stored byte string.
    pub closed spec fn stored_prices(self) -> Map<Seq<char>, Seq<u8>> {
        self.prices.stored()
    }

    /// The cached rates, symbol by symbol.
    pub closed spec fn rates(self) -> Map<Seq<char>, u128> {
        self.prices.rates()
    }

    /// Internal consistency of the price cache.
    pub closed spec fn wf(self) -> bool {
        self.prices.wf()
    }

    /// A registry with nothing written yet.
    pub fn new() -> (r: Registry)
        ensures
            r.wf(),
            r.owner_id() is None,
            r.oracle_id() is None,
            r.stored_prices() == Map::<Seq<char>, Seq<u8>>::empty(),
            r.rates() == Map::<Seq<char>, u128>::empty(),
    {
        Registry { owner: None, oracle_ref: None, prices: PriceCache::new() }
    }

    /// Writes both identity singletons unconditionally. There is no guard
    /// against being called twice: a second call silently overwrites both
    /// values. Enforcing a once-only lifecycle is the host's responsibility.
    pub fn initialize(&mut self, owner_identity: Identity, oracle_identity: Identity)
        requires
            old(self).wf(),
        ensures
            final(self).wf(),
            final(self).owner_id() == Some(owner_identity@),
            final(self).oracle_id() == Some(oracle_identity@),
            final(self).stored_prices() == old(self).stored_prices(),
            final(self).rates() == old(self).rates(),
    {
        self.owner = Some(owner_identity);
        self.oracle_ref = Some(oracle_identity);
    }

    /// Overwrites the oracle reference unconditionally. Caller authorization
    /// is enforced by access control before this is invoked, not here.
    pub fn set_oracle_reference(&mut self, new_identity: Identity)
        requires
            old(self).wf(),
        ensures
            final(self).wf(),
            final(self).owner_id() == old(self).owner_id(),
            final(self).oracle_id() == Some(new_identity@),
            final(self).stored_prices() == old(self).stored_prices(),
            final(self).rates() == old(self).rates(),
    {
        self.oracle_ref = Some(new_identity);
    }

    /// Reads the owner singleton; absent means the registry was never
    /// initialized.
    pub fn get_owner(&self) -> (r: Result<&Identity, RegistryError>)
        ensures
            match self.owner_id() {
                Some(b) => r matches Ok(id) && id@ == b,
                None => r == Err::<&Identity, RegistryError>(RegistryError::Uninitialized),
            },
    {
        match &self.owner {
            Some(id) => Ok(id),
            None => Err(RegistryError::Uninitialized),
        }
    }

    /// Reads the oracle-reference singleton; absent means it was never
    /// written.
    pub fn get_oracle_reference(&self) -> (r: Result<&Identity, RegistryError>)
        ensures
            match self.oracle_id() {
                Some(b) => r matches Ok(id) && id@ == b,
                None => r == Err::<&Identity, RegistryError>(RegistryError::Uninitialized),
            },
    {
        match &self.oracle_ref {
            Some(id) => Ok(id),
            None => Err(RegistryError::Uninitialized),
        }
    }

    /// Saves a rate into the price cache; see [`PriceCache::put`]. Like
    /// [`Self::set_oracle_reference`], this is the bare store operation:
    /// owner gating happens in the dispatcher before it is invoked.
    pub fn put_price(&mut self, symbol: String, rate: u128)
        requires
            old(self).wf(),
        ensures
            final(self).wf(),
            final(self).owner_id() == old(self).owner_id(),
            final(self).oracle_id() == old(self).oracle_id(),
            final(self).stored_prices() == old(self).stored_prices().insert(
                symbol@,
                rate_le_bytes(rate),
            ),
            final(self).rates() == old(self).rates().insert(symbol@, rate),
    {
        self.prices.put(symbol, rate);
    }

    /// Reads a cached rate; see [`PriceCache::get`].
    pub fn get_price(&self, symbol: &String) -> (r: Result<u128, RegistryError>)
        requires
            self.wf(),
        ensures
            if self.rates().contains_key(symbol@) {
                r == Ok::<u128, RegistryError>(self.rates()[symbol@])
            } else {
                r == Err::<u128, RegistryError>(RegistryError::NotFound { symbol: *symbol })
            },
    {
        self.prices.get(symbol)
    }
}

} // verus!
