use vstd::prelude::*;

verus! {

/// A canonical identity: the resolved, injective form of an address.
///
/// Callers are compared to the stored owner by exact equality over this
/// canonical encoding, never over a human-readable alias. Resolving an alias
/// to its canonical form is the host's job; the registry only ever sees and
/// stores values of this type.
#[derive(Debug)]
pub struct Identity {
    bytes: Vec<u8>,
}

impl View for Identity {
    type V = Seq<u8>;

    closed spec fn view(&self) -> Seq<u8> {
        self.bytes@
    }
}

impl Identity {
    /// Wraps an already-canonical byte string.
    pub fn new(bytes: Vec<u8>) -> (r: Identity)
        ensures
            r@ == bytes@,
    {
        Identity { bytes }
    }

    /// The canonical byte string itself.
    pub fn as_bytes(&self) -> (r: &Vec<u8>)
        ensures
            r@ == self@,
    {
        &self.bytes
    }

    /// Exact equality over the canonical encoding.
    pub fn same_as(&self, other: &Identity) -> (r: bool)
        ensures
            r == (self@ == other@),
    {
        let r = self.bytes == other.bytes;
        proof {
            if r {
                assert(self.bytes@ =~= other.bytes@);
            } else {
                if self.bytes@ == other.bytes@ {
                    assert(self.bytes@.len() == other.bytes@.len());
                    assert(forall|i: int|
                        0 <= i < self.bytes@.len() ==> self.bytes@[i] == other.bytes@[i]);
                }
            }
        }
        r
    }
}

impl Clone for Identity {
    fn clone(&self) -> (r: Identity)
        ensures
            r@ == self@,
    {
        let bytes = self.bytes.clone();
        proof {
            assert(bytes@ =~= self.bytes@);
        }
        Identity { bytes }
    }
}

} // verus!
