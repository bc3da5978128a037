use vstd::arithmetic::div_mod::lemma_fundamental_div_mod;
use vstd::prelude::*;

verus! {

/// Width in bytes of the persisted rate encoding.
pub const RATE_WIDTH: usize = 16;

/// The little-endian byte string of width `n` denoting `v`: low byte first.
pub open spec fn le_bytes_of(v: nat, n: nat) -> Seq<u8>
    decreases n,
{
    if n == 0 {
        Seq::empty()
    } else {
        seq![(v % 256) as u8] + le_bytes_of(v / 256, (n - 1) as nat)
    }
}

/// The value a little-endian byte string denotes.
pub open spec fn le_value_of(b: Seq<u8>) -> nat
    decreases b.len(),
{
    if b.len() == 0 {
        0
    } else {
        b[0] as nat + 256 * le_value_of(b.subrange(1, b.len() as int))
    }
}

/// One more than the largest value a byte string of width `n` can denote.
pub open spec fn byte_bound(n: nat) -> nat
    decreases n,
{
    if n == 0 {
        1
    } else {
        256 * byte_bound((n - 1) as nat)
    }
}

/// The persisted form of a rate: exactly [`RATE_WIDTH`] little-endian bytes.
pub open spec fn rate_le_bytes(rate: u128) -> Seq<u8> {
    le_bytes_of(rate as nat, RATE_WIDTH as nat)
}

/// The rate a stored byte string denotes.
pub open spec fn decoded_rate(b: Seq<u8>) -> u128 {
    le_value_of(b) as u128
}

/// Whether a byte string is the encoding of some rate.
pub open spec fn is_rate_encoding(b: Seq<u8>) -> bool {
    exists|v: u128| b == rate_le_bytes(v)
}

pub proof fn lemma_le_bytes_len(v: nat, n: nat)
    ensures
        le_bytes_of(v, n).len() == n,
    decreases n,
{
    if n > 0 {
        lemma_le_bytes_len(v / 256, (n - 1) as nat);
    }
}

/// Decoding inverts encoding for every value the width can hold.
pub proof fn lemma_le_round_trip(v: nat, n: nat)
    requires
        v < byte_bound(n),
    ensures
        le_value_of(le_bytes_of(v, n)) == v,
    decreases n,
{
    if n == 0 {
    } else {
        let rest = le_bytes_of(v / 256, (n - 1) as nat);
        let whole = seq![(v % 256) as u8] + rest;
        lemma_le_bytes_len(v / 256, (n - 1) as nat);
        assert(whole.subrange(1, whole.len() as int) =~= rest);
        assert(v / 256 < byte_bound((n - 1) as nat)) by {
            lemma_fundamental_div_mod(v as int, 256);
        }
        lemma_le_round_trip(v / 256, (n - 1) as nat);
        assert(le_value_of(whole) == v % 256 + 256 * (v / 256));
        assert(v % 256 + 256 * (v / 256) == v) by {
            lemma_fundamental_div_mod(v as int, 256);
        }
    }
}

/// Every `u128` fits in the fixed width, so its encoding decodes to itself.
pub proof fn lemma_rate_round_trip(rate: u128)
    ensures
        le_value_of(rate_le_bytes(rate)) == rate,
        rate_le_bytes(rate).len() == RATE_WIDTH,
{
    assert(byte_bound(16) == 0x100000000000000000000000000000000) by {
        reveal_with_fuel(byte_bound, 17);
    }
    lemma_le_round_trip(rate as nat, RATE_WIDTH as nat);
    lemma_le_bytes_len(rate as nat, RATE_WIDTH as nat);
}

/// Relies on `bincode::serialize`: under bincode's default configuration
/// (fixed-width integers, little-endian) a `u128` is written as exactly its
/// 16 little-endian bytes, and serialization into a fresh vector cannot fail.
#[verifier::external_body]
pub(crate) fn encode_rate(rate: u128) -> (r: Vec<u8>)
    ensures
        r@ == rate_le_bytes(rate),
{
    bincode::serialize(&rate).unwrap()
}

/// Relies on `bincode::deserialize::<u128>`: under the default configuration
/// it reads exactly 16 little-endian bytes, so on a buffer that is the
/// encoding of `v` it returns `v`; any read failure is surfaced as `None`.
#[verifier::external_body]
pub(crate) fn decode_rate(data: &[u8]) -> (r: Option<u128>)
    ensures
        forall|v: u128| data@ == rate_le_bytes(v) ==> r == Some(v),
{
    bincode::deserialize::<u128>(data).ok()
}

} // verus!
