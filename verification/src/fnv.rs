//! 64-bit FNV-1a, the non-cryptographic hash used to derive isolation
//! keys from client credentials or destination hosts. Keys only decide
//! which circuit-isolation token a session receives; they authenticate
//! nothing.

use vstd::prelude::*;

verus! {

pub const FNV_OFFSET_BASIS: u64 = 0xcbf29ce484222325;

pub const FNV_PRIME: u64 = 0x100000001b3;

/// One FNV-1a round: xor the byte in, multiply by the prime modulo 2^64.
pub open spec fn fnv1a_update(h: u64, b: u8) -> u64 {
    vstd::wrapping::u64_specs::wrapping_mul(h ^ (b as u64), FNV_PRIME)
}

/// Absorb a byte sequence into an FNV-1a accumulator, first byte first.
pub open spec fn fnv1a_absorb(h: u64, s: Seq<u8>) -> u64
    decreases s.len(),
{
    if s.len() == 0 {
        h
    } else {
        fnv1a_absorb(fnv1a_update(h, s[0]), s.drop_first())
    }
}

/// The FNV-1a digest of a byte sequence.
pub open spec fn fnv1a(s: Seq<u8>) -> u64 {
    fnv1a_absorb(FNV_OFFSET_BASIS, s)
}

pub proof fn lemma_absorb_push(h: u64, s: Seq<u8>, b: u8)
    ensures
        fnv1a_absorb(h, s.push(b)) == fnv1a_update(fnv1a_absorb(h, s), b),
    decreases s.len(),
{
    if s.len() == 0 {
        assert(s.push(b)[0] == b);
        assert(s.push(b).drop_first() =~= Seq::<u8>::empty());
        assert(fnv1a_absorb(h, s.push(b)) == fnv1a_absorb(fnv1a_update(h, b), Seq::<u8>::empty()));
    } else {
        assert(s.push(b)[0] == s[0]);
        assert(s.push(b).drop_first() =~= s.drop_first().push(b));
        lemma_absorb_push(fnv1a_update(h, s[0]), s.drop_first(), b);
        assert(fnv1a_absorb(h, s.push(b)) == fnv1a_absorb(
            fnv1a_update(h, s[0]),
            s.drop_first().push(b),
        ));
    }
}

/// Absorbing a concatenation equals absorbing its parts in order: the
/// ground for hashing credentials as one stream, username first.
pub proof fn lemma_absorb_concat(h: u64, a: Seq<u8>, b: Seq<u8>)
    ensures
        fnv1a_absorb(h, a + b) == fnv1a_absorb(fnv1a_absorb(h, a), b),
    decreases a.len(),
{
    if a.len() == 0 {
        assert(a + b =~= b);
    } else {
        assert((a + b)[0] == a[0]);
        assert((a + b).drop_first() =~= a.drop_first() + b);
        lemma_absorb_concat(fnv1a_update(h, a[0]), a.drop_first(), b);
    }
}

/// Absorb a byte slice into an FNV-1a accumulator.
pub fn fnv1a_extend(h: u64, data: &[u8]) -> (r: u64)
    ensures
        r == fnv1a_absorb(h, data@),
{
    let mut acc: u64 = h;
    let n: usize = data.len();
    let mut i: usize = 0;
    while i < n
        invariant
            n == data@.len(),
            i <= n,
            acc == fnv1a_absorb(h, data@.take(i as int)),
        decreases n - i,
    {
        proof {
            assert(data@.take(i + 1) =~= data@.take(i as int).push(data@[i as int]));
            lemma_absorb_push(h, data@.take(i as int), data@[i as int]);
        }
        acc = (acc ^ (data[i] as u64)).wrapping_mul(FNV_PRIME);
        i = i + 1;
    }
    proof {
        assert(data@.take(n as int) =~= data@);
    }
    acc
}

/// The FNV-1a digest of a byte slice.
pub fn fnv1a_digest(data: &[u8]) -> (r: u64)
    ensures
        r == fnv1a(data@),
{
    fnv1a_extend(FNV_OFFSET_BASIS, data)
}

} // verus!
