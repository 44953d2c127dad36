//! Zero-residue discipline: every buffer that carried credentials,
//! destination bytes, or relay payload is overwritten with zeros as soon
//! as its contents have been consumed.

use vstd::prelude::*;

verus! {

/// Holds when the first `n` bytes of `s` are zero.
pub open spec fn zeroed_prefix(s: Seq<u8>, n: int) -> bool {
    forall|i: int| 0 <= i < n ==> s[i] == 0u8
}

/// Holds when every byte of `s` is zero.
pub open spec fn all_zero(s: Seq<u8>) -> bool {
    zeroed_prefix(s, s.len() as int)
}

/// Relies on zeroize: zeroizing a `[u8]` slice overwrites every element
/// with zero and cannot change its length.
#[verifier::external_body]
pub fn wipe_prefix(buf: &mut Vec<u8>, n: usize)
    requires
        n <= old(buf)@.len(),
    ensures
        final(buf)@.len() == old(buf)@.len(),
        zeroed_prefix(final(buf)@, n as int),
        forall|i: int| n <= i < final(buf)@.len() ==> final(buf)@[i] == old(buf)@[i],
{
    zeroize::Zeroize::zeroize(&mut buf[..n]);
}

/// Overwrite a whole buffer with zeros, keeping its length.
pub fn wipe(buf: &mut Vec<u8>)
    ensures
        final(buf)@.len() == old(buf)@.len(),
        all_zero(final(buf)@),
{
    let n = buf.len();
    wipe_prefix(buf, n);
}

} // verus!
