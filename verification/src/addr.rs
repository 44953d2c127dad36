//! Textual rendering of the destination addresses a CONNECT request can
//! carry, and big-endian 16-bit fields. The overlay client takes the
//! destination as host text, so raw IPv4 and IPv6 addresses are rendered
//! here: IPv4 as dotted decimal, IPv6 as eight uncompressed
//! colon-separated hexadecimal groups.

use vstd::prelude::*;

verus! {

/// The 16-bit value of two big-endian bytes.
pub open spec fn be16(b0: u8, b1: u8) -> u16 {
    (b0 * 256 + b1) as u16
}

/// Read a big-endian 16-bit field, as ports and DNS length prefixes are
/// encoded.
pub fn read_be16(b0: u8, b1: u8) -> (r: u16)
    ensures
        r == be16(b0, b1),
{
    b0 as u16 * 256 + b1 as u16
}

/// Write a 16-bit value as two big-endian bytes.
pub fn write_be16(v: u16) -> (r: [u8; 2])
    ensures
        r@ == seq![(v / 256) as u8, (v % 256) as u8],
        be16(r@[0], r@[1]) == v,
{
    [(v / 256) as u8, (v % 256) as u8]
}

/// Big-endian 16-bit fields round-trip.
pub proof fn lemma_be16_round_trip(b0: u8, b1: u8)
    ensures
        be16(b0, b1) / 256 == b0,
        be16(b0, b1) % 256 == b1,
{
}

/// The decimal digits of a byte, most significant first, no leading
/// zeros.
pub open spec fn dec_text(b: u8) -> Seq<u8> {
    if b < 10 {
        seq![(48 + b) as u8]
    } else if b < 100 {
        seq![(48 + b / 10) as u8, (48 + b % 10) as u8]
    } else {
        seq![(48 + b / 100) as u8, (48 + (b / 10) % 10) as u8, (48 + b % 10) as u8]
    }
}

/// Dotted-decimal text of a 4-byte IPv4 address.
pub open spec fn ipv4_text(a: Seq<u8>) -> Seq<u8>
    recommends
        a.len() == 4,
{
    dec_text(a[0]) + seq![46u8] + dec_text(a[1]) + seq![46u8] + dec_text(a[2]) + seq![46u8]
        + dec_text(a[3])
}

/// The lowercase hexadecimal digit for a value below 16.
pub open spec fn hex_digit(n: u8) -> u8 {
    if n < 10 {
        (48 + n) as u8
    } else {
        (87 + n) as u8
    }
}

/// Four hexadecimal digits of one 16-bit IPv6 group given as two bytes.
pub open spec fn hex_group(hi: u8, lo: u8) -> Seq<u8> {
    seq![hex_digit(hi / 16), hex_digit(hi % 16), hex_digit(lo / 16), hex_digit(lo % 16)]
}

/// Uncompressed lowercase-hexadecimal text of a 16-byte IPv6 address:
/// eight groups separated by colons.
pub open spec fn ipv6_text(a: Seq<u8>) -> Seq<u8>
    recommends
        a.len() == 16,
{
    hex_group(a[0], a[1]) + seq![58u8] + hex_group(a[2], a[3]) + seq![58u8] + hex_group(a[4], a[5])
        + seq![58u8] + hex_group(a[6], a[7]) + seq![58u8] + hex_group(a[8], a[9]) + seq![58u8]
        + hex_group(a[10], a[11]) + seq![58u8] + hex_group(a[12], a[13]) + seq![58u8] + hex_group(
        a[14],
        a[15],
    )
}

/// Append the decimal text of one byte.
fn push_dec(out: &mut Vec<u8>, b: u8)
    ensures
        final(out)@ == old(out)@ + dec_text(b),
{
    if b >= 100 {
        out.push(48 + b / 100);
        out.push(48 + (b / 10) % 10);
        out.push(48 + b % 10);
    } else if b >= 10 {
        out.push(48 + b / 10);
        out.push(48 + b % 10);
    } else {
        out.push(48 + b);
    }
    proof {
        assert(out@ =~= old(out)@ + dec_text(b));
    }
}

/// Render a 4-byte IPv4 address as dotted decimal.
pub fn ipv4_to_text(a: &[u8]) -> (r: Vec<u8>)
    requires
        a@.len() >= 4,
    ensures
        r@ == ipv4_text(a@.take(4)),
{
    let mut out: Vec<u8> = Vec::new();
    push_dec(&mut out, a[0]);
    out.push(46);
    push_dec(&mut out, a[1]);
    out.push(46);
    push_dec(&mut out, a[2]);
    out.push(46);
    push_dec(&mut out, a[3]);
    proof {
        assert(out@ =~= ipv4_text(a@.take(4)));
    }
    out
}

/// Append the four hexadecimal digits of one IPv6 group.
fn push_hex_group(out: &mut Vec<u8>, hi: u8, lo: u8)
    ensures
        final(out)@ == old(out)@ + hex_group(hi, lo),
{
    push_hex_digit(out, hi / 16);
    push_hex_digit(out, hi % 16);
    push_hex_digit(out, lo / 16);
    push_hex_digit(out, lo % 16);
    proof {
        assert(out@ =~= old(out)@ + hex_group(hi, lo));
    }
}

/// Append one lowercase hexadecimal digit.
fn push_hex_digit(out: &mut Vec<u8>, n: u8)
    requires
        n < 16,
    ensures
        final(out)@ == old(out)@ + seq![hex_digit(n)],
{
    if n < 10 {
        out.push(48 + n);
    } else {
        out.push(87 + n);
    }
    proof {
        assert(out@ =~= old(out)@ + seq![hex_digit(n)]);
    }
}

/// Render a 16-byte IPv6 address as eight colon-separated hexadecimal
/// groups.
pub fn ipv6_to_text(a: &[u8]) -> (r: Vec<u8>)
    requires
        a@.len() >= 16,
    ensures
        r@ == ipv6_text(a@.take(16)),
{
    let mut out: Vec<u8> = Vec::new();
    push_hex_group(&mut out, a[0], a[1]);
    out.push(58);
    push_hex_group(&mut out, a[2], a[3]);
    out.push(58);
    push_hex_group(&mut out, a[4], a[5]);
    out.push(58);
    push_hex_group(&mut out, a[6], a[7]);
    out.push(58);
    push_hex_group(&mut out, a[8], a[9]);
    out.push(58);
    push_hex_group(&mut out, a[10], a[11]);
    out.push(58);
    push_hex_group(&mut out, a[12], a[13]);
    out.push(58);
    push_hex_group(&mut out, a[14], a[15]);
    proof {
        assert(out@ =~= ipv6_text(a@.take(16)));
    }
    out
}

} // verus!
