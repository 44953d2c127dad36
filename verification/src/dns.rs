//! DNS-over-TCP forwarding logic: RFC 7766 framing (a 2-byte big-endian
//! length prefix), the 1..=4096 length bound on queries and responses,
//! and the boot-time resolver choice. The forwarder never transforms a
//! message — it relays the framed bytes as they are.

use crate::addr::{be16, write_be16};
use crate::entropy::random_u64;
use vstd::prelude::*;

verus! {

/// The largest DNS message the forwarder accepts, either direction.
pub const MAX_DNS_MESSAGE_LEN: u16 = 4096;

/// How many onion resolvers the forwarder can choose from at boot.
pub const DNS_RESOLVER_COUNT: usize = 2;

/// The port every configured resolver listens on.
pub const DNS_RESOLVER_PORT: u16 = 53;

/// A framed length is valid when it is neither zero nor above the bound.
pub open spec fn valid_dns_len(n: u16) -> bool {
    0 < n <= MAX_DNS_MESSAGE_LEN
}

/// Read and validate a frame's length prefix: the value of the two
/// big-endian bytes if it is in bounds, nothing otherwise.
pub fn parse_frame_len(b0: u8, b1: u8) -> (r: Option<u16>)
    ensures
        r == (if valid_dns_len(be16(b0, b1)) {
            Option::Some(be16(b0, b1))
        } else {
            Option::<u16>::None
        }),
{
    let n = crate::addr::read_be16(b0, b1);
    if n == 0 || n > MAX_DNS_MESSAGE_LEN {
        None
    } else {
        Some(n)
    }
}

/// Frame a message for DNS-over-TCP: its big-endian length, then the
/// message itself. Refuses empty or oversized messages.
pub fn frame_message(msg: &Vec<u8>) -> (r: Option<Vec<u8>>)
    ensures
        msg@.len() == 0 || msg@.len() > MAX_DNS_MESSAGE_LEN ==> r is None,
        0 < msg@.len() <= MAX_DNS_MESSAGE_LEN ==> {
            &&& r is Some
            &&& r->Some_0@ == seq![
                ((msg@.len() as u16) / 256) as u8,
                ((msg@.len() as u16) % 256) as u8,
            ] + msg@
            &&& be16(r->Some_0@[0], r->Some_0@[1]) == msg@.len()
        },
{
    let len = msg.len();
    if len == 0 || len > MAX_DNS_MESSAGE_LEN as usize {
        return None;
    }
    let prefix = write_be16(len as u16);
    let mut out: Vec<u8> = Vec::new();
    out.push(prefix[0]);
    out.push(prefix[1]);
    let mut i: usize = 0;
    while i < len
        invariant
            i <= len,
            len == msg@.len(),
            out@ == seq![((len as u16) / 256) as u8, ((len as u16) % 256) as u8] + msg@.take(
                i as int,
            ),
        decreases len - i,
    {
        out.push(msg[i]);
        proof {
            assert(msg@.take(i + 1) =~= msg@.take(i as int).push(msg@[i as int]));
            assert(out@ =~= seq![((len as u16) / 256) as u8, ((len as u16) % 256) as u8]
                + msg@.take(i + 1));
        }
        i = i + 1;
    }
    proof {
        assert(msg@.take(len as int) =~= msg@);
    }
    Some(out)
}

/// Framing round-trips: the length prefix written for a message parses
/// back to the message's length, and the frame's tail is the message,
/// byte for byte.
pub proof fn lemma_frame_round_trip(frame: Seq<u8>, msg: Seq<u8>)
    requires
        0 < msg.len() <= MAX_DNS_MESSAGE_LEN,
        frame == seq![((msg.len() as u16) / 256) as u8, ((msg.len() as u16) % 256) as u8] + msg,
    ensures
        valid_dns_len(be16(frame[0], frame[1])),
        be16(frame[0], frame[1]) == msg.len(),
        frame.skip(2) == msg,
{
    assert(frame.skip(2) =~= msg);
}

/// Pick which onion resolver this boot will use; the choice is made
/// once, so one process never rotates between resolvers.
pub fn select_resolver() -> (i: usize)
    ensures
        i < DNS_RESOLVER_COUNT,
{
    (random_u64() % (DNS_RESOLVER_COUNT as u64)) as usize
}

/// The onion resolver at a given index.
pub fn resolver_host(i: usize) -> (h: String)
    requires
        i < DNS_RESOLVER_COUNT,
    ensures
        h@ == resolver_host_text(i as int),
{
    if i == 0 {
        "dnslb5r4i6c5w5o7.onion".to_owned()
    } else {
        "resolver.dnscrypt.info.onion".to_owned()
    }
}

/// The host text of each onion resolver.
pub open spec fn resolver_host_text(i: int) -> Seq<char> {
    if i == 0 {
        "dnslb5r4i6c5w5o7.onion"@
    } else {
        "resolver.dnscrypt.info.onion"@
    }
}

/// The single clearnet fallback, used only when the chosen onion
/// resolver cannot be reached.
pub fn fallback_resolver_host() -> (h: String)
    ensures
        h@ == "1.1.1.1"@,
{
    "1.1.1.1".to_owned()
}

} // verus!
