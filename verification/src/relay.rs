//! The splice buffers. Each relay direction owns one fixed-size buffer;
//! the caller reads client or overlay bytes into it, emits the filled
//! prefix (which hands back exactly the bytes read), and the emit itself
//! zeroes the buffer before the next read. No payload byte outlives its
//! forwarding.

use crate::wipe::{all_zero, wipe_prefix, zeroed_prefix};
use vstd::prelude::*;

verus! {

/// The fixed relay chunk size.
pub const RELAY_BUF_LEN: usize = 8192;

/// One direction's relay buffer.
pub struct RelayBuffer {
    /// The backing storage; the caller reads stream bytes into it and
    /// must keep its length fixed.
    pub data: Vec<u8>,
}

impl RelayBuffer {
    pub open spec fn wf(&self) -> bool {
        self.data@.len() == RELAY_BUF_LEN
    }

    /// A fresh, all-zero buffer.
    pub fn new() -> (r: RelayBuffer)
        ensures
            r.wf(),
            all_zero(r.data@),
    {
        let mut data: Vec<u8> = Vec::new();
        let mut i: usize = 0;
        while i < RELAY_BUF_LEN
            invariant
                i <= RELAY_BUF_LEN,
                data@.len() == i,
                all_zero(data@),
            decreases RELAY_BUF_LEN - i,
        {
            data.push(0);
            i = i + 1;
        }
        RelayBuffer { data }
    }

    /// Hand out the first `n` bytes — exactly the bytes last read into
    /// the buffer — and zero them before the next read.
    pub fn emit_prefix(&mut self, n: usize) -> (out: Vec<u8>)
        requires
            old(self).wf(),
            n <= RELAY_BUF_LEN,
        ensures
            final(self).wf(),
            out@ == old(self).data@.take(n as int),
            zeroed_prefix(final(self).data@, n as int),
            forall|i: int|
                n <= i < RELAY_BUF_LEN ==> final(self).data@[i] == old(self).data@[i],
    {
        let mut out: Vec<u8> = Vec::new();
        let mut i: usize = 0;
        while i < n
            invariant
                i <= n,
                n <= self.data@.len(),
                self.data@ == old(self).data@,
                out@ == self.data@.take(i as int),
            decreases n - i,
        {
            out.push(self.data[i]);
            proof {
                assert(self.data@.take(i + 1) =~= self.data@.take(i as int).push(
                    self.data@[i as int],
                ));
            }
            i = i + 1;
        }
        wipe_prefix(&mut self.data, n);
        out
    }

    /// Zero the whole buffer, as each direction does when its side of
    /// the splice ends.
    pub fn wipe_all(&mut self)
        requires
            old(self).wf(),
        ensures
            final(self).wf(),
            all_zero(final(self).data@),
    {
        let n = self.data.len();
        wipe_prefix(&mut self.data, n);
    }
}

} // verus!
