//! The per-connection SOCKS5 state machine. The caller owns the socket:
//! it reads exactly the number of bytes the machine asks for, hands them
//! to `step`, writes whatever reply comes back, and obeys the returned
//! action (read more, connect through the overlay, relay, or close).
//! Every transition is fixed by `step_rel`; every buffer handed in comes
//! back zeroed; credentials are absorbed into a running hash and never
//! stored.
//!
//! Supported surface: methods `0x00` (no auth) and `0x02` (user/pass as
//! an isolation key only), command CONNECT, address types IPv4,
//! DOMAINNAME and IPv6. Every protocol error is answered with one
//! uniform generic-failure reply.

use crate::addr::{be16, ipv4_text, ipv6_text, ipv4_to_text, ipv6_to_text, read_be16};
use crate::fnv::{fnv1a, fnv1a_absorb, fnv1a_extend, lemma_absorb_concat, FNV_OFFSET_BASIS};
use crate::wipe::{all_zero, wipe};
use vstd::prelude::*;

verus! {

pub const SOCKS_VERSION: u8 = 0x05;

pub const METHOD_NO_AUTH: u8 = 0x00;

pub const METHOD_USERPASS: u8 = 0x02;

pub const METHOD_NO_ACCEPTABLE: u8 = 0xFF;

pub const CMD_CONNECT: u8 = 0x01;

pub const ATYP_IPV4: u8 = 0x01;

pub const ATYP_DOMAIN: u8 = 0x03;

pub const ATYP_IPV6: u8 = 0x04;

/// The whole handshake (greeting through overlay connect) must finish
/// within this budget; exceeding it is a handshake failure.
pub const HANDSHAKE_TIMEOUT_MS: u64 = 10000;

#[derive(Clone, Copy, Debug, PartialEq, Eq, Structural)]
pub enum SessionState {
    /// Expect `ver | nmethods`.
    Greeting,
    /// Expect `nmethods` method bytes.
    Methods { nmethods: u8 },
    /// Expect `ver | ulen` of the user/pass sub-negotiation.
    AuthHeader,
    /// Expect `ulen` username bytes.
    AuthUsername { ulen: u8 },
    /// Expect the password length byte.
    AuthPasswordLen,
    /// Expect `plen` password bytes.
    AuthPassword { plen: u8 },
    /// Expect `ver | cmd | rsv | atyp`.
    Request,
    /// Expect a 4-byte IPv4 address and a 2-byte port.
    Ipv4Dest,
    /// Expect the domain length byte.
    DomainLen,
    /// Expect `dlen` domain bytes and a 2-byte port.
    DomainDest { dlen: u8 },
    /// Expect a 16-byte IPv6 address and a 2-byte port.
    Ipv6Dest,
    /// Destination parsed; awaiting the overlay connect outcome.
    Ready,
    /// Handshake done; both directions are being spliced.
    Relaying,
    /// A protocol error or a failed connect ended the session.
    Failed,
}

impl SessionState {
    /// Whether the machine expects more client bytes in this state.
    pub open spec fn is_reading(self) -> bool {
        !(self is Ready || self is Relaying || self is Failed)
    }

    /// How many bytes the machine expects next.
    pub open spec fn read_len(self) -> int {
        match self {
            SessionState::Greeting => 2,
            SessionState::Methods { nmethods } => nmethods as int,
            SessionState::AuthHeader => 2,
            SessionState::AuthUsername { ulen } => ulen as int,
            SessionState::AuthPasswordLen => 1,
            SessionState::AuthPassword { plen } => plen as int,
            SessionState::Request => 4,
            SessionState::Ipv4Dest => 6,
            SessionState::DomainLen => 1,
            SessionState::DomainDest { dlen } => dlen + 2,
            SessionState::Ipv6Dest => 18,
            _ => 0,
        }
    }
}

/// What the caller must do after a step.
#[derive(Clone, Copy, Debug, PartialEq, Eq, Structural)]
pub enum NextIo {
    /// Read exactly `n` bytes and call `step` again.
    Read { n: usize },
    /// Open the overlay stream to the parsed destination, then call
    /// `finish_connect`.
    Connect,
    /// Splice client and overlay streams until either side ends.
    Relay,
    /// Close the connection.
    Close,
}

/// One step's output: bytes owed to the client, then the next action.
pub struct StepOutcome {
    pub reply: Option<Vec<u8>>,
    pub next: NextIo,
}

/// The reply bytes as a ghost option of a byte sequence.
pub open spec fn reply_view(out: StepOutcome) -> Option<Seq<u8>> {
    match out.reply {
        Option::Some(v) => Option::Some(v@),
        Option::None => Option::None,
    }
}

/// `05 <method>`: the method-selection answer.
pub open spec fn method_reply(m: u8) -> Seq<u8> {
    seq![SOCKS_VERSION, m]
}

/// `05 FF`: no offered method is acceptable.
pub open spec fn no_method_reply() -> Seq<u8> {
    seq![SOCKS_VERSION, METHOD_NO_ACCEPTABLE]
}

/// `01 00`: sub-negotiation success (credentials are always accepted;
/// they only key isolation).
pub open spec fn auth_ok_reply() -> Seq<u8> {
    seq![1u8, 0u8]
}

/// The one success reply, BND fields zeroed.
pub open spec fn success_reply() -> Seq<u8> {
    seq![SOCKS_VERSION, 0u8, 0u8, 1u8, 0u8, 0u8, 0u8, 0u8, 0u8, 0u8]
}

/// The one generic-failure reply; no more specific code is ever sent.
pub open spec fn failure_reply() -> Seq<u8> {
    seq![SOCKS_VERSION, 1u8, 0u8, 1u8, 0u8, 0u8, 0u8, 0u8, 0u8, 0u8]
}

/// Whether `s` holds the byte `b`.
pub open spec fn contains_byte(s: Seq<u8>, b: u8) -> bool {
    exists|i: int| 0 <= i < s.len() && s[i] == b
}

proof fn lemma_contains_push(s: Seq<u8>, x: u8, b: u8)
    ensures
        contains_byte(s.push(x), b) == (contains_byte(s, b) || x == b),
{
    if contains_byte(s, b) {
        let i = choose|i: int| 0 <= i < s.len() && s[i] == b;
        assert(s.push(x)[i] == b);
    }
    if x == b {
        assert(s.push(x)[s.len() as int] == b);
    }
    if contains_byte(s.push(x), b) {
        let i = choose|i: int| 0 <= i < s.push(x).len() && s.push(x)[i] == b;
        if i < s.len() {
            assert(s[i] == b);
        }
    }
}

/// Method preference: user/pass if offered (so one client can segregate
/// circuits per identity), else no-auth, else nothing is acceptable.
pub open spec fn chosen_method(methods: Seq<u8>) -> u8 {
    if contains_byte(methods, METHOD_USERPASS) {
        METHOD_USERPASS
    } else if contains_byte(methods, METHOD_NO_AUTH) {
        METHOD_NO_AUTH
    } else {
        METHOD_NO_ACCEPTABLE
    }
}

/// How a session's isolation token must be chosen.
#[derive(Clone, Copy, Debug, PartialEq, Eq, Structural)]
pub enum IsolationSelector {
    /// Credentials were offered: key is their hash.
    Credentials { key: u64 },
    /// No credentials, per-domain isolation on: key is the host hash.
    Domain { key: u64 },
    /// Neither: the process-wide shared token.
    SharedDefault,
}

pub struct SocksSession {
    pub state: SessionState,
    /// Whether sessions without credentials are isolated per
    /// destination host.
    pub auto_isolate: bool,
    /// Running FNV-1a over `username ++ password`.
    pub cred_acc: u64,
    /// Whether the user/pass sub-negotiation completed.
    pub has_creds: bool,
    /// The credential bytes absorbed so far; they exist only in ghost
    /// form, the real bytes are zeroed as each step consumes them.
    pub cred_bytes: Ghost<Seq<u8>>,
    /// The destination host as text, zeroed once the connect returns.
    pub dest_host: Vec<u8>,
    pub dest_port: u16,
}

impl SocksSession {
    /// The credential accumulator always equals the hash of the bytes
    /// absorbed so far.
    pub open spec fn wf(&self) -> bool {
        self.cred_acc == fnv1a_absorb(FNV_OFFSET_BASIS, self.cred_bytes@)
    }

    pub fn new(auto_isolate: bool) -> (s: SocksSession)
        ensures
            s.wf(),
            s.state == SessionState::Greeting,
            s.auto_isolate == auto_isolate,
            !s.has_creds,
            s.cred_bytes@ == Seq::<u8>::empty(),
            s.dest_host@ == Seq::<u8>::empty(),
    {
        SocksSession {
            state: SessionState::Greeting,
            auto_isolate,
            cred_acc: FNV_OFFSET_BASIS,
            has_creds: false,
            cred_bytes: Ghost(Seq::empty()),
            dest_host: Vec::new(),
            dest_port: 0,
        }
    }

    /// How many bytes to read before the next `step` call.
    pub fn next_read_len(&self) -> (n: usize)
        requires
            self.state.is_reading(),
        ensures
            n == self.state.read_len(),
    {
        match self.state {
            SessionState::Greeting => 2,
            SessionState::Methods { nmethods } => nmethods as usize,
            SessionState::AuthHeader => 2,
            SessionState::AuthUsername { ulen } => ulen as usize,
            SessionState::AuthPasswordLen => 1,
            SessionState::AuthPassword { plen } => plen as usize,
            SessionState::Request => 4,
            SessionState::Ipv4Dest => 6,
            SessionState::DomainLen => 1,
            SessionState::DomainDest { dlen } => dlen as usize + 2,
            SessionState::Ipv6Dest => 18,
            _ => 0,
        }
    }
}

/// Configuration and credential fields unchanged across a step.
pub open spec fn same_creds(pre: SocksSession, post: SocksSession) -> bool {
    &&& post.cred_acc == pre.cred_acc
    &&& post.has_creds == pre.has_creds
    &&& post.cred_bytes@ == pre.cred_bytes@
}

pub open spec fn same_dest(pre: SocksSession, post: SocksSession) -> bool {
    &&& post.dest_host@ == pre.dest_host@
    &&& post.dest_port == pre.dest_port
}

/// A protocol error: the uniform generic-failure reply, then close.
pub open spec fn failed_step(
    pre: SocksSession,
    post: SocksSession,
    reply: Option<Seq<u8>>,
    next: NextIo,
) -> bool {
    &&& post.state is Failed
    &&& same_creds(pre, post)
    &&& same_dest(pre, post)
    &&& post.auto_isolate == pre.auto_isolate
    &&& reply == Option::Some(failure_reply())
    &&& next == NextIo::Close
}

/// The transition relation of the SOCKS5 handshake: given the state
/// before a step and the bytes just read, it fixes the state after, the
/// reply owed to the client, and the next action.
pub open spec fn step_rel(
    pre: SocksSession,
    input: Seq<u8>,
    post: SocksSession,
    reply: Option<Seq<u8>>,
    next: NextIo,
) -> bool {
    &&& post.auto_isolate == pre.auto_isolate
    &&& match pre.state {
        SessionState::Greeting => {
            if input[0] != SOCKS_VERSION {
                failed_step(pre, post, reply, next)
            } else {
                &&& post.state == (SessionState::Methods { nmethods: input[1] })
                &&& same_creds(pre, post)
                &&& same_dest(pre, post)
                &&& reply is None
                &&& next == (NextIo::Read { n: input[1] as usize })
            }
        },
        SessionState::Methods { nmethods } => {
            let m = chosen_method(input);
            if m == METHOD_NO_ACCEPTABLE {
                &&& post.state is Failed
                &&& same_creds(pre, post)
                &&& same_dest(pre, post)
                &&& reply == Option::Some(no_method_reply())
                &&& next == NextIo::Close
            } else {
                &&& post.state == (if m == METHOD_USERPASS {
                    SessionState::AuthHeader
                } else {
                    SessionState::Request
                })
                &&& same_creds(pre, post)
                &&& same_dest(pre, post)
                &&& reply == Option::Some(method_reply(m))
                &&& next == (NextIo::Read {
                    n: if m == METHOD_USERPASS {
                        2
                    } else {
                        4
                    },
                })
            }
        },
        SessionState::AuthHeader => {
            // The sub-negotiation version byte is not validated:
            // credentials only key isolation.
            &&& post.state == (SessionState::AuthUsername { ulen: input[1] })
            &&& same_creds(pre, post)
            &&& same_dest(pre, post)
            &&& reply is None
            &&& next == (NextIo::Read { n: input[1] as usize })
        },
        SessionState::AuthUsername { ulen } => {
            &&& post.state == SessionState::AuthPasswordLen
            &&& post.cred_acc == fnv1a_absorb(pre.cred_acc, input)
            &&& post.cred_bytes@ == pre.cred_bytes@ + input
            &&& post.has_creds == pre.has_creds
            &&& same_dest(pre, post)
            &&& reply is None
            &&& next == (NextIo::Read { n: 1 })
        },
        SessionState::AuthPasswordLen => {
            &&& post.state == (SessionState::AuthPassword { plen: input[0] })
            &&& same_creds(pre, post)
            &&& same_dest(pre, post)
            &&& reply is None
            &&& next == (NextIo::Read { n: input[0] as usize })
        },
        SessionState::AuthPassword { plen } => {
            &&& post.state == SessionState::Request
            &&& post.cred_acc == fnv1a_absorb(pre.cred_acc, input)
            &&& post.cred_bytes@ == pre.cred_bytes@ + input
            &&& post.has_creds
            &&& same_dest(pre, post)
            &&& reply == Option::Some(auth_ok_reply())
            &&& next == (NextIo::Read { n: 4 })
        },
        SessionState::Request => {
            if input[0] != SOCKS_VERSION || input[1] != CMD_CONNECT {
                failed_step(pre, post, reply, next)
            } else if input[3] == ATYP_IPV4 {
                &&& post.state == SessionState::Ipv4Dest
                &&& same_creds(pre, post)
                &&& same_dest(pre, post)
                &&& reply is None
                &&& next == (NextIo::Read { n: 6 })
            } else if input[3] == ATYP_DOMAIN {
                &&& post.state == SessionState::DomainLen
                &&& same_creds(pre, post)
                &&& same_dest(pre, post)
                &&& reply is None
                &&& next == (NextIo::Read { n: 1 })
            } else if input[3] == ATYP_IPV6 {
                &&& post.state == SessionState::Ipv6Dest
                &&& same_creds(pre, post)
                &&& same_dest(pre, post)
                &&& reply is None
                &&& next == (NextIo::Read { n: 18 })
            } else {
                failed_step(pre, post, reply, next)
            }
        },
        SessionState::Ipv4Dest => {
            &&& post.state == SessionState::Ready
            &&& same_creds(pre, post)
            &&& post.dest_host@ == ipv4_text(input.take(4))
            &&& post.dest_port == be16(input[4], input[5])
            &&& reply is None
            &&& next == NextIo::Connect
        },
        SessionState::DomainLen => {
            &&& post.state == (SessionState::DomainDest { dlen: input[0] })
            &&& same_creds(pre, post)
            &&& same_dest(pre, post)
            &&& reply is None
            &&& next == (NextIo::Read { n: (input[0] + 2) as usize })
        },
        SessionState::DomainDest { dlen } => {
            &&& post.state == SessionState::Ready
            &&& same_creds(pre, post)
            &&& post.dest_host@ == input.take(dlen as int)
            &&& post.dest_port == be16(input[dlen as int], input[dlen as int + 1])
            &&& reply is None
            &&& next == NextIo::Connect
        },
        SessionState::Ipv6Dest => {
            &&& post.state == SessionState::Ready
            &&& same_creds(pre, post)
            &&& post.dest_host@ == ipv6_text(input.take(16))
            &&& post.dest_port == be16(input[16], input[17])
            &&& reply is None
            &&& next == NextIo::Connect
        },
        _ => false,
    }
}

impl SocksSession {
    /// Drive the handshake by one step: consume exactly the bytes the
    /// current state expects, zero them, and return the reply owed and
    /// the next action.
    pub fn step(&mut self, input: &mut Vec<u8>) -> (out: StepOutcome)
        requires
            old(self).wf(),
            old(self).state.is_reading(),
            old(input)@.len() == old(self).state.read_len(),
        ensures
            final(self).wf(),
            final(input)@.len() == old(input)@.len(),
            all_zero(final(input)@),
            step_rel(*old(self), old(input)@, *final(self), reply_view(out), out.next),
    {
        let out: StepOutcome = match self.state {
            SessionState::Greeting => {
                if input[0] != SOCKS_VERSION {
                    self.state = SessionState::Failed;
                    StepOutcome { reply: Some(failure_reply_bytes()), next: NextIo::Close }
                } else {
                    let n = input[1];
                    self.state = SessionState::Methods { nmethods: n };
                    StepOutcome { reply: None, next: NextIo::Read { n: n as usize } }
                }
            },
            SessionState::Methods { nmethods: _ } => {
                let m = scan_methods(input);
                if m == METHOD_NO_ACCEPTABLE {
                    self.state = SessionState::Failed;
                    StepOutcome { reply: Some(pair_bytes(SOCKS_VERSION, m)), next: NextIo::Close }
                } else if m == METHOD_USERPASS {
                    self.state = SessionState::AuthHeader;
                    StepOutcome {
                        reply: Some(pair_bytes(SOCKS_VERSION, m)),
                        next: NextIo::Read { n: 2 },
                    }
                } else {
                    self.state = SessionState::Request;
                    StepOutcome {
                        reply: Some(pair_bytes(SOCKS_VERSION, m)),
                        next: NextIo::Read { n: 4 },
                    }
                }
            },
            SessionState::AuthHeader => {
                let ulen = input[1];
                self.state = SessionState::AuthUsername { ulen };
                StepOutcome { reply: None, next: NextIo::Read { n: ulen as usize } }
            },
            SessionState::AuthUsername { ulen: _ } => {
                self.cred_acc = fnv1a_extend(self.cred_acc, input.as_slice());
                proof {
                    self.cred_bytes@ = self.cred_bytes@ + input@;
                    lemma_absorb_concat(FNV_OFFSET_BASIS, old(self).cred_bytes@, input@);
                }
                self.state = SessionState::AuthPasswordLen;
                StepOutcome { reply: None, next: NextIo::Read { n: 1 } }
            },
            SessionState::AuthPasswordLen => {
                let plen = input[0];
                self.state = SessionState::AuthPassword { plen };
                StepOutcome { reply: None, next: NextIo::Read { n: plen as usize } }
            },
            SessionState::AuthPassword { plen: _ } => {
                self.cred_acc = fnv1a_extend(self.cred_acc, input.as_slice());
                proof {
                    self.cred_bytes@ = self.cred_bytes@ + input@;
                    lemma_absorb_concat(FNV_OFFSET_BASIS, old(self).cred_bytes@, input@);
                }
                self.has_creds = true;
                self.state = SessionState::Request;
                StepOutcome { reply: Some(pair_bytes(1, 0)), next: NextIo::Read { n: 4 } }
            },
            SessionState::Request => {
                if input[0] != SOCKS_VERSION || input[1] != CMD_CONNECT {
                    self.state = SessionState::Failed;
                    StepOutcome { reply: Some(failure_reply_bytes()), next: NextIo::Close }
                } else if input[3] == ATYP_IPV4 {
                    self.state = SessionState::Ipv4Dest;
                    StepOutcome { reply: None, next: NextIo::Read { n: 6 } }
                } else if input[3] == ATYP_DOMAIN {
                    self.state = SessionState::DomainLen;
                    StepOutcome { reply: None, next: NextIo::Read { n: 1 } }
                } else if input[3] == ATYP_IPV6 {
                    self.state = SessionState::Ipv6Dest;
                    StepOutcome { reply: None, next: NextIo::Read { n: 18 } }
                } else {
                    self.state = SessionState::Failed;
                    StepOutcome { reply: Some(failure_reply_bytes()), next: NextIo::Close }
                }
            },
            SessionState::Ipv4Dest => {
                self.dest_host = ipv4_to_text(input.as_slice());
                self.dest_port = read_be16(input[4], input[5]);
                self.state = SessionState::Ready;
                StepOutcome { reply: None, next: NextIo::Connect }
            },
            SessionState::DomainLen => {
                let dlen = input[0];
                self.state = SessionState::DomainDest { dlen };
                StepOutcome { reply: None, next: NextIo::Read { n: dlen as usize + 2 } }
            },
            SessionState::DomainDest { dlen } => {
                let dl = dlen as usize;
                let mut host: Vec<u8> = Vec::new();
                let mut i: usize = 0;
                while i < dl
                    invariant
                        i <= dl,
                        dl + 2 == input@.len(),
                        host@ == input@.take(i as int),
                    decreases dl - i,
                {
                    host.push(input[i]);
                    proof {
                        assert(input@.take(i + 1) =~= input@.take(i as int).push(
                            input@[i as int],
                        ));
                    }
                    i = i + 1;
                }
                self.dest_host = host;
                self.dest_port = read_be16(input[dl], input[dl + 1]);
                self.state = SessionState::Ready;
                StepOutcome { reply: None, next: NextIo::Connect }
            },
            SessionState::Ipv6Dest => {
                self.dest_host = ipv6_to_text(input.as_slice());
                self.dest_port = read_be16(input[16], input[17]);
                self.state = SessionState::Ready;
                StepOutcome { reply: None, next: NextIo::Connect }
            },
            _ => {
                // Unreachable: the precondition admits reading states only.
                proof {
                    assert(false);
                }
                StepOutcome { reply: None, next: NextIo::Close }
            },
        };
        wipe(input);
        out
    }

    /// Which isolation token the overlay connect must carry.
    pub fn isolation_selector(&self) -> (r: IsolationSelector)
        requires
            self.state is Ready,
        ensures
            r == spec_selector(*self),
    {
        if self.has_creds {
            IsolationSelector::Credentials { key: self.cred_acc }
        } else if self.auto_isolate {
            IsolationSelector::Domain { key: crate::fnv::fnv1a_digest(self.dest_host.as_slice()) }
        } else {
            IsolationSelector::SharedDefault
        }
    }

    /// The parsed destination, for the overlay connect call.
    pub fn dest(&self) -> (r: (&Vec<u8>, u16))
        requires
            self.state is Ready,
        ensures
            r.0@ == self.dest_host@,
            r.1 == self.dest_port,
    {
        (&self.dest_host, self.dest_port)
    }

    /// Abandon the session — a timeout or an I/O error ended it before
    /// the overlay was asked — zeroing whatever destination bytes it
    /// still holds.
    pub fn scrub(&mut self)
        requires
            old(self).wf(),
        ensures
            final(self).wf(),
            final(self).state is Failed,
            all_zero(final(self).dest_host@),
            final(self).dest_host@.len() == old(self).dest_host@.len(),
            same_creds(*old(self), *final(self)),
    {
        wipe(&mut self.dest_host);
        self.state = SessionState::Failed;
    }

    /// Record the overlay connect outcome: reply success or the uniform
    /// failure, and zero the destination host before any further work.
    pub fn finish_connect(&mut self, connected: bool) -> (out: StepOutcome)
        requires
            old(self).wf(),
            old(self).state is Ready,
        ensures
            final(self).wf(),
            same_creds(*old(self), *final(self)),
            final(self).auto_isolate == old(self).auto_isolate,
            all_zero(final(self).dest_host@),
            final(self).dest_host@.len() == old(self).dest_host@.len(),
            connected ==> final(self).state is Relaying && reply_view(out) == Option::Some(
                success_reply(),
            ) && out.next == NextIo::Relay,
            !connected ==> final(self).state is Failed && reply_view(out) == Option::Some(
                failure_reply(),
            ) && out.next == NextIo::Close,
    {
        wipe(&mut self.dest_host);
        if connected {
            self.state = SessionState::Relaying;
            StepOutcome { reply: Some(success_reply_bytes()), next: NextIo::Relay }
        } else {
            self.state = SessionState::Failed;
            StepOutcome { reply: Some(failure_reply_bytes()), next: NextIo::Close }
        }
    }
}

/// How the isolation token must be chosen for a session that reached
/// `Ready`: by credential hash, else by destination hash when
/// per-domain isolation is on, else the shared default.
pub open spec fn spec_selector(s: SocksSession) -> IsolationSelector {
    if s.has_creds {
        IsolationSelector::Credentials { key: s.cred_acc }
    } else if s.auto_isolate {
        IsolationSelector::Domain { key: fnv1a(s.dest_host@) }
    } else {
        IsolationSelector::SharedDefault
    }
}

/// Scan the offered methods, preferring user/pass over no-auth.
fn scan_methods(methods: &Vec<u8>) -> (m: u8)
    ensures
        m == chosen_method(methods@),
{
    let n = methods.len();
    let mut has_userpass = false;
    let mut has_noauth = false;
    let mut i: usize = 0;
    while i < n
        invariant
            i <= n,
            n == methods@.len(),
            has_userpass == contains_byte(methods@.take(i as int), METHOD_USERPASS),
            has_noauth == contains_byte(methods@.take(i as int), METHOD_NO_AUTH),
        decreases n - i,
    {
        proof {
            assert(methods@.take(i + 1) =~= methods@.take(i as int).push(methods@[i as int]));
            lemma_contains_push(methods@.take(i as int), methods@[i as int], METHOD_USERPASS);
            lemma_contains_push(methods@.take(i as int), methods@[i as int], METHOD_NO_AUTH);
        }
        if methods[i] == METHOD_USERPASS {
            has_userpass = true;
        }
        if methods[i] == METHOD_NO_AUTH {
            has_noauth = true;
        }
        i = i + 1;
    }
    proof {
        assert(methods@.take(n as int) =~= methods@);
    }
    if has_userpass {
        METHOD_USERPASS
    } else if has_noauth {
        METHOD_NO_AUTH
    } else {
        METHOD_NO_ACCEPTABLE
    }
}

/// A two-byte reply.
fn pair_bytes(b0: u8, b1: u8) -> (r: Vec<u8>)
    ensures
        r@ == seq![b0, b1],
{
    let mut v: Vec<u8> = Vec::new();
    v.push(b0);
    v.push(b1);
    proof {
        assert(v@ =~= seq![b0, b1]);
    }
    v
}

/// The uniform generic-failure reply as bytes.
pub fn failure_reply_bytes() -> (r: Vec<u8>)
    ensures
        r@ == failure_reply(),
{
    reply_ten(1)
}

/// The success reply as bytes.
pub fn success_reply_bytes() -> (r: Vec<u8>)
    ensures
        r@ == success_reply(),
{
    reply_ten(0)
}

/// A ten-byte reply `05 <rep> 00 01` with zeroed BND fields.
fn reply_ten(rep: u8) -> (r: Vec<u8>)
    ensures
        r@ == seq![SOCKS_VERSION, rep, 0u8, 1u8, 0u8, 0u8, 0u8, 0u8, 0u8, 0u8],
{
    let mut v: Vec<u8> = Vec::new();
    v.push(SOCKS_VERSION);
    v.push(rep);
    v.push(0);
    v.push(1);
    v.push(0);
    v.push(0);
    v.push(0);
    v.push(0);
    v.push(0);
    v.push(0);
    proof {
        assert(v@ =~= seq![SOCKS_VERSION, rep, 0u8, 1u8, 0u8, 0u8, 0u8, 0u8, 0u8, 0u8]);
    }
    v
}

/// Whether the handshake deadline has passed after `elapsed_ms`
/// milliseconds.
pub fn handshake_deadline_exceeded(elapsed_ms: u64) -> (b: bool)
    ensures
        b == (elapsed_ms > HANDSHAKE_TIMEOUT_MS),
{
    elapsed_ms > HANDSHAKE_TIMEOUT_MS
}

/// Reply uniformity: whenever a step ends the session in failure, the
/// bytes owed to the client are exactly the one generic-failure reply —
/// or, for method selection only, the `05 FF` no-acceptable-method
/// answer. No other failure bytes exist.
pub proof fn lemma_reply_uniformity(
    pre: SocksSession,
    input: Seq<u8>,
    post: SocksSession,
    reply: Option<Seq<u8>>,
    next: NextIo,
)
    requires
        step_rel(pre, input, post, reply, next),
        post.state is Failed,
    ensures
        reply == Option::Some(failure_reply()) || reply == Option::Some(no_method_reply()),
        reply == Option::Some(no_method_reply()) ==> pre.state is Methods,
        next == NextIo::Close,
{
    if !(pre.state is Methods) {
        assert(reply == Option::Some(failure_reply()));
    } else {
        if chosen_method(input) == METHOD_NO_ACCEPTABLE {
            assert(reply == Option::Some(no_method_reply()));
        }
    }
}

/// Every reply a handshake step can emit, exhaustively: the two method
/// selections, the no-acceptable-method answer, the sub-negotiation
/// success, and the generic failure.
pub proof fn lemma_reply_menu(
    pre: SocksSession,
    input: Seq<u8>,
    post: SocksSession,
    reply: Option<Seq<u8>>,
    next: NextIo,
)
    requires
        step_rel(pre, input, post, reply, next),
    ensures
        reply is Some ==> {
            ||| reply == Option::Some(failure_reply())
            ||| reply == Option::Some(no_method_reply())
            ||| reply == Option::Some(method_reply(METHOD_USERPASS))
            ||| reply == Option::Some(method_reply(METHOD_NO_AUTH))
            ||| reply == Option::Some(auth_ok_reply())
        },
{
}

/// No leak on error: a step asks for an overlay connect only when the
/// whole handshake parsed cleanly into `Ready`; an erroring step always
/// closes, and a failed session admits no further step.
pub proof fn lemma_error_no_connect(
    pre: SocksSession,
    input: Seq<u8>,
    post: SocksSession,
    reply: Option<Seq<u8>>,
    next: NextIo,
)
    requires
        step_rel(pre, input, post, reply, next),
    ensures
        next == NextIo::Connect ==> post.state is Ready,
        post.state is Failed ==> next == NextIo::Close,
        next == NextIo::Close ==> post.state is Failed,
        !pre.state.is_reading() ==> false,
{
}

/// Machine coherence: when a step asks for more bytes, the count it
/// announces is exactly what the state it moved to expects, so a driver
/// that reads what it is told always meets the next step's contract.
pub proof fn lemma_read_len_consistent(
    pre: SocksSession,
    input: Seq<u8>,
    post: SocksSession,
    reply: Option<Seq<u8>>,
    next: NextIo,
)
    requires
        step_rel(pre, input, post, reply, next),
    ensures
        next matches NextIo::Read { n } ==> post.state.is_reading() && n == post.state.read_len(),
{
}

/// Every domain length parses: whatever length byte the client sent
/// (0 through 255), the machine accepts exactly that many name bytes
/// plus the port and reaches `Ready`; a longer name is unrepresentable
/// in the length byte's encoding.
pub proof fn lemma_every_domain_length_parses(
    pre: SocksSession,
    input: Seq<u8>,
    post: SocksSession,
    reply: Option<Seq<u8>>,
    next: NextIo,
    dlen: u8,
)
    requires
        pre.state == (SessionState::DomainDest { dlen }),
        step_rel(pre, input, post, reply, next),
    ensures
        pre.state.read_len() == dlen + 2,
        post.state is Ready,
        post.dest_host@ == input.take(dlen as int),
        next == NextIo::Connect,
{
}

/// The credential isolation key is a function of the credential bytes
/// alone: absorbing a username and then a password yields the FNV-1a
/// digest of their concatenation, so equal `(username, password)` pairs
/// always derive equal keys.
pub proof fn lemma_credential_key(uname: Seq<u8>, passwd: Seq<u8>)
    ensures
        fnv1a_absorb(fnv1a_absorb(FNV_OFFSET_BASIS, uname), passwd) == fnv1a(uname + passwd),
{
    lemma_absorb_concat(FNV_OFFSET_BASIS, uname, passwd);
}

} // verus!
