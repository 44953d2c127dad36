use torgate::dispatch::select_token;
use torgate::registry::{IsolationRegistry, DEFAULT_TOKEN_ID};
use torgate::socks::{
    failure_reply_bytes, handshake_deadline_exceeded, success_reply_bytes, IsolationSelector,
    NextIo, SessionState, SocksSession, HANDSHAKE_TIMEOUT_MS,
};

fn feed(s: &mut SocksSession, bytes: &[u8]) -> torgate::socks::StepOutcome {
    assert_eq!(s.next_read_len(), bytes.len());
    let mut input = bytes.to_vec();
    let out = s.step(&mut input);
    // Zero-residue: every buffer handed to the machine comes back zeroed.
    assert_eq!(input.len(), bytes.len());
    assert!(input.iter().all(|b| *b == 0));
    out
}

#[test]
fn no_auth_connect_to_domain() {
    // Client: 05 01 00 — greeting offering no-auth only.
    let mut s = SocksSession::new(false);
    let out = feed(&mut s, &[0x05, 0x01]);
    assert!(out.reply.is_none());
    assert_eq!(out.next, NextIo::Read { n: 1 });

    let out = feed(&mut s, &[0x00]);
    assert_eq!(out.reply.as_deref(), Some(&[0x05, 0x00][..]));
    assert_eq!(out.next, NextIo::Read { n: 4 });

    // CONNECT example.com:443.
    let out = feed(&mut s, &[0x05, 0x01, 0x00, 0x03]);
    assert!(out.reply.is_none());
    assert_eq!(out.next, NextIo::Read { n: 1 });

    let out = feed(&mut s, &[0x0B]);
    assert_eq!(out.next, NextIo::Read { n: 13 });

    let mut req = b"example.com".to_vec();
    req.extend_from_slice(&[0x01, 0xBB]);
    let out = feed(&mut s, &req);
    assert!(out.reply.is_none());
    assert_eq!(out.next, NextIo::Connect);
    assert_eq!(s.state, SessionState::Ready);

    let (host, port) = s.dest();
    assert_eq!(host.as_slice(), b"example.com");
    assert_eq!(port, 443);

    // No credentials, no per-domain isolation: the shared default token.
    assert_eq!(s.isolation_selector(), IsolationSelector::SharedDefault);
    let mut reg = IsolationRegistry::new();
    let tok = select_token(s.isolation_selector(), &mut reg);
    assert_eq!(tok.id, DEFAULT_TOKEN_ID);
    assert_eq!(reg.len(), 0);

    let out = s.finish_connect(true);
    assert_eq!(
        out.reply.as_deref(),
        Some(&[0x05, 0x00, 0x00, 0x01, 0, 0, 0, 0, 0, 0][..])
    );
    assert_eq!(out.next, NextIo::Relay);
    assert_eq!(s.state, SessionState::Relaying);
    // Destination hygiene: the host bytes were zeroed on connect return.
    assert!(s.dest_host.iter().all(|b| *b == 0));
}

fn connect_with_credentials(uname: &[u8], passwd: &[u8], reg: &mut IsolationRegistry) -> u64 {
    let mut s = SocksSession::new(false);
    let out = feed(&mut s, &[0x05, 0x02]);
    assert_eq!(out.next, NextIo::Read { n: 2 });

    // Client offers 00 02; the server prefers user/pass.
    let out = feed(&mut s, &[0x00, 0x02]);
    assert_eq!(out.reply.as_deref(), Some(&[0x05, 0x02][..]));
    assert_eq!(out.next, NextIo::Read { n: 2 });

    // Sub-negotiation: ver 01, then username and password.
    let out = feed(&mut s, &[0x01, uname.len() as u8]);
    assert_eq!(out.next, NextIo::Read { n: uname.len() });
    let out = feed(&mut s, uname);
    assert_eq!(out.next, NextIo::Read { n: 1 });
    let out = feed(&mut s, &[passwd.len() as u8]);
    assert_eq!(out.next, NextIo::Read { n: passwd.len() });
    let out = feed(&mut s, passwd);
    assert_eq!(out.reply.as_deref(), Some(&[0x01, 0x00][..]));
    assert_eq!(out.next, NextIo::Read { n: 4 });
    assert!(s.has_creds);

    // CONNECT example.com:443.
    let out = feed(&mut s, &[0x05, 0x01, 0x00, 0x03]);
    assert_eq!(out.next, NextIo::Read { n: 1 });
    feed(&mut s, &[0x0B]);
    let mut req = b"example.com".to_vec();
    req.extend_from_slice(&[0x01, 0xBB]);
    let out = feed(&mut s, &req);
    assert_eq!(out.next, NextIo::Connect);

    let sel = s.isolation_selector();
    match sel {
        IsolationSelector::Credentials { .. } => {},
        other => panic!("expected a credential selector, got {:?}", other),
    }
    select_token(sel, reg).id
}

#[test]
fn userpass_connect_with_isolation() {
    let mut reg = IsolationRegistry::new();
    let t1 = connect_with_credentials(b"alic", b"pass", &mut reg);
    let t1_again = connect_with_credentials(b"alic", b"pass", &mut reg);
    let t2 = connect_with_credentials(b"bob", b"pass", &mut reg);
    assert_eq!(t1, t1_again);
    assert_ne!(t1, t2);
    assert_ne!(t1, DEFAULT_TOKEN_ID);
    assert_ne!(t2, DEFAULT_TOKEN_ID);
    assert_eq!(reg.len(), 2);
}

#[test]
fn unsupported_command_fails_uniformly_without_connect() {
    let mut s = SocksSession::new(false);
    feed(&mut s, &[0x05, 0x01]);
    let out = feed(&mut s, &[0x00]);
    assert_eq!(out.reply.as_deref(), Some(&[0x05, 0x00][..]));

    // cmd 0x05 is not CONNECT: the one generic failure, close, and the
    // overlay is never asked.
    let out = feed(&mut s, &[0x05, 0x05, 0x00, 0x03]);
    assert_eq!(out.reply.as_deref(), Some(&[0x05, 0x01, 0x00, 0x01, 0, 0, 0, 0, 0, 0][..]));
    assert_eq!(out.next, NextIo::Close);
    assert_eq!(s.state, SessionState::Failed);
}

#[test]
fn malformed_greeting_fails_uniformly() {
    let mut s = SocksSession::new(false);
    let out = feed(&mut s, &[0x04, 0x01]);
    assert_eq!(out.reply.as_deref(), Some(&[0x05, 0x01, 0x00, 0x01, 0, 0, 0, 0, 0, 0][..]));
    assert_eq!(out.next, NextIo::Close);
    assert_eq!(s.state, SessionState::Failed);
}

#[test]
fn unsupported_atyp_fails_uniformly() {
    let mut s = SocksSession::new(false);
    feed(&mut s, &[0x05, 0x01]);
    feed(&mut s, &[0x00]);
    let out = feed(&mut s, &[0x05, 0x01, 0x00, 0x02]);
    assert_eq!(out.reply.as_deref(), Some(&[0x05, 0x01, 0x00, 0x01, 0, 0, 0, 0, 0, 0][..]));
    assert_eq!(out.next, NextIo::Close);
}

#[test]
fn no_acceptable_method_gets_ff() {
    let mut s = SocksSession::new(false);
    feed(&mut s, &[0x05, 0x02]);
    let out = feed(&mut s, &[0x01, 0x03]);
    assert_eq!(out.reply.as_deref(), Some(&[0x05, 0xFF][..]));
    assert_eq!(out.next, NextIo::Close);
}

#[test]
fn domain_length_zero_parses() {
    let mut s = SocksSession::new(false);
    feed(&mut s, &[0x05, 0x01]);
    feed(&mut s, &[0x00]);
    feed(&mut s, &[0x05, 0x01, 0x00, 0x03]);
    let out = feed(&mut s, &[0x00]);
    assert_eq!(out.next, NextIo::Read { n: 2 });
    let out = feed(&mut s, &[0x00, 0x50]);
    assert_eq!(out.next, NextIo::Connect);
    let (host, port) = s.dest();
    assert!(host.is_empty());
    assert_eq!(port, 80);
}

#[test]
fn domain_length_255_parses() {
    let mut s = SocksSession::new(false);
    feed(&mut s, &[0x05, 0x01]);
    feed(&mut s, &[0x00]);
    feed(&mut s, &[0x05, 0x01, 0x00, 0x03]);
    let out = feed(&mut s, &[0xFF]);
    assert_eq!(out.next, NextIo::Read { n: 257 });
    let mut req = vec![b'a'; 255];
    req.extend_from_slice(&[0x1F, 0x90]);
    let out = feed(&mut s, &req);
    assert_eq!(out.next, NextIo::Connect);
    let (host, port) = s.dest();
    assert_eq!(host.len(), 255);
    assert!(host.iter().all(|b| *b == b'a'));
    assert_eq!(port, 8080);
}

#[test]
fn ipv4_destination_renders_dotted_decimal() {
    let mut s = SocksSession::new(false);
    feed(&mut s, &[0x05, 0x01]);
    feed(&mut s, &[0x00]);
    let out = feed(&mut s, &[0x05, 0x01, 0x00, 0x01]);
    assert_eq!(out.next, NextIo::Read { n: 6 });
    let out = feed(&mut s, &[192, 168, 0, 7, 0x00, 0x35]);
    assert_eq!(out.next, NextIo::Connect);
    let (host, port) = s.dest();
    assert_eq!(host.as_slice(), b"192.168.0.7");
    assert_eq!(port, 53);
}

#[test]
fn ipv6_destination_renders_hex_groups() {
    let mut s = SocksSession::new(false);
    feed(&mut s, &[0x05, 0x01]);
    feed(&mut s, &[0x00]);
    let out = feed(&mut s, &[0x05, 0x01, 0x00, 0x04]);
    assert_eq!(out.next, NextIo::Read { n: 18 });
    let mut req = vec![
        0x20, 0x01, 0x0d, 0xb8, 0x00, 0x00, 0x00, 0x00, 0x00, 0x00, 0x00, 0x00, 0x00, 0x00,
        0x00, 0x01,
    ];
    req.extend_from_slice(&[0x01, 0xBB]);
    let out = feed(&mut s, &req);
    assert_eq!(out.next, NextIo::Connect);
    let (host, port) = s.dest();
    assert_eq!(host.as_slice(), &b"2001:0db8:0000:0000:0000:0000:0000:0001"[..]);
    assert_eq!(port, 443);
}

#[test]
fn domain_isolation_distinct_and_stable() {
    // AUTO_ISOLATE_DOMAINS with no-auth: isolation keyed by host.
    let mut reg = IsolationRegistry::new();
    let connect_to = |host: &[u8], reg: &mut IsolationRegistry| -> u64 {
        let mut s = SocksSession::new(true);
        feed(&mut s, &[0x05, 0x01]);
        feed(&mut s, &[0x00]);
        feed(&mut s, &[0x05, 0x01, 0x00, 0x03]);
        feed(&mut s, &[host.len() as u8]);
        let mut req = host.to_vec();
        req.extend_from_slice(&[0x01, 0xBB]);
        feed(&mut s, &req);
        let sel = s.isolation_selector();
        match sel {
            IsolationSelector::Domain { .. } => {},
            other => panic!("expected a domain selector, got {:?}", other),
        }
        select_token(sel, reg).id
    };
    let ta = connect_to(b"a.example", &mut reg);
    let tb = connect_to(b"b.example", &mut reg);
    let ta_again = connect_to(b"a.example", &mut reg);
    assert_ne!(ta, tb);
    assert_eq!(ta, ta_again);
    assert_eq!(reg.len(), 2);
}

#[test]
fn failed_overlay_connect_replies_uniform_failure() {
    let mut s = SocksSession::new(false);
    feed(&mut s, &[0x05, 0x01]);
    feed(&mut s, &[0x00]);
    feed(&mut s, &[0x05, 0x01, 0x00, 0x03]);
    feed(&mut s, &[0x07]);
    let mut req = b"no.such".to_vec();
    req.extend_from_slice(&[0x01, 0xBB]);
    feed(&mut s, &req);
    let out = s.finish_connect(false);
    assert_eq!(out.reply.as_deref(), Some(&[0x05, 0x01, 0x00, 0x01, 0, 0, 0, 0, 0, 0][..]));
    assert_eq!(out.next, NextIo::Close);
    assert_eq!(s.state, SessionState::Failed);
    assert!(s.dest_host.iter().all(|b| *b == 0));
}

#[test]
fn reply_constants_are_exact() {
    assert_eq!(failure_reply_bytes(), vec![0x05, 0x01, 0x00, 0x01, 0, 0, 0, 0, 0, 0]);
    assert_eq!(success_reply_bytes(), vec![0x05, 0x00, 0x00, 0x01, 0, 0, 0, 0, 0, 0]);
}

#[test]
fn handshake_deadline_boundary() {
    assert_eq!(HANDSHAKE_TIMEOUT_MS, 10_000);
    assert!(!handshake_deadline_exceeded(HANDSHAKE_TIMEOUT_MS - 1));
    assert!(!handshake_deadline_exceeded(HANDSHAKE_TIMEOUT_MS));
    assert!(handshake_deadline_exceeded(HANDSHAKE_TIMEOUT_MS + 1));
}

#[test]
fn stalled_greeting_awaits_two_bytes() {
    // A client that writes only `05` and stalls never completes the
    // 2-byte greeting read; after the deadline the caller closes.
    let s = SocksSession::new(false);
    assert_eq!(s.state, SessionState::Greeting);
    assert_eq!(s.next_read_len(), 2);
}

#[test]
fn scrub_zeroes_an_abandoned_session() {
    // A session abandoned at Ready (say, the handshake deadline struck
    // before the overlay answered) holds no destination bytes after.
    let mut s = SocksSession::new(false);
    feed(&mut s, &[0x05, 0x01]);
    feed(&mut s, &[0x00]);
    feed(&mut s, &[0x05, 0x01, 0x00, 0x03]);
    feed(&mut s, &[0x06]);
    let mut req = b"secret".to_vec();
    req.extend_from_slice(&[0x01, 0xBB]);
    feed(&mut s, &req);
    assert_eq!(s.state, SessionState::Ready);
    s.scrub();
    assert_eq!(s.state, SessionState::Failed);
    assert_eq!(s.dest_host.len(), 6);
    assert!(s.dest_host.iter().all(|b| *b == 0));
}

/// Drive a whole session from a raw client byte string, with every
/// overlay connect failing, and return the bytes written to the client.
fn drive_session(mut bytes: &[u8], auto_isolate: bool) -> Vec<u8> {
    let mut s = SocksSession::new(auto_isolate);
    let mut written: Vec<u8> = Vec::new();
    let mut want = s.next_read_len();
    loop {
        if bytes.len() < want {
            // The client stalled or hung up: the session ends with no
            // further bytes written.
            s.scrub();
            return written;
        }
        let mut input = bytes[..want].to_vec();
        bytes = &bytes[want..];
        let out = s.step(&mut input);
        if let Some(r) = out.reply {
            written.extend_from_slice(&r);
        }
        match out.next {
            NextIo::Read { n } => want = n,
            NextIo::Connect => {
                let out = s.finish_connect(false);
                if let Some(r) = out.reply {
                    written.extend_from_slice(&r);
                }
                return written;
            },
            _ => return written,
        }
    }
}

#[test]
fn reply_uniformity_sweep() {
    // For a large family of client byte strings — malformed greetings,
    // malformed requests, unsupported commands and address types, and
    // well-formed handshakes whose overlay connect fails — the bytes a
    // failing session writes either stop during negotiation or end in
    // exactly the one generic failure reply. `05 FF` appears only as a
    // method-selection answer, never with a failure reply after it.
    let failure = failure_reply_bytes();
    let mut seed = 0x9E3779B97F4A7C15u64;
    let mut next_byte = move || {
        seed ^= seed << 13;
        seed ^= seed >> 7;
        seed ^= seed << 17;
        (seed >> 32) as u8
    };
    for case in 0..2000 {
        let len = (case % 40) + 1;
        let mut bytes: Vec<u8> = (0..len).map(|_| next_byte()).collect();
        // Bias half the cases toward plausible prefixes so deeper
        // states are reached.
        if case % 2 == 0 {
            bytes[0] = 0x05;
            if len > 2 {
                bytes[1] = 0x01;
                bytes[2] = (case % 3) as u8; // a method byte
            }
        }
        let written = drive_session(&bytes, case % 4 == 0);
        if written.len() >= 10 {
            assert_eq!(
                &written[written.len() - 10..],
                failure.as_slice(),
                "case {case}: a ten-byte reply must be the uniform failure"
            );
        }
        if written.ends_with(&[0x05, 0xFF]) {
            // The no-acceptable-method answer closes the session with
            // nothing after it.
            assert!(written.len() == 2);
        }
    }
}
