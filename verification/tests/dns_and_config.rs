use torgate::config::{Config, EnvSnapshot, parse_flag, parse_port, DEFAULT_DNS_PORT,
    DEFAULT_SOCKS_PORT};
use torgate::dns::{fallback_resolver_host, frame_message, parse_frame_len, resolver_host,
    select_resolver, DNS_RESOLVER_COUNT, MAX_DNS_MESSAGE_LEN};

fn empty_env() -> EnvSnapshot {
    EnvSnapshot {
        socks_port: None,
        dns_port: None,
        strict_mode: None,
        chaff_enabled: None,
        auto_isolate_domains: None,
        state_dir: None,
        cache_dir: None,
        tls_cert_path: None,
        tls_key_path: None,
    }
}

#[test]
fn frame_length_bounds() {
    assert_eq!(parse_frame_len(0x00, 0x00), None);
    assert_eq!(parse_frame_len(0x00, 0x01), Some(1));
    assert_eq!(parse_frame_len(0x10, 0x00), Some(4096));
    assert_eq!(parse_frame_len(0x10, 0x01), None);
    assert_eq!(parse_frame_len(0xFF, 0xFF), None);
}

#[test]
fn framing_round_trips() {
    let msg: Vec<u8> = (0..=255u8).cycle().take(300).collect();
    let frame = frame_message(&msg).expect("a 300-byte query frames");
    assert_eq!(frame.len(), msg.len() + 2);
    assert_eq!(frame[0], 0x01);
    assert_eq!(frame[1], 0x2C);
    assert_eq!(&frame[2..], msg.as_slice());
    let parsed = parse_frame_len(frame[0], frame[1]).expect("its own prefix parses back");
    assert_eq!(parsed as usize, msg.len());
}

#[test]
fn framing_rejects_empty_and_oversized() {
    assert!(frame_message(&Vec::new()).is_none());
    let too_big = vec![0u8; MAX_DNS_MESSAGE_LEN as usize + 1];
    assert!(frame_message(&too_big).is_none());
    let just_fits = vec![7u8; MAX_DNS_MESSAGE_LEN as usize];
    assert!(frame_message(&just_fits).is_some());
}

#[test]
fn resolver_choice_is_in_range() {
    for _ in 0..64 {
        let i = select_resolver();
        assert!(i < DNS_RESOLVER_COUNT);
        assert!(!resolver_host(i).is_empty());
    }
    assert_eq!(resolver_host(0), "dnslb5r4i6c5w5o7.onion");
    assert_eq!(resolver_host(1), "resolver.dnscrypt.info.onion");
    assert_eq!(fallback_resolver_host(), "1.1.1.1");
}

#[test]
fn port_parsing_exact() {
    assert_eq!(parse_port(b"9150"), Some(9150));
    assert_eq!(parse_port(b"0"), Some(0));
    assert_eq!(parse_port(b"65535"), Some(65535));
    assert_eq!(parse_port(b"65536"), None);
    assert_eq!(parse_port(b"99999999"), None);
    assert_eq!(parse_port(b""), None);
    assert_eq!(parse_port(b"12a4"), None);
    assert_eq!(parse_port(b"-1"), None);
    assert_eq!(parse_port(b"007"), Some(7));
}

#[test]
fn flags_require_exactly_one() {
    assert!(parse_flag(&Some(b"1".to_vec())));
    assert!(!parse_flag(&Some(b"0".to_vec())));
    assert!(!parse_flag(&Some(b"11".to_vec())));
    assert!(!parse_flag(&Some(b"true".to_vec())));
    assert!(!parse_flag(&None));
}

#[test]
fn config_defaults() {
    let cfg = Config::build(empty_env()).expect("an empty environment builds");
    assert_eq!(cfg.socks_port, DEFAULT_SOCKS_PORT);
    assert_eq!(cfg.socks_port, 9150);
    assert_eq!(cfg.dns_port, DEFAULT_DNS_PORT);
    assert_eq!(cfg.dns_port, 5353);
    assert!(!cfg.strict_mode);
    assert!(!cfg.chaff_enabled);
    assert!(!cfg.auto_isolate_domains);
    assert_eq!(cfg.tor_state_dir, "/var/lib/tor/state");
    assert_eq!(cfg.tor_cache_dir, "/var/lib/tor/state");
}

#[test]
fn config_reads_values_and_cache_follows_state() {
    let mut env = empty_env();
    env.socks_port = Some(b"1080".to_vec());
    env.dns_port = Some(b"53".to_vec());
    env.strict_mode = Some(b"1".to_vec());
    env.auto_isolate_domains = Some(b"1".to_vec());
    env.state_dir = Some("/run/overlay".to_string());
    let cfg = Config::build(env).expect("valid ports build");
    assert_eq!(cfg.socks_port, 1080);
    assert_eq!(cfg.dns_port, 53);
    assert!(cfg.strict_mode);
    assert!(!cfg.chaff_enabled);
    assert!(cfg.auto_isolate_domains);
    assert_eq!(cfg.tor_state_dir, "/run/overlay");
    assert_eq!(cfg.tor_cache_dir, "/run/overlay");
}

#[test]
fn config_rejects_malformed_port() {
    let mut env = empty_env();
    env.socks_port = Some(b"91x0".to_vec());
    assert!(Config::build(env).is_none());
    let mut env = empty_env();
    env.dns_port = Some(b"70000".to_vec());
    assert!(Config::build(env).is_none());
}
